//! Tool declarations in Cohere's format, and how a provider-independent tool
//! definition is written as one.
//!
//! Cohere takes a flat list of parameters, each with a description, one type
//! name and a flag that says whether it is required. A JSON-schema type that
//! Cohere does not know is degraded, never refused: of a union the first
//! member that is not `"null"` is taken, and whatever is then not one of the
//! six names that Cohere knows becomes `"string"`.

use vstd::prelude::*;
use crate::completion;
use crate::completion::{required_names, CompletionError};
use crate::json::{
    counts, is_last, items_view, lemma_members_view_last_wins, lemma_settled_ends,
    lemma_settled_step, members_view, push_member, settled, Member, Value, ValueView,
};
use crate::text::str_eq;

verus! {

/// One parameter of a tool.
#[derive(Debug, Clone, PartialEq, Eq)]
pub struct Parameter {
    pub description: String,
    /// The type name, written `type` on the wire.
    pub param_type: String,
    pub required: bool,
}

/// A tool as Cohere has it declared. The parameters are a map from names:
/// no name should occur twice among them, and where one does, the last entry
/// with that name counts.
#[derive(Debug, Clone, PartialEq, Eq)]
pub struct ToolDefinition {
    pub name: String,
    pub description: String,
    pub parameter_definitions: Vec<(String, Parameter)>,
}

/// The mathematical content of a [`Parameter`].
pub struct ParameterView {
    pub description: Seq<char>,
    pub param_type: Seq<char>,
    pub required: bool,
}

/// The mathematical content of a [`ToolDefinition`].
pub struct ToolDefinitionView {
    pub name: Seq<char>,
    pub description: Seq<char>,
    pub parameter_definitions: Map<Seq<char>, ParameterView>,
}

impl View for Parameter {
    type V = ParameterView;

    open spec fn view(&self) -> ParameterView {
        ParameterView {
            description: self.description@,
            param_type: self.param_type@,
            required: self.required,
        }
    }
}

/// The map that a list of named parameters stands for.
pub open spec fn parameters_view(entries: Seq<(String, Parameter)>) -> Map<Seq<char>, ParameterView>
    decreases entries.len(),
{
    if entries.len() == 0 {
        Map::empty()
    } else {
        parameters_view(entries.drop_last()).insert(entries.last().0@, entries.last().1@)
    }
}

impl ToolDefinition {
    /// Whether no name occurs twice among the parameters.
    pub open spec fn distinct_names(&self) -> bool {
        forall|i: int, j: int|
            0 <= i < j < self.parameter_definitions@.len() ==> (
            #[trigger] self.parameter_definitions@[i]).0@
                != (#[trigger] self.parameter_definitions@[j]).0@
    }
}

impl View for ToolDefinition {
    type V = ToolDefinitionView;

    open spec fn view(&self) -> ToolDefinitionView {
        ToolDefinitionView {
            name: self.name@,
            description: self.description@,
            parameter_definitions: parameters_view(self.parameter_definitions@),
        }
    }
}

/// The type name that Cohere is given for a JSON-schema type name: the name
/// itself where Cohere knows it, `"string"` otherwise.
pub open spec fn provider_type_name(name: Seq<char>) -> Seq<char> {
    if name == "string"@ || name == "number"@ || name == "integer"@ || name == "boolean"@ || name
        == "array"@ || name == "object"@ {
        name
    } else {
        "string"@
    }
}

/// The first member of a union of types that is not the string `"null"`.
pub open spec fn first_declared(types: Seq<ValueView>) -> Option<ValueView>
    decreases types.len(),
{
    if types.len() == 0 {
        None
    } else if types[0] != ValueView::String("null"@) {
        Some(types[0])
    } else {
        first_declared(types.skip(1))
    }
}

/// The type name that Cohere is given for the `type` of a JSON schema, which
/// may be a name, a union of names, or anything else.
pub open spec fn provider_type(declared: ValueView) -> Seq<char> {
    match declared {
        ValueView::String(name) => provider_type_name(name),
        ValueView::Array(types) => match first_declared(types) {
            Some(ValueView::String(name)) => provider_type_name(name),
            _ => "string"@,
        },
        _ => "string"@,
    }
}

/// Whether the schema of one argument can be written as a parameter: it
/// has a `description` that is a string, and a `type`.
pub open spec fn describes_parameter(argument: ValueView) -> bool {
    &&& argument.member("description"@) matches Some(ValueView::String(_))
    &&& argument.member("type"@) is Some
}

/// The parameter that the schema of one argument is written as.
pub open spec fn parameter_of(argument: ValueView, required: bool) -> ParameterView {
    ParameterView {
        description: argument.member("description"@)->Some_0->String_0,
        param_type: provider_type(argument.member("type"@)->Some_0),
        required,
    }
}

/// Whether a schema can be written as Cohere's parameters: its `properties`
/// are an object, and each of them describes a parameter.
pub open spec fn convertible(schema: ValueView) -> bool {
    &&& schema.member("properties"@) matches Some(ValueView::Object(properties))
    &&& forall|name: Seq<char>| #[trigger]
        properties.contains_key(name) ==> describes_parameter(properties[name])
}

/// The parameters that a convertible schema is written as: one for each of
/// its properties, required exactly where the schema lists the name.
pub open spec fn converted_parameters(schema: ValueView) -> Map<Seq<char>, ParameterView> {
    let properties = schema.member("properties"@)->Some_0->Object_0;
    Map::new(
        |name: Seq<char>| properties.contains_key(name),
        |name: Seq<char>| parameter_of(properties[name], required_names(schema).contains(name)),
    )
}

/// The declaration that a tool with a convertible schema is written as.
pub open spec fn converted(tool: completion::ToolDefinition) -> ToolDefinitionView {
    ToolDefinitionView {
        name: tool.name@,
        description: tool.description@,
        parameter_definitions: converted_parameters(tool.parameters@),
    }
}

/// What is reported of a schema that is not convertible.
pub open spec fn conversion_failure(schema: ValueView) -> Seq<char> {
    match schema.member("properties"@) {
        None => "Tool properties should exist"@,
        Some(ValueView::Object(_)) => "Tool arguments should have a description string and a type"@,
        Some(_) => "Tool properties should be an object"@,
    }
}

/// The text of `name`, degraded to `"string"` where Cohere does not know it.
fn convert_type_str(name: &str) -> (converted: String)
    ensures
        converted@ == provider_type_name(name@),
{
    if str_eq(name, "string") || str_eq(name, "number") || str_eq(name, "integer") || str_eq(
        name,
        "boolean",
    ) || str_eq(name, "array") || str_eq(name, "object") {
        name.to_owned()
    } else {
        "string".to_owned()
    }
}

/// Where every type before `i` is the string `"null"`, the first declared
/// type is looked for from `i` on.
proof fn lemma_first_declared_from(types: Seq<ValueView>, i: int)
    requires
        0 <= i <= types.len(),
        forall|k: int| 0 <= k < i ==> types[k] == ValueView::String("null"@),
    ensures
        first_declared(types) == first_declared(types.skip(i)),
    decreases i,
{
    if i == 0 {
        assert(types.skip(0) =~= types);
    } else {
        lemma_first_declared_from(types, i - 1);
        let rest = types.skip(i - 1);
        assert(rest[0] == types[i - 1]);
        assert(rest.skip(1) =~= types.skip(i));
    }
}

/// The type name for a schema's `type`.
fn convert_type(declared: &Value) -> (converted: String)
    ensures
        converted@ == provider_type(declared@),
{
    match declared {
        Value::String(name) => convert_type_str(name.as_str()),
        Value::Array(types) => {
            let ghost all = items_view(types@);
            let mut i: usize = 0;
            while i < types.len()
                invariant
                    i <= types.len(),
                    all == items_view(types@),
                    declared@ == ValueView::Array(all),
                    forall|k: int| 0 <= k < i ==> all[k] == ValueView::String("null"@),
                decreases types.len() - i,
            {
                proof {
                    lemma_first_declared_from(all, i as int);
                    assert(all.skip(i as int)[0] == all[i as int]);
                }
                match types[i].as_str() {
                    Some(name) => {
                        if !str_eq(name, "null") {
                            return convert_type_str(name);
                        }
                    },
                    None => {
                        return "string".to_owned();
                    },
                }
                i = i + 1;
            }
            proof {
                lemma_first_declared_from(all, i as int);
            }
            "string".to_owned()
        },
        _ => "string".to_owned(),
    }
}

/// Whether `names` lists the string `name`.
fn lists_name(names: &Vec<Value>, name: &str) -> (listed: bool)
    ensures
        listed == items_view(names@).contains(ValueView::String(name@)),
{
    let mut i: usize = 0;
    while i < names.len()
        invariant
            i <= names.len(),
            forall|k: int| 0 <= k < i ==> items_view(names@)[k] != ValueView::String(name@),
        decreases names.len() - i,
    {
        match names[i].as_str() {
            Some(s) => {
                if str_eq(s, name) {
                    assert(items_view(names@)[i as int] == ValueView::String(name@));
                    return true;
                }
            },
            None => {},
        }
        i = i + 1;
    }
    false
}

/// Whether the schema lists `name` under `required`.
fn is_required(schema: &Value, name: &str) -> (required: bool)
    ensures
        required == required_names(schema@).contains(name@),
{
    match schema.get("required") {
        Some(listed) => match listed.as_array() {
            Some(names) => lists_name(names, name),
            None => false,
        },
        None => false,
    }
}

/// The parameter for one argument of a schema, where it describes one.
fn convert_argument(argument: &Value, required: bool) -> (parameter: Option<Parameter>)
    ensures
        parameter is Some <==> describes_parameter(argument@),
        parameter matches Some(p) ==> p@ == parameter_of(argument@, required),
{
    let description = match argument.get("description") {
        Some(d) => match d.as_str() {
            Some(text) => text.to_owned(),
            None => {
                return None;
            },
        },
        None => {
            return None;
        },
    };
    match argument.get("type") {
        Some(declared) => Some(Parameter { description, param_type: convert_type(declared), required }),
        None => None,
    }
}

/// Appending a named parameter binds its name to it.
proof fn lemma_parameters_view_push(entries: Seq<(String, Parameter)>, entry: (String, Parameter))
    ensures
        parameters_view(entries.push(entry)) == parameters_view(entries).insert(entry.0@, entry.1@),
{
    assert(entries.push(entry).drop_last() =~= entries);
}

impl ToolDefinition {
    /// Writes a provider-independent tool definition as Cohere's.
    ///
    /// The name and the description are kept. Each property of the schema
    /// becomes a parameter with the property's description, its type
    /// degraded to one that Cohere knows, and required exactly where the
    /// schema lists it. A schema without `properties`, or with a property
    /// that lacks a description or a type, is reported and not converted.
    pub fn from_canonical(tool: &completion::ToolDefinition) -> (declared: Result<
        ToolDefinition,
        CompletionError,
    >)
        ensures
            match declared {
                Ok(t) => convertible(tool.parameters@) && t@ == converted(*tool)
                    && t.distinct_names(),
                Err(e) => {
                    &&& !convertible(tool.parameters@)
                    &&& e is ConversionError
                    &&& e.reason() == conversion_failure(tool.parameters@)
                },
            },
    {
        let parameters = &tool.parameters;
        let properties = match parameters.get("properties") {
            Some(p) => match p.as_object() {
                Some(members) => members,
                None => {
                    return Err(
                        CompletionError::ConversionError(
                            "Tool properties should be an object".to_owned(),
                        ),
                    );
                },
            },
            None => {
                return Err(
                    CompletionError::ConversionError("Tool properties should exist".to_owned()),
                );
            },
        };
        let ghost schema = tool.parameters@;
        let mut out: Vec<(String, Parameter)> = Vec::new();
        let mut i: usize = 0;
        proof {
            lemma_settled_ends(properties@);
        }
        while i < properties.len()
            invariant
                i <= properties.len(),
                schema == tool.parameters@,
                schema == parameters@,
                schema.member("properties"@) == Some(ValueView::Object(members_view(properties@))),
                forall|k: Seq<char>| #[trigger]
                    settled(properties@, i as int).contains_key(k) ==> describes_parameter(
                        settled(properties@, i as int)[k],
                    ),
                forall|x: int|
                    0 <= x < out.len() ==> settled(properties@, i as int).contains_key(
                        (#[trigger] out[x]).0@,
                    ),
                forall|x: int, y: int|
                    0 <= x < y < out.len() ==> (#[trigger] out[x]).0@ != (#[trigger] out[y]).0@,
                parameters_view(out@) =~= Map::new(
                    |k: Seq<char>| settled(properties@, i as int).contains_key(k),
                    |k: Seq<char>|
                        parameter_of(
                            settled(properties@, i as int)[k],
                            required_names(schema).contains(k),
                        ),
                ),
            decreases properties.len() - i,
        {
            proof {
                lemma_settled_step(properties@, i as int);
            }
            if is_last(properties, i) {
                let key = properties[i].key.as_str();
                let required = is_required(parameters, key);
                proof {
                    lemma_members_view_last_wins(properties@, i as int);
                }
                match convert_argument(&properties[i].value, required) {
                    Some(parameter) => {
                        let entry = (key.to_owned(), parameter);
                        proof {
                            lemma_parameters_view_push(out@, entry);
                        }
                        out.push(entry);
                    },
                    None => {
                        let ghost props = schema.member("properties"@)->Some_0->Object_0;
                        assert(props.contains_key(key@) && !describes_parameter(props[key@]));
                        return Err(
                            CompletionError::ConversionError(
                                "Tool arguments should have a description string and a type".to_owned(),
                            ),
                        );
                    },
                }
            }
            i = i + 1;
        }
        proof {
            lemma_settled_ends(properties@);
        }
        let declared = ToolDefinition {
            name: tool.name.clone(),
            description: tool.description.clone(),
            parameter_definitions: out,
        };
        assert(declared@.parameter_definitions =~= converted_parameters(schema));
        Ok(declared)
    }
}

/// A parameter as JSON.
pub open spec fn parameter_json(p: ParameterView) -> ValueView {
    ValueView::Object(
        Map::empty().insert("description"@, ValueView::String(p.description)).insert(
            "type"@,
            ValueView::String(p.param_type),
        ).insert("required"@, ValueView::Bool(p.required)),
    )
}

/// A tool declaration as JSON: its name, its description, and its
/// parameters as an object with one member for each.
pub open spec fn tool_json(t: ToolDefinitionView) -> ValueView {
    ValueView::Object(
        Map::empty().insert("name"@, ValueView::String(t.name)).insert(
            "description"@,
            ValueView::String(t.description),
        ).insert(
            "parameter_definitions"@,
            ValueView::Object(
                Map::new(
                    |k: Seq<char>| t.parameter_definitions.contains_key(k),
                    |k: Seq<char>| parameter_json(t.parameter_definitions[k]),
                ),
            ),
        ),
    )
}

impl Parameter {
    /// The parameter as JSON.
    pub fn to_json(&self) -> (json: Value)
        ensures
            json@ == parameter_json(self@),
    {
        let mut members: Vec<Member> = Vec::new();
        push_member(&mut members, "description", Value::String(self.description.clone()));
        push_member(&mut members, "type", Value::String(self.param_type.clone()));
        push_member(&mut members, "required", Value::Bool(self.required));
        Value::Object(members)
    }
}

impl ToolDefinition {
    /// The parameter called `name`, where the tool has one.
    pub fn parameter(&self, name: &str) -> (found: Option<&Parameter>)
        ensures
            match found {
                Some(p) => self@.parameter_definitions.contains_key(name@)
                    && self@.parameter_definitions[name@] == p@,
                None => !self@.parameter_definitions.contains_key(name@),
            },
    {
        let entries = &self.parameter_definitions;
        let mut i: usize = entries.len();
        while i > 0
            invariant
                i <= entries.len(),
                *entries == self.parameter_definitions,
                forall|k: int| i <= k < entries.len() ==> (#[trigger] entries[k]).0@ != name@,
            decreases i,
        {
            i = i - 1;
            if str_eq(entries[i].0.as_str(), name) {
                proof {
                    lemma_parameters_last_wins(entries@, i as int);
                }
                return Some(&entries[i].1);
            }
        }
        proof {
            lemma_parameters_absent(entries@, name@);
        }
        None
    }

    /// The declaration as JSON.
    pub fn to_json(&self) -> (json: Value)
        ensures
            json@ == tool_json(self@),
    {
        let entries = &self.parameter_definitions;
        let mut parameters: Vec<Member> = Vec::new();
        let mut i: usize = 0;
        while i < entries.len()
            invariant
                i <= entries.len(),
                members_view(parameters@) =~= Map::new(
                    |k: Seq<char>| parameters_view(entries@.take(i as int)).contains_key(k),
                    |k: Seq<char>| parameter_json(parameters_view(entries@.take(i as int))[k]),
                ),
            decreases entries.len() - i,
        {
            proof {
                lemma_parameters_view_push(entries@.take(i as int), entries[i as int]);
                assert(entries@.take(i as int).push(entries[i as int]) =~= entries@.take(i + 1));
            }
            push_member(&mut parameters, entries[i].0.as_str(), entries[i].1.to_json());
            i = i + 1;
        }
        assert(entries@.take(entries.len() as int) =~= entries@);
        let mut members: Vec<Member> = Vec::new();
        push_member(&mut members, "name", Value::String(self.name.clone()));
        push_member(&mut members, "description", Value::String(self.description.clone()));
        push_member(&mut members, "parameter_definitions", Value::Object(parameters));
        Value::Object(members)
    }
}

/// The last entry with a name decides what the name is bound to.
proof fn lemma_parameters_last_wins(entries: Seq<(String, Parameter)>, j: int)
    requires
        0 <= j < entries.len(),
        forall|i: int| j < i < entries.len() ==> (#[trigger] entries[i]).0@ != entries[j].0@,
    ensures
        parameters_view(entries).contains_key(entries[j].0@),
        parameters_view(entries)[entries[j].0@] == entries[j].1@,
    decreases entries.len(),
{
    if j < entries.len() - 1 {
        let front = entries.drop_last();
        assert(entries[entries.len() - 1].0@ != entries[j].0@);
        assert forall|i: int| j < i < front.len() implies (#[trigger] front[i]).0@ != front[j].0@ by {
            assert(entries[i].0@ != entries[j].0@);
        }
        lemma_parameters_last_wins(front, j);
    }
}

/// A name that no entry has is not bound.
proof fn lemma_parameters_absent(entries: Seq<(String, Parameter)>, name: Seq<char>)
    requires
        forall|i: int| 0 <= i < entries.len() ==> (#[trigger] entries[i]).0@ != name,
    ensures
        !parameters_view(entries).contains_key(name),
    decreases entries.len(),
{
    if entries.len() > 0 {
        let front = entries.drop_last();
        assert(entries[entries.len() - 1].0@ != name);
        assert forall|i: int| 0 <= i < front.len() implies (#[trigger] front[i]).0@ != name by {
            assert(entries[i].0@ != name);
        }
        lemma_parameters_absent(front, name);
    }
}

/// A name is bound exactly when some entry has it.
proof fn lemma_parameters_domain(entries: Seq<(String, Parameter)>, name: Seq<char>)
    requires
        parameters_view(entries).contains_key(name),
    ensures
        exists|i: int| 0 <= i < entries.len() && (#[trigger] entries[i]).0@ == name,
    decreases entries.len(),
{
    if entries.len() > 0 {
        let last = entries.len() - 1;
        if entries[last].0@ == name {
            assert(entries[last].0@ == name);
        } else {
            let front = entries.drop_last();
            lemma_parameters_domain(front, name);
            let i = choose|i: int| 0 <= i < front.len() && (#[trigger] front[i]).0@ == name;
            assert(entries[i].0@ == name);
        }
    }
}

/// The JSON schema of one argument: its type and its description.
pub open spec fn argument_schema(p: ParameterView) -> ValueView {
    ValueView::Object(
        Map::empty().insert("type"@, ValueView::String(p.param_type)).insert(
            "description"@,
            ValueView::String(p.description),
        ),
    )
}

/// Whether `schema` is a JSON schema of the parameters: an object schema
/// whose properties are the parameters, each with its type and description,
/// and which lists as required exactly the parameters that are.
pub open spec fn is_schema_of(schema: ValueView, parameters: Map<Seq<char>, ParameterView>) -> bool {
    &&& schema.member("type"@) == Some(ValueView::String("object"@))
    &&& schema.member("properties"@) == Some(
        ValueView::Object(
            Map::new(
                |k: Seq<char>| parameters.contains_key(k),
                |k: Seq<char>| argument_schema(parameters[k]),
            ),
        ),
    )
    &&& required_names(schema) == Set::new(
        |k: Seq<char>| parameters.contains_key(k) && parameters[k].required,
    )
    &&& schema->Object_0.dom() == Set::<Seq<char>>::empty().insert("type"@).insert(
        "properties"@,
    ).insert("required"@)
}

impl ToolDefinition {
    /// The names of the parameters that are required, as a JSON array.
    fn required_json(&self) -> (json: Vec<Value>)
        ensures
            forall|name: Seq<char>|
                items_view(json@).contains(ValueView::String(name)) <==> (
                self@.parameter_definitions.contains_key(name)
                    && self@.parameter_definitions[name].required),
    {
        let entries = &self.parameter_definitions;
        let ghost bound = self@.parameter_definitions;
        let mut out: Vec<Value> = Vec::new();
        let mut i: usize = 0;
        while i < entries.len()
            invariant
                i <= entries.len(),
                *entries == self.parameter_definitions,
                bound == self@.parameter_definitions,
                forall|x: int|
                    0 <= x < out.len() ==> {
                        &&& (#[trigger] out[x])@ is String
                        &&& bound.contains_key(out[x]@->String_0)
                        &&& bound[out[x]@->String_0].required
                    },
                forall|j: int|
                    0 <= j < i && bound.contains_key((#[trigger] entries[j]).0@) && bound[entries[j].0@].required
                        ==> exists|x: int| 0 <= x < out.len() && (#[trigger] out[x])@ == ValueView::String(entries[j].0@),
            decreases entries.len() - i,
        {
            let name = entries[i].0.as_str();
            let ghost before = out@;
            match self.parameter(name) {
                Some(p) => {
                    if p.required {
                        out.push(Value::String(name.to_owned()));
                        assert(out[out.len() - 1]@ == ValueView::String(entries[i as int].0@));
                    }
                },
                None => {},
            }
            proof {
                assert forall|j: int|
                    0 <= j < i + 1 && bound.contains_key((#[trigger] entries[j]).0@) && bound[entries[j].0@].required implies exists|
                    x: int,
                | 0 <= x < out.len() && (#[trigger] out[x])@ == ValueView::String(entries[j].0@) by {
                    if j < i {
                        let x = choose|x: int|
                            0 <= x < before.len() && (#[trigger] before[x])@ == ValueView::String(
                                entries[j].0@,
                            );
                        assert(out[x] == before[x]);
                    } else {
                        assert(out[out.len() - 1]@ == ValueView::String(entries[j].0@));
                    }
                }
            }
            i = i + 1;
        }
        proof {
            let listed = items_view(out@);
            assert forall|name: Seq<char>|
                listed.contains(ValueView::String(name)) <==> (bound.contains_key(name)
                    && bound[name].required) by {
                if listed.contains(ValueView::String(name)) {
                    let x = choose|x: int| 0 <= x < listed.len() && listed[x] == ValueView::String(name);
                    assert(out[x]@ == ValueView::String(name));
                }
                if bound.contains_key(name) && bound[name].required {
                    lemma_parameters_domain(entries@, name);
                    let j = choose|j: int| 0 <= j < entries.len() && (#[trigger] entries[j]).0@ == name;
                    let x = choose|x: int|
                        0 <= x < out.len() && (#[trigger] out[x])@ == ValueView::String(entries[j].0@);
                    assert(listed[x] == ValueView::String(name));
                }
            }
        }
        out
    }

    /// Writes the declaration as a provider-independent tool definition,
    /// whose parameters are a JSON schema of the declaration's.
    pub fn to_canonical(&self) -> (tool: completion::ToolDefinition)
        ensures
            tool.name@ == self.name@,
            tool.description@ == self.description@,
            is_schema_of(tool.parameters@, self@.parameter_definitions),
            tool.well_formed(),
    {
        let entries = &self.parameter_definitions;
        let mut properties: Vec<Member> = Vec::new();
        let mut i: usize = 0;
        while i < entries.len()
            invariant
                i <= entries.len(),
                members_view(properties@) =~= Map::new(
                    |k: Seq<char>| parameters_view(entries@.take(i as int)).contains_key(k),
                    |k: Seq<char>| argument_schema(parameters_view(entries@.take(i as int))[k]),
                ),
            decreases entries.len() - i,
        {
            proof {
                lemma_parameters_view_push(entries@.take(i as int), entries[i as int]);
                assert(entries@.take(i as int).push(entries[i as int]) =~= entries@.take(i + 1));
            }
            let mut argument: Vec<Member> = Vec::new();
            push_member(&mut argument, "type", Value::String(entries[i].1.param_type.clone()));
            push_member(
                &mut argument,
                "description",
                Value::String(entries[i].1.description.clone()),
            );
            push_member(&mut properties, entries[i].0.as_str(), Value::Object(argument));
            i = i + 1;
        }
        assert(entries@.take(entries.len() as int) =~= entries@);
        let required = self.required_json();
        let mut schema: Vec<Member> = Vec::new();
        push_member(&mut schema, "type", Value::String("object".to_owned()));
        push_member(&mut schema, "properties", Value::Object(properties));
        push_member(&mut schema, "required", Value::Array(required));
        let parameters = Value::Object(schema);
        proof {
            reveal_strlit("type");
            reveal_strlit("properties");
            reveal_strlit("required");
            assert("type"@.len() == 4 && "properties"@.len() == 10 && "required"@.len() == 8);
            assert(required_names(parameters@) =~= Set::new(
                |k: Seq<char>|
                    self@.parameter_definitions.contains_key(k)
                        && self@.parameter_definitions[k].required,
            ));
            assert(parameters@->Object_0.dom() =~= Set::<Seq<char>>::empty().insert("type"@).insert(
                "properties"@,
            ).insert("required"@));
        }
        completion::ToolDefinition {
            name: self.name.clone(),
            description: self.description.clone(),
            parameters,
        }
    }
}

/// A type name that was degraded once stays as it is when degraded again.
pub proof fn lemma_provider_type_name_is_stable(name: Seq<char>)
    ensures
        provider_type_name(provider_type_name(name)) == provider_type_name(name),
{
}

/// Round trip of a tool definition. Take a definition that can be written
/// for Cohere, write it so, and write the result back as a definition,
/// `back`. Then `back` has the name and the description of the first; it has
/// the same properties, each with its description; it lists a property as
/// required exactly where the first does; and written for Cohere again it
/// gives the same declaration.
pub proof fn lemma_tool_round_trip(tool: completion::ToolDefinition, back: completion::ToolDefinition)
    requires
        convertible(tool.parameters@),
        back.name@ == converted(tool).name,
        back.description@ == converted(tool).description,
        is_schema_of(back.parameters@, converted(tool).parameter_definitions),
    ensures
        back.name@ == tool.name@,
        back.description@ == tool.description@,
        convertible(back.parameters@),
        converted(back) == converted(tool),
        forall|k: Seq<char>|
            required_names(back.parameters@).contains(k) <==> (converted(
                tool,
            ).parameter_definitions.contains_key(k) && required_names(tool.parameters@).contains(k)),
        forall|k: Seq<char>| #[trigger]
            converted(tool).parameter_definitions.contains_key(k) ==> {
                let first = tool.parameters@.member("properties"@)->Some_0->Object_0;
                let second = back.parameters@.member("properties"@)->Some_0->Object_0;
                &&& second.contains_key(k)
                &&& second[k].member("description"@) == first[k].member("description"@)
                &&& (first[k].member("type"@) is Some && first[k].member("type"@)->Some_0 is String
                    && provider_type_name(first[k].member("type"@)->Some_0->String_0)
                    == first[k].member("type"@)->Some_0->String_0) ==> second[k].member("type"@)
                    == first[k].member("type"@)
            },
        back.well_formed(),
{
    reveal_strlit("type");
    reveal_strlit("description");
    assert("type"@.len() == 4 && "description"@.len() == 11);
    let declared = converted(tool).parameter_definitions;
    let second = back.parameters@.member("properties"@)->Some_0->Object_0;
    assert forall|k: Seq<char>| #[trigger] second.contains_key(k) implies describes_parameter(
        second[k],
    ) by {
        assert(second[k] == argument_schema(declared[k]));
    }
    assert forall|k: Seq<char>| declared.contains_key(k) implies converted_parameters(
        back.parameters@,
    )[k] == declared[k] by {
        assert(second[k] == argument_schema(declared[k]));
        lemma_provider_type_name_is_stable(declared[k].param_type);
        let first = tool.parameters@.member("properties"@)->Some_0->Object_0;
        lemma_provider_type_is_known(first[k].member("type"@)->Some_0);
    }
    assert(converted_parameters(back.parameters@) =~= declared);
}

/// The type name that Cohere is given is always one that is degraded to
/// itself.
pub proof fn lemma_provider_type_is_known(declared: ValueView)
    ensures
        provider_type_name(provider_type(declared)) == provider_type(declared),
{
}

} // verus!
