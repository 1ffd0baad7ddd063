//! A JSON document model: values, their mathematical view, lookups and
//! merging.
//!
//! An object is kept as the list of its members in the order in which they
//! were written. Where a key is written more than once, the last member with
//! that key is the one that counts; the view of an object is therefore a map.

use vstd::prelude::*;
use crate::text::str_eq;

verus! {

/// A JSON number, kept exactly as it was read.
///
/// A number with a fraction or an exponent is carried as the 64 bits of its
/// binary representation; the library never computes with it. A number has
/// one way to be written here, which [`Number::well_formed`] states.
#[derive(Clone, Copy, Debug, PartialEq, Eq, Structural)]
pub enum Number {
    PosInt(u64),
    NegInt(i64),
    Float { bits: u64 },
}

impl Number {
    /// Whether the number is written in the one way that it has, and is one
    /// that JSON can write: a whole number below zero stands in `NegInt` and
    /// one from zero on in `PosInt`, and the bits of a `Float` are those of a
    /// finite number, neither an infinity nor a failed computation.
    pub open spec fn well_formed(self) -> bool {
        match self {
            Number::PosInt(_) => true,
            Number::NegInt(n) => n < 0,
            Number::Float { bits } => (bits >> 52) & 0x7ff != 0x7ff,
        }
    }

    /// Whether the number is well formed.
    pub fn is_well_formed(&self) -> (ok: bool)
        ensures
            ok == self.well_formed(),
    {
        match self {
            Number::PosInt(_) => true,
            Number::NegInt(n) => *n < 0,
            Number::Float { bits } => (*bits >> 52) & 0x7ff != 0x7ff,
        }
    }
}

/// One `key: value` entry of a JSON object.
#[derive(Debug, PartialEq, Eq)]
pub struct Member {
    pub key: String,
    pub value: Value,
}

/// A JSON value.
#[derive(Debug, PartialEq, Eq)]
pub enum Value {
    Null,
    Bool(bool),
    Number(Number),
    String(String),
    Array(Vec<Value>),
    Object(Vec<Member>),
}

/// The mathematical content of a [`Value`].
pub enum ValueView {
    Null,
    Bool(bool),
    Number(Number),
    String(Seq<char>),
    Array(Seq<ValueView>),
    Object(Map<Seq<char>, ValueView>),
}

/// The views of `items`, index by index.
pub open spec fn items_view(items: Seq<Value>) -> Seq<ValueView>
    decreases items, 0nat,
{
    Seq::new(
        items.len(),
        |i: int|
            if 0 <= i < items.len() {
                value_view(items[i])
            } else {
                ValueView::Null
            },
    )
}

/// The map that a list of members stands for: each key is bound to the view
/// of the value of the last member that carries it.
pub open spec fn members_view(members: Seq<Member>) -> Map<Seq<char>, ValueView>
    decreases members, members.len(),
{
    if members.len() == 0 {
        Map::empty()
    } else {
        members_view(members.drop_last()).insert(
            members.last().key@,
            value_view(members.last().value),
        )
    }
}

/// The view of a value.
pub open spec fn value_view(v: Value) -> ValueView
    decreases v,
{
    match v {
        Value::Null => ValueView::Null,
        Value::Bool(b) => ValueView::Bool(b),
        Value::Number(n) => ValueView::Number(n),
        Value::String(s) => ValueView::String(s@),
        Value::Array(items) => ValueView::Array(items_view(items@)),
        Value::Object(members) => ValueView::Object(members_view(members@)),
    }
}

impl View for Value {
    type V = ValueView;

    open spec fn view(&self) -> ValueView {
        value_view(*self)
    }
}

impl ValueView {
    /// The value bound to `key`, where `self` is an object that binds it.
    pub open spec fn member(self, key: Seq<char>) -> Option<ValueView> {
        match self {
            ValueView::Object(m) => if m.contains_key(key) {
                Some(m[key])
            } else {
                None
            },
            _ => None,
        }
    }
}

/// `b` laid over `a`: where both are objects, every key of either is kept,
/// a key of `b` wins over the same key of `a`, and two objects under one key
/// are merged in the same way; in every other case `b` replaces `a`.
pub open spec fn merged(a: ValueView, b: ValueView) -> ValueView
    decreases a,
{
    match (a, b) {
        (ValueView::Object(am), ValueView::Object(bm)) => ValueView::Object(
            Map::new(
                |k: Seq<char>| am.contains_key(k) || bm.contains_key(k),
                |k: Seq<char>|
                    if bm.contains_key(k) {
                        if am.contains_key(k) && am[k] is Object && bm[k] is Object {
                            merged(am[k], bm[k])
                        } else {
                            bm[k]
                        }
                    } else {
                        am[k]
                    },
            ),
        ),
        _ => b,
    }
}

/// What is left of the value `x`, which `a` holds under `key`, when the
/// members `b` are laid over `a`.
pub open spec fn laid_over(b: Map<Seq<char>, ValueView>, key: Seq<char>, x: ValueView) -> ValueView {
    if b.contains_key(key) {
        if x is Object && b[key] is Object {
            merged(x, b[key])
        } else {
            b[key]
        }
    } else {
        x
    }
}

/// What a merge of two objects holds under a key: what `a` holds where `b`
/// has no such member; the merge of the two members where both are objects;
/// in every other case what `b` holds.
pub proof fn lemma_merged_member(a: ValueView, b: ValueView, key: Seq<char>)
    requires
        a is Object,
        b is Object,
    ensures
        merged(a, b).member(key) == match (a.member(key), b.member(key)) {
            (_, None) => a.member(key),
            (Some(x), Some(y)) => if x is Object && y is Object {
                Some(merged(x, y))
            } else {
                Some(y)
            },
            (None, Some(y)) => Some(y),
        },
{
}

/// A merge with an object that has no members changes nothing, and a merge
/// into such an object gives what was laid over it.
pub proof fn lemma_merged_with_empty(a: ValueView)
    requires
        a is Object,
    ensures
        merged(a, ValueView::Object(Map::empty())) == a,
        merged(ValueView::Object(Map::empty()), a) == a,
{
    assert(merged(a, ValueView::Object(Map::empty()))->Object_0 =~= a->Object_0);
    assert(merged(ValueView::Object(Map::empty()), a)->Object_0 =~= a->Object_0);
}

/// Appending a member binds its key to its value and leaves the other keys
/// as they were.
pub proof fn lemma_members_view_push(members: Seq<Member>, m: Member)
    ensures
        members_view(members.push(m)) == members_view(members).insert(m.key@, value_view(m.value)),
{
    assert(members.push(m).drop_last() =~= members);
}

/// A key is bound exactly when some member carries it.
pub proof fn lemma_members_view_domain(members: Seq<Member>, key: Seq<char>)
    ensures
        members_view(members).contains_key(key) <==> exists|i: int|
            0 <= i < members.len() && #[trigger] members[i].key@ == key,
    decreases members.len(),
{
    if members.len() > 0 {
        let front = members.drop_last();
        lemma_members_view_domain(front, key);
        if members_view(members).contains_key(key) {
            if members.last().key@ == key {
                assert(members[members.len() - 1].key@ == key);
            } else {
                let i = choose|i: int| 0 <= i < front.len() && #[trigger] front[i].key@ == key;
                assert(members[i].key@ == key);
            }
        }
        if exists|i: int| 0 <= i < members.len() && #[trigger] members[i].key@ == key {
            let i = choose|i: int| 0 <= i < members.len() && #[trigger] members[i].key@ == key;
            if i < members.len() - 1 {
                assert(front[i].key@ == key);
            }
        }
    }
}

/// The last member that carries a key decides what the key is bound to.
pub proof fn lemma_members_view_last_wins(members: Seq<Member>, j: int)
    requires
        0 <= j < members.len(),
        forall|i: int| j < i < members.len() ==> #[trigger] members[i].key@ != members[j].key@,
    ensures
        members_view(members).contains_key(members[j].key@),
        members_view(members)[members[j].key@] == value_view(members[j].value),
    decreases members.len(),
{
    if j < members.len() - 1 {
        let front = members.drop_last();
        assert(members[members.len() - 1].key@ != members[j].key@);
        assert forall|i: int| j < i < front.len() implies #[trigger] front[i].key@
            != front[j].key@ by {
            assert(members[i].key@ != members[j].key@);
        }
        lemma_members_view_last_wins(front, j);
    }
}

/// Whether no key occurs twice among `members`.
pub open spec fn distinct_keys(members: Seq<Member>) -> bool {
    forall|i: int, j: int|
        0 <= i < j < members.len() ==> (#[trigger] members[i]).key@ != (#[trigger] members[j]).key@
}

/// Whether the member at `j` is the last one of `members` with its key, and
/// so the one that counts.
pub open spec fn counts(members: Seq<Member>, j: int) -> bool {
    &&& 0 <= j < members.len()
    &&& forall|i: int| j < i < members.len() ==> #[trigger] members[i].key@ != members[j].key@
}

/// What the members before `i` that count bind: the part of the object that
/// a walk over the members has settled when it reaches `i`.
pub open spec fn settled(members: Seq<Member>, i: int) -> Map<Seq<char>, ValueView> {
    Map::new(
        |k: Seq<char>| exists|j: int| 0 <= j < i && counts(members, j) && #[trigger] members[j].key@ == k,
        |k: Seq<char>| members_view(members)[k],
    )
}

/// A walk over the members settles, at each member that counts, the key of
/// that member, and nothing at a member that a later one overrides.
pub proof fn lemma_settled_step(members: Seq<Member>, i: int)
    requires
        0 <= i < members.len(),
    ensures
        counts(members, i) ==> settled(members, i + 1) == settled(members, i).insert(
            members[i].key@,
            value_view(members[i].value),
        ),
        !counts(members, i) ==> settled(members, i + 1) == settled(members, i),
        !settled(members, i).contains_key(members[i].key@),
{
    let k_i = members[i].key@;
    if settled(members, i).contains_key(k_i) {
        let j = choose|j: int| 0 <= j < i && counts(members, j) && #[trigger] members[j].key@ == k_i;
        assert(members[i].key@ != members[j].key@);
    }
    if counts(members, i) {
        lemma_members_view_last_wins(members, i);
        let next = settled(members, i).insert(k_i, value_view(members[i].value));
        assert forall|k: Seq<char>| settled(members, i + 1).contains_key(k) implies next.contains_key(
            k,
        ) by {
            let j = choose|j: int|
                0 <= j < i + 1 && counts(members, j) && #[trigger] members[j].key@ == k;
            if j < i {
                assert(settled(members, i).contains_key(k));
            }
        }
        assert forall|k: Seq<char>| next.contains_key(k) implies settled(
            members,
            i + 1,
        ).contains_key(k) by {
            if k == k_i {
                assert(counts(members, i) && members[i].key@ == k);
            } else {
                let j = choose|j: int|
                    0 <= j < i && counts(members, j) && #[trigger] members[j].key@ == k;
                assert(0 <= j < i + 1 && counts(members, j) && members[j].key@ == k);
            }
        }
        assert(settled(members, i + 1) =~= next);
    } else {
        assert forall|k: Seq<char>| settled(members, i + 1).contains_key(k) implies settled(
            members,
            i,
        ).contains_key(k) by {
            let j = choose|j: int|
                0 <= j < i + 1 && counts(members, j) && #[trigger] members[j].key@ == k;
            assert(j < i);
        }
        assert forall|k: Seq<char>| settled(members, i).contains_key(k) implies settled(
            members,
            i + 1,
        ).contains_key(k) by {
            let j = choose|j: int|
                0 <= j < i && counts(members, j) && #[trigger] members[j].key@ == k;
            assert(0 <= j < i + 1 && counts(members, j) && members[j].key@ == k);
        }
        assert(settled(members, i + 1) =~= settled(members, i));
    }
}

/// Every key that is bound has a last member that carries it.
pub proof fn lemma_last_member(members: Seq<Member>, key: Seq<char>)
    requires
        members_view(members).contains_key(key),
    ensures
        exists|j: int| counts(members, j) && #[trigger] members[j].key@ == key,
    decreases members.len(),
{
    if members.len() > 0 {
        let last = members.len() - 1;
        if members[last].key@ == key {
            assert(counts(members, last) && members[last].key@ == key);
        } else {
            let front = members.drop_last();
            lemma_last_member(front, key);
            let j = choose|j: int| counts(front, j) && #[trigger] front[j].key@ == key;
            assert forall|i: int| j < i < members.len() implies #[trigger] members[i].key@
                != members[j].key@ by {
                if i < last {
                    assert(front[i].key@ != front[j].key@);
                }
            }
            assert(counts(members, j) && members[j].key@ == key);
        }
    }
}

/// Before the first member nothing is settled; after the last, the whole
/// object is.
pub proof fn lemma_settled_ends(members: Seq<Member>)
    ensures
        settled(members, 0) == Map::<Seq<char>, ValueView>::empty(),
        settled(members, members.len() as int) == members_view(members),
{
    assert(settled(members, 0) =~= Map::<Seq<char>, ValueView>::empty());
    let all = settled(members, members.len() as int);
    assert forall|k: Seq<char>| members_view(members).contains_key(k) implies all.contains_key(
        k,
    ) by {
        lemma_last_member(members, k);
    }
    assert forall|k: Seq<char>| all.contains_key(k) implies members_view(members).contains_key(
        k,
    ) by {
        lemma_members_view_domain(members, k);
    }
    assert(all =~= members_view(members));
}

/// The index of the last member of `members` that carries `key`.
pub fn position(members: &Vec<Member>, key: &str) -> (found: Option<usize>)
    ensures
        match found {
            Some(j) => j < members.len() && members[j as int].key@ == key@ && forall|i: int|
                j < i < members.len() ==> #[trigger] members[i].key@ != key@,
            None => forall|i: int| 0 <= i < members.len() ==> #[trigger] members[i].key@ != key@,
        },
        found is Some <==> members_view(members@).contains_key(key@),
        found matches Some(j) ==> members_view(members@)[key@] == members[j as int].value@,
{
    let mut i: usize = members.len();
    while i > 0
        invariant
            i <= members.len(),
            forall|k: int| i <= k < members.len() ==> #[trigger] members[k].key@ != key@,
        decreases i,
    {
        i = i - 1;
        if str_eq(members[i].key.as_str(), key) {
            proof {
                lemma_members_view_last_wins(members@, i as int);
            }
            return Some(i);
        }
    }
    proof {
        lemma_members_view_domain(members@, key@);
    }
    None
}

/// Whether the member at `index` is the one that counts for its key.
pub fn is_last(members: &Vec<Member>, index: usize) -> (last: bool)
    requires
        index < members.len(),
    ensures
        last == counts(members@, index as int),
{
    let found = position(members, members[index].key.as_str());
    proof {
        // the member at `index` carries its own key, so the key is found,
        // and at `index` or after it
        let here = members[index as int].key@;
        assert(found matches Some(j) && j >= index);
        assert(found->Some_0 > index ==> members[found->Some_0 as int].key@ == here);
    }
    match found {
        Some(j) => j == index,
        None => false,
    }
}

impl Value {
    /// The value under `key`, where `self` is an object that has the key.
    pub fn get(&self, key: &str) -> (found: Option<&Value>)
        ensures
            match found {
                Some(v) => self@.member(key@) == Some(v@),
                None => self@.member(key@) is None,
            },
    {
        match self {
            Value::Object(members) => match position(members, key) {
                Some(j) => Some(&members[j].value),
                None => None,
            },
            _ => None,
        }
    }

    /// The text, where `self` is a string.
    pub fn as_str(&self) -> (text: Option<&str>)
        ensures
            match text {
                Some(s) => self@ == ValueView::String(s@),
                None => !(self@ is String),
            },
    {
        match self {
            Value::String(s) => Some(s.as_str()),
            _ => None,
        }
    }

    /// The items, where `self` is an array.
    pub fn as_array(&self) -> (items: Option<&Vec<Value>>)
        ensures
            match items {
                Some(v) => self@ == ValueView::Array(items_view(v@)),
                None => !(self@ is Array),
            },
    {
        match self {
            Value::Array(items) => Some(items),
            _ => None,
        }
    }

    /// The members, where `self` is an object.
    pub fn as_object(&self) -> (members: Option<&Vec<Member>>)
        ensures
            match members {
                Some(m) => self@ == ValueView::Object(members_view(m@)),
                None => !(self@ is Object),
            },
    {
        match self {
            Value::Object(members) => Some(members),
            _ => None,
        }
    }
}

impl Clone for Value {
    /// A copy with the same view.
    fn clone(&self) -> (copy: Self)
        ensures
            copy@ == self@,
    {
        copy_of(self)
    }
}

/// A copy of `v`, built item by item.
fn copy_of(v: &Value) -> (copy: Value)
    ensures
        copy@ == v@,
    decreases v,
{
    match v {
        Value::Null => Value::Null,
        Value::Bool(b) => Value::Bool(*b),
        Value::Number(n) => Value::Number(*n),
        Value::String(s) => Value::String(s.clone()),
        Value::Array(items) => {
            let mut out: Vec<Value> = Vec::new();
            let mut i: usize = 0;
            while i < items.len()
                invariant
                    *v is Array,
                    v->Array_0 == *items,
                    i <= items.len(),
                    out.len() == i,
                    forall|k: int| 0 <= k < i ==> (#[trigger] out[k])@ == items[k]@,
                decreases items.len() - i,
            {
                out.push(copy_of(&items[i]));
                i = i + 1;
            }
            proof {
                lemma_items_view(out@, items_view(items@));
            }
            Value::Array(out)
        },
        Value::Object(members) => {
            let mut out: Vec<Member> = Vec::new();
            let mut i: usize = 0;
            while i < members.len()
                invariant
                    *v is Object,
                    v->Object_0 == *members,
                    i <= members.len(),
                    out.len() == i,
                    members_view(out@) == members_view(members@.take(i as int)),
                decreases members.len() - i,
            {
                let key = members[i].key.clone();
                let value = copy_of(&members[i].value);
                let m = Member { key, value };
                proof {
                    lemma_members_view_push(out@, m);
                    lemma_members_view_push(members@.take(i as int), members[i as int]);
                    assert(members@.take(i as int).push(members[i as int]) =~= members@.take(
                        i + 1,
                    ));
                }
                out.push(m);
                i = i + 1;
            }
            assert(members@.take(members.len() as int) =~= members@);
            Value::Object(out)
        },
    }
}

impl Clone for Member {
    /// A copy with the same key and a value of the same view.
    fn clone(&self) -> (copy: Self)
        ensures
            copy.key@ == self.key@,
            copy.value@ == self.value@,
    {
        Member { key: self.key.clone(), value: self.value.clone() }
    }
}

/// A list of values has the view whose items are the views of its items.
pub proof fn lemma_items_view(items: Seq<Value>, expected: Seq<ValueView>)
    requires
        items.len() == expected.len(),
        forall|k: int| 0 <= k < items.len() ==> (#[trigger] items[k])@ == expected[k],
    ensures
        items_view(items) == expected,
{
    assert forall|k: int| 0 <= k < items.len() implies items_view(items)[k] == expected[k] by {
        assert(items[k]@ == expected[k]);
    }
    assert(items_view(items) =~= expected);
}

/// A copy of a list of values, item by item.
pub fn copy_items(items: &Vec<Value>) -> (out: Vec<Value>)
    ensures
        items_view(out@) == items_view(items@),
{
    let mut out: Vec<Value> = Vec::new();
    let mut i: usize = 0;
    while i < items.len()
        invariant
            i <= items.len(),
            out.len() == i,
            forall|k: int| 0 <= k < i ==> (#[trigger] out[k])@ == items[k]@,
        decreases items.len() - i,
    {
        out.push(items[i].clone());
        i = i + 1;
    }
    proof {
        lemma_items_view(out@, items_view(items@));
    }
    out
}

/// Appends the member `key: value`, which binds `key` anew.
pub fn push_member(members: &mut Vec<Member>, key: &str, value: Value)
    ensures
        final(members)@ == old(members)@.push(Member { key: final(members)@.last().key, value }),
        final(members)@.last().key@ == key@,
        members_view(final(members)@) == members_view(old(members)@).insert(key@, value@),
{
    let m = Member { key: key.to_owned(), value };
    proof {
        lemma_members_view_push(members@, m);
    }
    members.push(m);
}

/// The members of the merge of two objects, built from the members of each.
fn merge_members(am: &Vec<Member>, bm: &Vec<Member>) -> (out: Vec<Member>)
    ensures
        ValueView::Object(members_view(out@)) == merged(
            ValueView::Object(members_view(am@)),
            ValueView::Object(members_view(bm@)),
        ),
    decreases am,
{
    let ghost a_map = members_view(am@);
    let ghost b_map = members_view(bm@);
    let mut out: Vec<Member> = Vec::new();
    let mut i: usize = 0;
    while i < am.len()
        invariant
            i <= am.len(),
            b_map == members_view(bm@),
            members_view(out@) =~= Map::new(
                |k: Seq<char>| members_view(am@.take(i as int)).contains_key(k),
                |k: Seq<char>| laid_over(b_map, k, members_view(am@.take(i as int))[k]),
            ),
        decreases am.len() - i,
    {
        let key = am[i].key.clone();
        let value = match position(bm, am[i].key.as_str()) {
            Some(j) => match (&am[i].value, &bm[j].value) {
                (Value::Object(ours), Value::Object(theirs)) => Value::Object(
                    merge_members(ours, theirs),
                ),
                (_, theirs) => theirs.clone(),
            },
            None => am[i].value.clone(),
        };
        let m = Member { key, value };
        proof {
            assert(m.value@ == laid_over(b_map, m.key@, am[i as int].value@));
            lemma_members_view_push(out@, m);
            lemma_members_view_push(am@.take(i as int), am[i as int]);
            assert(am@.take(i as int).push(am[i as int]) =~= am@.take(i + 1));
        }
        out.push(m);
        i = i + 1;
    }
    assert(am@.take(am.len() as int) =~= am@);
    let mut j: usize = 0;
    while j < bm.len()
        invariant
            j <= bm.len(),
            a_map == members_view(am@),
            b_map == members_view(bm@),
            members_view(out@) =~= Map::new(
                |k: Seq<char>|
                    a_map.contains_key(k) || members_view(bm@.take(j as int)).contains_key(k),
                |k: Seq<char>|
                    if a_map.contains_key(k) {
                        laid_over(b_map, k, a_map[k])
                    } else {
                        members_view(bm@.take(j as int))[k]
                    },
            ),
        decreases bm.len() - j,
    {
        proof {
            lemma_members_view_push(bm@.take(j as int), bm[j as int]);
            assert(bm@.take(j as int).push(bm[j as int]) =~= bm@.take(j + 1));
        }
        if position(am, bm[j].key.as_str()).is_none() {
            let m = bm[j].clone();
            proof {
                lemma_members_view_push(out@, m);
            }
            out.push(m);
        }
        j = j + 1;
    }
    assert(bm@.take(bm.len() as int) =~= bm@);
    assert(members_view(out@) =~= merged(ValueView::Object(a_map), ValueView::Object(b_map))->Object_0);
    out
}

/// Lays `b` over `a`.
///
/// Two objects are merged key by key, with the members of `b` taking
/// precedence and nested objects merged in the same way; anything else in `b`
/// (a scalar, an array) replaces what `a` holds in its place.
pub fn merge(a: Value, b: Value) -> (r: Value)
    ensures
        r@ == merged(a@, b@),
{
    match (a, b) {
        (Value::Object(am), Value::Object(bm)) => Value::Object(merge_members(&am, &bm)),
        (_, b) => b,
    }
}

} // verus!
