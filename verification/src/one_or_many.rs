//! A list that always holds at least one item.

use vstd::prelude::*;

verus! {

/// A list with a first item and any number of further items.
#[derive(Debug, Clone, PartialEq, Eq)]
pub struct OneOrMany<T> {
    pub first: T,
    pub rest: Vec<T>,
}

/// The error of building a [`OneOrMany`] from no items.
#[derive(Debug, Clone, Copy, PartialEq, Eq)]
pub struct EmptyListError;

impl<T> View for OneOrMany<T> {
    type V = Seq<T>;

    /// The items in order, the first one included.
    open spec fn view(&self) -> Seq<T> {
        seq![self.first] + self.rest@
    }
}

impl<T> OneOrMany<T> {
    /// The list of one item.
    pub fn one(item: T) -> (list: Self)
        ensures
            list@ == seq![item],
    {
        OneOrMany { first: item, rest: Vec::new() }
    }

    /// The list of the given items, in their order; fails on no items.
    pub fn many(items: Vec<T>) -> (list: Result<Self, EmptyListError>)
        ensures
            list is Err <==> items@.len() == 0,
            list matches Ok(l) ==> l@ == items@,
    {
        let mut items = items;
        if items.len() == 0 {
            Err(EmptyListError)
        } else {
            let ghost all = items@;
            let first = items.remove(0);
            let list = OneOrMany { first, rest: items };
            assert(list@ =~= all);
            Ok(list)
        }
    }

    /// The items as a vector, in their order.
    pub fn into_vec(self) -> (items: Vec<T>)
        ensures
            items@ == self@,
            items@.len() >= 1,
    {
        let OneOrMany { first, rest } = self;
        let mut rest = rest;
        let mut items: Vec<T> = Vec::new();
        items.push(first);
        items.append(&mut rest);
        assert(items@ =~= seq![first] + self.rest@);
        items
    }

    /// The number of items after the first.
    pub fn rest_len(&self) -> (n: usize)
        ensures
            n + 1 == self@.len(),
    {
        self.rest.len()
    }

    /// The item at `index`, counted from the first one.
    pub fn get(&self, index: usize) -> (item: Option<&T>)
        ensures
            index < self@.len() ==> item == Some(&self@[index as int]),
            index >= self@.len() ==> item is None,
    {
        if index == 0 {
            Some(&self.first)
        } else if index - 1 < self.rest.len() {
            Some(&self.rest[index - 1])
        } else {
            None
        }
    }
}

} // verus!
