//! A field that the service sends either as one item or as a list of items.

use crate::json::{forest, JsonTree, JsonValue};
use vstd::prelude::*;

verus! {

/// One item, or a list of items.
#[derive(Clone, Debug, PartialEq)]
pub enum OneOrMany<T> {
    One(T),
    Many(Vec<T>),
}

impl<T> OneOrMany<T> {
    /// The items, in their order: the one item alone, or the list as it is.
    pub open spec fn items(self) -> Seq<T> {
        match self {
            OneOrMany::One(thing) => seq![thing],
            OneOrMany::Many(things) => things@,
        }
    }

    /// The items as a list.
    pub fn into_vec(self) -> (things: Vec<T>)
        ensures
            things@ == self.items(),
    {
        match self {
            OneOrMany::One(thing) => {
                let mut things = Vec::new();
                things.push(thing);
                assert(things@ =~= seq![thing]);
                things
            },
            OneOrMany::Many(things) => things,
        }
    }
}

impl<T> Default for OneOrMany<T> {
    /// No items.
    fn default() -> (none: Self)
        ensures
            none.items() == Seq::<T>::empty(),
    {
        OneOrMany::Many(Vec::new())
    }
}

impl OneOrMany<JsonValue> {
    /// Reads a field that holds one item or a list of items: a list gives
    /// its items, anything else is the one item.
    pub fn from_json(value: JsonValue) -> (field: Self)
        ensures
            match value@ {
                JsonTree::List(items) => field matches OneOrMany::Many(things) && forest(things@)
                    == items,
                _ => field == OneOrMany::One(value),
            },
    {
        match value {
            JsonValue::List(things) => OneOrMany::Many(things),
            other => OneOrMany::One(other),
        }
    }
}

} // verus!
