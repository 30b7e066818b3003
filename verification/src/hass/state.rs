//! A named remote state and its attributes.

use super::attributes::{Attributes, ValueView};
use vstd::prelude::*;

verus! {

/// A remote state as it is sent and received.
#[derive(Debug)]
pub struct State {
    /// The name of the state.
    pub name: String,
    pub attributes: Option<Attributes>,
}

/// What a [`State`] says.
pub struct StateView {
    pub name: Seq<char>,
    pub attributes: Option<Map<Seq<char>, ValueView>>,
}

impl View for State {
    type V = StateView;

    open spec fn view(&self) -> StateView {
        StateView {
            name: self.name@,
            attributes: match self.attributes {
                Some(a) => Some(a@),
                None => None,
            },
        }
    }
}

impl State {
    /// A state with the given name and attributes.
    pub fn new(name: &str, attributes: Option<Attributes>) -> (state: Self)
        ensures
            state.name@ == name@,
            state.attributes == attributes,
    {
        State { name: name.to_owned(), attributes }
    }
}

} // verus!
