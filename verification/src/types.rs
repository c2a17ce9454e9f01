//! The template variable.

use vstd::prelude::*;

verus! {

/// A template variable: every `{name}` in a text stands for `value`.
#[derive(Debug, PartialEq, Eq)]
pub struct HSLink {
    pub name: String,
    pub value: String,
}

/// A template variable as plain text.
pub struct Variable {
    pub name: Seq<char>,
    pub value: Seq<char>,
}

impl View for HSLink {
    type V = Variable;

    open spec fn view(&self) -> Variable {
        Variable { name: self.name@, value: self.value@ }
    }
}

/// The variables of a list, as plain text, in the order of the list.
pub open spec fn variables(links: Seq<HSLink>) -> Seq<Variable> {
    links.map_values(|link: HSLink| link@)
}

} // verus!
