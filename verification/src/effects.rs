//! The queries that can be run against a stack.

use vstd::prelude::*;

pub mod views;

verus! {

/// The names under which a query is known.
#[derive(Clone, Copy, Debug)]
pub struct EffectNames<'a> {
    pub name: &'a str,
    pub description: &'a str,
    pub aliases: &'a [&'a str],
}

/// The mathematical value of an [`EffectNames`].
pub ghost struct EffectNamesView {
    pub name: Seq<char>,
    pub description: Seq<char>,
    pub aliases: Seq<Seq<char>>,
}

impl<'a> View for EffectNames<'a> {
    type V = EffectNamesView;

    open spec fn view(&self) -> EffectNamesView {
        EffectNamesView {
            name: self.name@,
            description: self.description@,
            aliases: Seq::new(self.aliases@.len(), |j: int| self.aliases@[j]@),
        }
    }
}

/// How a query ends: by returning to its caller, or by ending the process
/// at once with the given status.
#[derive(Clone, Copy, Debug, PartialEq, Eq, Structural)]
pub enum Termination {
    Normal,
    Exit(i32),
}

} // verus!
