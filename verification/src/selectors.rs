//! Pseudo-class and pseudo-element selectors without arguments: the same
//! named-alternative approach as the keyword value grammars.

use vstd::prelude::*;

use crate::tokens::str_eq;

verus! {

/// A pseudo-class or pseudo-element without arguments.
#[derive(Clone, Copy, Debug, PartialEq, Eq, Structural)]
pub enum PseudoClass {
    Active,
    After,
    AnyLink,
    Backdrop,
    Before,
}

/// The selector a name (without its leading colons) denotes, if any.
pub open spec fn spec_pseudo_class_from_name(s: Seq<char>) -> Option<PseudoClass> {
    if s == "active"@ {
        Some(PseudoClass::Active)
    } else if s == "after"@ {
        Some(PseudoClass::After)
    } else if s == "any-link"@ {
        Some(PseudoClass::AnyLink)
    } else if s == "backdrop"@ {
        Some(PseudoClass::Backdrop)
    } else if s == "before"@ {
        Some(PseudoClass::Before)
    } else {
        None
    }
}

/// Look a pseudo-class name up.
pub fn pseudo_class_from_name(s: &str) -> (r: Option<PseudoClass>)
    ensures
        r == spec_pseudo_class_from_name(s@),
{
    if str_eq(s, "active") {
        Some(PseudoClass::Active)
    } else if str_eq(s, "after") {
        Some(PseudoClass::After)
    } else if str_eq(s, "any-link") {
        Some(PseudoClass::AnyLink)
    } else if str_eq(s, "backdrop") {
        Some(PseudoClass::Backdrop)
    } else if str_eq(s, "before") {
        Some(PseudoClass::Before)
    } else {
        None
    }
}

} // verus!
