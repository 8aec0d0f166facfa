//! Standalone CSS functions usable in property values.

use vstd::prelude::*;

use crate::data_types::Length;

verus! {

/// A standalone CSS function.
#[derive(Debug, PartialEq, Eq)]
pub enum Function {
    /// `attr(name)`: substitutes an attribute of the element.
    Attr { name: String },
    /// `blur(radius)`: a blur filter.
    Blur { radius: Length },
}

/// The ghost view of a [`Function`].
pub ghost enum FunctionView {
    Attr(Seq<char>),
    Blur(Length),
}

impl View for Function {
    type V = FunctionView;

    open spec fn view(&self) -> FunctionView {
        match self {
            Function::Attr { name } => FunctionView::Attr(name@),
            Function::Blur { radius } => FunctionView::Blur(*radius),
        }
    }
}

} // verus!
