//! The events that the debugger's input loop hands on.
use vstd::prelude::*;

verus! {

/// An input event of the terminal, such as a key press.
#[derive(Clone, Debug)]
pub enum Event<I> {
    Input(I),
}

} // verus!
