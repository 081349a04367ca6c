use vstd::prelude::*;

verus! {

/// The output stream of the server process that a line came from.
#[derive(Debug, Clone, Copy, PartialEq, Eq, Structural)]
pub enum ServerStream {
    Stdout,
    Stderr,
}

} // verus!
