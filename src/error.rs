use vstd::prelude::*;

verus! {

/// What the boundary layer refuses.
#[derive(Debug, Clone, Copy, PartialEq, Eq, Structural)]
pub enum Error {
    /// The source text or the file path holds a NUL byte, which the
    /// engine's C-string convention cannot carry.
    InvalidEncoding,
    /// The session was already handed to the engine once.
    AlreadyParsed,
    /// The root node's type tag is not the top-level program kind.
    NotAProgram,
    /// A comment carried a type tag outside the engine's closed enumeration.
    UnknownCommentType(u32),
}

} // verus!
