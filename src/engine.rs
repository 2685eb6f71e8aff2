use vstd::prelude::*;

verus! {

/// The kind of a raw tree node, as far as this layer tells kinds apart.
#[derive(Debug, Clone, Copy, PartialEq, Eq, Structural)]
pub enum NodeKind {
    /// The top-level unit of a parse.
    Program,
    /// Any other node type, with the engine's tag.
    Other(u32),
}

/// One comment node of the engine's comment list, read out as plain values:
/// its type tag and the absolute addresses of its first and past-the-end bytes.
pub struct RawComment {
    pub type_tag: u32,
    pub start: usize,
    pub end: usize,
}

/// One diagnostic node of the engine's error or warning list: the bytes of its
/// message (without the terminating NUL) and its absolute addresses.
pub struct RawDiagnostic {
    pub message: Vec<u8>,
    pub start: usize,
    pub end: usize,
}

/// One slot of the engine's constant pool. Slots with id zero are unused.
pub struct RawConstant {
    pub id: u32,
    pub hash: usize,
    pub name: Vec<u8>,
}

/// The root node handed back by the engine.
pub struct RawNode {
    pub kind: NodeKind,
    pub start: usize,
    pub end: usize,
    /// The ids of the locally bound identifiers; empty where the engine
    /// holds a null pointer.
    pub locals: Vec<u32>,
}

/// Everything the engine leaves behind after one parse, as plain values.
/// `start` is the address of the first byte of the source buffer that the
/// engine scanned; every other address is translated against it.
pub struct EngineOutput {
    pub start: usize,
    pub root: RawNode,
    pub comments: Vec<RawComment>,
    pub errors: Vec<RawDiagnostic>,
    pub warnings: Vec<RawDiagnostic>,
    pub constants: Vec<RawConstant>,
    pub encoding_name: String,
}

} // verus!
