use vstd::prelude::*;

use crate::engine::{NodeKind, RawNode};
use crate::error::Error;
use crate::location::{offset_of, Location};

verus! {

/// The top-level unit node, validated by its type tag.
#[derive(Debug)]
pub struct Program {
    location: Location,
    locals: Vec<u32>,
}

impl View for Program {
    type V = ((usize, usize), Seq<u32>);

    closed spec fn view(&self) -> ((usize, usize), Seq<u32>) {
        (self.location@, self.locals@)
    }
}

/// What the raw node `node` becomes as a program view against `base`.
pub open spec fn program_of(node: RawNode, base: usize) -> ((usize, usize), Seq<u32>) {
    ((offset_of(node.start, base), offset_of(node.end, base)), node.locals@)
}

fn copy_ids(ids: &Vec<u32>) -> (r: Vec<u32>)
    ensures
        r@ == ids@,
{
    let mut out: Vec<u32> = Vec::new();
    let mut i: usize = 0;
    while i < ids.len()
        invariant
            i <= ids@.len(),
            out@ == ids@.subrange(0, i as int),
        decreases ids@.len() - i,
    {
        out.push(ids[i]);
        i = i + 1;
        assert(out@ =~= ids@.subrange(0, i as int));
    }
    assert(out@ =~= ids@);
    out
}

impl Program {
    /// Validates the root node: it is a program view exactly when its kind is
    /// the top-level program kind.
    pub fn try_new(node: &RawNode, parser_start: usize) -> (r: Result<Program, Error>)
        ensures
            node.kind != NodeKind::Program ==> r == Err::<Program, Error>(Error::NotAProgram),
            node.kind == NodeKind::Program ==> (r matches Ok(p) && p@ == program_of(
                *node,
                parser_start,
            )),
    {
        match node.kind {
            NodeKind::Program => {
                let location = Location::inner_new(node.start, node.end, parser_start);
                Ok(Program { location, locals: copy_ids(&node.locals) })
            },
            NodeKind::Other(_) => Err(Error::NotAProgram),
        }
    }

    pub fn location(&self) -> (r: &Location)
        ensures
            r@ == self@.0,
    {
        &self.location
    }

    /// The ids of the identifiers bound at the top level.
    pub fn locals(&self) -> (r: &[u32])
        ensures
            r@ == self@.1,
    {
        self.locals.as_slice()
    }
}

} // verus!
