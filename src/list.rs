use vstd::prelude::*;

use crate::comment::{comment_of, comment_type_of, Comment};
use crate::diagnostic::{diagnostic_of, Diagnostic};
use crate::engine::{RawComment, RawDiagnostic};
use crate::error::Error;

verus! {

/// What a cursor tells its driver after looking at the current list node.
#[derive(Debug, Clone, Copy, PartialEq, Eq, Structural)]
pub enum Step {
    /// The current node is an element: read it, then move to its successor.
    Visit,
    /// The list has ended at a null successor.
    Done,
    /// More nodes than the ceiling allows: the list is taken to be cyclic.
    TooLong,
}

/// A single-pass, forward-only walk over one of the engine's intrusive lists.
/// The driver follows the raw `next` pointers and reports, at each step,
/// whether a node is present; the cursor decides whether to go on, and turns
/// an endless (cyclic) list into `Step::TooLong` once `ceiling` nodes have
/// been visited.
pub struct ListCursor {
    visited: usize,
    ceiling: usize,
    finished: bool,
}

impl ListCursor {
    pub closed spec fn visited_spec(&self) -> nat {
        self.visited as nat
    }

    pub closed spec fn ceiling_spec(&self) -> nat {
        self.ceiling as nat
    }

    pub closed spec fn is_finished(&self) -> bool {
        self.finished
    }

    pub closed spec fn wf(&self) -> bool {
        self.visited <= self.ceiling
    }

    pub fn new(ceiling: usize) -> (r: ListCursor)
        ensures
            r.wf(),
            r.visited_spec() == 0,
            r.ceiling_spec() == ceiling,
            !r.is_finished(),
    {
        ListCursor { visited: 0, ceiling, finished: false }
    }

    pub fn visited(&self) -> (r: usize)
        ensures
            r == self.visited_spec(),
    {
        self.visited
    }

    /// One step of the walk; `node_present` says whether the pointer the
    /// driver now holds is non-null.
    pub fn advance(&mut self, node_present: bool) -> (r: Step)
        requires
            old(self).wf(),
        ensures
            final(self).wf(),
            final(self).ceiling_spec() == old(self).ceiling_spec(),
            old(self).is_finished() ==> r == Step::Done && *final(self) == *old(self),
            !old(self).is_finished() && !node_present ==> r == Step::Done
                && final(self).is_finished()
                && final(self).visited_spec() == old(self).visited_spec(),
            !old(self).is_finished() && node_present && old(self).visited_spec()
                < old(self).ceiling_spec() ==> r == Step::Visit && !final(self).is_finished()
                && final(self).visited_spec() == old(self).visited_spec() + 1,
            !old(self).is_finished() && node_present && old(self).visited_spec()
                == old(self).ceiling_spec() ==> r == Step::TooLong && final(self).is_finished()
                && final(self).visited_spec() == old(self).visited_spec(),
    {
        if self.finished {
            Step::Done
        } else if !node_present {
            self.finished = true;
            Step::Done
        } else if self.visited < self.ceiling {
            self.visited = self.visited + 1;
            Step::Visit
        } else {
            self.finished = true;
            Step::TooLong
        }
    }
}

/// Every comment node of `raw` carries a known type tag.
pub open spec fn all_comment_tags_known(raw: Seq<RawComment>) -> bool {
    forall|i: int| 0 <= i < raw.len() ==> (#[trigger] comment_type_of(raw[i].type_tag)) is Some
}

/// Copies the comments of the engine's list, in list order, out of the
/// engine's memory.
pub fn comments(raw: &Vec<RawComment>, parser_start: usize) -> (r: Result<Vec<Comment>, Error>)
    ensures
        all_comment_tags_known(raw@) <==> r is Ok,
        r matches Ok(v) ==> v@.len() == raw@.len() && forall|i: int|
            0 <= i < v@.len() ==> Some(#[trigger] v@[i]@) == comment_of(raw@[i], parser_start),
        r matches Err(e) ==> exists|i: int|
            0 <= i < raw@.len() && (#[trigger] comment_type_of(raw@[i].type_tag)) is None
                && e == Error::UnknownCommentType(raw@[i].type_tag),
{
    let mut out: Vec<Comment> = Vec::new();
    let mut i: usize = 0;
    while i < raw.len()
        invariant
            i <= raw@.len(),
            out@.len() == i,
            forall|j: int| 0 <= j < i ==> (#[trigger] comment_type_of(raw@[j].type_tag)) is Some,
            forall|j: int|
                0 <= j < i ==> Some(#[trigger] out@[j]@) == comment_of(raw@[j], parser_start),
        decreases raw@.len() - i,
    {
        match Comment::inner_new(&raw[i], parser_start) {
            Ok(c) => {
                out.push(c);
            },
            Err(e) => {
                assert(comment_type_of(raw@[i as int].type_tag) is None);
                return Err(e);
            },
        }
        i = i + 1;
    }
    Ok(out)
}

/// Copies the diagnostics of one of the engine's lists, in list order, out of
/// the engine's memory.
pub fn diagnostics(raw: &Vec<RawDiagnostic>, parser_start: usize) -> (r: Vec<Diagnostic>)
    ensures
        r@.len() == raw@.len(),
        forall|i: int|
            0 <= i < r@.len() ==> (#[trigger] r@[i]@) == diagnostic_of(raw@[i], parser_start),
{
    let mut out: Vec<Diagnostic> = Vec::new();
    let mut i: usize = 0;
    while i < raw.len()
        invariant
            i <= raw@.len(),
            out@.len() == i,
            forall|j: int|
                0 <= j < i ==> (#[trigger] out@[j]@) == diagnostic_of(raw@[j], parser_start),
        decreases raw@.len() - i,
    {
        out.push(Diagnostic::new(&raw[i], parser_start));
        i = i + 1;
    }
    out
}

} // verus!
