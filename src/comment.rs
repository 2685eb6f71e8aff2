use vstd::prelude::*;

use crate::engine::RawComment;
use crate::error::Error;
use crate::location::{offset_of, Location};

verus! {

/// The kinds of comment the engine reports.
#[derive(Debug, Clone, Copy, PartialEq, Eq, Structural, PartialOrd, Ord)]
pub enum CommentType {
    /// A `#` comment running to the end of its line.
    Inline,
    /// An embedded document between `=begin` and `=end`.
    Embdoc,
    /// The trailing data after `__END__`.
    End,
}

/// The comment kind that the engine's type tag stands for, if any.
pub open spec fn comment_type_of(tag: u32) -> Option<CommentType> {
    if tag == 0 {
        Some(CommentType::Inline)
    } else if tag == 1 {
        Some(CommentType::Embdoc)
    } else if tag == 2 {
        Some(CommentType::End)
    } else {
        None
    }
}

impl CommentType {
    /// Classifies an engine type tag; a tag outside the closed enumeration is
    /// an inconsistency between this layer and the engine, never coerced.
    pub fn from_tag(tag: u32) -> (r: Result<CommentType, Error>)
        ensures
            comment_type_of(tag) matches Some(t) ==> r == Ok::<CommentType, Error>(t),
            comment_type_of(tag) is None ==> r == Err::<CommentType, Error>(
                Error::UnknownCommentType(tag),
            ),
    {
        if tag == 0 {
            Ok(CommentType::Inline)
        } else if tag == 1 {
            Ok(CommentType::Embdoc)
        } else if tag == 2 {
            Ok(CommentType::End)
        } else {
            Err(Error::UnknownCommentType(tag))
        }
    }
}

/// A comment of the source, copied out of the engine's list.
#[derive(Debug)]
pub struct Comment {
    type_: CommentType,
    location: Location,
}

impl View for Comment {
    type V = (CommentType, (usize, usize));

    closed spec fn view(&self) -> (CommentType, (usize, usize)) {
        (self.type_, self.location@)
    }
}

/// What the engine's comment node `raw` becomes against the buffer start
/// `base`, or `None` where its type tag is unknown.
pub open spec fn comment_of(raw: RawComment, base: usize) -> Option<(CommentType, (usize, usize))> {
    match comment_type_of(raw.type_tag) {
        Some(t) => Some((t, (offset_of(raw.start, base), offset_of(raw.end, base)))),
        None => None,
    }
}

impl Comment {
    pub fn inner_new(raw: &RawComment, parser_start: usize) -> (r: Result<Comment, Error>)
        ensures
            comment_of(*raw, parser_start) matches Some(v) ==> r matches Ok(c) && c@ == v,
            comment_of(*raw, parser_start) is None ==> r == Err::<Comment, Error>(
                Error::UnknownCommentType(raw.type_tag),
            ),
    {
        let type_ = CommentType::from_tag(raw.type_tag)?;
        let location = Location::inner_new(raw.start, raw.end, parser_start);
        Ok(Comment { type_, location })
    }

    pub fn location(&self) -> (r: &Location)
        ensures
            r@ == self@.1,
    {
        &self.location
    }

    pub fn type_(&self) -> (r: CommentType)
        ensures
            r == self@.0,
    {
        self.type_
    }
}

impl PartialEq for Comment {
    fn eq(&self, other: &Comment) -> (r: bool)
        ensures
            r == (self@ == other@),
    {
        self.type_ == other.type_ && self.location == other.location
    }
}

impl vstd::std_specs::cmp::PartialEqSpecImpl for Comment {
    open spec fn obeys_eq_spec() -> bool {
        true
    }

    open spec fn eq_spec(&self, other: &Comment) -> bool {
        self@ == other@
    }
}

} // verus!
