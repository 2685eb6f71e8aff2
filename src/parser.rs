use vstd::prelude::*;
use vstd::string::StringSliceAdditionalSpecFns;

use crate::ast::Ast;
use crate::ast::program::program_of;
use crate::comment::{comment_of, Comment};
use crate::constant::live_constants;
use crate::diagnostic::{diagnostic_of, Diagnostic};
use crate::engine::{EngineOutput, NodeKind};
use crate::error::Error;
use crate::list::{all_comment_tags_known, comments, diagnostics};

verus! {

/// The bytes hold no NUL.
pub open spec fn no_nul(b: Seq<u8>) -> bool {
    forall|i: int| 0 <= i < b.len() ==> b[i] != 0
}

/// The engine's C-string form of `b`: the bytes followed by one NUL.
pub open spec fn c_string_of(b: Seq<u8>) -> Seq<u8> {
    b.push(0)
}

/// A parse session: it owns the NUL-terminated source buffer (and path, if
/// any) that the engine reads, and records whether the engine has run on it.
#[derive(Debug)]
pub struct Parser {
    source: Vec<u8>,
    file_path: Option<Vec<u8>>,
    parsed: bool,
}

/// Copies `b` and appends the NUL terminator, or fails where `b` holds a NUL.
fn to_c_string(b: &[u8]) -> (r: Result<Vec<u8>, Error>)
    ensures
        no_nul(b@) <==> r is Ok,
        r matches Ok(v) ==> v@ == c_string_of(b@),
        r is Err ==> r == Err::<Vec<u8>, Error>(Error::InvalidEncoding),
{
    let mut out: Vec<u8> = Vec::new();
    let mut i: usize = 0;
    while i < b.len()
        invariant
            i <= b@.len(),
            out@ == b@.subrange(0, i as int),
            no_nul(out@),
        decreases b@.len() - i,
    {
        if b[i] == 0 {
            return Err(Error::InvalidEncoding);
        }
        out.push(b[i]);
        i = i + 1;
        assert(out@ =~= b@.subrange(0, i as int));
    }
    assert(out@ =~= b@);
    out.push(0);
    Ok(out)
}

/// An ASCII source text without NUL characters has no NUL byte, so
/// `Parser::try_new` accepts it with no path, and its source buffer is as long
/// as the text has characters.
pub proof fn ascii_source_accepted(source: &str)
    requires
        vstd::string::is_ascii(source),
        forall|i: int| 0 <= i < source@.len() ==> source@[i] != '\0',
    ensures
        no_nul(source.spec_bytes()),
        source.spec_bytes().len() == source@.len(),
{
    vstd::string::is_ascii_spec_bytes(source);
    assert forall|i: int| 0 <= i < source.spec_bytes().len() implies source.spec_bytes()[i] != 0 by {
        assert('\0' <= source@[i] <= '\u{7f}');
        assert(source.spec_bytes()[i] == source@[i] as u8);
    }
}

impl Parser {
    /// The source bytes, without the terminator.
    pub closed spec fn source_spec(&self) -> Seq<u8> {
        self.source@.drop_last()
    }

    /// The path bytes, without the terminator.
    pub closed spec fn file_path_spec(&self) -> Option<Seq<u8>> {
        match self.file_path {
            Some(p) => Some(p@.drop_last()),
            None => None,
        }
    }

    pub closed spec fn is_parsed(&self) -> bool {
        self.parsed
    }

    pub closed spec fn wf(&self) -> bool {
        &&& self.source@ == c_string_of(self.source@.drop_last())
        &&& no_nul(self.source@.drop_last())
        &&& (self.file_path matches Some(p) ==> p@ == c_string_of(p@.drop_last()) && no_nul(
            p@.drop_last(),
        ))
    }

    /// Opens a session on `source`, and on `file_path` where one is given.
    /// Fails with `InvalidEncoding` exactly when either holds a NUL byte.
    /// The engine is not run here.
    pub fn try_new(source: &str, file_path: Option<&str>) -> (r: Result<Parser, Error>)
        ensures
            r is Ok <==> no_nul(source.spec_bytes()) && (file_path matches Some(p) ==> no_nul(
                p.spec_bytes(),
            )),
            r is Err ==> r == Err::<Parser, Error>(Error::InvalidEncoding),
            r matches Ok(s) ==> {
                &&& s.wf()
                &&& s.source_spec() == source.spec_bytes()
                &&& s.file_path_spec() == match file_path {
                    Some(p) => Some(p.spec_bytes()),
                    None => None::<Seq<u8>>,
                }
                &&& !s.is_parsed()
            },
    {
        let c_source = to_c_string(source.as_bytes())?;
        proof {
            assert(c_source@.drop_last() =~= source.spec_bytes());
        }
        let c_file_path = match file_path {
            Some(p) => {
                let c = to_c_string(p.as_bytes())?;
                proof {
                    assert(c@.drop_last() =~= p.spec_bytes());
                }
                Some(c)
            },
            None => None,
        };
        Ok(Parser { source: c_source, file_path: c_file_path, parsed: false })
    }

    /// The NUL-terminated source buffer to hand to the engine; its address
    /// is the base against which the engine's positions are translated.
    pub fn c_source(&self) -> (r: &[u8])
        requires
            self.wf(),
        ensures
            r@ == c_string_of(self.source_spec()),
    {
        self.source.as_slice()
    }

    /// The NUL-terminated path buffer to hand to the engine, if any.
    pub fn c_file_path(&self) -> (r: Option<&[u8]>)
        requires
            self.wf(),
        ensures
            r matches Some(b) ==> self.file_path_spec() matches Some(p) && b@ == c_string_of(p),
            r is None <==> self.file_path_spec() is None,
    {
        match &self.file_path {
            Some(p) => Some(p.as_slice()),
            None => None,
        }
    }

    /// The length of the source text in bytes, without the terminator.
    pub fn source_len(&self) -> (r: usize)
        requires
            self.wf(),
        ensures
            r == self.source_spec().len(),
    {
        self.source.len() - 1
    }

    /// Whether the engine may still be run on this session.
    pub fn can_parse(&self) -> (r: bool)
        ensures
            r == !self.is_parsed(),
    {
        !self.parsed
    }

    /// Takes what the engine left behind after its single run on this
    /// session and builds the result: the tree, the comments, the errors and
    /// the warnings, every position translated against `output.start`.
    /// A second call is refused with `AlreadyParsed` and changes nothing.
    /// A root that is not a program, or a comment of unknown type, means the
    /// engine broke its contract: the session still counts as parsed.
    pub fn parse(&mut self, output: &EngineOutput) -> (r: Result<ParseResult, Error>)
        requires
            old(self).wf(),
        ensures
            final(self).wf(),
            final(self).source_spec() == old(self).source_spec(),
            final(self).file_path_spec() == old(self).file_path_spec(),
            final(self).is_parsed(),
            old(self).is_parsed() ==> r == Err::<ParseResult, Error>(Error::AlreadyParsed)
                && *final(self) == *old(self),
            !old(self).is_parsed() ==> (r is Ok <==> output.root.kind == NodeKind::Program
                && all_comment_tags_known(output.comments@)),
            !old(self).is_parsed() && output.root.kind != NodeKind::Program ==> r == Err::<
                ParseResult,
                Error,
            >(Error::NotAProgram),
            r matches Err(e) ==> e == Error::AlreadyParsed || e == Error::NotAProgram || exists|
                i: int,
            |
                0 <= i < output.comments@.len() && e == Error::UnknownCommentType(
                    #[trigger] output.comments@[i].type_tag,
                ),
            r matches Ok(res) ==> res.built_from(*output),
    {
        if self.parsed {
            return Err(Error::AlreadyParsed);
        }
        self.parsed = true;
        let ast = Ast::try_new(output)?;
        let cs = comments(&output.comments, output.start)?;
        let errors = diagnostics(&output.errors, output.start);
        let warnings = diagnostics(&output.warnings, output.start);
        Ok(ParseResult { ast, comments: cs, errors, warnings })
    }
}

/// The outcome of one parse: the tree, and the comments, errors and
/// warnings copied out of the engine's lists in list order.
#[derive(Debug)]
pub struct ParseResult {
    ast: Ast,
    comments: Vec<Comment>,
    errors: Vec<Diagnostic>,
    warnings: Vec<Diagnostic>,
}

impl ParseResult {
    pub closed spec fn ast_spec(&self) -> Ast {
        self.ast
    }

    pub closed spec fn comments_spec(&self) -> Seq<Comment> {
        self.comments@
    }

    pub closed spec fn errors_spec(&self) -> Seq<Diagnostic> {
        self.errors@
    }

    pub closed spec fn warnings_spec(&self) -> Seq<Diagnostic> {
        self.warnings@
    }

    /// This result is exactly what `output` stands for: each part translated
    /// against `output.start`, one entry per list node, in list order.
    pub open spec fn built_from(&self, output: EngineOutput) -> bool {
        &&& self.ast_spec().root_spec()@ == program_of(output.root, output.start)
        &&& self.ast_spec().constants_spec().len() == live_constants(output.constants@).len()
        &&& forall|i: int|
            0 <= i < self.ast_spec().constants_spec().len() ==> (
            #[trigger] self.ast_spec().constants_spec()[i])@ == live_constants(
                output.constants@,
            )[i]
        &&& self.ast_spec().encoding_spec() == output.encoding_name@
        &&& self.comments_spec().len() == output.comments@.len()
        &&& forall|i: int|
            0 <= i < self.comments_spec().len() ==> Some((#[trigger] self.comments_spec()[i])@)
                == comment_of(output.comments@[i], output.start)
        &&& self.errors_spec().len() == output.errors@.len()
        &&& forall|i: int|
            0 <= i < self.errors_spec().len() ==> (#[trigger] self.errors_spec()[i])@
                == diagnostic_of(output.errors@[i], output.start)
        &&& self.warnings_spec().len() == output.warnings@.len()
        &&& forall|i: int|
            0 <= i < self.warnings_spec().len() ==> (#[trigger] self.warnings_spec()[i])@
                == diagnostic_of(output.warnings@[i], output.start)
    }

    pub fn ast(&self) -> (r: &Ast)
        ensures
            *r == self.ast_spec(),
    {
        &self.ast
    }

    pub fn comments(&self) -> (r: &[Comment])
        ensures
            r@ == self.comments_spec(),
    {
        self.comments.as_slice()
    }

    pub fn errors(&self) -> (r: &[Diagnostic])
        ensures
            r@ == self.errors_spec(),
    {
        self.errors.as_slice()
    }

    pub fn warnings(&self) -> (r: &[Diagnostic])
        ensures
            r@ == self.warnings_spec(),
    {
        self.warnings.as_slice()
    }

    pub fn is_success(&self) -> (r: bool)
        ensures
            r == (self.errors_spec().len() == 0),
    {
        self.errors.len() == 0
    }

    pub fn is_failure(&self) -> (r: bool)
        ensures
            r == (self.errors_spec().len() != 0),
    {
        !self.is_success()
    }
}

} // verus!
