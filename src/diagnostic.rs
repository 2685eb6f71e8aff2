use std::ops::Range;
use vstd::prelude::*;

use crate::engine::RawDiagnostic;
use crate::location::{offset_of, Location};

verus! {

/// The text that the bytes `b` decode to when every ill-formed UTF-8
/// sequence is replaced by U+FFFD.
pub uninterp spec fn lossy_text(b: Seq<u8>) -> Seq<char>;

/// Relies on `String::from_utf8_lossy`: it decodes the bytes as UTF-8,
/// replacing each ill-formed sequence, never failing; the result depends on
/// the bytes alone.
#[verifier::external_body]
fn decode_lossy(b: &[u8]) -> (r: String)
    ensures
        r@ == lossy_text(b@),
{
    String::from_utf8_lossy(b).into_owned()
}

/// An error or a warning of the engine, copied out of its list.
#[derive(Debug)]
pub struct Diagnostic {
    message: String,
    location: Location,
}

impl View for Diagnostic {
    type V = (Seq<char>, (usize, usize));

    closed spec fn view(&self) -> (Seq<char>, (usize, usize)) {
        (self.message@, self.location@)
    }
}

/// What the engine's diagnostic node `raw` becomes against the buffer start
/// `base`: its decoded message and its translated location.
pub open spec fn diagnostic_of(raw: RawDiagnostic, base: usize) -> (Seq<char>, (usize, usize)) {
    (lossy_text(raw.message@), (offset_of(raw.start, base), offset_of(raw.end, base)))
}

impl Diagnostic {
    pub fn new(raw: &RawDiagnostic, parser_start: usize) -> (r: Diagnostic)
        ensures
            r@ == diagnostic_of(*raw, parser_start),
    {
        let message = decode_lossy(raw.message.as_slice());
        let location = Location::inner_new(raw.start, raw.end, parser_start);
        Diagnostic { message, location }
    }

    pub fn message(&self) -> (r: &str)
        ensures
            r@ == self@.0,
    {
        self.message.as_str()
    }

    pub fn location(&self) -> (r: &Range<usize>)
        ensures
            r.start == self@.1.0,
            r.end == self@.1.1,
    {
        self.location.as_range()
    }
}

impl PartialEq for Diagnostic {
    fn eq(&self, other: &Diagnostic) -> (r: bool)
        ensures
            r == (self@ == other@),
    {
        self.location == other.location && self.message == other.message
    }
}

impl vstd::std_specs::cmp::PartialEqSpecImpl for Diagnostic {
    open spec fn obeys_eq_spec() -> bool {
        true
    }

    open spec fn eq_spec(&self, other: &Diagnostic) -> bool {
        self@ == other@
    }
}

} // verus!
