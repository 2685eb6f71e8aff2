use std::ops::Range;
use vstd::prelude::*;

verus! {

/// The offset of the absolute address `addr` from the buffer start `base`.
/// An address below the base saturates to offset zero.
pub open spec fn offset_of(addr: usize, base: usize) -> usize {
    if addr >= base {
        (addr - base) as usize
    } else {
        0
    }
}

/// A byte range relative to the start of the parsed source buffer.
#[derive(Debug)]
pub struct Location {
    inner: Range<usize>,
}

impl View for Location {
    type V = (usize, usize);

    closed spec fn view(&self) -> (usize, usize) {
        (self.inner.start, self.inner.end)
    }
}

/// Translates one absolute address into an offset from `base`.
pub fn translate_offset(addr: usize, base: usize) -> (r: usize)
    ensures
        r == offset_of(addr, base),
{
    addr.saturating_sub(base)
}

impl Location {
    /// Translates the absolute pair `start`, `end` reported by the engine into
    /// offsets from `parser_start`, the address of the first source byte.
    pub fn inner_new(start: usize, end: usize, parser_start: usize) -> (r: Location)
        ensures
            r@ == (offset_of(start, parser_start), offset_of(end, parser_start)),
    {
        let s = translate_offset(start, parser_start);
        let e = translate_offset(end, parser_start);
        Location { inner: s..e }
    }

    pub fn as_range(&self) -> (r: &Range<usize>)
        ensures
            r.start == self@.0,
            r.end == self@.1,
    {
        &self.inner
    }
}

/// Translation keeps order: a start address that does not exceed the end
/// address gives a start offset that does not exceed the end offset, for
/// every base address.
pub proof fn translate_keeps_order(start: usize, end: usize, base: usize)
    requires
        start <= end,
    ensures
        offset_of(start, base) <= offset_of(end, base),
{
}

impl PartialEq for Location {
    fn eq(&self, other: &Location) -> (r: bool)
        ensures
            r == (self@ == other@),
    {
        self.inner.start == other.inner.start && self.inner.end == other.inner.end
    }
}

impl vstd::std_specs::cmp::PartialEqSpecImpl for Location {
    open spec fn obeys_eq_spec() -> bool {
        true
    }

    open spec fn eq_spec(&self, other: &Location) -> bool {
        self@ == other@
    }
}

} // verus!
