use vstd::prelude::*;

use crate::engine::RawConstant;

verus! {

/// An interned identifier of the engine's constant pool.
#[derive(Debug)]
pub struct Constant {
    id: u32,
    hash: usize,
    name: Vec<u8>,
}

impl View for Constant {
    type V = (u32, usize, Seq<u8>);

    closed spec fn view(&self) -> (u32, usize, Seq<u8>) {
        (self.id, self.hash, self.name@)
    }
}

/// The entry that the pool slot `c` becomes.
pub open spec fn constant_of(c: RawConstant) -> (u32, usize, Seq<u8>) {
    (c.id, c.hash, c.name@)
}

/// The entries of the pool `pool`, in slot order, without the unused slots
/// (those with id zero).
pub open spec fn live_constants(pool: Seq<RawConstant>) -> Seq<(u32, usize, Seq<u8>)>
    decreases pool.len(),
{
    if pool.len() == 0 {
        Seq::empty()
    } else {
        let rest = live_constants(pool.drop_last());
        if pool.last().id != 0 {
            rest.push(constant_of(pool.last()))
        } else {
            rest
        }
    }
}

/// No entry of the exposed pool has id zero, whatever the engine's pool holds.
pub proof fn live_constants_skip_unused(pool: Seq<RawConstant>)
    ensures
        forall|i: int|
            0 <= i < live_constants(pool).len() ==> (#[trigger] live_constants(pool)[i]).0 != 0,
    decreases pool.len(),
{
    if pool.len() > 0 {
        let rest = live_constants(pool.drop_last());
        live_constants_skip_unused(pool.drop_last());
        assert forall|i: int| 0 <= i < live_constants(pool).len() implies (#[trigger] live_constants(
            pool,
        )[i]).0 != 0 by {
            if i < rest.len() {
                assert(live_constants(pool)[i] == rest[i]);
            }
        }
    }
}

fn copy_bytes(b: &Vec<u8>) -> (r: Vec<u8>)
    ensures
        r@ == b@,
{
    let mut out: Vec<u8> = Vec::new();
    let mut i: usize = 0;
    while i < b.len()
        invariant
            i <= b@.len(),
            out@ == b@.subrange(0, i as int),
        decreases b@.len() - i,
    {
        out.push(b[i]);
        i = i + 1;
        assert(out@ =~= b@.subrange(0, i as int));
    }
    assert(out@ =~= b@);
    out
}

impl Constant {
    pub fn new(c: &RawConstant) -> (r: Constant)
        ensures
            r@ == constant_of(*c),
    {
        Constant { id: c.id, hash: c.hash, name: copy_bytes(&c.name) }
    }

    pub fn id(&self) -> (r: u32)
        ensures
            r == self@.0,
    {
        self.id
    }

    /// The engine's stable hash of the identifier.
    pub fn hash_value(&self) -> (r: usize)
        ensures
            r == self@.1,
    {
        self.hash
    }

    pub fn name(&self) -> (r: &[u8])
        ensures
            r@ == self@.2,
    {
        self.name.as_slice()
    }
}

/// The exposed constant pool: every used slot of `pool`, in order.
pub fn constant_pool(pool: &Vec<RawConstant>) -> (r: Vec<Constant>)
    ensures
        r@.len() == live_constants(pool@).len(),
        forall|i: int| 0 <= i < r@.len() ==> (#[trigger] r@[i])@ == live_constants(pool@)[i],
        forall|i: int| 0 <= i < r@.len() ==> (#[trigger] r@[i])@.0 != 0,
{
    let mut out: Vec<Constant> = Vec::new();
    let mut i: usize = 0;
    while i < pool.len()
        invariant
            i <= pool@.len(),
            out@.len() == live_constants(pool@.subrange(0, i as int)).len(),
            forall|j: int|
                0 <= j < out@.len() ==> (#[trigger] out@[j])@ == live_constants(
                    pool@.subrange(0, i as int),
                )[j],
        decreases pool@.len() - i,
    {
        assert(pool@.subrange(0, i + 1 as int).drop_last() =~= pool@.subrange(0, i as int));
        if pool[i].id != 0 {
            out.push(Constant::new(&pool[i]));
        }
        i = i + 1;
    }
    assert(pool@.subrange(0, pool@.len() as int) =~= pool@);
    proof {
        live_constants_skip_unused(pool@);
    }
    out
}

} // verus!
