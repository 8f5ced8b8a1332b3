//! Device addresses and the pool that hands them out.
use vstd::prelude::*;

verus! {

/// The highest address a device can be given.
pub const MAX_DEVICES: u8 = 127;

/// The address of a device on the bus: 0 before the device was addressed,
/// 1 to 127 afterwards.
#[derive(Clone, Copy, Debug, PartialEq, Eq, Structural)]
pub struct DevAddress(u8);

impl View for DevAddress {
    type V = u8;

    closed spec fn view(&self) -> u8 {
        self.0
    }
}

impl DevAddress {
    #[verifier::type_invariant]
    spec fn in_range(self) -> bool {
        self.0 <= MAX_DEVICES
    }

    /// The address with the number `addr`.
    pub fn from_u8(addr: u8) -> (a: DevAddress)
        requires
            addr <= MAX_DEVICES,
        ensures
            a@ == addr,
    {
        DevAddress(addr)
    }

    /// The address with the number `addr`, where there is one.
    pub fn checked(addr: u8) -> (a: Option<DevAddress>)
        ensures
            addr <= MAX_DEVICES ==> (a matches Some(d) && d@ == addr),
            addr > MAX_DEVICES ==> a is None,
    {
        if addr <= MAX_DEVICES {
            Some(DevAddress(addr))
        } else {
            None
        }
    }

    /// The number of the address; never above [`MAX_DEVICES`].
    pub fn number(self) -> (n: u8)
        ensures
            n == self@,
            n <= MAX_DEVICES,
    {
        proof {
            use_type_invariant(self);
        }
        self.0
    }
}

/// Two addresses with the same number are the same address.
pub proof fn lemma_same_number(a: DevAddress, b: DevAddress)
    requires
        a@ == b@,
    ensures
        a == b,
{
}

impl From<DevAddress> for u8 {
    fn from(addr: DevAddress) -> (n: u8)
        ensures
            n == addr@,
    {
        addr.0
    }
}

impl vstd::std_specs::convert::FromSpecImpl<DevAddress> for u8 {
    open spec fn obeys_from_spec() -> bool {
        true
    }

    open spec fn from_spec(addr: DevAddress) -> u8 {
        addr@
    }
}

/// Whether `a` is an address that a pool can hand out.
pub open spec fn assignable(a: int) -> bool {
    1 <= a <= MAX_DEVICES
}

/// The lowest member of `free` that is at least `from`, or 128 where there is
/// none up to 127.
pub open spec fn lowest_from(free: Set<int>, from: int) -> int
    decreases 128 - from,
{
    if from >= 128 {
        128
    } else if free.contains(from) {
        from
    } else {
        lowest_from(free, from + 1)
    }
}

/// The address that a pool with the free addresses `free` hands out next.
pub open spec fn pool_next(free: Set<int>) -> Option<int> {
    if lowest_from(free, 1) <= MAX_DEVICES {
        Some(lowest_from(free, 1))
    } else {
        None
    }
}

/// The free addresses after the pool has handed out its next one.
pub open spec fn pool_after_take(free: Set<int>) -> Set<int> {
    match pool_next(free) {
        Some(a) => free.remove(a),
        None => free,
    }
}

/// The free addresses after `a` has come back.
pub open spec fn pool_after_put(free: Set<int>, a: int) -> Set<int> {
    if assignable(a) {
        free.insert(a)
    } else {
        free
    }
}

/// Every address that can be handed out.
pub open spec fn full_pool() -> Set<int> {
    Set::new(|a: int| assignable(a))
}

/// The addresses 1 to 127, each free or taken.
pub struct AddressPool {
    pool_bits: u128,
}

/// Bit `a` of `bits`.
pub open spec fn bit_of(bits: u128, a: int) -> bool {
    0 <= a < 128 && (bits >> (a as u128)) & 1 == 1
}

const FULL_POOL: u128 = 0xffff_ffff_ffff_ffff_ffff_ffff_ffff_fffe;

proof fn lemma_full_pool_bits(a: u128)
    by (bit_vector)
    requires
        a < 128,
    ensures
        ((0xffff_ffff_ffff_ffff_ffff_ffff_ffff_fffeu128 >> a) & 1 == 1) <==> a != 0,
{
}

proof fn lemma_clear_bit(bits: u128, a: u128, b: u128)
    by (bit_vector)
    requires
        a < 128,
        b < 128,
    ensures
        (((bits & !(1u128 << a)) >> b) & 1 == 1) <==> (b != a && (bits >> b) & 1 == 1),
{
}

proof fn lemma_set_bit(bits: u128, a: u128, b: u128)
    by (bit_vector)
    requires
        a < 128,
        b < 128,
    ensures
        (((bits | (1u128 << a)) >> b) & 1 == 1) <==> (b == a || (bits >> b) & 1 == 1),
{
}

proof fn lemma_lowest_is(free: Set<int>, from: int, a: int)
    requires
        1 <= from <= a <= MAX_DEVICES,
        free.contains(a),
        forall|b: int| from <= b < a ==> !free.contains(b),
    ensures
        lowest_from(free, from) == a,
    decreases a - from,
{
    if from < a {
        lemma_lowest_is(free, from + 1, a);
    }
}

proof fn lemma_lowest_none(free: Set<int>, from: int)
    requires
        1 <= from <= 128,
        forall|b: int| from <= b <= MAX_DEVICES ==> !free.contains(b),
    ensures
        lowest_from(free, from) == 128,
    decreases 128 - from,
{
    if from < 128 {
        lemma_lowest_none(free, from + 1);
    }
}

impl AddressPool {
    /// The addresses that are free: a subset of 1 to 127.
    pub closed spec fn free(&self) -> Set<int> {
        Set::new(|a: int| assignable(a) && bit_of(self.pool_bits, a))
    }

    #[verifier::type_invariant]
    spec fn only_addresses(self) -> bool {
        !bit_of(self.pool_bits, 0)
    }

    /// The pool as it is when nothing has been handed out.
    pub closed spec fn fresh() -> Self {
        AddressPool { pool_bits: FULL_POOL }
    }

    /// A pool in which every address is free.
    pub fn new() -> (pool: Self)
        ensures
            pool == Self::fresh(),
            pool.free() == full_pool(),
    {
        proof {
            assert forall|a: int| 0 <= a < 128 implies (#[trigger] bit_of(FULL_POOL, a) <==> a != 0) by {
                lemma_full_pool_bits(a as u128);
            }
        }
        let pool = Self { pool_bits: FULL_POOL };
        proof {
            assert(pool.free() =~= full_pool());
        }
        pool
    }

    /// Frees every address: the pool is as new.
    pub fn reset(&mut self)
        ensures
            *final(self) == Self::fresh(),
            final(self).free() == full_pool(),
    {
        proof {
            assert forall|a: int| 0 <= a < 128 implies (#[trigger] bit_of(FULL_POOL, a) <==> a != 0) by {
                lemma_full_pool_bits(a as u128);
            }
        }
        self.pool_bits = FULL_POOL;
        proof {
            assert(self.free() =~= full_pool());
        }
    }

    /// Takes the lowest free address, if one is left.
    pub fn take_next(&mut self) -> (next: Option<DevAddress>)
        ensures
            match next {
                Some(addr) => pool_next(old(self).free()) == Some(addr@ as int),
                None => pool_next(old(self).free()) is None,
            },
            final(self).free() == pool_after_take(old(self).free()),
            next matches Some(addr) ==> assignable(addr@ as int) && old(self).free().contains(
                addr@ as int,
            ),
            next is None <==> old(self).free() == Set::<int>::empty(),
    {
        proof {
            use_type_invariant(&*self);
        }
        let mut next: u8 = 1;
        while next <= MAX_DEVICES
            invariant
                1 <= next <= 128,
                *self == *old(self),
                !bit_of(self.pool_bits, 0),
                forall|b: int| 1 <= b < next ==> !self.free().contains(b),
            decreases 128 - next,
        {
            if (self.pool_bits >> (next as u128)) & 1 == 1 {
                let ghost before = self.pool_bits;
                let cleared = self.pool_bits & !(1u128 << (next as u128));
                proof {
                    assert forall|b: int| 0 <= b < 128 implies (#[trigger] bit_of(cleared, b) <==> (b
                        != next && bit_of(before, b))) by {
                        lemma_clear_bit(before, next as u128, b as u128);
                    }
                    assert(!bit_of(cleared, 0));
                }
                self.pool_bits = cleared;
                proof {
                    assert(old(self).free().contains(next as int));
                    lemma_lowest_is(old(self).free(), 1, next as int);
                    assert(self.free() =~= old(self).free().remove(next as int));
                }
                return Some(DevAddress(next));
            }
            next = next + 1;
        }
        proof {
            lemma_lowest_none(old(self).free(), 1);
            assert(old(self).free() =~= Set::<int>::empty());
        }
        None
    }

    /// Frees `addr` again. Address 0 is no member of the pool: nothing changes.
    pub fn put_back(&mut self, addr: DevAddress)
        ensures
            final(self).free() == pool_after_put(old(self).free(), addr@ as int),
    {
        proof {
            use_type_invariant(&*self);
        }
        let n: u8 = addr.number();
        if 1 <= n && n <= MAX_DEVICES {
            let ghost before = self.pool_bits;
            let set = self.pool_bits | (1u128 << (n as u128));
            proof {
                assert forall|b: int| 0 <= b < 128 implies (#[trigger] bit_of(set, b) <==> (b == n
                    || bit_of(before, b))) by {
                    lemma_set_bit(before, n as u128, b as u128);
                }
                assert(!bit_of(set, 0));
            }
            self.pool_bits = set;
            proof {
                assert(self.free() =~= old(self).free().insert(n as int));
            }
        } else {
            assert(self.free() =~= old(self).free());
        }
    }
}

/// One call on a pool.
pub enum PoolOp {
    /// `take_next`
    Take,
    /// `put_back` of the address
    PutBack(DevAddress),
}

/// What a run of calls has left: the free addresses, and those handed out
/// that have not come back.
pub struct PoolTrace {
    pub free: Set<int>,
    pub held: Set<int>,
}

/// The trace after one more call.
pub open spec fn trace_step(t: PoolTrace, op: PoolOp) -> PoolTrace {
    match op {
        PoolOp::Take => match pool_next(t.free) {
            Some(a) => PoolTrace { free: pool_after_take(t.free), held: t.held.insert(a) },
            None => t,
        },
        PoolOp::PutBack(a) => PoolTrace {
            free: pool_after_put(t.free, a@ as int),
            held: t.held.remove(a@ as int),
        },
    }
}

/// The trace of the calls `ops`, made in order on a new pool.
pub open spec fn trace_of(ops: Seq<PoolOp>) -> PoolTrace
    decreases ops.len(),
{
    if ops.len() == 0 {
        PoolTrace { free: full_pool(), held: Set::empty() }
    } else {
        trace_step(trace_of(ops.drop_last()), ops.last())
    }
}

/// What the pool hands out next is free, and an address from 1 to 127; no
/// lower address is free.
pub proof fn lemma_next_is_lowest(free: Set<int>)
    ensures
        pool_next(free) matches Some(a) ==> assignable(a) && free.contains(a) && forall|b: int|
            1 <= b < a ==> !free.contains(b),
        pool_next(free) is None ==> forall|b: int| assignable(b) ==> !free.contains(b),
{
    lemma_lowest_from(free, 1);
}

proof fn lemma_lowest_from(free: Set<int>, from: int)
    requires
        1 <= from <= 128,
    ensures
        from <= lowest_from(free, from) <= 128,
        lowest_from(free, from) < 128 ==> free.contains(lowest_from(free, from)),
        forall|b: int| from <= b < lowest_from(free, from) ==> !free.contains(b),
    decreases 128 - from,
{
    if from < 128 && !free.contains(from) {
        lemma_lowest_from(free, from + 1);
    }
}

/// After any run of `take_next` and `put_back` on a new pool, the addresses
/// handed out and not yet put back are all from 1 to 127 and none of them is
/// free: the next `take_next` returns an address from 1 to 127 that no
/// caller still holds.
pub proof fn lemma_taken_addresses_unique(ops: Seq<PoolOp>)
    ensures
        forall|a: int| #[trigger] trace_of(ops).held.contains(a) ==> assignable(a) && !trace_of(
            ops,
        ).free.contains(a),
        forall|a: int| #[trigger] trace_of(ops).free.contains(a) ==> assignable(a),
        pool_next(trace_of(ops).free) matches Some(a) ==> assignable(a) && !trace_of(
            ops,
        ).held.contains(a),
    decreases ops.len(),
{
    if ops.len() > 0 {
        let before = trace_of(ops.drop_last());
        lemma_taken_addresses_unique(ops.drop_last());
        lemma_next_is_lowest(before.free);
    }
    lemma_next_is_lowest(trace_of(ops).free);
}

/// A new pool hands out 1, 2, ... in order: after `n` calls of `take_next`
/// the addresses above `n` are free, and once 127 were taken none is left.
pub proof fn lemma_sequential(n: int)
    requires
        0 <= n <= MAX_DEVICES,
    ensures
        trace_of(Seq::new(n as nat, |i: int| PoolOp::Take)).free == Set::new(
            |a: int| n < a <= MAX_DEVICES,
        ),
        n < MAX_DEVICES ==> pool_next(trace_of(Seq::new(n as nat, |i: int| PoolOp::Take)).free)
            == Some(n + 1),
        n == MAX_DEVICES ==> pool_next(trace_of(Seq::new(n as nat, |i: int| PoolOp::Take)).free)
            is None,
    decreases n,
{
    let ops = Seq::new(n as nat, |i: int| PoolOp::Take);
    let rest = Set::new(|a: int| n < a <= MAX_DEVICES);
    if n == 0 {
        assert(trace_of(ops).free =~= rest);
    } else {
        lemma_sequential(n - 1);
        assert(ops.drop_last() =~= Seq::new((n - 1) as nat, |i: int| PoolOp::Take));
        assert(trace_of(ops).free =~= rest);
    }
    if n < MAX_DEVICES {
        lemma_lowest_is(rest, 1, n + 1);
    } else {
        lemma_lowest_none(rest, 1);
    }
}

} // verus!
