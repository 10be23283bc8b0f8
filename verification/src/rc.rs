//! Reference-counted dispatch objects.
//!
//! The foreign library sees every handler as a heap allocation that starts
//! with a struct of function pointers and an intrusive reference count; the
//! wrapped implementation value lives in the same allocation.  The library
//! retains and releases that allocation at will, and the allocation is torn
//! down exactly when the count reaches zero.
//!
//! [`DispatchObject`] is the verified model of that allocation: the count and
//! the implementation value, together with the three control operations the
//! foreign side drives (`add_ref`, `release`, `has_one_ref`).  The unsafe
//! layout and atomicity concerns of the real allocation cannot be expressed
//! here; what is proved is the counting discipline itself: the count tracks
//! the net sum of operations, an object is destroyed exactly when its last
//! reference is released, and destruction hands the wrapped value back
//! exactly once.

use vstd::prelude::*;

verus! {

/// What `release` did to the object: either at least one reference remains
/// and the object survives with its count decremented, or the released
/// reference was the last one and the wrapped value is handed back as the
/// allocation is torn down.
pub enum ReleaseOutcome<T> {
    Retained(DispatchObject<T>),
    Destroyed(T),
}

/// One reference-counted allocation: an implementation value together with
/// the number of live references to it.  A freshly wrapped value has exactly
/// one reference (the allocation's own), and the count stays at least one
/// for as long as the object exists: the only way to reach zero is the
/// [`DispatchObject::release`] that consumes the object.
pub struct DispatchObject<T> {
    ref_count: u64,
    interface: T,
}

impl<T> DispatchObject<T> {
    /// Number of live references.
    pub closed spec fn count(&self) -> u64 {
        self.ref_count
    }

    /// The wrapped implementation value.
    pub closed spec fn value(&self) -> T {
        self.interface
    }

    /// Wrap an implementation value; the new object holds the sole
    /// reference.
    pub fn new(interface: T) -> (obj: Self)
        ensures
            obj.count() == 1,
            obj.value() == interface,
    {
        DispatchObject { ref_count: 1, interface }
    }

    /// The foreign side retains one more reference.
    pub fn add_ref(&mut self)
        requires
            old(self).count() >= 1,
            old(self).count() < u64::MAX,
        ensures
            final(self).count() == old(self).count() + 1,
            final(self).value() == old(self).value(),
    {
        self.ref_count = self.ref_count + 1;
    }

    /// The foreign side drops one reference.  The object is destroyed if and
    /// only if this was the last one, and then the wrapped value comes back;
    /// releasing below zero is impossible because destruction consumes the
    /// object.
    pub fn release(self) -> (out: ReleaseOutcome<T>)
        requires
            self.count() >= 1,
        ensures
            match out {
                ReleaseOutcome::Retained(obj) => {
                    &&& self.count() > 1
                    &&& obj.count() == self.count() - 1
                    &&& obj.value() == self.value()
                },
                ReleaseOutcome::Destroyed(v) => {
                    &&& self.count() == 1
                    &&& v == self.value()
                },
            },
    {
        if self.ref_count == 1 {
            ReleaseOutcome::Destroyed(self.interface)
        } else {
            ReleaseOutcome::Retained(DispatchObject {
                ref_count: self.ref_count - 1,
                interface: self.interface,
            })
        }
    }

    /// True exactly when the allocation's own reference is the only one
    /// left.
    pub fn has_one_ref(&self) -> (r: bool)
        ensures
            r == (self.count() == 1),
    {
        self.ref_count == 1
    }

    /// Read access to the wrapped value, as a trampoline recovers it before
    /// forwarding a call.
    pub fn interface(&self) -> (r: &T)
        ensures
            r == self.value(),
    {
        &self.interface
    }

    /// Mutable access to the wrapped value for forwarded calls that update
    /// the handler's state.  Only the value can change through the returned
    /// reference; the count cannot.
    pub fn interface_mut(&mut self) -> (r: &mut T)
        ensures
            *r == old(self).value(),
            final(self).value() == *final(r),
            final(self).count() == old(self).count(),
    {
        &mut self.interface
    }
}

/// One foreign-driven operation on a reference count.
#[derive(Clone, Copy, Debug, PartialEq, Eq, Structural)]
pub enum RefOp {
    AddRef,
    Release,
}

/// The count after one operation.
pub open spec fn apply_ref_op(count: int, op: RefOp) -> int {
    match op {
        RefOp::AddRef => count + 1,
        RefOp::Release => count - 1,
    }
}

/// The count after a sequence of operations, applied in order.
pub open spec fn count_after(count: int, ops: Seq<RefOp>) -> int
    decreases ops.len(),
{
    if ops.len() == 0 {
        count
    } else {
        count_after(apply_ref_op(count, ops.first()), ops.drop_first())
    }
}

/// How many of the operations retain.
pub open spec fn add_refs_in(ops: Seq<RefOp>) -> int
    decreases ops.len(),
{
    if ops.len() == 0 {
        0
    } else {
        (if ops.first() == RefOp::AddRef {
            1int
        } else {
            0int
        }) + add_refs_in(ops.drop_first())
    }
}

/// How many of the operations release.
pub open spec fn releases_in(ops: Seq<RefOp>) -> int
    decreases ops.len(),
{
    if ops.len() == 0 {
        0
    } else {
        (if ops.first() == RefOp::Release {
            1int
        } else {
            0int
        }) + releases_in(ops.drop_first())
    }
}

/// Whatever order retains and releases arrive in, the count they leave
/// behind is the starting count plus the net sum of the operations and
/// nothing else.  Every interleaving of the same multiset of operations
/// therefore lands on the same count.
pub proof fn lemma_count_is_net_sum(count: int, ops: Seq<RefOp>)
    ensures
        count_after(count, ops) == count + add_refs_in(ops) - releases_in(ops),
    decreases ops.len(),
{
    if ops.len() > 0 {
        lemma_count_is_net_sum(apply_ref_op(count, ops.first()), ops.drop_first());
    }
}

/// Appending one operation adds its contribution to the retain tally.
proof fn lemma_add_refs_in_push(s: Seq<RefOp>, x: RefOp)
    ensures
        add_refs_in(s.push(x)) == add_refs_in(s) + (if x == RefOp::AddRef {
            1int
        } else {
            0int
        }),
        releases_in(s.push(x)) == releases_in(s) + (if x == RefOp::Release {
            1int
        } else {
            0int
        }),
    decreases s.len(),
{
    if s.len() == 0 {
        assert(s.push(x).first() == x);
        assert(s.push(x).drop_first() =~= Seq::<RefOp>::empty());
        assert(add_refs_in(Seq::<RefOp>::empty()) == 0);
        assert(releases_in(Seq::<RefOp>::empty()) == 0);
    } else {
        assert(s.push(x).first() == s.first());
        assert(s.push(x).drop_first() =~= s.drop_first().push(x));
        lemma_add_refs_in_push(s.drop_first(), x);
    }
}

/// The retain and release tallies depend only on the multiset of
/// operations, not on their order.
proof fn lemma_ops_multiset(s: Seq<RefOp>)
    ensures
        add_refs_in(s) == s.to_multiset().count(RefOp::AddRef),
        releases_in(s) == s.to_multiset().count(RefOp::Release),
    decreases s.len(),
{
    broadcast use vstd::seq_lib::group_to_multiset_ensures;

    if s.len() == 0 {
        assert(!s.contains(RefOp::AddRef));
        assert(!s.contains(RefOp::Release));
    } else {
        let s0 = s.drop_last();
        assert(s =~= s0.push(s.last()));
        lemma_ops_multiset(s0);
        lemma_add_refs_in_push(s0, s.last());
        assert(s0.push(s.last()).to_multiset() =~= s0.to_multiset().insert(s.last()));
    }
}

/// Two interleavings of the same operations end on the same count: the
/// foreign threads' retains and releases can arrive in any order without
/// the final count depending on it.
pub proof fn lemma_interleaving_count(count: int, a: Seq<RefOp>, b: Seq<RefOp>)
    requires
        a.to_multiset() == b.to_multiset(),
    ensures
        count_after(count, a) == count_after(count, b),
{
    lemma_count_is_net_sum(count, a);
    lemma_count_is_net_sum(count, b);
    lemma_ops_multiset(a);
    lemma_ops_multiset(b);
}

/// Splitting a sequence of operations splits the count computation.
pub proof fn lemma_count_after_concat(count: int, a: Seq<RefOp>, b: Seq<RefOp>)
    ensures
        count_after(count, a + b) == count_after(count_after(count, a), b),
    decreases a.len(),
{
    if a.len() == 0 {
        assert(a + b =~= b);
    } else {
        assert((a + b).first() == a.first());
        assert((a + b).drop_first() =~= a.drop_first() + b);
        lemma_count_after_concat(apply_ref_op(count, a.first()), a.drop_first(), b);
    }
}

/// A run of retains raises the count by its length.
proof fn lemma_count_after_adds(count: int, n: nat)
    ensures
        count_after(count, Seq::new(n, |i: int| RefOp::AddRef)) == count + n,
    decreases n,
{
    if n > 0 {
        let s = Seq::new(n, |i: int| RefOp::AddRef);
        assert(s.first() == RefOp::AddRef);
        assert(s.drop_first() =~= Seq::new((n - 1) as nat, |i: int| RefOp::AddRef));
        lemma_count_after_adds(count + 1, (n - 1) as nat);
    }
}

/// A run of releases lowers the count by its length.
proof fn lemma_count_after_releases(count: int, n: nat)
    ensures
        count_after(count, Seq::new(n, |i: int| RefOp::Release)) == count - n,
    decreases n,
{
    if n > 0 {
        let s = Seq::new(n, |i: int| RefOp::Release);
        assert(s.first() == RefOp::Release);
        assert(s.drop_first() =~= Seq::new((n - 1) as nat, |i: int| RefOp::Release));
        lemma_count_after_releases(count - 1, (n - 1) as nat);
    }
}

/// Retaining any number of times and then releasing the same number of
/// times leaves the count exactly where it started.
pub proof fn lemma_balanced_ops(count: int, n: nat)
    ensures
        count_after(
            count,
            Seq::new(n, |i: int| RefOp::AddRef) + Seq::new(n, |i: int| RefOp::Release),
        ) == count,
{
    lemma_count_after_concat(
        count,
        Seq::new(n, |i: int| RefOp::AddRef),
        Seq::new(n, |i: int| RefOp::Release),
    );
    lemma_count_after_adds(count, n);
    lemma_count_after_releases(count + n, n);
}

/// Retaining a dispatch object any number of times and then releasing it the
/// same number of times leaves its count where it started and never lets it
/// reach zero, so the object survives the churn with its value intact.
pub fn balanced_churn<T>(obj: DispatchObject<T>, n: u64) -> (r: DispatchObject<T>)
    requires
        obj.count() >= 1,
        obj.count() + n <= u64::MAX,
    ensures
        r.count() == obj.count(),
        r.value() == obj.value(),
{
    let ghost c0 = obj.count();
    let ghost v0 = obj.value();
    let mut o = obj;
    let mut k: u64 = 0;
    while k < n
        invariant
            k <= n,
            c0 >= 1,
            c0 + n <= u64::MAX,
            o.count() == c0 + k,
            o.value() == v0,
        decreases n - k,
    {
        o.add_ref();
        k = k + 1;
    }
    let mut k: u64 = 0;
    while k < n
        invariant
            k <= n,
            c0 >= 1,
            c0 + n <= u64::MAX,
            o.count() == c0 + n - k,
            o.value() == v0,
        decreases n - k,
    {
        match o.release() {
            ReleaseOutcome::Retained(o2) => {
                o = o2;
            },
            ReleaseOutcome::Destroyed(v) => {
                assert(false);
                o = DispatchObject::new(v);
            },
        }
        k = k + 1;
    }
    o
}

/// Wrapping a value, retaining it `n` times and then releasing `n + 1`
/// times destroys the object exactly at the last release: every earlier
/// release leaves it alive, and the destruction hands the wrapped value
/// back exactly once.
pub fn churn_to_destruction<T>(value: T, n: u64) -> (v: T)
    requires
        n < u64::MAX,
    ensures
        v == value,
{
    let ghost v0 = value;
    let mut o = DispatchObject::new(value);
    let mut k: u64 = 0;
    while k < n
        invariant
            k <= n,
            n < u64::MAX,
            o.count() == 1 + k,
            o.value() == v0,
        decreases n - k,
    {
        o.add_ref();
        k = k + 1;
    }
    let mut k: u64 = 0;
    while k < n
        invariant
            k <= n,
            o.count() == 1 + n - k,
            o.value() == v0,
        decreases n - k,
    {
        match o.release() {
            ReleaseOutcome::Retained(o2) => {
                o = o2;
            },
            ReleaseOutcome::Destroyed(v) => {
                assert(false);
                o = DispatchObject::new(v);
            },
        }
        k = k + 1;
    }
    match o.release() {
        ReleaseOutcome::Destroyed(v) => v,
        ReleaseOutcome::Retained(o2) => {
            assert(false);
            o2.interface
        },
    }
}

/// A freshly wrapped value reports exactly one reference, and stops doing so
/// as soon as the foreign side retains it once more.
pub fn sole_reference_flips_on_retain<T>(value: T) -> (r: (bool, bool))
    ensures
        r.0 == true,
        r.1 == false,
{
    let mut o = DispatchObject::new(value);
    let before = o.has_one_ref();
    o.add_ref();
    let after = o.has_one_ref();
    (before, after)
}

} // verus!
