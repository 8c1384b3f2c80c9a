//! Admission control: a pool of permits that bounds how many transactions
//! may await confirmation at once.

use vstd::prelude::*;

verus! {

/// The number of permits of a pool made with [`AdmissionController::default`].
pub const DEFAULT_CAPACITY: usize = 100;

/// A counting pool of permits. A permit is taken before a confirmation starts
/// and given back exactly once when it ends, however it ends.
#[derive(Debug, Clone, Copy)]
pub struct AdmissionController {
    capacity: usize,
    outstanding: usize,
}

impl AdmissionController {
    /// The number of permits in the pool, held or not.
    pub closed spec fn capacity(&self) -> nat {
        self.capacity as nat
    }

    /// The number of permits that are held.
    pub closed spec fn outstanding(&self) -> nat {
        self.outstanding as nat
    }

    /// Never more permits are held than the pool has.
    pub open spec fn wf(&self) -> bool {
        self.outstanding() <= self.capacity()
    }

    /// A pool of `capacity` permits, none of them held.
    pub fn new(capacity: usize) -> (pool: Self)
        ensures
            pool.wf(),
            pool.capacity() == capacity,
            pool.outstanding() == 0,
    {
        AdmissionController { capacity, outstanding: 0 }
    }

    /// The number of permits in the pool.
    pub fn permits(&self) -> (n: usize)
        ensures
            n == self.capacity(),
    {
        self.capacity
    }

    /// The number of permits that are held.
    pub fn held(&self) -> (n: usize)
        ensures
            n == self.outstanding(),
    {
        self.outstanding
    }

    /// The number of permits that are free.
    pub fn available(&self) -> (n: usize)
        requires
            self.wf(),
        ensures
            n == self.capacity() - self.outstanding(),
    {
        self.capacity - self.outstanding
    }

    /// Takes a permit if one is free, and says whether it did. A caller that is
    /// refused has to wait until a permit is released.
    pub fn try_acquire(&mut self) -> (granted: bool)
        requires
            old(self).wf(),
        ensures
            final(self).wf(),
            final(self).capacity() == old(self).capacity(),
            granted == (old(self).outstanding() < old(self).capacity()),
            final(self).outstanding() == old(self).outstanding() + if granted { 1nat } else { 0nat },
    {
        if self.outstanding < self.capacity {
            self.outstanding = self.outstanding + 1;
            true
        } else {
            false
        }
    }

    /// Gives a held permit back to the pool.
    pub fn release(&mut self)
        requires
            old(self).wf(),
            old(self).outstanding() > 0,
        ensures
            final(self).wf(),
            final(self).capacity() == old(self).capacity(),
            final(self).outstanding() == old(self).outstanding() - 1,
    {
        self.outstanding = self.outstanding - 1;
    }
}

impl Default for AdmissionController {
    fn default() -> (pool: Self)
        ensures
            pool.wf(),
            pool.capacity() == DEFAULT_CAPACITY,
            pool.outstanding() == 0,
    {
        AdmissionController::new(DEFAULT_CAPACITY)
    }
}

/// One request made of a pool.
pub enum PermitOp {
    Acquire,
    Release,
}

/// The number of permits held after the requests `ops` were made, in order, of
/// a pool of `capacity` permits of which `held` were held: an acquire takes
/// a permit where one is free and is refused otherwise, a release gives one
/// back. `None` where a release was asked with no permit held.
pub open spec fn held_after(capacity: nat, held: nat, ops: Seq<PermitOp>) -> Option<nat>
    decreases ops.len(),
{
    if ops.len() == 0 {
        Some(held)
    } else {
        match ops[0] {
            PermitOp::Acquire => held_after(
                capacity,
                if held < capacity { held + 1 } else { held },
                ops.skip(1),
            ),
            PermitOp::Release => if held == 0 {
                None
            } else {
                held_after(capacity, (held - 1) as nat, ops.skip(1))
            },
        }
    }
}

/// Whatever requests are made of a pool, and in whatever order, it never has
/// more permits held than its capacity.
pub proof fn lemma_held_never_exceeds_capacity(capacity: nat, held: nat, ops: Seq<PermitOp>)
    requires
        held <= capacity,
    ensures
        held_after(capacity, held, ops) matches Some(n) ==> n <= capacity,
    decreases ops.len(),
{
    if ops.len() > 0 {
        match ops[0] {
            PermitOp::Acquire => {
                lemma_held_never_exceeds_capacity(
                    capacity,
                    if held < capacity { held + 1 } else { held },
                    ops.skip(1),
                );
            },
            PermitOp::Release => {
                if held > 0 {
                    lemma_held_never_exceeds_capacity(capacity, (held - 1) as nat, ops.skip(1));
                }
            },
        }
    }
}

/// The number of acquires among `ops` that were granted a permit, when the
/// requests were made of a pool of `capacity` permits of which `held` were
/// held.
pub open spec fn granted(capacity: nat, held: nat, ops: Seq<PermitOp>) -> nat
    decreases ops.len(),
{
    if ops.len() == 0 {
        0
    } else {
        match ops[0] {
            PermitOp::Acquire => if held < capacity {
                1 + granted(capacity, held + 1, ops.skip(1))
            } else {
                granted(capacity, held, ops.skip(1))
            },
            PermitOp::Release => granted(capacity, (held - 1) as nat, ops.skip(1)),
        }
    }
}

/// The number of releases among `ops`.
pub open spec fn released(ops: Seq<PermitOp>) -> nat
    decreases ops.len(),
{
    if ops.len() == 0 {
        0
    } else {
        released(ops.skip(1)) + match ops[0] {
            PermitOp::Acquire => 0nat,
            PermitOp::Release => 1nat,
        }
    }
}

/// Permits are neither lost nor made: the permits held in the end and those
/// given back are together the permits held at first and those granted. So
/// once none is held, every permit that was granted has been given back
/// exactly once.
pub proof fn lemma_permits_balance(capacity: nat, held: nat, ops: Seq<PermitOp>)
    requires
        held <= capacity,
    ensures
        held_after(capacity, held, ops) matches Some(n) ==> n + released(ops) == held + granted(
            capacity,
            held,
            ops,
        ),
    decreases ops.len(),
{
    if ops.len() > 0 {
        match ops[0] {
            PermitOp::Acquire => {
                lemma_permits_balance(
                    capacity,
                    if held < capacity { held + 1 } else { held },
                    ops.skip(1),
                );
            },
            PermitOp::Release => {
                if held > 0 {
                    lemma_permits_balance(capacity, (held - 1) as nat, ops.skip(1));
                }
            },
        }
    }
}

} // verus!
