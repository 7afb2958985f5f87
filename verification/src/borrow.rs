//! Runtime borrow discipline for the shared buffer pool.
//!
//! Which node reads or writes which buffer is only known once the graph is
//! built, so exclusivity cannot be checked at compile time. The scheduler
//! instead keeps one ledger entry per buffer slot and asks it for a claim
//! before handing out a view: many read claims may coexist, a write claim
//! excludes everything else, and a conflicting acquisition fails
//! deterministically instead of corrupting data. Claims are unforgeable
//! move-only tokens, so a claim can be released at most once.

use vstd::pervasive::VecAdditionalExecFns;
use vstd::prelude::*;

verus! {

/// The claims outstanding on one buffer slot.
#[derive(Clone, Copy, Debug, PartialEq, Eq, Structural)]
pub struct BorrowState {
    /// Number of read claims outstanding.
    pub readers: usize,
    /// Whether a write claim is outstanding.
    pub writer: bool,
}

/// A slot never carries a write claim beside any other claim.
pub open spec fn slot_ok(s: BorrowState) -> bool {
    !(s.writer && s.readers > 0)
}

/// Whether any claim is outstanding on a slot.
pub open spec fn slot_claimed(s: BorrowState) -> bool {
    s.writer || s.readers > 0
}

/// Whether a slot admits one more shared-read claim.
pub open spec fn read_acquire_ok(s: BorrowState) -> bool {
    !s.writer && s.readers < usize::MAX
}

/// Whether a slot admits an exclusive-write claim.
pub open spec fn write_acquire_ok(s: BorrowState) -> bool {
    !slot_claimed(s)
}

/// A shared-read claim on one buffer slot, held for at most one block.
pub struct ReadClaim {
    slot: usize,
}

impl ReadClaim {
    /// The slot this claim covers.
    pub closed spec fn slot_spec(&self) -> int {
        self.slot as int
    }

    /// The slot this claim covers.
    pub fn slot(&self) -> (i: usize)
        ensures
            i == self.slot_spec(),
    {
        self.slot
    }
}

/// An exclusive-write claim on one buffer slot, held for at most one block.
pub struct WriteClaim {
    slot: usize,
}

impl WriteClaim {
    /// The slot this claim covers.
    pub closed spec fn slot_spec(&self) -> int {
        self.slot as int
    }

    /// The slot this claim covers.
    pub fn slot(&self) -> (i: usize)
        ensures
            i == self.slot_spec(),
    {
        self.slot
    }
}

/// The per-slot claim ledger of a buffer pool.
pub struct BorrowLedger {
    slots: Vec<BorrowState>,
}

impl View for BorrowLedger {
    type V = Seq<BorrowState>;

    closed spec fn view(&self) -> Seq<BorrowState> {
        self.slots@
    }
}

/// Every slot of the ledger respects the borrow discipline.
pub open spec fn ledger_wf(l: Seq<BorrowState>) -> bool {
    forall|i: int| 0 <= i < l.len() ==> slot_ok(#[trigger] l[i])
}

impl BorrowLedger {
    /// A ledger for `n` buffer slots, none of them claimed.
    pub fn new(n: usize) -> (l: BorrowLedger)
        ensures
            ledger_wf(l@),
            l@.len() == n,
            forall|i: int| 0 <= i < n ==> !slot_claimed(#[trigger] l@[i]),
    {
        let mut slots: Vec<BorrowState> = Vec::new();
        let mut k: usize = 0;
        while k < n
            invariant
                k <= n,
                slots@.len() == k,
                forall|i: int|
                    0 <= i < k ==> (#[trigger] slots@[i]) == (BorrowState {
                        readers: 0,
                        writer: false,
                    }),
            decreases n - k,
        {
            slots.push(BorrowState { readers: 0, writer: false });
            k = k + 1;
        }
        BorrowLedger { slots }
    }

    /// How many buffer slots the ledger covers.
    pub fn slot_count(&self) -> (n: usize)
        ensures
            n == self@.len(),
    {
        self.slots.len()
    }

    /// The claims outstanding on slot `i`.
    pub fn state_of(&self, i: usize) -> (s: BorrowState)
        requires
            i < self@.len(),
        ensures
            s == self@[i as int],
    {
        self.slots[i]
    }

    /// Ask for a shared-read claim on slot `i`. Succeeds exactly when no
    /// write claim is outstanding (and the reader count can still grow);
    /// on failure the ledger is untouched.
    pub fn try_acquire_read(&mut self, i: usize) -> (r: Option<ReadClaim>)
        requires
            ledger_wf(old(self)@),
            i < old(self)@.len(),
        ensures
            ledger_wf(final(self)@),
            final(self)@.len() == old(self)@.len(),
            r matches Some(c) ==> c.slot_spec() == i as int,
            (r matches Some(c)) == read_acquire_ok(old(self)@[i as int]),
            r matches Some(c) ==> final(self)@ == old(self)@.update(
                i as int,
                (BorrowState { readers: (old(self)@[i as int].readers + 1) as usize, writer: false }),
            ),
            r is None ==> final(self)@ == old(self)@,
    {
        let s: BorrowState = self.slots[i];
        if s.writer || s.readers == usize::MAX {
            None
        } else {
            self.slots.set(i, BorrowState { readers: s.readers + 1, writer: false });
            Some(ReadClaim { slot: i })
        }
    }

    /// Ask for an exclusive-write claim on slot `i`. Succeeds exactly when
    /// no claim of either kind is outstanding; on failure the ledger is
    /// untouched.
    pub fn try_acquire_write(&mut self, i: usize) -> (r: Option<WriteClaim>)
        requires
            ledger_wf(old(self)@),
            i < old(self)@.len(),
        ensures
            ledger_wf(final(self)@),
            final(self)@.len() == old(self)@.len(),
            r matches Some(c) ==> c.slot_spec() == i as int,
            (r matches Some(c)) == write_acquire_ok(old(self)@[i as int]),
            r matches Some(c) ==> final(self)@ == old(self)@.update(
                i as int,
                (BorrowState { readers: 0, writer: true }),
            ),
            r is None ==> final(self)@ == old(self)@,
    {
        let s: BorrowState = self.slots[i];
        if s.writer || s.readers > 0 {
            None
        } else {
            self.slots.set(i, BorrowState { readers: 0, writer: true });
            Some(WriteClaim { slot: i })
        }
    }

    /// Give a read claim back. Consumes the claim, so each claim is
    /// released exactly once.
    pub fn release_read(&mut self, claim: ReadClaim)
        requires
            ledger_wf(old(self)@),
            0 <= claim.slot_spec() < old(self)@.len(),
            old(self)@[claim.slot_spec()].readers > 0,
        ensures
            ledger_wf(final(self)@),
            final(self)@ == old(self)@.update(
                claim.slot_spec(),
                (BorrowState {
                    readers: (old(self)@[claim.slot_spec()].readers - 1) as usize,
                    writer: old(self)@[claim.slot_spec()].writer,
                }),
            ),
    {
        let i: usize = claim.slot;
        let s: BorrowState = self.slots[i];
        self.slots.set(i, BorrowState { readers: s.readers - 1, writer: s.writer });
    }

    /// Give a write claim back. Consumes the claim, so each claim is
    /// released exactly once.
    pub fn release_write(&mut self, claim: WriteClaim)
        requires
            ledger_wf(old(self)@),
            0 <= claim.slot_spec() < old(self)@.len(),
            old(self)@[claim.slot_spec()].writer,
        ensures
            ledger_wf(final(self)@),
            final(self)@ == old(self)@.update(
                claim.slot_spec(),
                (BorrowState { readers: old(self)@[claim.slot_spec()].readers, writer: false }),
            ),
    {
        let i: usize = claim.slot;
        let s: BorrowState = self.slots[i];
        self.slots.set(i, BorrowState { readers: s.readers, writer: false });
    }
}

/// Buffer exclusivity: while any claim is outstanding on a slot, a write
/// acquisition on that slot fails; while a write claim is outstanding, a
/// read acquisition fails too; and a slot with every claim released admits
/// both a fresh read and a fresh write claim.
pub proof fn lemma_buffer_exclusivity(s: BorrowState)
    ensures
        slot_claimed(s) ==> !write_acquire_ok(s),
        s.writer ==> !read_acquire_ok(s),
        !slot_claimed(s) ==> write_acquire_ok(s) && read_acquire_ok(s),
{
}

} // verus!
