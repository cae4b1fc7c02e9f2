//! A ring buffer of per-frame fingerprints, one slot per frame modulo the
//! capacity, with the confirmed / sent / validated flags of each entry.
use vstd::prelude::*;
use crate::window::ValidityWindow;

verus! {

/// One frame's fingerprint and its lifecycle flags.
#[derive(Clone, Copy, Debug, PartialEq, Eq, Structural)]
pub struct FrameHash {
    pub frame: i32,
    pub checksum: u16,
    pub confirmed: bool,
    pub sent: bool,
    pub validated: bool,
}

/// Two fingerprints disagree for one frame: the peers' simulations diverged.
#[derive(Clone, Copy, Debug, PartialEq, Eq, Structural)]
pub struct IntegrityFault {
    pub frame: i32,
    pub stored: u16,
    pub received: u16,
}

/// The slot that holds `frame` in a ledger of `cap` slots.
pub open spec fn slot_index(frame: int, cap: int) -> int {
    frame % cap
}

/// The entry for `frame`, if its slot currently holds that frame.
pub open spec fn entry_for(slots: Seq<Option<FrameHash>>, frame: int) -> Option<FrameHash> {
    match slots[slot_index(frame, slots.len() as int)] {
        Some(e) => if e.frame == frame { Some(e) } else { None },
        None => None,
    }
}

/// Every occupied slot holds a non-negative frame that maps to it.
pub open spec fn slots_wf(slots: Seq<Option<FrameHash>>) -> bool {
    &&& slots.len() > 0
    &&& forall|i: int|
        0 <= i < slots.len() && (#[trigger] slots[i]) is Some ==> {
            let e = slots[i]->Some_0;
            e.frame >= 0 && slot_index(e.frame as int, slots.len() as int) == i
        }
}

/// Recording `checksum` for `frame` contradicts an entry of that frame that was sent.
pub open spec fn record_conflicts(slots: Seq<Option<FrameHash>>, frame: int, checksum: u16) -> bool {
    match entry_for(slots, frame) {
        Some(e) => e.sent && e.checksum != checksum,
        None => false,
    }
}

/// The slots after `frame` was recorded with `checksum`: a fresh, unsent,
/// unvalidated entry.
pub open spec fn recorded(
    slots: Seq<Option<FrameHash>>,
    frame: i32,
    checksum: u16,
    confirmed: bool,
) -> Seq<Option<FrameHash>> {
    slots.update(
        slot_index(frame as int, slots.len() as int),
        Some(FrameHash { frame, checksum, confirmed, sent: false, validated: false }),
    )
}

/// The slots after the entry of `frame`, if present, was marked sent.
pub open spec fn marked_sent(slots: Seq<Option<FrameHash>>, frame: int) -> Seq<Option<FrameHash>> {
    match entry_for(slots, frame) {
        Some(e) => slots.update(
            slot_index(frame, slots.len() as int),
            Some(FrameHash { sent: true, ..e }),
        ),
        None => slots,
    }
}

/// A remote report of `checksum` for `frame` contradicts the stored entry of that frame.
pub open spec fn reconcile_conflicts(slots: Seq<Option<FrameHash>>, frame: int, checksum: u16) -> bool {
    match entry_for(slots, frame) {
        Some(e) => e.checksum != checksum,
        None => false,
    }
}

/// The slots after a consistent remote report: unchanged when the slot
/// already holds `frame`, else overwritten with the new frame, not validated.
pub open spec fn reconciled(slots: Seq<Option<FrameHash>>, frame: i32, checksum: u16) -> Seq<
    Option<FrameHash>,
> {
    let i = slot_index(frame as int, slots.len() as int);
    match slots[i] {
        Some(e) => if e.frame == frame {
            slots
        } else {
            slots.update(i, Some(FrameHash { frame, checksum, validated: false, ..e }))
        },
        None => slots.update(
            i,
            Some(FrameHash { frame, checksum, confirmed: false, sent: false, validated: false }),
        ),
    }
}

/// A slot whose entry is confirmed, not yet sent and inside the reportable window.
pub open spec fn reportable_entry(slot: Option<FrameHash>, w: ValidityWindow) -> bool {
    match slot {
        Some(e) => e.confirmed && !e.sent && w.reports(e.frame as int),
        None => false,
    }
}

/// Slot `i` is the first reportable slot in scan order.
pub open spec fn first_reportable(slots: Seq<Option<FrameHash>>, w: ValidityWindow, i: int) -> bool {
    &&& 0 <= i < slots.len()
    &&& reportable_entry(slots[i], w)
    &&& forall|j: int| 0 <= j < i ==> !reportable_entry(#[trigger] slots[j], w)
}

/// No slot is reportable.
pub open spec fn none_reportable(slots: Seq<Option<FrameHash>>, w: ValidityWindow) -> bool {
    forall|j: int| 0 <= j < slots.len() ==> !reportable_entry(#[trigger] slots[j], w)
}

/// Once the entry of a frame has been recorded with fingerprint `x` and marked
/// sent, recording that frame again is refused exactly when the new
/// fingerprint differs from `x`.
pub proof fn lemma_sent_fingerprint_binds(
    slots: Seq<Option<FrameHash>>,
    frame: i32,
    x: u16,
    confirmed: bool,
    y: u16,
)
    requires
        slots_wf(slots),
        frame >= 0,
    ensures
        record_conflicts(marked_sent(recorded(slots, frame, x, confirmed), frame as int), frame as int, y)
            <==> y != x,
{
    let s = recorded(slots, frame, x, confirmed);
    let i = slot_index(frame as int, slots.len() as int);
    assert(s[i] == Some(FrameHash { frame, checksum: x, confirmed, sent: false, validated: false }));
    assert(entry_for(s, frame as int) == s[i]);
    let t = marked_sent(s, frame as int);
    assert(t[i] == Some(FrameHash { frame, checksum: x, confirmed, sent: true, validated: false }));
    assert(entry_for(t, frame as int) == t[i]);
}

/// An entry already sent with some fingerprint refuses every other
/// fingerprint for its frame, and recording a frame of another slot, or
/// marking another frame sent, leaves that entry as it is.
pub proof fn lemma_sent_entry_persists(
    slots: Seq<Option<FrameHash>>,
    frame: i32,
    other: i32,
    checksum: u16,
    confirmed: bool,
    y: u16,
)
    requires
        slots_wf(slots),
        frame >= 0,
        other >= 0,
        slot_index(frame as int, slots.len() as int) != slot_index(other as int, slots.len() as int),
        entry_for(slots, frame as int) is Some,
        entry_for(slots, frame as int)->Some_0.sent,
    ensures
        record_conflicts(slots, frame as int, y) <==> y != entry_for(slots, frame as int)->Some_0.checksum,
        entry_for(recorded(slots, other, checksum, confirmed), frame as int) == entry_for(slots, frame as int),
        entry_for(marked_sent(slots, other as int), frame as int) == entry_for(slots, frame as int),
{
}

/// Reconciling the same remote report twice in a row: when the first call
/// succeeds, the second succeeds too and leaves every slot as the first left it.
pub proof fn lemma_reconcile_idempotent(slots: Seq<Option<FrameHash>>, frame: i32, x: u16)
    requires
        slots_wf(slots),
        frame >= 0,
        !reconcile_conflicts(slots, frame as int, x),
    ensures
        !reconcile_conflicts(reconciled(slots, frame, x), frame as int, x),
        reconciled(reconciled(slots, frame, x), frame, x) == reconciled(slots, frame, x),
{
    let s = reconciled(slots, frame, x);
    let i = slot_index(frame as int, slots.len() as int);
    assert(s.len() == slots.len());
    assert(s[i] is Some && s[i]->Some_0.frame == frame && s[i]->Some_0.checksum == x);
}

/// A fixed-capacity ledger of frame fingerprints.
pub struct FrameHashes {
    slots: Vec<Option<FrameHash>>,
}

impl View for FrameHashes {
    type V = Seq<Option<FrameHash>>;

    closed spec fn view(&self) -> Seq<Option<FrameHash>> {
        self.slots@
    }
}

impl FrameHashes {
    pub open spec fn wf(&self) -> bool {
        slots_wf(self@)
    }

    /// An empty ledger of `capacity` slots.
    pub fn new(capacity: usize) -> (r: Self)
        requires
            capacity > 0,
        ensures
            r.wf(),
            r@.len() == capacity,
            forall|i: int| 0 <= i < capacity ==> (#[trigger] r@[i]) is None,
    {
        let mut slots: Vec<Option<FrameHash>> = Vec::new();
        let mut k: usize = 0;
        while k < capacity
            invariant
                k <= capacity,
                slots@.len() == k,
                forall|i: int| 0 <= i < k ==> (#[trigger] slots@[i]) is None,
            decreases capacity - k,
        {
            slots.push(None);
            k = k + 1;
        }
        FrameHashes { slots }
    }

    pub fn capacity(&self) -> (r: usize)
        ensures
            r == self@.len(),
    {
        self.slots.len()
    }

    /// The content of slot `i`, stale or not.
    pub fn slot(&self, i: usize) -> (r: Option<FrameHash>)
        requires
            i < self@.len(),
        ensures
            r == self@[i as int],
    {
        self.slots[i]
    }

    fn index_of(&self, frame: i32) -> (r: usize)
        requires
            self.wf(),
            frame >= 0,
        ensures
            r == slot_index(frame as int, self@.len() as int),
            r < self@.len(),
    {
        (frame as usize) % self.slots.len()
    }

    /// The entry for `frame`, if its slot currently holds that frame.
    pub fn get(&self, frame: i32) -> (r: Option<FrameHash>)
        requires
            self.wf(),
            frame >= 0,
        ensures
            r == entry_for(self@, frame as int),
    {
        let i = self.index_of(frame);
        match self.slots[i] {
            Some(e) => if e.frame == frame {
                Some(e)
            } else {
                None
            },
            None => None,
        }
    }

    /// Stores a freshly computed fingerprint for `frame`. Fails, leaving the
    /// ledger as it was, when an entry of the same frame was already sent with
    /// another fingerprint.
    pub fn record(&mut self, frame: i32, checksum: u16, confirmed: bool) -> (r: Result<
        (),
        IntegrityFault,
    >)
        requires
            old(self).wf(),
            frame >= 0,
        ensures
            final(self).wf(),
            r is Err <==> record_conflicts(old(self)@, frame as int, checksum),
            r is Ok ==> final(self)@ == recorded(old(self)@, frame, checksum, confirmed),
            r is Err ==> final(self)@ == old(self)@ && r == Err::<(), IntegrityFault>(
                IntegrityFault {
                    frame,
                    stored: entry_for(old(self)@, frame as int)->Some_0.checksum,
                    received: checksum,
                },
            ),
    {
        let i = self.index_of(frame);
        if let Some(e) = self.slots[i] {
            if e.frame == frame && e.sent && e.checksum != checksum {
                return Err(IntegrityFault { frame, stored: e.checksum, received: checksum });
            }
        }
        self.slots.set(
            i,
            Some(FrameHash { frame, checksum, confirmed, sent: false, validated: false }),
        );
        proof {
            assert forall|j: int|
                0 <= j < self@.len() && (#[trigger] self@[j]) is Some implies {
                let e = self@[j]->Some_0;
                e.frame >= 0 && slot_index(e.frame as int, self@.len() as int) == j
            } by {
                if j != i as int {
                    assert(old(self)@[j] == self@[j]);
                }
            }
        }
        Ok(())
    }

    /// The first slot, in scan order, that holds a confirmed, unsent entry
    /// inside the reportable window.
    pub fn find_unsent_reportable(&self, w: &ValidityWindow) -> (r: Option<FrameHash>)
        requires
            self.wf(),
        ensures
            match r {
                Some(e) => exists|i: int|
                    first_reportable(self@, *w, i) && #[trigger] self@[i] == Some(e),
                None => none_reportable(self@, *w),
            },
            r is Some ==> w.reports(r->Some_0.frame as int),
    {
        let mut i: usize = 0;
        while i < self.slots.len()
            invariant
                i <= self@.len(),
                forall|j: int| 0 <= j < i ==> !reportable_entry(#[trigger] self@[j], *w),
            decreases self@.len() - i,
        {
            if let Some(e) = self.slots[i] {
                if e.confirmed && !e.sent && w.is_reportable(e.frame) {
                    assert(first_reportable(self@, *w, i as int));
                    return Some(e);
                }
            }
            i = i + 1;
        }
        None
    }

    /// Marks the entry of `frame` as sent; no change when its slot holds another frame.
    pub fn mark_sent(&mut self, frame: i32)
        requires
            old(self).wf(),
            frame >= 0,
        ensures
            final(self).wf(),
            final(self)@ == marked_sent(old(self)@, frame as int),
    {
        let i = self.index_of(frame);
        if let Some(e) = self.slots[i] {
            if e.frame == frame {
                self.slots.set(i, Some(FrameHash { sent: true, ..e }));
                proof {
                    assert forall|j: int|
                        0 <= j < self@.len() && (#[trigger] self@[j]) is Some implies {
                        let e = self@[j]->Some_0;
                        e.frame >= 0 && slot_index(e.frame as int, self@.len() as int) == j
                    } by {
                        if j != i as int {
                            assert(old(self)@[j] == self@[j]);
                        }
                    }
                }
            }
        }
    }

    /// Reconciles a fingerprint that a remote peer reported for `frame`: a
    /// contradiction of the stored entry of that frame is a fault and changes
    /// nothing; a slot that holds another frame is overwritten.
    pub fn reconcile_inbound(&mut self, frame: i32, checksum: u16) -> (r: Result<
        (),
        IntegrityFault,
    >)
        requires
            old(self).wf(),
            frame >= 0,
        ensures
            final(self).wf(),
            r is Err <==> reconcile_conflicts(old(self)@, frame as int, checksum),
            r is Ok ==> final(self)@ == reconciled(old(self)@, frame, checksum),
            r is Err ==> final(self)@ == old(self)@ && r == Err::<(), IntegrityFault>(
                IntegrityFault {
                    frame,
                    stored: entry_for(old(self)@, frame as int)->Some_0.checksum,
                    received: checksum,
                },
            ),
    {
        let i = self.index_of(frame);
        let next = match self.slots[i] {
            Some(e) => {
                if e.frame == frame {
                    if e.checksum != checksum {
                        return Err(IntegrityFault { frame, stored: e.checksum, received: checksum });
                    }
                    return Ok(());
                }
                FrameHash { frame, checksum, validated: false, ..e }
            },
            None => FrameHash { frame, checksum, confirmed: false, sent: false, validated: false },
        };
        self.slots.set(i, Some(next));
        proof {
            assert forall|j: int|
                0 <= j < self@.len() && (#[trigger] self@[j]) is Some implies {
                let e = self@[j]->Some_0;
                e.frame >= 0 && slot_index(e.frame as int, self@.len() as int) == j
            } by {
                if j != i as int {
                    assert(old(self)@[j] == self@[j]);
                }
            }
        }
        Ok(())
    }
}

} // verus!
