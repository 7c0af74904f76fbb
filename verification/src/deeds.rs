//! The ledger of deeds: an append-only record of what was done, with the
//! merit that each deed earned or cost.

use vstd::prelude::*;

verus! {

/// How far a deed is known to have harmed life.
#[derive(Clone, Copy, Debug)]
pub enum LifeHarmFlag {
    Absent,
    Potential,
    Confirmed,
}

/// The ethical standing of a deed.
#[derive(Clone, Copy, Debug)]
pub struct EthicsFlags {
    pub ethics_ok: bool,
    pub life_harm_flag: LifeHarmFlag,
}

/// One deed. The identifier is a hyphenated UUID, the timestamp an
/// RFC 3339 instant, the merit delta a signed quantity in millionths.
#[derive(Clone, Debug)]
pub struct DeedEvent {
    pub id: String,
    pub timestamp: String,
    pub actor: String,
    pub description: String,
    pub ethics_flags: EthicsFlags,
    pub mp_delta: i64,
    pub reversal_proposed: bool,
    pub reversal_granted: bool,
}

/// The sum of the merit deltas of `events`.
pub open spec fn merit_sum(events: Seq<DeedEvent>) -> int
    decreases events.len(),
{
    if events.len() == 0 {
        0
    } else {
        merit_sum(events.drop_last()) + events.last().mp_delta
    }
}

/// The sum of merit deltas is bounded by the number of deeds.
pub proof fn lemma_merit_sum_bounds(events: Seq<DeedEvent>)
    ensures
        -(events.len() * 0x8000_0000_0000_0000) <= merit_sum(events) <= events.len()
            * 0x8000_0000_0000_0000,
    decreases events.len(),
{
    if events.len() > 0 {
        lemma_merit_sum_bounds(events.drop_last());
        assert((events.len() - 1) * 0x8000_0000_0000_0000 + 0x8000_0000_0000_0000 == events.len()
            * 0x8000_0000_0000_0000) by (nonlinear_arith);
    }
}

/// An append-only ledger of deeds, in the order in which they were appended.
pub struct DeedLedger {
    events: Vec<DeedEvent>,
}

impl View for DeedLedger {
    type V = Seq<DeedEvent>;

    closed spec fn view(&self) -> Seq<DeedEvent> {
        self.events@
    }
}

impl DeedLedger {
    /// An empty ledger.
    pub fn new() -> (l: Self)
        ensures
            l@ == Seq::<DeedEvent>::empty(),
    {
        DeedLedger { events: Vec::new() }
    }

    /// Appends a deed after all earlier ones, which stay as they are.
    pub fn append(&mut self, event: DeedEvent)
        ensures
            final(self)@ == old(self)@.push(event),
    {
        self.events.push(event);
    }

    /// All deeds, oldest first.
    pub fn all(&self) -> (events: &[DeedEvent])
        ensures
            events@ == self@,
    {
        self.events.as_slice()
    }

    /// The number of deeds.
    pub fn len(&self) -> (n: usize)
        ensures
            n == self@.len(),
    {
        self.events.len()
    }

    /// The total merit: the sum of all deltas, computed afresh from the deeds.
    pub fn total_mp(&self) -> (total: i128)
        ensures
            total as int == merit_sum(self@),
    {
        let mut total: i128 = 0;
        let mut k: usize = 0;
        while k < self.events.len()
            invariant
                k <= self.events.len(),
                total as int == merit_sum(self.events@.take(k as int)),
            decreases self.events.len() - k,
        {
            proof {
                assert(self.events@.take(k + 1).drop_last() =~= self.events@.take(k as int));
                lemma_merit_sum_bounds(self.events@.take(k as int));
                assert(k * 0x8000_0000_0000_0000 <= 0xffff_ffff_ffff_ffff * 0x8000_0000_0000_0000)
                    by (nonlinear_arith)
                    requires
                        0 <= k <= 0xffff_ffff_ffff_ffff,
                ;
            }
            total = total + self.events[k].mp_delta as i128;
            k = k + 1;
        }
        proof {
            assert(self.events@.take(k as int) =~= self.events@);
        }
        total
    }
}

impl Default for DeedLedger {
    fn default() -> (l: Self)
        ensures
            l@ == Seq::<DeedEvent>::empty(),
    {
        DeedLedger::new()
    }
}

} // verus!
