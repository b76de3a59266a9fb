//! Decisions of the perpetual sensor poll loop.
//!
//! Each cycle the loop asks the sensor bus whether a fresh measurement is
//! ready; only when it is does the loop fetch the measurement and write it
//! into the shared store, and in every case it then sleeps for the fixed
//! inter-poll delay before the next cycle.  A failed bus exchange is never
//! fatal: the cycle ends as `Faulted` and a later cycle simply refreshes the
//! store.  The surrounding program performs the bus exchanges and the sleep;
//! the functions here take the outcomes as plain values and decide what
//! happens to the store.

use vstd::prelude::*;

use crate::reading::Reading;
use crate::store::SharedReading;

verus! {

/// Fixed delay between poll cycles, in milliseconds, kept regardless of the
/// cycle's outcome.
pub const POLL_INTERVAL_MS: u64 = 1000;

/// Outcome of the readiness query on the sensor bus.
#[derive(Clone, Copy, PartialEq, Eq, Structural, Debug)]
pub enum ReadyProbe {
    /// The sensor reports a fresh measurement waiting.
    Ready,
    /// The sensor has nothing new yet.
    NotReady,
    /// The bus exchange itself failed.
    Failed,
}

/// Outcome of fetching the measurement from the sensor.
#[derive(Clone, Copy, PartialEq, Eq, Structural, Debug)]
pub enum MeasureProbe {
    /// A full measurement arrived.
    Measured(Reading),
    /// The bus exchange failed.
    Failed,
}

/// What the loop does next after the readiness query.
#[derive(Clone, Copy, PartialEq, Eq, Structural, Debug)]
pub enum PollAction {
    /// Fetch the measurement now.
    Fetch,
    /// Skip this cycle and sleep for [`POLL_INTERVAL_MS`].
    Sleep,
}

/// How one poll cycle ended.
#[derive(Clone, Copy, PartialEq, Eq, Structural, Debug)]
pub enum PollOutcome {
    /// The store now holds this cycle's measurement.
    Updated,
    /// The sensor had nothing new; the store is untouched.
    NoData,
    /// A bus exchange failed; the store is untouched and the loop goes on.
    Faulted,
}

/// Decides from the readiness outcome whether the measurement is fetched:
/// exactly when the sensor reported data ready.  Everything else - nothing
/// new, or a failed exchange - skips to the fixed-delay sleep.
pub fn ready_step(probe: ReadyProbe) -> (a: PollAction)
    ensures
        a is Fetch <==> probe is Ready,
{
    match probe {
        ReadyProbe::Ready => PollAction::Fetch,
        ReadyProbe::NotReady => PollAction::Sleep,
        ReadyProbe::Failed => PollAction::Sleep,
    }
}

/// Applies the fetched measurement to the store: a full measurement replaces
/// the stored reading wholesale, a failed fetch leaves the store exactly as
/// it was.
pub fn measure_step(s: &mut SharedReading, probe: MeasureProbe) -> (o: PollOutcome)
    ensures
        match probe {
            MeasureProbe::Measured(r) => final(s)@ == r && o is Updated,
            MeasureProbe::Failed => final(s)@ == old(s)@ && o is Faulted,
        },
{
    match probe {
        MeasureProbe::Measured(r) => {
            s.write(r);
            PollOutcome::Updated
        },
        MeasureProbe::Failed => PollOutcome::Faulted,
    }
}

/// How one whole poll cycle went, as seen from the store: a successful cycle
/// carries the reading it fetched, every other cycle leaves the store alone.
#[derive(Clone, Copy, PartialEq, Eq, Structural, Debug)]
pub enum Cycle {
    /// Readiness and fetch both succeeded with this reading.
    Fresh(Reading),
    /// The sensor had nothing new.
    NotReady,
    /// The readiness query failed on the bus.
    CheckFailed,
    /// The measurement fetch failed on the bus.
    ReadFailed,
}

/// The reading the store holds after a sequence of poll cycles: the reading
/// of the last successful cycle, or the starting value when none succeeded.
pub open spec fn store_after_cycles(init: Reading, cs: Seq<Cycle>) -> Reading
    decreases cs.len(),
{
    if cs.len() == 0 {
        init
    } else {
        match cs.last() {
            Cycle::Fresh(r) => r,
            _ => store_after_cycles(init, cs.drop_last()),
        }
    }
}

/// After any run of cycles whose last successful one sits at position `i`,
/// the store holds exactly that cycle's reading: skipped (`NotReady`) and
/// faulted cycles after it change nothing.  In particular, after N
/// consecutive successful cycles the store holds the N-th reading exactly.
pub proof fn lemma_store_tracks_last_fresh(init: Reading, cs: Seq<Cycle>, i: int)
    requires
        0 <= i < cs.len(),
        cs[i] is Fresh,
        forall|j: int| i < j < cs.len() ==> !(cs[j] is Fresh),
    ensures
        cs[i] == Cycle::Fresh(store_after_cycles(init, cs)),
    decreases cs.len(),
{
    if i == cs.len() - 1 {
    } else {
        lemma_store_tracks_last_fresh(init, cs.drop_last(), i);
    }
}

/// After N consecutive successful poll cycles the store holds exactly the
/// reading of the N-th cycle.
pub proof fn lemma_consecutive_fresh_cycles(init: Reading, cs: Seq<Cycle>)
    requires
        cs.len() > 0,
        forall|j: int| 0 <= j < cs.len() ==> cs[j] is Fresh,
    ensures
        cs.last() == Cycle::Fresh(store_after_cycles(init, cs)),
{
    lemma_store_tracks_last_fresh(init, cs, cs.len() - 1);
}

/// Replays a sequence of cycle outcomes against a live store through the
/// per-cycle steps above, tying the executable loop to the cycle model.
pub fn apply_cycles(s: &mut SharedReading, cs: &Vec<Cycle>)
    ensures
        final(s)@ == store_after_cycles(old(s)@, cs@),
{
    let ghost init = s@;
    let mut i: usize = 0;
    while i < cs.len()
        invariant
            i <= cs@.len(),
            s@ == store_after_cycles(init, cs@.take(i as int)),
        decreases cs@.len() - i,
    {
        proof {
            assert(cs@.take(i + 1).drop_last() =~= cs@.take(i as int));
        }
        match cs[i] {
            Cycle::Fresh(r) => {
                measure_step(s, MeasureProbe::Measured(r));
            },
            Cycle::ReadFailed => {
                measure_step(s, MeasureProbe::Failed);
            },
            _ => {},
        }
        i = i + 1;
    }
    proof {
        assert(cs@.take(cs@.len() as int) =~= cs@);
    }
}

} // verus!
