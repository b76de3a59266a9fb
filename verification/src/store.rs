//! The shared reading store: one live [`Reading`] replaced wholesale by the
//! sole writer (the poll loop) and copied out by any number of readers (the
//! connection handlers).
//!
//! The store itself never fails: writes replace the whole value, reads hand
//! back a copy.  A reader therefore always observes a fully formed snapshot
//! that some completed write put there (or the startup sentinel) - there is
//! no window in which one field is newer than another.  The interleaving
//! model below states that guarantee over every sequence of operations.

use vstd::prelude::*;

use crate::reading::Reading;

verus! {

/// The single live instance of [`Reading`] plus its access discipline.
///
/// Exactly one instance exists for the life of the process.  The surrounding
/// program wraps it in its mutual-exclusion primitive and hands it to every
/// task at spawn time; each `write` or `read` is one minimal critical
/// section (a whole-value replace or a whole-value copy).
pub struct SharedReading {
    current: Reading,
}

impl View for SharedReading {
    type V = Reading;

    /// The store is modelled by the reading it currently holds.
    closed spec fn view(&self) -> Reading {
        self.current
    }
}

impl SharedReading {
    /// Creates the store holding the startup sentinel.
    pub fn new() -> (s: SharedReading)
        ensures
            s@ == Reading::spec_sentinel(),
    {
        SharedReading { current: Reading::sentinel() }
    }

    /// Replaces the stored value wholesale.  Never fails and has no effect
    /// beyond the store.
    pub fn write(&mut self, r: Reading)
        ensures
            final(self)@ == r,
    {
        self.current = r;
    }

    /// Returns a copy of the most recently written reading.  Never fails and
    /// never changes the store.
    pub fn read(&self) -> (r: Reading)
        ensures
            r == self@,
    {
        self.current
    }
}

/// One operation of the store's history: a completed write of a full
/// snapshot, or a read.
#[derive(Clone, Copy, PartialEq, Eq, Structural, Debug)]
pub enum StoreOp {
    Write(Reading),
    Read,
}

/// The value the store holds after a sequence of operations, starting from
/// the startup sentinel: the last written reading, or the sentinel when
/// nothing was written.  Reads leave the value untouched.
pub open spec fn store_value(ops: Seq<StoreOp>) -> Reading
    decreases ops.len(),
{
    if ops.len() == 0 {
        Reading::spec_sentinel()
    } else {
        match ops.last() {
            StoreOp::Write(r) => r,
            StoreOp::Read => store_value(ops.drop_last()),
        }
    }
}

/// What the read at position `i` of the history returns: the value the store
/// holds after the operations before it.
pub open spec fn read_result(ops: Seq<StoreOp>, i: int) -> Reading {
    store_value(ops.take(i))
}

/// The value after any history is either the sentinel or a reading that some
/// completed write of that history put there, exactly as written.
pub proof fn lemma_store_value_is_a_write(ops: Seq<StoreOp>)
    ensures
        store_value(ops) == Reading::spec_sentinel() || exists|j: int|
            0 <= j < ops.len() && ops[j] == StoreOp::Write(store_value(ops)),
    decreases ops.len(),
{
    if ops.len() > 0 {
        match ops.last() {
            StoreOp::Write(r) => {
                assert(ops[ops.len() - 1] == StoreOp::Write(store_value(ops)));
            },
            StoreOp::Read => {
                lemma_store_value_is_a_write(ops.drop_last());
                if store_value(ops) != Reading::spec_sentinel() {
                    let j = choose|j: int|
                        0 <= j < ops.drop_last().len() && ops.drop_last()[j] == StoreOp::Write(
                            store_value(ops.drop_last()),
                        );
                    assert(ops[j] == StoreOp::Write(store_value(ops)));
                }
            },
        }
    }
}

/// Every read of a history returns a reading that was fully constructed by
/// some completed write that precedes it, or the startup sentinel; a torn
/// value - fields from two different writes - is never observed.  The store
/// never holds anything else, so this covers all interleavings of the one
/// writer with any number of readers.
pub proof fn lemma_read_returns_completed_write(ops: Seq<StoreOp>, i: int)
    requires
        0 <= i <= ops.len(),
        ops.take(i).len() == i,
    ensures
        read_result(ops, i) == Reading::spec_sentinel() || exists|j: int|
            0 <= j < i && ops[j] == StoreOp::Write(read_result(ops, i)),
{
    lemma_store_value_is_a_write(ops.take(i));
    if read_result(ops, i) != Reading::spec_sentinel() {
        let j = choose|j: int|
            0 <= j < ops.take(i).len() && ops.take(i)[j] == StoreOp::Write(
                store_value(ops.take(i)),
            );
        assert(ops[j] == StoreOp::Write(read_result(ops, i)));
    }
}

/// Replays a history of operations against a live store and collects what
/// each read returned, tying the executable store to the interleaving model:
/// the store ends at the model's value and every read observed the result
/// the model assigns to its position.
pub fn run_ops(s: &mut SharedReading, ops: &Vec<StoreOp>) -> (reads: Vec<Reading>)
    requires
        old(s)@ == Reading::spec_sentinel(),
    ensures
        final(s)@ == store_value(ops@),
        reads@ == read_outcomes(ops@),
{
    let mut reads: Vec<Reading> = Vec::new();
    let mut i: usize = 0;
    while i < ops.len()
        invariant
            i <= ops@.len(),
            s@ == store_value(ops@.take(i as int)),
            reads@ == read_outcomes(ops@.take(i as int)),
        decreases ops@.len() - i,
    {
        proof {
            assert(ops@.take(i + 1).drop_last() =~= ops@.take(i as int));
        }
        match ops[i] {
            StoreOp::Write(r) => {
                s.write(r);
            },
            StoreOp::Read => {
                let r = s.read();
                reads.push(r);
            },
        }
        i = i + 1;
    }
    proof {
        assert(ops@.take(ops@.len() as int) =~= ops@);
    }
    reads
}

/// The values returned by the reads of a history, in order.
pub open spec fn read_outcomes(ops: Seq<StoreOp>) -> Seq<Reading>
    decreases ops.len(),
{
    if ops.len() == 0 {
        Seq::empty()
    } else {
        match ops.last() {
            StoreOp::Write(r) => read_outcomes(ops.drop_last()),
            StoreOp::Read => read_outcomes(ops.drop_last()).push(store_value(ops.drop_last())),
        }
    }
}

} // verus!
