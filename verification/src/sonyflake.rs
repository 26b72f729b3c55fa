use std::sync::Arc;
use vstd::prelude::*;
use vstd::rwlock::{RwLock, RwLockPredicate};

use crate::builder::{Builder, DefaultMachineId, DefaultMachineIdCheck, SONYFLAKE_EPOCH_TICKS};
use crate::error::Error;

verus! {

/// Bit length of the elapsed-time field of an id.
pub const BIT_LEN_TIME: u64 = 39;

/// Bit length of the sequence field of an id.
pub const BIT_LEN_SEQUENCE: u64 = 9;

/// Bit length of the machine-id field of an id.
pub const BIT_LEN_MACHINE_ID: u64 = 64 - BIT_LEN_TIME - BIT_LEN_SEQUENCE;

/// Length of one tick in nanoseconds: 10 milliseconds.
pub const SONYFLAKE_TIME_UNIT: i64 = 10_000_000;

/// Exclusive upper bound of the elapsed-time field: `1 << BIT_LEN_TIME`.
pub const TIME_LIMIT: i64 = 549_755_813_888;

/// Largest value of the sequence field: `(1 << BIT_LEN_SEQUENCE) - 1`.
pub const MASK_SEQUENCE: u16 = 511;

/// Largest tick count that a `Timestamp` can hold: `i64::MAX / SONYFLAKE_TIME_UNIT`.
pub const MAX_TICKS: i64 = 922_337_203_685;

/// An instant, held as a count of nanoseconds since the Unix epoch
/// (1970-01-01 00:00:00 UTC), negative for instants before it.
#[derive(Clone, Copy, Debug, PartialEq, Eq, Structural)]
pub struct Timestamp {
    pub nanos: i64,
}

/// The number of whole ticks between the Unix epoch and the instant
/// `nanos` nanoseconds after it, truncated toward zero.
pub open spec fn spec_ticks(nanos: int) -> int {
    if nanos >= 0 {
        nanos / 10_000_000
    } else {
        -((-nanos) / 10_000_000)
    }
}

/// Converts an instant to its count of whole ticks since the Unix epoch.
pub fn to_sonyflake_time(time: Timestamp) -> (r: i64)
    ensures
        r == spec_ticks(time.nanos as int),
        -MAX_TICKS <= r <= MAX_TICKS,
{
    let nanos = time.nanos;
    if nanos >= 0 {
        ((nanos as u64) / 10_000_000u64) as i64
    } else {
        let mag: u64 = ((-(nanos + 1)) as u64) + 1;
        assert(mag == -(nanos as int));
        -((mag / 10_000_000u64) as i64)
    }
}

/// The mutable counters of a generator: the last tick an id was minted
/// for, and the last sequence number used within that tick.
#[derive(Clone, Copy, Debug, PartialEq, Eq, Structural)]
pub struct Internals {
    pub elapsed_time: i64,
    pub sequence: u16,
}

impl Internals {
    /// The counters are well formed: the elapsed time is not negative and
    /// the sequence fits in its bit range.
    pub open spec fn wf(self) -> bool {
        0 <= self.elapsed_time && self.sequence < 512
    }
}

/// Packs the three fields of an id into one 64-bit integer.
pub open spec fn spec_compose(time: u64, sequence: u64, machine_id: u64) -> u64 {
    (time << 25) | (sequence << 16) | machine_id
}

/// The elapsed-time field of a packed id.
pub open spec fn spec_time_part(id: u64) -> u64 {
    id >> 25
}

/// The sequence field of a packed id.
pub open spec fn spec_sequence_part(id: u64) -> u64 {
    (id & 0x1ff_0000) >> 16
}

/// The machine-id field of a packed id.
pub open spec fn spec_machine_id_part(id: u64) -> u64 {
    id & 0xffff
}

/// The counters after one generation step at tick `current`: a later tick
/// advances the elapsed time and resets the sequence; otherwise the sequence
/// moves forward, except that a full sequence range is left as it stands.
pub open spec fn spec_advance(prev: Internals, current: i64) -> Internals {
    if current > prev.elapsed_time {
        Internals { elapsed_time: current, sequence: 0 }
    } else if prev.sequence >= 511 {
        prev
    } else {
        Internals { elapsed_time: prev.elapsed_time, sequence: (prev.sequence + 1) as u16 }
    }
}

/// The result of one generation step at tick `current`: the packed id on
/// success, `OverSequenceLimit` when the current tick has no sequence number
/// left, and `OverTimeLimit` when the elapsed time has outgrown its bit range.
pub open spec fn spec_outcome(prev: Internals, current: i64, machine_id: u16) -> Result<
    u64,
    Error,
> {
    let next = spec_advance(prev, current);
    if current <= prev.elapsed_time && prev.sequence >= 511 {
        Err(Error::OverSequenceLimit)
    } else if next.elapsed_time >= TIME_LIMIT {
        Err(Error::OverTimeLimit)
    } else {
        Ok(spec_compose(next.elapsed_time as u64, next.sequence as u64, machine_id as u64))
    }
}

impl Internals {
    /// One generation step of the pure state machine: from the stored
    /// counters and the current tick to the new counters and the outcome.
    /// A failed step with a full sequence range leaves the counters as they
    /// were; a failed step over the time limit still commits the advance.
    pub fn advance(self, current: i64, machine_id: u16) -> (r: (Internals, Result<u64, Error>))
        requires
            self.wf(),
        ensures
            r.0 == spec_advance(self, current),
            r.1 == spec_outcome(self, current, machine_id),
            r.0.wf(),
    {
        let mut next = self;
        if current > next.elapsed_time {
            next.elapsed_time = current;
            next.sequence = 0;
        } else {
            if next.sequence >= MASK_SEQUENCE {
                return (next, Err(Error::OverSequenceLimit));
            }
            next.sequence = next.sequence + 1;
        }
        if next.elapsed_time >= TIME_LIMIT {
            return (next, Err(Error::OverTimeLimit));
        }
        let id = ((next.elapsed_time as u64) << 25) | ((next.sequence as u64) << 16) | (
        machine_id as u64);
        (next, Ok(id))
    }
}

/// A packed id, taken apart into its three fields.
#[derive(Clone, Copy, Debug, PartialEq, Eq, Structural)]
pub struct DecomposedSonyflake {
    pub id: u64,
    pub time: u64,
    pub sequence: u64,
    pub machine_id: u64,
}

impl DecomposedSonyflake {
    /// The elapsed-time field converted to nanoseconds since the generator's
    /// start time; the caller adds the start time back for an absolute instant.
    pub fn nanos_time(&self) -> (r: i64)
        requires
            self.time < 0x80_0000_0000,
        ensures
            r == self.time * 10_000_000,
    {
        (self.time as i64) * SONYFLAKE_TIME_UNIT
    }
}

/// Breaks a packed id up into its three fields. Total: every 64-bit value
/// decomposes, and re-packing the fields gives the value back.
pub fn decompose(id: u64) -> (r: DecomposedSonyflake)
    ensures
        r.id == id,
        r.time == spec_time_part(id),
        r.sequence == spec_sequence_part(id),
        r.machine_id == spec_machine_id_part(id),
        r.time < 0x80_0000_0000,
        r.sequence < 512,
        r.machine_id < 0x1_0000,
        spec_compose(r.time, r.sequence, r.machine_id) == id,
{
    let time = id >> 25;
    let sequence = (id & 0x1ff_0000) >> 16;
    let machine_id = id & 0xffff;
    proof {
        lemma_decompose_compose(id);
    }
    DecomposedSonyflake { id, time, sequence, machine_id }
}

/// The three fields of any packed id lie in their bit ranges, and packing
/// them again yields the id itself.
pub proof fn lemma_decompose_compose(id: u64)
    ensures
        spec_time_part(id) < 0x80_0000_0000,
        spec_sequence_part(id) < 512,
        spec_machine_id_part(id) < 0x1_0000,
        spec_compose(spec_time_part(id), spec_sequence_part(id), spec_machine_id_part(id)) == id,
{
    assert((id >> 25) < 0x80_0000_0000 && ((id & 0x1ff_0000) >> 16) < 512 && (id & 0xffff)
        < 0x1_0000 && (((id >> 25) << 25) | (((id & 0x1ff_0000) >> 16) << 16) | (id & 0xffff))
        == id) by (bit_vector);
}

/// The predicate every value stored in a generator's lock satisfies: the
/// counters are well formed.
pub struct InternalsPred;

impl RwLockPredicate<Internals> for InternalsPred {
    open spec fn inv(self, v: Internals) -> bool {
        v.wf()
    }
}

/// The state one generator's handles share: the immutable configuration and
/// the mutable counters behind one exclusive lock.
pub struct SharedSonyflake {
    pub(crate) start_time: i64,
    pub(crate) machine_id: u16,
    pub(crate) internals: RwLock<Internals, InternalsPred>,
}

/// Sonyflake is a distributed unique id generator. Cloning a generator
/// yields a handle to the same shared counters.
pub struct Sonyflake(pub(crate) Arc<SharedSonyflake>);

/// Relies on `std::sync::Arc::clone`: the returned handle refers to the same
/// allocation as the argument, so the two are equal.
#[verifier::external_body]
fn clone_arc(a: &Arc<SharedSonyflake>) -> (r: Arc<SharedSonyflake>)
    ensures
        r == *a,
{
    Arc::clone(a)
}

impl Clone for Sonyflake {
    /// Returns a new `Sonyflake` referencing the same state as `self`.
    fn clone(&self) -> (r: Self)
        ensures
            r == *self,
    {
        proof {
            use_type_invariant(self);
        }
        Sonyflake(clone_arc(&self.0))
    }
}

impl Sonyflake {
    /// A generator is well formed: its lock holds well-formed counters and
    /// its start time is a tick count a `Timestamp` can reach.
    #[verifier::type_invariant]
    pub closed spec fn wf(self) -> bool {
        &&& self.0.internals.pred() == InternalsPred
        &&& -MAX_TICKS <= self.0.start_time <= MAX_TICKS
    }

    /// The tick count of the generator's start epoch.
    pub closed spec fn spec_start_time(self) -> i64 {
        self.0.start_time
    }

    /// The machine id embedded in every id the generator mints.
    pub closed spec fn spec_machine_id(self) -> u16 {
        self.0.machine_id
    }

    /// Create a new Sonyflake with the default configuration: the default
    /// start epoch and a machine id derived from the host's private IPv4
    /// address. For custom configuration see [`Sonyflake::builder`].
    pub fn new() -> (r: Result<Self, Error>)
        ensures
            r matches Ok(sf) ==> sf.spec_start_time() == SONYFLAKE_EPOCH_TICKS,
            r matches Err(e) ==> e == Error::NoPrivateIPv4,
    {
        Builder::new().finalize()
    }

    /// Create a new [`Builder`] to construct a Sonyflake.
    pub fn builder<'a>() -> (r: Builder<'a, DefaultMachineId, DefaultMachineIdCheck>)
        ensures
            r.start_time is None,
            r.machine_id is None,
            r.check_machine_id is None,
    {
        Builder::new()
    }

    pub(crate) fn new_inner(shared: Arc<SharedSonyflake>) -> (r: Self)
        requires
            shared.internals.pred() == InternalsPred,
            -MAX_TICKS <= shared.start_time <= MAX_TICKS,
        ensures
            r.spec_start_time() == shared.start_time,
            r.spec_machine_id() == shared.machine_id,
    {
        Self(shared)
    }

    /// Generate the next unique id for the instant `now`. Every id handed
    /// out carries the generator's machine id in its low 16 bits, and an
    /// elapsed-time field no earlier than `now`'s tick; after the elapsed
    /// time outgrows its bit range, `next_id` returns `OverTimeLimit`, and
    /// when the current tick has no sequence numbers left, it returns
    /// `OverSequenceLimit`.
    pub fn next_id(&self, now: Timestamp) -> (r: Result<u64, Error>)
        ensures
            r matches Ok(id) ==> spec_machine_id_part(id) == self.spec_machine_id(),
            r matches Ok(id) ==> spec_time_part(id) < 0x80_0000_0000,
            r matches Ok(id) ==> spec_time_part(id) >= spec_ticks(now.nanos as int)
                - self.spec_start_time(),
            r matches Err(e) ==> (e == Error::OverSequenceLimit || e == Error::OverTimeLimit),
    {
        proof {
            use_type_invariant(self);
        }
        let (prev, handle) = self.0.internals.acquire_write();
        let current = current_elapsed_time(now, self.0.start_time);
        let (next, res) = prev.advance(current, self.0.machine_id);
        handle.release_write(next);
        proof {
            if res is Ok {
                lemma_compose_decompose(
                    next.elapsed_time as u64,
                    next.sequence as u64,
                    self.0.machine_id as u64,
                );
            }
        }
        res
    }

    /// Overwrites the stored elapsed time, leaving the sequence counter as
    /// it stands; meant for tests and for administration of a generator.
    pub fn set_elapsed_time(&self, elapsed_time: i64)
        requires
            0 <= elapsed_time,
    {
        proof {
            use_type_invariant(self);
        }
        let (prev, handle) = self.0.internals.acquire_write();
        let mut next = prev;
        next.elapsed_time = elapsed_time;
        handle.release_write(next);
    }

    /// The smallest id the generator could mint at or after the instant
    /// `time`: the id of `time`'s tick with sequence and machine id zero.
    pub fn min_sonyflake_for_time(&self, time: Timestamp) -> (r: u64)
        ensures
            ({
                let d = spec_ticks(time.nanos as int) - self.spec_start_time();
                0 <= d < 0x80_0000_0000 ==> r == d * 0x200_0000
            }),
    {
        proof {
            use_type_invariant(self);
        }
        let ticks = to_sonyflake_time(time);
        let diff = ticks - self.0.start_time;
        let d = #[verifier::truncate] (diff as u64);
        proof {
            if 0 <= diff < 0x80_0000_0000 {
                assert(d << 25 == d * 0x200_0000) by (bit_vector)
                    requires
                        d < 0x80_0000_0000,
                ;
            }
        }
        d << 25
    }
}

/// The number of ticks from the generator's start epoch to the instant
/// `now`; negative when `now` lies before the epoch.
fn current_elapsed_time(now: Timestamp, start_time: i64) -> (r: i64)
    requires
        -MAX_TICKS <= start_time <= MAX_TICKS,
    ensures
        r == spec_ticks(now.nanos as int) - start_time,
{
    to_sonyflake_time(now) - start_time
}

/// Packing three in-range fields and taking the packed id apart returns
/// exactly the original fields: the encoding round-trips.
pub proof fn lemma_compose_decompose(time: u64, sequence: u64, machine_id: u64)
    requires
        time < 0x80_0000_0000,
        sequence < 512,
        machine_id < 0x1_0000,
    ensures
        spec_time_part(spec_compose(time, sequence, machine_id)) == time,
        spec_sequence_part(spec_compose(time, sequence, machine_id)) == sequence,
        spec_machine_id_part(spec_compose(time, sequence, machine_id)) == machine_id,
{
    let id = spec_compose(time, sequence, machine_id);
    assert((((time << 25) | (sequence << 16) | machine_id) >> 25) == time && ((((time << 25) | (
    sequence << 16) | machine_id) & 0x1ff_0000) >> 16) == sequence && (((time << 25) | (sequence
        << 16) | machine_id) & 0xffff) == machine_id) by (bit_vector)
        requires
            time < 0x80_0000_0000 && sequence < 512 && machine_id < 0x1_0000,
    ;
}

/// The counters `a` come no later than `b` in the order generation moves
/// them through: a smaller elapsed time, or the same tick and a sequence no
/// larger.
pub open spec fn lex_le(a: Internals, b: Internals) -> bool {
    a.elapsed_time < b.elapsed_time || (a.elapsed_time == b.elapsed_time && a.sequence
        <= b.sequence)
}

/// The counters `a` come strictly before `b` in generation order.
pub open spec fn lex_lt(a: Internals, b: Internals) -> bool {
    a.elapsed_time < b.elapsed_time || (a.elapsed_time == b.elapsed_time && a.sequence
        < b.sequence)
}

/// One generation step never moves the counters backwards.
proof fn lemma_advance_lex(prev: Internals, current: i64)
    requires
        prev.wf(),
    ensures
        spec_advance(prev, current).wf(),
        lex_le(prev, spec_advance(prev, current)),
{
}

/// A successful step moves the counters strictly forward, keeps both the
/// old and the new elapsed time under the time limit, and returns the id
/// packed from the new counters.
proof fn lemma_outcome_ok(prev: Internals, current: i64, machine_id: u16)
    requires
        prev.wf(),
        spec_outcome(prev, current, machine_id) is Ok,
    ensures
        prev.elapsed_time < TIME_LIMIT,
        spec_advance(prev, current).elapsed_time < TIME_LIMIT,
        lex_lt(prev, spec_advance(prev, current)),
        spec_outcome(prev, current, machine_id)->Ok_0 == spec_compose(
            spec_advance(prev, current).elapsed_time as u64,
            spec_advance(prev, current).sequence as u64,
            machine_id as u64,
        ),
{
}

/// Packing respects generation order: of two in-range field pairs with one
/// machine id, the one with the earlier tick, or the same tick and the
/// smaller sequence, packs to the smaller id.
pub proof fn lemma_compose_order(t1: u64, s1: u64, t2: u64, s2: u64, m: u64)
    requires
        t1 < 0x80_0000_0000,
        t2 < 0x80_0000_0000,
        s1 < 512,
        s2 < 512,
        m < 0x1_0000,
    ensures
        (t1 < t2 || (t1 == t2 && s1 <= s2)) ==> spec_compose(t1, s1, m) <= spec_compose(
            t2,
            s2,
            m,
        ),
        (t1 < t2 || (t1 == t2 && s1 < s2)) ==> spec_compose(t1, s1, m) < spec_compose(t2, s2, m),
{
    assert(((t1 < t2 || (t1 == t2 && s1 <= s2)) ==> ((t1 << 25) | (s1 << 16) | m) <= ((t2 << 25) | (
    s2 << 16) | m)) && ((t1 < t2 || (t1 == t2 && s1 < s2)) ==> ((t1 << 25) | (s1 << 16) | m) < ((t2
        << 25) | (s2 << 16) | m))) by (bit_vector)
        requires
            t1 < 0x80_0000_0000 && t2 < 0x80_0000_0000 && s1 < 512 && s2 < 512 && m < 0x1_0000,
    ;
}

/// The counters after a run of generation steps at the given ticks, first
/// tick first.
pub open spec fn spec_run(start: Internals, ticks: Seq<i64>) -> Internals
    decreases ticks.len(),
{
    if ticks.len() == 0 {
        start
    } else {
        spec_run(spec_advance(start, ticks[0]), ticks.drop_first())
    }
}

/// The outcome of step `i` of a run: what `next_id` would return on the
/// `i`-th call when the calls see the ticks of `ticks` in order.
pub open spec fn spec_run_outcome(
    start: Internals,
    ticks: Seq<i64>,
    machine_id: u16,
    i: int,
) -> Result<u64, Error> {
    spec_outcome(spec_run(start, ticks.take(i)), ticks[i], machine_id)
}

/// A run over one more tick ends where one step from the shorter run's end
/// leads.
proof fn lemma_run_snoc(start: Internals, ticks: Seq<i64>, c: i64)
    ensures
        spec_run(start, ticks.push(c)) == spec_advance(spec_run(start, ticks), c),
    decreases ticks.len(),
{
    reveal_with_fuel(spec_run, 3);
    if ticks.len() == 0 {
        assert(ticks.push(c)[0] == c);
        assert(ticks.push(c).drop_first() =~= Seq::<i64>::empty());
    } else {
        lemma_run_snoc(spec_advance(start, ticks[0]), ticks.drop_first(), c);
        assert(ticks.push(c)[0] == ticks[0]);
        assert(ticks.push(c).drop_first() =~= ticks.drop_first().push(c));
    }
}

/// A run keeps the counters well formed.
proof fn lemma_run_wf(start: Internals, ticks: Seq<i64>)
    requires
        start.wf(),
    ensures
        spec_run(start, ticks).wf(),
    decreases ticks.len(),
{
    if ticks.len() > 0 {
        lemma_advance_lex(start, ticks[0]);
        lemma_run_wf(spec_advance(start, ticks[0]), ticks.drop_first());
    }
}

/// Along one run, the counters never move backwards: a longer prefix of the
/// run ends at counters no earlier than a shorter one's.
proof fn lemma_run_lex(start: Internals, ticks: Seq<i64>, i: int, j: int)
    requires
        start.wf(),
        0 <= i <= j <= ticks.len(),
    ensures
        lex_le(spec_run(start, ticks.take(i)), spec_run(start, ticks.take(j))),
    decreases j - i,
{
    lemma_run_wf(start, ticks.take(i));
    if i < j {
        lemma_run_lex(start, ticks, i, j - 1);
        assert(ticks.take(j) =~= ticks.take(j - 1).push(ticks[j - 1]));
        lemma_run_snoc(start, ticks.take(j - 1), ticks[j - 1]);
        lemma_run_wf(start, ticks.take(j - 1));
        lemma_advance_lex(spec_run(start, ticks.take(j - 1)), ticks[j - 1]);
    }
}

/// Ids strictly increase along any run of the generation state machine:
/// whatever ticks the run's steps see — the clock may stall or even move
/// backwards — of any two successful steps, the later one returns the
/// strictly larger id. In particular all ids of a run are pairwise
/// distinct.
pub proof fn lemma_run_ids_strictly_increase(
    start: Internals,
    ticks: Seq<i64>,
    machine_id: u16,
    i: int,
    j: int,
)
    requires
        start.wf(),
        0 <= i < j < ticks.len(),
        spec_run_outcome(start, ticks, machine_id, i) is Ok,
        spec_run_outcome(start, ticks, machine_id, j) is Ok,
    ensures
        spec_run_outcome(start, ticks, machine_id, i)->Ok_0 < spec_run_outcome(
            start,
            ticks,
            machine_id,
            j,
        )->Ok_0,
{
    let si = spec_run(start, ticks.take(i));
    let sj = spec_run(start, ticks.take(j));
    let si1 = spec_advance(si, ticks[i]);
    let sj1 = spec_advance(sj, ticks[j]);
    lemma_run_wf(start, ticks.take(i));
    lemma_run_wf(start, ticks.take(j));
    lemma_outcome_ok(si, ticks[i], machine_id);
    lemma_outcome_ok(sj, ticks[j], machine_id);
    assert(ticks.take(i + 1) =~= ticks.take(i).push(ticks[i]));
    lemma_run_snoc(start, ticks.take(i), ticks[i]);
    lemma_run_lex(start, ticks, i + 1, j);
    lemma_advance_lex(si, ticks[i]);
    lemma_advance_lex(sj, ticks[j]);
    lemma_compose_order(
        si1.elapsed_time as u64,
        si1.sequence as u64,
        sj.elapsed_time as u64,
        sj.sequence as u64,
        machine_id as u64,
    );
    lemma_compose_order(
        sj.elapsed_time as u64,
        sj.sequence as u64,
        sj1.elapsed_time as u64,
        sj1.sequence as u64,
        machine_id as u64,
    );
}

} // verus!
