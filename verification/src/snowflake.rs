//! The identifier allocator: one bucket per entity category, each bound to a
//! fixed (datacenter id, worker id) pair, issuing strictly increasing 64-bit
//! identifiers without any round trip to shared storage.
//!
//! An identifier packs four fields, most significant first: 41 bits of
//! milliseconds since the crate epoch, 5 bits of datacenter id, 5 bits of
//! worker id, and a 12-bit intra-millisecond sequence counter.
//!
//! Exclusive access to a bucket is expressed by `&mut self`: every state
//! change happens inside a single call, so a caller that guards the bucket
//! with a mutex (as the surrounding service does) gets the serialized
//! critical section the design asks for.
use vstd::prelude::*;

verus! {

/// Milliseconds of timestamp space: the timestamp field holds 41 bits.
pub const TIMESTAMP_SPACE: u64 = 0x200_0000_0000;

/// Weight of the timestamp field: it sits 22 bits up.
pub const TIMESTAMP_WEIGHT: u64 = 0x40_0000;

/// Weight of the datacenter id field: it sits 17 bits up.
pub const DATACENTER_WEIGHT: u64 = 0x2_0000;

/// Weight of the worker id field: it sits 12 bits up.
pub const WORKER_WEIGHT: u64 = 0x1000;

/// Number of datacenter ids (and of worker ids): each field holds 5 bits.
pub const MACHINE_SPACE: u64 = 32;

/// Number of sequence values one millisecond can carry: 12 bits.
pub const SEQUENCE_SPACE: u64 = 4096;

/// The packed identifier, as a function of its four fields.
pub open spec fn pack(ts: int, dc: int, worker: int, seq: int) -> int {
    ts * TIMESTAMP_WEIGHT + dc * DATACENTER_WEIGHT + worker * WORKER_WEIGHT + seq
}

/// The timestamp field of a packed identifier.
pub open spec fn timestamp_of(id: int) -> int {
    id / TIMESTAMP_WEIGHT as int
}

/// The datacenter id field of a packed identifier.
pub open spec fn datacenter_of(id: int) -> int {
    (id / DATACENTER_WEIGHT as int) % MACHINE_SPACE as int
}

/// The worker id field of a packed identifier.
pub open spec fn worker_of(id: int) -> int {
    (id / WORKER_WEIGHT as int) % MACHINE_SPACE as int
}

/// The sequence field of a packed identifier.
pub open spec fn sequence_of(id: int) -> int {
    id % SEQUENCE_SPACE as int
}

/// Number of clock re-reads a call may spend waiting for the clock to reach
/// the bucket's millisecond before it gives up. Each attempt reads the wall
/// clock, so the bound covers every sequence exhaustion (one tick away) and
/// clock regressions up to roughly a second; a larger jump fails the call.
pub const SPIN_ATTEMPTS: u64 = 20_000_000;

/// The one failure an allocator call can surface: the wall clock moved
/// backward past the bucket by more than the bounded spin tolerates, so
/// issuing would have threatened the ordering invariant.
#[derive(Clone, Copy, Debug, PartialEq, Eq, Structural)]
pub enum IdError {
    ClockRegression,
}

/// One allocator instance. Its state is the last millisecond it issued in
/// and the sequence counter within that millisecond; the two machine ids
/// are immutable for the bucket's lifetime.
pub struct SnowflakeIdBucket {
    pub datacenter_id: u64,
    pub worker_id: u64,
    pub last_timestamp: u64,
    pub sequence: u64,
}

impl SnowflakeIdBucket {
    /// Every reachable bucket state: machine ids in 5 bits, sequence in 12
    /// bits, timestamp in 41 bits.
    pub open spec fn wf(self) -> bool {
        &&& self.datacenter_id < MACHINE_SPACE
        &&& self.worker_id < MACHINE_SPACE
        &&& self.sequence < SEQUENCE_SPACE
        &&& self.last_timestamp < TIMESTAMP_SPACE
    }

    /// The bucket's position in issue order: states with a larger key issue
    /// larger identifiers (for the same machine ids).
    pub open spec fn chron(self) -> int {
        self.last_timestamp * SEQUENCE_SPACE + self.sequence
    }

    /// The identifier that the current state packs to.
    pub open spec fn current_id(self) -> int {
        pack(
            self.last_timestamp as int,
            self.datacenter_id as int,
            self.worker_id as int,
            self.sequence as int,
        )
    }

    /// Whether a call that observes clock reading `now` may issue at once:
    /// either the millisecond is fresh, or the current millisecond still has
    /// sequence numbers left.
    pub open spec fn can_issue(self, now: u64) -> bool {
        ||| now > self.last_timestamp
        ||| (now == self.last_timestamp && self.sequence < SEQUENCE_SPACE - 1)
    }

    /// A fresh bucket for one entity category. The (datacenter id,
    /// worker id) pair must be unique among all instances that issue into
    /// the same identifier space; that is a deployment contract.
    pub fn new(datacenter_id: u64, worker_id: u64) -> (r: Self)
        requires
            datacenter_id < MACHINE_SPACE,
            worker_id < MACHINE_SPACE,
        ensures
            r.wf(),
            r.datacenter_id == datacenter_id,
            r.worker_id == worker_id,
            r.last_timestamp == 0,
            r.sequence == 0,
    {
        SnowflakeIdBucket { datacenter_id, worker_id, last_timestamp: 0, sequence: 0 }
    }

    /// One step of the allocator, with the clock reading handed in.
    ///
    /// Issues exactly when `can_issue` holds of the observed reading: a
    /// backward-moving clock (`now` behind the bucket) and an exhausted
    /// sequence both return `None` and leave the bucket untouched, so no
    /// identifier ever re-uses or precedes an issued one. On success the
    /// bucket moves to millisecond `now`, the sequence restarts at zero in a
    /// fresh millisecond and increments otherwise, and the returned
    /// identifier packs exactly the new state.
    pub fn try_next_id(&mut self, now: u64) -> (r: Option<u64>)
        requires
            old(self).wf(),
            now < TIMESTAMP_SPACE,
        ensures
            final(self).wf(),
            final(self).datacenter_id == old(self).datacenter_id,
            final(self).worker_id == old(self).worker_id,
            r is Some <==> old(self).can_issue(now),
            r is None ==> *final(self) == *old(self),
            r is Some ==> {
                &&& final(self).last_timestamp == now
                &&& final(self).sequence == (
                    if now == old(self).last_timestamp {
                        old(self).sequence + 1
                    } else {
                        0
                    }
                )
                &&& final(self).chron() > old(self).chron()
                &&& r->Some_0 == final(self).current_id()
            },
    {
        if now < self.last_timestamp {
            // The clock moved backward past the bucket: report, never issue.
            None
        } else if now == self.last_timestamp {
            if self.sequence < SEQUENCE_SPACE - 1 {
                self.sequence = self.sequence + 1;
                Some(self.pack_current())
            } else {
                // This millisecond is exhausted: the caller waits for the
                // next tick rather than overflow into the timestamp field.
                None
            }
        } else {
            self.last_timestamp = now;
            self.sequence = 0;
            Some(self.pack_current())
        }
    }

    /// A fresh identifier, strictly greater than every identifier this
    /// bucket has issued before — or a reported clock regression, never a
    /// value out of order.
    ///
    /// Reads the clock and retries until the bucket can issue: an exhausted
    /// millisecond is waited out until the next tick, and a small backward
    /// clock jump is waited out until the clock catches up. The wait is a
    /// bounded spin of at most [`SPIN_ATTEMPTS`] clock re-reads, with no
    /// lock held and no I/O; if the clock has not reached the bucket's
    /// millisecond by then (a large regression), the call fails with
    /// [`IdError::ClockRegression`] and the bucket is left untouched.
    pub fn next_id(&mut self) -> (r: Result<u64, IdError>)
        requires
            old(self).wf(),
        ensures
            final(self).wf(),
            final(self).datacenter_id == old(self).datacenter_id,
            final(self).worker_id == old(self).worker_id,
            r matches Ok(id) ==> {
                &&& final(self).chron() > old(self).chron()
                &&& id == final(self).current_id()
            },
            r is Err ==> *final(self) == *old(self),
    {
        let mut attempts: u64 = SPIN_ATTEMPTS;
        loop
            invariant
                self.wf(),
                *self == *old(self),
            decreases attempts,
        {
            let now = crate::clock::now_ms();
            match self.try_next_id(now) {
                Some(id) => {
                    return Ok(id);
                },
                None => {
                    if attempts == 0 {
                        return Err(IdError::ClockRegression);
                    }
                    attempts = attempts - 1;
                    crate::clock::relax();
                },
            }
        }
    }

    /// Packs the current state into the 64-bit identifier.
    fn pack_current(&self) -> (id: u64)
        requires
            self.wf(),
        ensures
            id == self.current_id(),
    {
        self.last_timestamp * TIMESTAMP_WEIGHT + self.datacenter_id * DATACENTER_WEIGHT
            + self.worker_id * WORKER_WEIGHT + self.sequence
    }
}

/// Splits an identifier back into its four fields:
/// (timestamp, datacenter id, worker id, sequence).
pub fn unpack_id(id: u64) -> (r: (u64, u64, u64, u64))
    ensures
        r.0 == timestamp_of(id as int),
        r.1 == datacenter_of(id as int),
        r.2 == worker_of(id as int),
        r.3 == sequence_of(id as int),
{
    (
        id / TIMESTAMP_WEIGHT,
        (id / DATACENTER_WEIGHT) % MACHINE_SPACE,
        (id / WORKER_WEIGHT) % MACHINE_SPACE,
        id % SEQUENCE_SPACE,
    )
}

/// Field round-trip: unpacking a packed identifier reproduces exactly the
/// four fields it was built from, for every in-range value of each field.
pub proof fn lemma_field_round_trip(ts: int, dc: int, worker: int, seq: int)
    requires
        0 <= ts < TIMESTAMP_SPACE,
        0 <= dc < MACHINE_SPACE,
        0 <= worker < MACHINE_SPACE,
        0 <= seq < SEQUENCE_SPACE,
    ensures
        timestamp_of(pack(ts, dc, worker, seq)) == ts,
        datacenter_of(pack(ts, dc, worker, seq)) == dc,
        worker_of(pack(ts, dc, worker, seq)) == worker,
        sequence_of(pack(ts, dc, worker, seq)) == seq,
{
    let id = pack(ts, dc, worker, seq);
    vstd::arithmetic::div_mod::lemma_fundamental_div_mod_converse(
        id,
        TIMESTAMP_WEIGHT as int,
        ts,
        dc * DATACENTER_WEIGHT + worker * WORKER_WEIGHT + seq,
    );
    vstd::arithmetic::div_mod::lemma_fundamental_div_mod_converse(
        id,
        DATACENTER_WEIGHT as int,
        ts * MACHINE_SPACE + dc,
        worker * WORKER_WEIGHT + seq,
    );
    vstd::arithmetic::div_mod::lemma_fundamental_div_mod_converse(
        ts * MACHINE_SPACE + dc,
        MACHINE_SPACE as int,
        ts,
        dc,
    );
    vstd::arithmetic::div_mod::lemma_fundamental_div_mod_converse(
        id,
        WORKER_WEIGHT as int,
        ts * MACHINE_SPACE * MACHINE_SPACE + dc * MACHINE_SPACE + worker,
        seq,
    );
    vstd::arithmetic::div_mod::lemma_fundamental_div_mod_converse(
        ts * MACHINE_SPACE * MACHINE_SPACE + dc * MACHINE_SPACE + worker,
        MACHINE_SPACE as int,
        ts * MACHINE_SPACE + dc,
        worker,
    );
}

/// The fields of the identifier a state packs to are exactly the state's
/// fields: what `next_id` hands out, `unpack_id` splits back into the
/// bucket's timestamp, machine ids and sequence.
pub proof fn lemma_current_id_fields(s: SnowflakeIdBucket)
    requires
        s.wf(),
    ensures
        timestamp_of(s.current_id()) == s.last_timestamp,
        datacenter_of(s.current_id()) == s.datacenter_id,
        worker_of(s.current_id()) == s.worker_id,
        sequence_of(s.current_id()) == s.sequence,
{
    lemma_field_round_trip(
        s.last_timestamp as int,
        s.datacenter_id as int,
        s.worker_id as int,
        s.sequence as int,
    );
}

/// A request that finds its millisecond exhausted is refused there, and the
/// very next tick serves it: the issued identifier then carries a timestamp
/// field one greater and a sequence restarted at zero, by the contract of
/// `try_next_id`.
pub proof fn lemma_exhausted_millisecond(s: SnowflakeIdBucket)
    requires
        s.wf(),
        s.sequence == SEQUENCE_SPACE - 1,
        s.last_timestamp < TIMESTAMP_SPACE - 1,
    ensures
        !s.can_issue(s.last_timestamp),
        s.can_issue((s.last_timestamp + 1) as u64),
{
}

/// Uniqueness of the packing: two identifiers built from in-range fields
/// are equal only if all four fields are equal.
pub proof fn lemma_pack_injective(
    ts1: int,
    dc1: int,
    worker1: int,
    seq1: int,
    ts2: int,
    dc2: int,
    worker2: int,
    seq2: int,
)
    requires
        0 <= ts1 < TIMESTAMP_SPACE,
        0 <= dc1 < MACHINE_SPACE,
        0 <= worker1 < MACHINE_SPACE,
        0 <= seq1 < SEQUENCE_SPACE,
        0 <= ts2 < TIMESTAMP_SPACE,
        0 <= dc2 < MACHINE_SPACE,
        0 <= worker2 < MACHINE_SPACE,
        0 <= seq2 < SEQUENCE_SPACE,
        pack(ts1, dc1, worker1, seq1) == pack(ts2, dc2, worker2, seq2),
    ensures
        ts1 == ts2,
        dc1 == dc2,
        worker1 == worker2,
        seq1 == seq2,
{
    lemma_field_round_trip(ts1, dc1, worker1, seq1);
    lemma_field_round_trip(ts2, dc2, worker2, seq2);
}

/// For one machine identity, the packing respects issue order: a state
/// later in issue order packs to a strictly larger identifier.
pub proof fn lemma_chron_monotonic(a: SnowflakeIdBucket, b: SnowflakeIdBucket)
    requires
        a.wf(),
        b.wf(),
        a.datacenter_id == b.datacenter_id,
        a.worker_id == b.worker_id,
        a.chron() < b.chron(),
    ensures
        a.current_id() < b.current_id(),
{
    assert(a.last_timestamp <= b.last_timestamp);
}

/// Uniqueness: two states of one machine identity at different points of
/// issue order pack to different identifiers.
pub proof fn lemma_ids_unique(a: SnowflakeIdBucket, b: SnowflakeIdBucket)
    requires
        a.wf(),
        b.wf(),
        a.datacenter_id == b.datacenter_id,
        a.worker_id == b.worker_id,
        a.chron() != b.chron(),
    ensures
        a.current_id() != b.current_id(),
{
    if a.chron() < b.chron() {
        lemma_chron_monotonic(a, b);
    } else {
        lemma_chron_monotonic(b, a);
    }
}

/// Monotonicity: along any chain of states one bucket passes through while
/// issuing (issue order strictly advancing, machine identity fixed, as the
/// issuing methods ensure), the identifiers the states pack to are strictly
/// increasing in issue order.
pub proof fn lemma_ids_strictly_increasing(states: Seq<SnowflakeIdBucket>, i: int, j: int)
    requires
        forall|k: int| 0 <= k < states.len() ==> (#[trigger] states[k]).wf(),
        forall|k: int|
            0 <= k < states.len() - 1 ==> (#[trigger] states[k]).chron() < states[k + 1].chron(),
        forall|k: int|
            0 <= k < states.len() ==> (#[trigger] states[k]).datacenter_id
                == states[0].datacenter_id && states[k].worker_id == states[0].worker_id,
        0 <= i < j < states.len(),
    ensures
        states[i].current_id() < states[j].current_id(),
    decreases j - i,
{
    if i + 1 < j {
        lemma_ids_strictly_increasing(states, i, j - 1);
    }
    lemma_chron_monotonic(states[j - 1], states[j]);
}

/// Along a chain of states that never leaves one millisecond (as the
/// issuing methods ensure while the clock reading stays put), the sequence
/// counter advances by exactly one per issue.
pub proof fn lemma_sequence_consecutive(states: Seq<SnowflakeIdBucket>, k: int)
    requires
        forall|m: int| 0 <= m < states.len() ==> (#[trigger] states[m]).wf(),
        forall|m: int|
            0 <= m < states.len() - 1 ==> (#[trigger] states[m]).last_timestamp == states[m
                + 1].last_timestamp && states[m + 1].sequence == states[m].sequence + 1,
        0 <= k < states.len(),
    ensures
        states[k].sequence == states[0].sequence + k,
    decreases k,
{
    if k > 0 {
        lemma_sequence_consecutive(states, k - 1);
    }
}

/// Sequence bound: a bucket passes through at most 4096 states inside one
/// millisecond, so it issues at most 4096 identifiers there; the next
/// request must move to a later millisecond.
pub proof fn lemma_sequence_bound(states: Seq<SnowflakeIdBucket>)
    requires
        states.len() > 0,
        forall|m: int| 0 <= m < states.len() ==> (#[trigger] states[m]).wf(),
        forall|m: int|
            0 <= m < states.len() - 1 ==> (#[trigger] states[m]).last_timestamp == states[m
                + 1].last_timestamp && states[m + 1].sequence == states[m].sequence + 1,
    ensures
        states.len() <= SEQUENCE_SPACE,
{
    lemma_sequence_consecutive(states, states.len() - 1);
}

} // verus!
