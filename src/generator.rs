use vstd::prelude::*;

use crate::clock::system_millis;

verus! {

/// Number of distinct sequence values in one window: the ring is 12 bits wide.
pub const SEQUENCE_RING: u16 = 4096;

/// Mask of the sequence bits of an identifier.
pub const SEQUENCE_MASK: u64 = 0xfff;

/// Mask of the machine identity bits of an identifier.
pub const MACHINE_MASK: u64 = 0x3ff;

/// Position of the lowest relative-time bit in an identifier.
pub const TIME_SHIFT: u64 = 22;

/// Something that hands out identifiers, one per call, or reports that none
/// is available until the clock moves on.
pub trait IDGenerator {
    /// The internal consistency that every call keeps.
    spec fn inv(&self) -> bool;

    /// `after` and `r` are a possible state and result of one call on `self`.
    spec fn produces(self, after: Self, r: Option<i64>) -> bool;

    fn generate(&mut self) -> (r: Option<i64>)
        requires
            old(self).inv(),
        ensures
            final(self).inv(),
            (*old(self)).produces(*final(self), r),
    ;
}

/// Where the current window stands in the sequence ring.
#[derive(Clone, Copy, Debug, PartialEq, Eq, Structural)]
pub enum SequenceState {
    /// The next identifier takes this sequence value.
    Active(u16),
    /// The window is spent: no identifier until the clock advances.
    Exhausted,
}

/// The abstract state of a [`BasicIDGenerator`].
pub struct GeneratorModel {
    pub epoch: i64,
    pub machine_id: u32,
    /// The last clock reading that moved the window forward.
    pub time: i64,
    pub sequence: SequenceState,
    /// The sequence value at which the current window stops.
    pub rollover: u16,
}

/// Ring distance from sequence value `a` forward to `b`.
pub open spec fn ring_dist(a: int, b: int) -> int {
    (b - a + 4096) % 4096
}

/// The relative-time field for a reading `time` against `epoch`, as the 64
/// bits of `time - epoch` in two's complement.
pub open spec fn relative_bits(epoch: i64, time: i64) -> u64 {
    #[verifier::truncate] ((time - epoch) as u64)
}

/// The identifier packed from a relative time, a machine identity and a
/// sequence value. The machine identity and the sequence value share the low
/// bits, as the wire format has always had them.
pub open spec fn pack_id(relative: u64, machine_id: u32, sequence: u16) -> i64 {
    #[verifier::truncate] (((relative << 22u64) | ((machine_id as u64) & 0x3ffu64) | ((sequence as u64)
        & 0xfffu64)) as i64)
}

/// The relative-time field of an identifier: its bits from 22 upward.
pub open spec fn relative_time_field(id: i64) -> i64 {
    id >> 22i64
}

impl SequenceState {
    pub open spec fn valid(self) -> bool {
        match self {
            SequenceState::Active(s) => s < 4096,
            SequenceState::Exhausted => true,
        }
    }
}

impl GeneratorModel {
    pub open spec fn wf(self) -> bool {
        self.sequence.valid() && self.rollover < 4096
    }

    /// The state after a clock reading of `now`: a reading later than the
    /// recorded time opens a new window.
    pub open spec fn rolled(self, now: i64) -> GeneratorModel {
        if now > self.time {
            match self.sequence {
                SequenceState::Exhausted => GeneratorModel {
                    time: now,
                    sequence: SequenceState::Active(((self.rollover + 1) % 4096) as u16),
                    ..self
                },
                SequenceState::Active(s) => GeneratorModel {
                    time: now,
                    rollover: ((s + 4094) % 4096) as u16,
                    ..self
                },
            }
        } else {
            self
        }
    }

    /// The state after the current sequence value is handed out.
    pub open spec fn issued(self) -> GeneratorModel {
        match self.sequence {
            SequenceState::Active(s) => if s == self.rollover {
                GeneratorModel { sequence: SequenceState::Exhausted, ..self }
            } else {
                GeneratorModel { sequence: SequenceState::Active(((s + 1) % 4096) as u16), ..self }
            },
            SequenceState::Exhausted => self,
        }
    }

    /// The recorded time and sequence value that a call at clock reading
    /// `now` hands out, or `None` when the window is spent.
    pub open spec fn stamp(self, now: i64) -> Option<(i64, u16)> {
        let g = self.rolled(now);
        match g.sequence {
            SequenceState::Active(s) => Some((g.time, s)),
            SequenceState::Exhausted => None,
        }
    }

    /// The state after a call at clock reading `now`.
    pub open spec fn next(self, now: i64) -> GeneratorModel {
        self.rolled(now).issued()
    }

    /// The identifier that a call at clock reading `now` returns.
    pub open spec fn output(self, now: i64) -> Option<i64> {
        match self.stamp(now) {
            Some(st) => Some(pack_id(relative_bits(self.epoch, st.0), self.machine_id, st.1)),
            None => None,
        }
    }

    /// The pair (`t`, `s`) of recorded time and sequence value can still be
    /// handed out from this state.
    pub open spec fn fresh(self, t: i64, s: u16) -> bool {
        t > self.time || (t == self.time && match self.sequence {
            SequenceState::Active(c) => ring_dist(c as int, s as int) <= ring_dist(c as int, self.rollover as int),
            SequenceState::Exhausted => false,
        })
    }

    /// How many more identifiers this state can hand out with recorded time `t`.
    pub open spec fn room_at(self, t: i64) -> int {
        if t > self.time {
            4096
        } else if t == self.time {
            match self.sequence {
                SequenceState::Active(c) => ring_dist(c as int, self.rollover as int) + 1,
                SequenceState::Exhausted => 0,
            }
        } else {
            0
        }
    }
}

/// The state after the calls at clock readings `nows`, in order.
pub open spec fn run_state(g: GeneratorModel, nows: Seq<i64>) -> GeneratorModel
    decreases nows.len(),
{
    if nows.len() == 0 {
        g
    } else {
        run_state(g, nows.drop_last()).next(nows.last())
    }
}

/// The recorded time and sequence value handed out by call `i` of a run.
pub open spec fn run_stamp(g: GeneratorModel, nows: Seq<i64>, i: int) -> Option<(i64, u16)> {
    run_state(g, nows.take(i)).stamp(nows[i])
}

/// How many calls of a run hand out an identifier with recorded time `t`.
pub open spec fn run_count_at(g: GeneratorModel, nows: Seq<i64>, t: i64) -> int
    decreases nows.len(),
{
    if nows.len() == 0 {
        0
    } else {
        run_count_at(g, nows.drop_last(), t) + match run_state(g, nows.drop_last()).stamp(
            nows.last(),
        ) {
            Some(st) => if st.0 == t {
                1int
            } else {
                0int
            },
            None => 0int,
        }
    }
}

/// One call keeps the state well formed, hands out only a fresh pair, and
/// leaves that pair, and every pair that was not fresh before, unavailable.
pub proof fn lemma_step(g: GeneratorModel, now: i64)
    requires
        g.wf(),
    ensures
        g.next(now).wf(),
        g.stamp(now) matches Some(st) ==> g.fresh(st.0, st.1) && !g.next(now).fresh(st.0, st.1),
        forall|t: i64, s: u16| s < 4096 && #[trigger] g.next(now).fresh(t, s) ==> g.fresh(t, s),
        forall|t: i64| g.room_at(t) >= #[trigger] g.next(now).room_at(t) + match g.stamp(now) {
            Some(st) => if st.0 == t {
                1int
            } else {
                0int
            },
            None => 0int,
        },
        g.room_at(now) <= 4096,
{
}

/// A well-formed state stays well formed over any run, and a pair that is
/// fresh later in the run was fresh at every earlier point.
pub proof fn lemma_run_fresh(g: GeneratorModel, nows: Seq<i64>, k: int, m: int)
    requires
        g.wf(),
        0 <= k <= m <= nows.len(),
    ensures
        run_state(g, nows.take(m)).wf(),
        run_state(g, nows.take(m)).epoch == g.epoch,
        run_state(g, nows.take(m)).machine_id == g.machine_id,
        forall|t: i64, s: u16| s < 4096 && #[trigger] run_state(g, nows.take(m)).fresh(t, s) ==> run_state(g, nows.take(k)).fresh(t, s),
    decreases m,
{
    if m > 0 {
        let k2 = if k == m {
            m - 1
        } else {
            k
        };
        lemma_run_fresh(g, nows, k2, m - 1);
        assert(nows.take(m).drop_last() =~= nows.take(m - 1));
        lemma_step(run_state(g, nows.take(m - 1)), nows[m - 1]);
    }
}

/// No two calls on one generator hand out the same recorded time together
/// with the same sequence value.
pub proof fn lemma_unique_stamps(g: GeneratorModel, nows: Seq<i64>, i: int, j: int)
    requires
        g.wf(),
        0 <= i < j < nows.len(),
        run_stamp(g, nows, i) is Some,
        run_stamp(g, nows, j) is Some,
    ensures
        run_stamp(g, nows, i) != run_stamp(g, nows, j),
{
    let si = run_stamp(g, nows, i).unwrap();
    let sj = run_stamp(g, nows, j).unwrap();
    lemma_run_fresh(g, nows, i, i);
    lemma_run_fresh(g, nows, j, j);
    lemma_step(run_state(g, nows.take(i)), nows[i]);
    lemma_step(run_state(g, nows.take(j)), nows[j]);
    assert(nows.take(i + 1).drop_last() =~= nows.take(i));
    lemma_run_fresh(g, nows, i + 1, j);
    assert(sj.1 < 4096);
}

/// Over any run, the calls that hand out an identifier with recorded time
/// `t`, together with what is still available at `t`, never exceed what
/// was available at the start.
pub proof fn lemma_room(g: GeneratorModel, nows: Seq<i64>, t: i64)
    requires
        g.wf(),
    ensures
        run_state(g, nows).wf(),
        run_count_at(g, nows, t) + run_state(g, nows).room_at(t) <= g.room_at(t),
    decreases nows.len(),
{
    if nows.len() > 0 {
        lemma_room(g, nows.drop_last(), t);
        lemma_step(run_state(g, nows.drop_last()), nows.last());
    }
}

/// A single generator never hands out more than 4096 identifiers with one
/// recorded time, over any sequence of calls.
pub proof fn lemma_window_bound(g: GeneratorModel, nows: Seq<i64>, t: i64)
    requires
        g.wf(),
    ensures
        run_count_at(g, nows, t) <= 4096,
{
    lemma_room(g, nows, t);
    lemma_step(g, t);
}

/// Within the range the high bits can hold, the relative time packed into an
/// identifier is read back unchanged from its bits above 22.
pub proof fn lemma_relative_time_round_trip(relative: i64, machine_id: u32, sequence: u16)
    requires
        0 <= relative < 0x200_0000_0000,
    ensures
        relative_time_field(pack_id(relative as u64, machine_id, sequence)) == relative,
{
    let r = relative as u64;
    let m = machine_id as u64;
    let q = sequence as u64;
    assert((#[verifier::truncate] ((((r << 22u64) | (m & 0x3ffu64)) | (q & 0xfffu64)) as i64))
        >> 22i64 == r as i64) by (bit_vector)
        requires
            r < 0x200_0000_0000u64,
    ;
}

/// The sequence field of an identifier: its low 12 bits.
pub open spec fn sequence_field(id: i64) -> i64 {
    id & 0xfffi64
}

/// The identifier that call `i` of a run returns.
pub open spec fn run_output(g: GeneratorModel, nows: Seq<i64>, i: int) -> Option<i64> {
    run_state(g, nows.take(i)).output(nows[i])
}

/// For a generator whose machine identity has no bits in the identifier
/// (its low ten bits are zero), two calls never return identifiers that
/// agree in both the relative-time field and the sequence field, as long as
/// the relative times fit in the 41 high bits. With other machine
/// identities the two low fields overlap and this does not hold.
pub proof fn lemma_unique_id_fields(g: GeneratorModel, nows: Seq<i64>, i: int, j: int)
    requires
        g.wf(),
        g.machine_id & 0x3ff == 0,
        0 <= i < j < nows.len(),
        run_stamp(g, nows, i) matches Some(st) && 0 <= st.0 - g.epoch < 0x200_0000_0000,
        run_stamp(g, nows, j) matches Some(st) && 0 <= st.0 - g.epoch < 0x200_0000_0000,
    ensures
        ({
            let a = run_output(g, nows, i).unwrap();
            let b = run_output(g, nows, j).unwrap();
            relative_time_field(a) != relative_time_field(b) || sequence_field(a) != sequence_field(b)
        }),
{
    lemma_unique_stamps(g, nows, i, j);
    lemma_run_fresh(g, nows, i, i);
    lemma_run_fresh(g, nows, j, j);
    let si = run_stamp(g, nows, i).unwrap();
    let sj = run_stamp(g, nows, j).unwrap();
    lemma_fields(si.0 - g.epoch, g.machine_id, si.1, g.epoch, si.0);
    lemma_fields(sj.0 - g.epoch, g.machine_id, sj.1, g.epoch, sj.0);
}

proof fn lemma_fields(rel: int, machine_id: u32, sequence: u16, epoch: i64, time: i64)
    requires
        rel == time - epoch,
        0 <= rel < 0x200_0000_0000,
        machine_id & 0x3ff == 0,
        sequence < 4096,
    ensures
        relative_time_field(pack_id(relative_bits(epoch, time), machine_id, sequence)) == rel,
        sequence_field(pack_id(relative_bits(epoch, time), machine_id, sequence)) == sequence,
{
    let r = relative_bits(epoch, time);
    assert(r == rel);
    lemma_relative_time_round_trip(rel as i64, machine_id, sequence);
    let m = machine_id as u64;
    let q = sequence as u64;
    assert(m & 0x3ffu64 == 0) by (bit_vector)
        requires
            machine_id & 0x3ff == 0,
            m == machine_id as u64,
    ;
    assert((#[verifier::truncate] ((((r << 22u64) | (m & 0x3ffu64)) | (q & 0xfffu64)) as i64))
        & 0xfffi64 == q as i64) by (bit_vector)
        requires
            r < 0x200_0000_0000u64,
            m & 0x3ffu64 == 0,
            q < 4096,
    ;
}

/// A generator for one machine identity: each call hands out a fresh
/// identifier for the current millisecond, or `None` once the window is spent.
#[derive(Debug)]
pub struct BasicIDGenerator {
    start_epoch: i64,
    machine_id: u32,
    time: i64,
    sequence_id: SequenceState,
    rollover_sequence_id: u16,
}

impl View for BasicIDGenerator {
    type V = GeneratorModel;

    closed spec fn view(&self) -> GeneratorModel {
        GeneratorModel {
            epoch: self.start_epoch,
            machine_id: self.machine_id,
            time: self.time,
            sequence: self.sequence_id,
            rollover: self.rollover_sequence_id,
        }
    }
}

impl BasicIDGenerator {
    pub open spec fn wf(&self) -> bool {
        self@.wf()
    }

    /// A generator for `machine_id` measuring time from `start_epoch`, whose
    /// first window is the clock reading `now`.
    pub fn new_at(start_epoch: i64, machine_id: u32, now: i64) -> (r: BasicIDGenerator)
        ensures
            r.wf(),
            r@ == (GeneratorModel {
                epoch: start_epoch,
                machine_id,
                time: now,
                sequence: SequenceState::Active(0),
                rollover: 4095,
            }),
    {
        BasicIDGenerator {
            start_epoch,
            machine_id,
            time: now,
            sequence_id: SequenceState::Active(0),
            rollover_sequence_id: SEQUENCE_RING - 1,
        }
    }

    /// A generator for `machine_id` measuring time from `start_epoch`, whose
    /// first window is the current millisecond.
    pub fn new(start_epoch: i64, machine_id: u32) -> (r: BasicIDGenerator)
        ensures
            r.wf(),
            r@.epoch == start_epoch,
            r@.machine_id == machine_id,
            r@.sequence == SequenceState::Active(0),
            r@.rollover == 4095,
    {
        BasicIDGenerator::new_at(start_epoch, machine_id, system_millis())
    }

    /// Packs the time `time` relative to `epoch`, the machine identity and the
    /// sequence value into one identifier.
    pub fn id_from_parts(epoch: i64, time: i64, machine_id: u32, sequence: u16) -> (r: i64)
        ensures
            r == pack_id(relative_bits(epoch, time), machine_id, sequence),
    {
        let relative: u64 = #[verifier::truncate] ((time as i128 - epoch as i128) as u64);
        #[verifier::truncate] ((relative << TIME_SHIFT | (machine_id as u64 & MACHINE_MASK) | (
        sequence as u64 & SEQUENCE_MASK)) as i64)
    }

    /// One call at clock reading `now`.
    pub fn generate_at(&mut self, now: i64) -> (r: Option<i64>)
        requires
            old(self).wf(),
        ensures
            final(self).wf(),
            final(self)@ == old(self)@.next(now),
            r == old(self)@.output(now),
    {
        proof {
            lemma_step(self@, now);
        }
        if now > self.time {
            self.time = now;
            match self.sequence_id {
                SequenceState::Exhausted => {
                    self.sequence_id = SequenceState::Active((self.rollover_sequence_id + 1) % SEQUENCE_RING);
                },
                SequenceState::Active(s) => {
                    self.rollover_sequence_id = (s + (SEQUENCE_RING - 2)) % SEQUENCE_RING;
                },
            }
        }
        match self.sequence_id {
            SequenceState::Exhausted => None,
            SequenceState::Active(s) => {
                if s == self.rollover_sequence_id {
                    self.sequence_id = SequenceState::Exhausted;
                } else {
                    self.sequence_id = SequenceState::Active((s + 1) % SEQUENCE_RING);
                }
                Some(BasicIDGenerator::id_from_parts(self.start_epoch, self.time, self.machine_id, s))
            },
        }
    }
}

impl IDGenerator for BasicIDGenerator {
    open spec fn inv(&self) -> bool {
        self.wf()
    }

    open spec fn produces(self, after: Self, r: Option<i64>) -> bool {
        exists|now: i64| after@ == self@.next(now) && r == self@.output(now)
    }

    /// One call at the current clock reading.
    fn generate(&mut self) -> (r: Option<i64>) {
        let now = system_millis();
        self.generate_at(now)
    }
}

} // verus!
