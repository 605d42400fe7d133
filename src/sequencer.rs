//! Power-on handshake of each die: read the identifier, soft-reset, read it
//! twice more and check the second, then write each entry of the die's
//! configuration table and read it back, stopping at the first mismatch.
//!
//! The handshake is a plan of steps. A caller runs each step on the bus (or
//! waits, for a pause) and feeds back the byte it read; the sequencer checks
//! it and moves on.
use vstd::prelude::*;
use crate::bus::Sensor;
use crate::frame::{read_frame, write_frame, echo_len_spec, register_read_command, write_command};

verus! {

/// Identifier register, on both dies.
pub const CHIP_ID_REG: u8 = 0x00;
/// Value that triggers a soft reset.
pub const SOFT_RESET_CMD: u8 = 0xB6;
/// Pause between two transactions to the same die.
pub const QUIET_MICROS: u64 = 150;
/// Pause after a soft reset.
pub const RESET_MICROS: u64 = 50_000;
/// Steps before the first configuration entry.
pub const PREAMBLE_LEN: usize = 7;
/// Steps per configuration entry.
pub const ENTRY_LEN: usize = 4;

/// One step of the handshake.
#[derive(Clone, Copy, Debug, PartialEq, Eq, Structural)]
pub enum Step {
    /// Read `reg`; where `expect` holds a value, the byte read must equal it.
    Read { reg: u8, expect: Option<u8> },
    /// Write `val` to `reg`.
    Write { reg: u8, val: u8 },
    /// Wait this many microseconds.
    Pause { micros: u64 },
}

#[derive(Clone, Copy, Debug, PartialEq, Eq, Structural)]
pub enum InitStatus {
    Running,
    Passed,
    Failed,
}

pub open spec fn chip_id_spec(s: Sensor) -> u8 {
    match s {
        Sensor::Gyro => 0x0F,
        Sensor::Acc => 0x1E,
    }
}

pub open spec fn reset_reg_spec(s: Sensor) -> u8 {
    match s {
        Sensor::Gyro => 0x14,
        Sensor::Acc => 0x7E,
    }
}

/// The configuration of each die, as (register, value) in the order written.
/// Gyroscope: ±2000 °/s, 1000 Hz output, normal power, data-ready interrupt
/// open-drain active-low on INT3. Accelerometer: powered on, active, 200 Hz
/// output, ±12 g, data-ready interrupt open-drain active-low on INT1.
pub open spec fn table_spec(s: Sensor) -> Seq<(u8, u8)> {
    match s {
        Sensor::Gyro => seq![(0x0Fu8, 0x00u8), (0x10, 0x82), (0x11, 0x00), (0x15, 0x80), (0x16, 0x02), (0x18, 0x01)],
        Sensor::Acc => seq![(0x7Du8, 0x04u8), (0x7C, 0x00), (0x40, 0xA9), (0x41, 0x02), (0x53, 0x0C), (0x58, 0x04)],
    }
}

/// Identifier read (discarded), reset, identifier read (discarded), checked
/// identifier read.
pub open spec fn preamble(s: Sensor) -> Seq<Step> {
    seq![
        Step::Read { reg: CHIP_ID_REG, expect: None },
        Step::Pause { micros: QUIET_MICROS },
        Step::Write { reg: reset_reg_spec(s), val: SOFT_RESET_CMD },
        Step::Pause { micros: RESET_MICROS },
        Step::Read { reg: CHIP_ID_REG, expect: None },
        Step::Pause { micros: QUIET_MICROS },
        Step::Read { reg: CHIP_ID_REG, expect: Some(chip_id_spec(s)) },
    ]
}

/// Step `j` of the steps that write and verify one table entry.
pub open spec fn entry_step(e: (u8, u8), j: int) -> Step {
    if j == 0 {
        Step::Pause { micros: QUIET_MICROS }
    } else if j == 1 {
        Step::Write { reg: e.0, val: e.1 }
    } else if j == 2 {
        Step::Pause { micros: QUIET_MICROS }
    } else {
        Step::Read { reg: e.0, expect: Some(e.1) }
    }
}

pub open spec fn plan_len(s: Sensor) -> nat {
    PREAMBLE_LEN as nat + ENTRY_LEN as nat * table_spec(s).len()
}

/// Index of the step that writes table entry `k`.
pub open spec fn write_index(k: int) -> int {
    PREAMBLE_LEN as int + ENTRY_LEN as int * k + 1
}

/// The whole handshake of `s`.
pub open spec fn plan_spec(s: Sensor) -> Seq<Step> {
    Seq::new(
        plan_len(s),
        |i: int|
            if i < PREAMBLE_LEN as int {
                preamble(s)[i]
            } else {
                entry_step(
                    table_spec(s)[(i - PREAMBLE_LEN as int) / ENTRY_LEN as int],
                    (i - PREAMBLE_LEN as int) % ENTRY_LEN as int,
                )
            },
    )
}

/// Whether the byte `v`, fed back after `step`, lets the handshake go on.
pub open spec fn step_ok(step: Step, v: u8) -> bool {
    match step {
        Step::Read { expect: Some(e), .. } => v == e,
        _ => true,
    }
}

/// The first `n` steps of the handshake of `s` were run, with the bytes
/// `vs` fed back, and none of them failed.
pub open spec fn prefix_ok(s: Sensor, vs: Seq<u8>, n: int) -> bool {
    &&& 0 <= n <= vs.len()
    &&& n <= plan_len(s)
    &&& forall|i: int| 0 <= i < n ==> step_ok(#[trigger] plan_spec(s)[i], vs[i])
}

/// The whole handshake of `s` passed with the bytes `vs` fed back.
pub open spec fn passes(s: Sensor, vs: Seq<u8>) -> bool {
    vs.len() == plan_len(s) && prefix_ok(s, vs, vs.len() as int)
}

/// The bytes to send for `step` on die `s`; none for a pause.
pub open spec fn step_frame(s: Sensor, step: Step) -> Option<Seq<u8>> {
    match step {
        Step::Read { reg, .. } => Some(read_frame(reg, echo_len_spec(s) + 1)),
        Step::Write { reg, val } => Some(write_frame(reg, val)),
        Step::Pause { .. } => None,
    }
}

pub fn chip_id(s: Sensor) -> (r: u8)
    ensures
        r == chip_id_spec(s),
{
    match s {
        Sensor::Gyro => 0x0F,
        Sensor::Acc => 0x1E,
    }
}

pub fn reset_reg(s: Sensor) -> (r: u8)
    ensures
        r == reset_reg_spec(s),
{
    match s {
        Sensor::Gyro => 0x14,
        Sensor::Acc => 0x7E,
    }
}

/// The configuration table of `s`.
pub fn config_table(s: Sensor) -> (r: Vec<(u8, u8)>)
    ensures
        r@ == table_spec(s),
{
    let v: Vec<(u8, u8)> = match s {
        Sensor::Gyro => vec![(0x0Fu8, 0x00u8), (0x10, 0x82), (0x11, 0x00), (0x15, 0x80), (0x16, 0x02), (0x18, 0x01)],
        Sensor::Acc => vec![(0x7Du8, 0x04u8), (0x7C, 0x00), (0x40, 0xA9), (0x41, 0x02), (0x53, 0x0C), (0x58, 0x04)],
    };
    assert(v@ =~= table_spec(s));
    v
}

/// The whole handshake of `s`, step by step.
pub fn init_plan(s: Sensor) -> (r: Vec<Step>)
    ensures
        r@ == plan_spec(s),
{
    let mut v: Vec<Step> = Vec::new();
    v.push(Step::Read { reg: CHIP_ID_REG, expect: None });
    v.push(Step::Pause { micros: QUIET_MICROS });
    v.push(Step::Write { reg: reset_reg(s), val: SOFT_RESET_CMD });
    v.push(Step::Pause { micros: RESET_MICROS });
    v.push(Step::Read { reg: CHIP_ID_REG, expect: None });
    v.push(Step::Pause { micros: QUIET_MICROS });
    v.push(Step::Read { reg: CHIP_ID_REG, expect: Some(chip_id(s)) });
    assert(v@ =~= plan_spec(s).take(PREAMBLE_LEN as int));
    let table = config_table(s);
    let mut k: usize = 0;
    while k < table.len()
        invariant
            0 <= k <= table@.len(),
            table@ == table_spec(s),
            v@ == plan_spec(s).take(PREAMBLE_LEN + ENTRY_LEN * k),
        decreases table@.len() - k,
    {
        let (reg, val) = table[k];
        let ghost base = v@.len() as int;
        v.push(Step::Pause { micros: QUIET_MICROS });
        v.push(Step::Write { reg, val });
        v.push(Step::Pause { micros: QUIET_MICROS });
        v.push(Step::Read { reg, expect: Some(val) });
        proof {
            let b = base - PREAMBLE_LEN as int;
            assert(b == ENTRY_LEN as int * k as int);
            assert(b / 4 == k as int && b % 4 == 0);
            assert((b + 1) / 4 == k as int && (b + 1) % 4 == 1);
            assert((b + 2) / 4 == k as int && (b + 2) % 4 == 2);
            assert((b + 3) / 4 == k as int && (b + 3) % 4 == 3);
        }
        k = k + 1;
        assert(v@ =~= plan_spec(s).take(PREAMBLE_LEN + ENTRY_LEN * k));
    }
    assert(v@ =~= plan_spec(s));
    v
}

/// The bytes to send for `step` on die `s`; `None` for a pause.
pub fn step_command(s: Sensor, step: Step) -> (r: Option<Vec<u8>>)
    ensures
        match (r, step_frame(s, step)) {
            (Some(v), Some(f)) => v@ == f,
            (None, None) => true,
            _ => false,
        },
{
    match step {
        Step::Read { reg, .. } => Some(register_read_command(s, reg)),
        Step::Write { reg, val } => Some(write_command(reg, val)),
        Step::Pause { .. } => None,
    }
}

/// The handshake of one die in progress.
pub struct InitSequencer {
    sensor: Sensor,
    plan: Vec<Step>,
    pos: usize,
    status: InitStatus,
    fed: Ghost<Seq<u8>>,
}

impl InitSequencer {
    pub closed spec fn sensor_spec(&self) -> Sensor {
        self.sensor
    }

    /// Index of the step to run next (or of the step that failed).
    pub closed spec fn position(&self) -> int {
        self.pos as int
    }

    pub closed spec fn status_spec(&self) -> InitStatus {
        self.status
    }

    /// The bytes fed back so far, one per step run.
    pub closed spec fn history(&self) -> Seq<u8> {
        self.fed@
    }

    pub closed spec fn wf(&self) -> bool {
        &&& self.plan@ == plan_spec(self.sensor)
        &&& match self.status {
            InitStatus::Running => {
                &&& self.pos < plan_len(self.sensor)
                &&& self.fed@.len() == self.pos
                &&& prefix_ok(self.sensor, self.fed@, self.pos as int)
            },
            InitStatus::Passed => {
                &&& self.pos == plan_len(self.sensor)
                &&& passes(self.sensor, self.fed@)
            },
            InitStatus::Failed => {
                &&& self.pos < plan_len(self.sensor)
                &&& self.fed@.len() == self.pos + 1
                &&& prefix_ok(self.sensor, self.fed@, self.pos as int)
                &&& !step_ok(plan_spec(self.sensor)[self.pos as int], self.fed@[self.pos as int])
            },
        }
    }

    /// What the status says of the bytes fed back: running means every step
    /// so far passed, passed means the whole handshake did, failed means
    /// the last step fed back failed and all before it passed.
    pub proof fn lemma_status(&self)
        requires
            self.wf(),
        ensures
            self.status_spec() == InitStatus::Running ==> {
                &&& self.position() < plan_len(self.sensor_spec())
                &&& self.history().len() == self.position()
                &&& prefix_ok(self.sensor_spec(), self.history(), self.position())
            },
            self.status_spec() == InitStatus::Passed ==> passes(self.sensor_spec(), self.history()),
            self.status_spec() == InitStatus::Failed ==> {
                &&& self.position() < plan_len(self.sensor_spec())
                &&& self.history().len() == self.position() + 1
                &&& prefix_ok(self.sensor_spec(), self.history(), self.position())
                &&& !step_ok(
                    plan_spec(self.sensor_spec())[self.position()],
                    self.history()[self.position()],
                )
            },
    {
    }

    /// A handshake of `s` at its first step.
    pub fn new(s: Sensor) -> (r: InitSequencer)
        ensures
            r.wf(),
            r.sensor_spec() == s,
            r.position() == 0,
            r.status_spec() == InitStatus::Running,
            r.history() == Seq::<u8>::empty(),
    {
        let plan = init_plan(s);
        InitSequencer { sensor: s, plan, pos: 0, status: InitStatus::Running, fed: Ghost(Seq::empty()) }
    }

    pub fn sensor(&self) -> (r: Sensor)
        ensures
            r == self.sensor_spec(),
    {
        self.sensor
    }

    pub fn status(&self) -> (r: InitStatus)
        ensures
            r == self.status_spec(),
    {
        self.status
    }

    /// The step to run next, while the handshake is running.
    pub fn current(&self) -> (r: Option<Step>)
        requires
            self.wf(),
        ensures
            self.status_spec() == InitStatus::Running ==> r == Some(
                plan_spec(self.sensor_spec())[self.position()],
            ),
            self.status_spec() != InitStatus::Running ==> r.is_none(),
    {
        match self.status {
            InitStatus::Running => Some(self.plan[self.pos]),
            _ => None,
        }
    }

    /// Feed back the byte read by the current step (any byte for a write or
    /// a pause). A checked read that does not give the expected byte fails
    /// the handshake; otherwise it moves to the next step, and passes after
    /// the last.
    pub fn feed(&mut self, v: u8)
        requires
            old(self).wf(),
            old(self).status_spec() == InitStatus::Running,
        ensures
            final(self).wf(),
            final(self).sensor_spec() == old(self).sensor_spec(),
            final(self).history() == old(self).history().push(v),
            ({
                let step = plan_spec(old(self).sensor_spec())[old(self).position()];
                &&& !step_ok(step, v) ==> final(self).status_spec() == InitStatus::Failed
                    && final(self).position() == old(self).position()
                &&& step_ok(step, v) ==> final(self).position() == old(self).position() + 1
                &&& step_ok(step, v) ==> (final(self).status_spec() == InitStatus::Passed
                    <==> final(self).position() == plan_len(old(self).sensor_spec()))
                &&& step_ok(step, v) ==> (final(self).status_spec() == InitStatus::Running
                    <==> final(self).position() < plan_len(old(self).sensor_spec()))
            }),
    {
        let step = self.plan[self.pos];
        let ok = match step {
            Step::Read { expect: Some(e), .. } => v == e,
            _ => true,
        };
        self.fed = Ghost(self.fed@.push(v));
        if !ok {
            self.status = InitStatus::Failed;
        } else {
            self.pos = self.pos + 1;
            if self.pos == self.plan.len() {
                self.status = InitStatus::Passed;
            }
        }
        assert(self.fed@.subrange(0, self.fed@.len() - 1) =~= old(self).fed@);
    }
}

/// Register round trip: when the handshake of `s` passes, each table entry
/// is written by one step and read back two steps later (after a pause),
/// and that read gave exactly the written value.
pub proof fn lemma_table_round_trip(s: Sensor, vs: Seq<u8>, k: int)
    requires
        passes(s, vs),
        0 <= k < table_spec(s).len(),
    ensures
        write_index(k) + 2 < plan_len(s),
        plan_spec(s)[write_index(k)] == (Step::Write { reg: table_spec(s)[k].0, val: table_spec(s)[k].1 }),
        plan_spec(s)[write_index(k) + 1] == (Step::Pause { micros: QUIET_MICROS }),
        plan_spec(s)[write_index(k) + 2] == (Step::Read {
            reg: table_spec(s)[k].0,
            expect: Some(table_spec(s)[k].1),
        }),
        vs[write_index(k) + 2] == table_spec(s)[k].1,
{
    let b = ENTRY_LEN as int * k;
    assert((b + 1) / 4 == k && (b + 1) % 4 == 1);
    assert((b + 2) / 4 == k && (b + 2) % 4 == 2);
    assert((b + 3) / 4 == k && (b + 3) % 4 == 3);
    let i = write_index(k) + 2;
    assert(step_ok(plan_spec(s)[i], vs[i]));
}

/// Reset before identification, identification before configuration: in
/// the handshake of `s` the soft reset is step 2 and the checked identifier
/// read is step 6; a configuration write can only be reached, with every
/// step before it passed, after that read gave the die's identifier.
pub proof fn lemma_identified_before_config(s: Sensor, vs: Seq<u8>, n: int)
    requires
        prefix_ok(s, vs, n),
        n < plan_len(s),
        plan_spec(s)[n] is Write,
        n != 2,
    ensures
        plan_spec(s)[2] == (Step::Write { reg: reset_reg_spec(s), val: SOFT_RESET_CMD }),
        plan_spec(s)[6] == (Step::Read { reg: CHIP_ID_REG, expect: Some(chip_id_spec(s)) }),
        6 < n,
        vs[6] == chip_id_spec(s),
{
    assert(plan_spec(s)[6] == preamble(s)[6]);
    assert(plan_spec(s)[2] == preamble(s)[2]);
    if n < PREAMBLE_LEN as int {
        assert(plan_spec(s)[n] == preamble(s)[n]);
    }
    assert(step_ok(plan_spec(s)[6], vs[6]));
}

/// The handshakes of both dies: the gyroscope first, then the
/// accelerometer, whatever the gyroscope's outcome. Initialization
/// succeeds when both pass.
pub struct ImuInit {
    pub gyro: InitSequencer,
    pub acc: InitSequencer,
}

impl ImuInit {
    pub open spec fn wf(&self) -> bool {
        &&& self.gyro.wf()
        &&& self.acc.wf()
        &&& self.gyro.sensor_spec() == Sensor::Gyro
        &&& self.acc.sensor_spec() == Sensor::Acc
    }

    pub fn new() -> (r: ImuInit)
        ensures
            r.wf(),
            r.gyro.status_spec() == InitStatus::Running,
            r.acc.status_spec() == InitStatus::Running,
            r.gyro.position() == 0,
            r.acc.position() == 0,
    {
        ImuInit { gyro: InitSequencer::new(Sensor::Gyro), acc: InitSequencer::new(Sensor::Acc) }
    }

    /// The die and step to run next; `None` once both handshakes are over.
    pub fn next_step(&self) -> (r: Option<(Sensor, Step)>)
        requires
            self.wf(),
        ensures
            self.gyro.status_spec() == InitStatus::Running ==> r == Some(
                (Sensor::Gyro, plan_spec(Sensor::Gyro)[self.gyro.position()]),
            ),
            self.gyro.status_spec() != InitStatus::Running && self.acc.status_spec()
                == InitStatus::Running ==> r == Some(
                (Sensor::Acc, plan_spec(Sensor::Acc)[self.acc.position()]),
            ),
            self.gyro.status_spec() != InitStatus::Running && self.acc.status_spec()
                != InitStatus::Running ==> r.is_none(),
    {
        match self.gyro.current() {
            Some(step) => Some((Sensor::Gyro, step)),
            None => match self.acc.current() {
                Some(step) => Some((Sensor::Acc, step)),
                None => None,
            },
        }
    }

    /// Feed back the byte read by the step that `next_step` gave.
    pub fn feed(&mut self, v: u8)
        requires
            old(self).wf(),
            old(self).gyro.status_spec() == InitStatus::Running || old(self).acc.status_spec()
                == InitStatus::Running,
        ensures
            final(self).wf(),
            old(self).gyro.status_spec() == InitStatus::Running ==> final(self).acc == old(self).acc
                && final(self).gyro.history() == old(self).gyro.history().push(v),
            old(self).gyro.status_spec() != InitStatus::Running ==> final(self).gyro == old(self).gyro
                && final(self).acc.history() == old(self).acc.history().push(v),
    {
        if self.gyro.status() == InitStatus::Running {
            self.gyro.feed(v);
        } else {
            self.acc.feed(v);
        }
    }

    /// Whether both handshakes are over.
    pub fn finished(&self) -> (r: bool)
        ensures
            r == (self.gyro.status_spec() != InitStatus::Running && self.acc.status_spec()
                != InitStatus::Running),
    {
        self.gyro.status() != InitStatus::Running && self.acc.status() != InitStatus::Running
    }

    /// Whether both dies passed their handshake.
    pub fn succeeded(&self) -> (r: bool)
        ensures
            r == (self.gyro.status_spec() == InitStatus::Passed && self.acc.status_spec()
                == InitStatus::Passed),
    {
        self.gyro.status() == InitStatus::Passed && self.acc.status() == InitStatus::Passed
    }
}

} // verus!
