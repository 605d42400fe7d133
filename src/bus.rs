//! Chip-select discipline of the shared serial bus.
//!
//! Both dies listen on the same data lines; each has its own select line,
//! idle high and asserted low. A transaction first releases the other die,
//! then selects its target, transfers, and releases the target again.
use vstd::prelude::*;

verus! {

/// Which of the two dies on the shared bus a transaction targets.
#[derive(Clone, Copy, Debug, PartialEq, Eq, Structural)]
pub enum Sensor {
    Acc,
    Gyro,
}

/// The die that shares the bus with `s`.
pub open spec fn other_spec(s: Sensor) -> Sensor {
    match s {
        Sensor::Acc => Sensor::Gyro,
        Sensor::Gyro => Sensor::Acc,
    }
}

pub fn other(s: Sensor) -> (r: Sensor)
    ensures
        r == other_spec(s),
{
    match s {
        Sensor::Acc => Sensor::Gyro,
        Sensor::Gyro => Sensor::Acc,
    }
}

/// One action on the bus during a transaction.
#[derive(Clone, Copy, Debug, PartialEq, Eq, Structural)]
pub enum BusStep {
    /// Drive the die's select line high (idle).
    Release(Sensor),
    /// Drive the die's select line low (asserted).
    Select(Sensor),
    /// Run the full-duplex transfer of the frame.
    Transfer,
}

/// The levels of the two select lines: `true` means asserted (low).
#[derive(Clone, Copy, Debug, PartialEq, Eq, Structural)]
pub struct CsLines {
    pub acc_selected: bool,
    pub gyro_selected: bool,
}

/// At most one die is selected.
pub open spec fn exclusive(c: CsLines) -> bool {
    !(c.acc_selected && c.gyro_selected)
}

pub open spec fn set_line(c: CsLines, s: Sensor, selected: bool) -> CsLines {
    match s {
        Sensor::Acc => CsLines { acc_selected: selected, ..c },
        Sensor::Gyro => CsLines { gyro_selected: selected, ..c },
    }
}

/// The lines after one bus step.
pub open spec fn apply_spec(c: CsLines, step: BusStep) -> CsLines {
    match step {
        BusStep::Release(s) => set_line(c, s, false),
        BusStep::Select(s) => set_line(c, s, true),
        BusStep::Transfer => c,
    }
}

/// The steps of one transaction with `target`.
pub open spec fn transaction_spec(target: Sensor) -> Seq<BusStep> {
    seq![
        BusStep::Release(other_spec(target)),
        BusStep::Select(target),
        BusStep::Transfer,
        BusStep::Release(target),
    ]
}

/// The steps of a series of transactions, one after the other.
pub open spec fn schedule(targets: Seq<Sensor>) -> Seq<BusStep>
    decreases targets.len(),
{
    if targets.len() == 0 {
        Seq::empty()
    } else {
        schedule(targets.drop_last()) + transaction_spec(targets.last())
    }
}

/// The lines after running `steps` from `c`.
pub open spec fn run(c: CsLines, steps: Seq<BusStep>) -> CsLines
    decreases steps.len(),
{
    if steps.len() == 0 {
        c
    } else {
        apply_spec(run(c, steps.drop_last()), steps.last())
    }
}

impl CsLines {
    /// Both lines idle, as they are driven at power-up.
    pub fn new() -> (r: CsLines)
        ensures
            !r.acc_selected,
            !r.gyro_selected,
    {
        CsLines { acc_selected: false, gyro_selected: false }
    }

    /// Whether the select line of `s` is asserted.
    pub fn is_selected(&self, s: Sensor) -> (r: bool)
        ensures
            r == match s {
                Sensor::Acc => self.acc_selected,
                Sensor::Gyro => self.gyro_selected,
            },
    {
        match s {
            Sensor::Acc => self.acc_selected,
            Sensor::Gyro => self.gyro_selected,
        }
    }

    /// Record one bus step.
    pub fn apply(&mut self, step: BusStep)
        ensures
            *final(self) == apply_spec(*old(self), step),
    {
        match step {
            BusStep::Release(Sensor::Acc) => self.acc_selected = false,
            BusStep::Release(Sensor::Gyro) => self.gyro_selected = false,
            BusStep::Select(Sensor::Acc) => self.acc_selected = true,
            BusStep::Select(Sensor::Gyro) => self.gyro_selected = true,
            BusStep::Transfer => {},
        }
    }
}

/// The steps of one transaction with `target`, in the order they are run.
pub fn transaction_steps(target: Sensor) -> (r: Vec<BusStep>)
    ensures
        r@ == transaction_spec(target),
{
    let mut v: Vec<BusStep> = Vec::new();
    v.push(BusStep::Release(other(target)));
    v.push(BusStep::Select(target));
    v.push(BusStep::Transfer);
    v.push(BusStep::Release(target));
    assert(v@ =~= transaction_spec(target));
    v
}

proof fn lemma_run_append(c: CsLines, a: Seq<BusStep>, b: Seq<BusStep>)
    ensures
        run(c, a + b) == run(run(c, a), b),
    decreases b.len(),
{
    if b.len() == 0 {
        assert(a + b =~= a);
    } else {
        assert((a + b).drop_last() =~= a + b.drop_last());
        lemma_run_append(c, a, b.drop_last());
    }
}

/// Every prefix of one transaction, past its first step, leaves at most one
/// die selected, whatever the lines were before; an empty prefix keeps `c`.
proof fn lemma_transaction_prefix(c: CsLines, t: Sensor, k: int)
    requires
        0 <= k <= 4,
        k == 0 ==> exclusive(c),
    ensures
        exclusive(run(c, transaction_spec(t).take(k))),
{
    let s = transaction_spec(t);
    assert(s.take(0) =~= Seq::<BusStep>::empty());
    assert(s.take(1).drop_last() =~= s.take(0));
    assert(s.take(2).drop_last() =~= s.take(1));
    assert(s.take(3).drop_last() =~= s.take(2));
    assert(s.take(4).drop_last() =~= s.take(3));
    assert(s.take(1).last() == s[0]);
    assert(s.take(2).last() == s[1]);
    assert(s.take(3).last() == s[2]);
    assert(s.take(4).last() == s[3]);
    assert(run(c, s.take(0)) == c);
    let r1 = run(c, s.take(1));
    let r2 = run(c, s.take(2));
    let r3 = run(c, s.take(3));
    let r4 = run(c, s.take(4));
    assert(r1 == apply_spec(c, s[0]));
    assert(r2 == apply_spec(r1, s[1]));
    assert(r3 == apply_spec(r2, s[2]));
    assert(r4 == apply_spec(r3, s[3]));
}

/// Bus mutual exclusion: starting from lines with at most one die selected,
/// every point of any series of transactions, to either die in any order,
/// has at most one die selected.
pub proof fn lemma_never_both_selected(c: CsLines, targets: Seq<Sensor>, i: int)
    requires
        exclusive(c),
        0 <= i <= schedule(targets).len(),
    ensures
        exclusive(run(c, schedule(targets).take(i))),
    decreases targets.len(),
{
    if targets.len() == 0 {
        assert(schedule(targets).take(i) =~= Seq::<BusStep>::empty());
    } else {
        let front = schedule(targets.drop_last());
        let last = transaction_spec(targets.last());
        assert(schedule(targets) == front + last);
        if i <= front.len() {
            assert(schedule(targets).take(i) =~= front.take(i));
            lemma_never_both_selected(c, targets.drop_last(), i);
        } else {
            let k = i - front.len();
            assert(schedule(targets).take(i) =~= front + last.take(k));
            lemma_run_append(c, front, last.take(k));
            lemma_never_both_selected(c, targets.drop_last(), front.len() as int);
            assert(front.take(front.len() as int) =~= front);
            lemma_transaction_prefix(run(c, front), targets.last(), k);
        }
    }
}

} // verus!
