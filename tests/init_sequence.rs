use bmi088_fc::bus::Sensor;
use bmi088_fc::frame::{register_value, write_command};
use bmi088_fc::sequencer::{
    chip_id, config_table, init_plan, reset_reg, step_command, ImuInit, InitSequencer,
    InitStatus, Step,
};

/// A die that keeps its registers and answers reads from them.
struct FakeDie {
    regs: [u8; 128],
    id: u8,
    writes: Vec<(u8, u8)>,
    stuck: Option<u8>,
}

impl FakeDie {
    fn new(id: u8) -> Self {
        FakeDie { regs: [0; 128], id, writes: Vec::new(), stuck: None }
    }

    fn run(&mut self, s: Sensor, step: Step) -> u8 {
        match step {
            Step::Read { reg, .. } => {
                let frame = step_command(s, step).unwrap();
                let mut resp = vec![0u8; frame.len()];
                let v = if reg == 0 { self.id } else { self.regs[reg as usize] };
                *resp.last_mut().unwrap() = v;
                register_value(s, &resp)
            }
            Step::Write { reg, val } => {
                assert_eq!(step_command(s, step).unwrap(), write_command(reg, val));
                self.writes.push((reg, val));
                if self.stuck != Some(reg) {
                    self.regs[reg as usize] = val;
                }
                0
            }
            Step::Pause { .. } => {
                assert!(step_command(s, step).is_none());
                0
            }
        }
    }
}

fn run_to_end(seq: &mut InitSequencer, die: &mut FakeDie) {
    while let Some(step) = seq.current() {
        let v = die.run(seq.sensor(), step);
        seq.feed(v);
    }
}

#[test]
fn plan_shape() {
    let plan = init_plan(Sensor::Gyro);
    assert_eq!(plan.len(), 7 + 4 * 6);
    assert_eq!(plan[2], Step::Write { reg: 0x14, val: 0xB6 });
    assert_eq!(plan[3], Step::Pause { micros: 50_000 });
    assert_eq!(plan[6], Step::Read { reg: 0x00, expect: Some(0x0F) });
    assert_eq!(plan[8], Step::Write { reg: 0x0F, val: 0x00 });
    assert_eq!(plan[10], Step::Read { reg: 0x0F, expect: Some(0x00) });
    let plan = init_plan(Sensor::Acc);
    assert_eq!(plan[2], Step::Write { reg: 0x7E, val: 0xB6 });
    assert_eq!(plan[6], Step::Read { reg: 0x00, expect: Some(0x1E) });
    assert_eq!(plan[30], Step::Read { reg: 0x58, expect: Some(0x04) });
}

#[test]
fn constants_per_die() {
    assert_eq!(chip_id(Sensor::Gyro), 0x0F);
    assert_eq!(chip_id(Sensor::Acc), 0x1E);
    assert_eq!(reset_reg(Sensor::Gyro), 0x14);
    assert_eq!(reset_reg(Sensor::Acc), 0x7E);
    assert_eq!(config_table(Sensor::Acc)[3], (0x41, 0x02));
    assert_eq!(config_table(Sensor::Gyro)[1], (0x10, 0x82));
}

#[test]
fn healthy_die_passes_and_keeps_table() {
    let mut die = FakeDie::new(0x0F);
    let mut seq = InitSequencer::new(Sensor::Gyro);
    run_to_end(&mut seq, &mut die);
    assert_eq!(seq.status(), InitStatus::Passed);
    for (reg, val) in config_table(Sensor::Gyro) {
        assert_eq!(die.regs[reg as usize], val);
    }
    assert_eq!(die.writes[0], (0x14, 0xB6));
    assert_eq!(die.writes.len(), 7);
}

#[test]
fn wrong_identifier_fails_before_any_config_write() {
    let mut die = FakeDie::new(0x42);
    let mut seq = InitSequencer::new(Sensor::Acc);
    run_to_end(&mut seq, &mut die);
    assert_eq!(seq.status(), InitStatus::Failed);
    assert_eq!(die.writes, vec![(0x7E, 0xB6)]);
}

#[test]
fn verify_mismatch_stops_the_table_scan() {
    let mut die = FakeDie::new(0x1E);
    die.stuck = Some(0x40);
    let mut seq = InitSequencer::new(Sensor::Acc);
    run_to_end(&mut seq, &mut die);
    assert_eq!(seq.status(), InitStatus::Failed);
    assert_eq!(die.writes, vec![(0x7E, 0xB6), (0x7D, 0x04), (0x7C, 0x00), (0x40, 0xA9)]);
    assert!(seq.current().is_none());
}

fn run_both(gyro: &mut FakeDie, acc: &mut FakeDie) -> bool {
    let mut init = ImuInit::new();
    while let Some((s, step)) = init.next_step() {
        let v = match s {
            Sensor::Gyro => gyro.run(s, step),
            Sensor::Acc => acc.run(s, step),
        };
        init.feed(v);
    }
    assert!(init.finished());
    init.succeeded()
}

#[test]
fn both_dies_must_pass() {
    assert!(run_both(&mut FakeDie::new(0x0F), &mut FakeDie::new(0x1E)));
    let mut acc = FakeDie::new(0x1E);
    assert!(!run_both(&mut FakeDie::new(0x00), &mut acc));
    // the accelerometer still runs its own handshake after the gyroscope failed
    assert_eq!(acc.writes.len(), 7);
    assert!(!run_both(&mut FakeDie::new(0x0F), &mut FakeDie::new(0x0F)));
}
