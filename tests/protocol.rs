use bmi088_fc::bus::{other, transaction_steps, BusStep, CsLines, Sensor};
use bmi088_fc::event::{drives_estimator, event_request, WaitInt};
use bmi088_fc::frame::{
    echo_len, le_i16, read_command, register_read_command, register_value, sample_command,
    sample_lanes, temp_command, temp_raw, temperature_eighths, write_command,
};

#[test]
fn other_die() {
    assert_eq!(other(Sensor::Acc), Sensor::Gyro);
    assert_eq!(other(Sensor::Gyro), Sensor::Acc);
}

#[test]
fn transaction_releases_other_first() {
    assert_eq!(
        transaction_steps(Sensor::Gyro),
        vec![
            BusStep::Release(Sensor::Acc),
            BusStep::Select(Sensor::Gyro),
            BusStep::Transfer,
            BusStep::Release(Sensor::Gyro),
        ]
    );
    assert_eq!(transaction_steps(Sensor::Acc)[0], BusStep::Release(Sensor::Gyro));
}

#[test]
fn interleaved_transactions_never_select_both() {
    let mut cs = CsLines::new();
    let order = [
        Sensor::Acc,
        Sensor::Gyro,
        Sensor::Gyro,
        Sensor::Acc,
        Sensor::Acc,
        Sensor::Gyro,
    ];
    let mut transfers = 0;
    for t in order {
        for step in transaction_steps(t) {
            cs.apply(step);
            assert!(!(cs.acc_selected && cs.gyro_selected));
            if step == BusStep::Transfer {
                assert!(cs.is_selected(t));
                assert!(!cs.is_selected(other(t)));
                transfers += 1;
            }
        }
    }
    assert_eq!(transfers, 6);
    assert!(!cs.acc_selected && !cs.gyro_selected);
}

#[test]
fn transaction_recovers_from_stray_select() {
    let mut cs = CsLines { acc_selected: true, gyro_selected: false };
    for step in transaction_steps(Sensor::Gyro) {
        cs.apply(step);
        assert!(!(cs.acc_selected && cs.gyro_selected));
    }
}

#[test]
fn read_frame_sets_read_bit_and_pads() {
    assert_eq!(read_command(0x02, 7), vec![0x82, 0xFF, 0xFF, 0xFF, 0xFF, 0xFF, 0xFF]);
    assert_eq!(read_command(0x7F, 1), vec![0xFF]);
    assert_eq!(sample_command(Sensor::Gyro), vec![0x82, 0xFF, 0xFF, 0xFF, 0xFF, 0xFF, 0xFF]);
    assert_eq!(
        sample_command(Sensor::Acc),
        vec![0x92, 0xFF, 0xFF, 0xFF, 0xFF, 0xFF, 0xFF, 0xFF]
    );
    assert_eq!(temp_command(), vec![0xA2, 0xFF, 0xFF, 0xFF]);
}

#[test]
fn write_frame_clears_read_bit() {
    assert_eq!(write_command(0x7E, 0xB6), vec![0x7E, 0xB6]);
    assert_eq!(write_command(0xFE, 0x01), vec![0x7E, 0x01]);
}

#[test]
fn register_reads_keep_echo_offset() {
    assert_eq!(echo_len(Sensor::Gyro), 1);
    assert_eq!(echo_len(Sensor::Acc), 2);
    assert_eq!(register_read_command(Sensor::Gyro, 0x00), vec![0x80, 0xFF]);
    assert_eq!(register_read_command(Sensor::Acc, 0x40), vec![0xC0, 0xFF, 0xFF]);
    assert_eq!(register_value(Sensor::Gyro, &[0x00, 0x0F]), 0x0F);
    assert_eq!(register_value(Sensor::Acc, &[0x00, 0x55, 0x1E]), 0x1E);
}

#[test]
fn little_endian_lanes() {
    assert_eq!(le_i16(0x00, 0x00), 0);
    assert_eq!(le_i16(0x34, 0x12), 0x1234);
    assert_eq!(le_i16(0xFF, 0xFF), -1);
    assert_eq!(le_i16(0x00, 0x80), i16::MIN);
    assert_eq!(le_i16(0xFF, 0x7F), i16::MAX);
}

#[test]
fn gyro_lanes_follow_one_echo_byte() {
    let resp = [0xAA, 0x01, 0x00, 0xFF, 0xFF, 0x00, 0x80];
    assert_eq!(sample_lanes(Sensor::Gyro, &resp), (1, -1, i16::MIN));
}

#[test]
fn acc_lanes_follow_two_echo_bytes() {
    let resp = [0xAA, 0xBB, 0x10, 0x00, 0x00, 0x01, 0xFE, 0xFF];
    assert_eq!(sample_lanes(Sensor::Acc, &resp), (16, 256, -2));
}

#[test]
fn zero_bytes_give_zero_lanes() {
    assert_eq!(sample_lanes(Sensor::Acc, &[0u8; 8]), (0, 0, 0));
    assert_eq!(sample_lanes(Sensor::Gyro, &[0u8; 7]), (0, 0, 0));
}

#[test]
fn temperature_zero_is_23_degrees() {
    assert_eq!(temp_raw(0x00, 0x00), 0);
    assert_eq!(temperature_eighths(&[0, 0, 0x00, 0x00]), 184);
    assert_eq!(temperature_eighths(&[0, 0, 0x00, 0x00]) as f32 * 0.125, 23.0);
}

#[test]
fn temperature_sign_boundary() {
    // 0x400 = high 0x80, low 0x00
    assert_eq!(temp_raw(0x80, 0x00), -1024);
    assert!(temp_raw(0x80, 0x00) < 0);
    assert_eq!(temp_raw(0x7F, 0xE0), 0x3FF);
    assert_eq!(temp_raw(0xFF, 0xE0), -1);
    assert_eq!(temperature_eighths(&[0, 0, 0x80, 0x00]) as f32 * 0.125, -105.0);
}

#[test]
fn temperature_uses_top_three_low_bits() {
    // 0x02 << 3 | 0b101 = 21
    assert_eq!(temp_raw(0x02, 0b1011_1111), 21);
    assert_eq!(temperature_eighths(&[0, 0, 0x02, 0b1011_1111]), 205);
}

#[test]
fn events_pick_their_die() {
    let (s, frame) = event_request(WaitInt::Gyro);
    assert_eq!(s, Sensor::Gyro);
    assert_eq!(frame[0], 0x82);
    assert_eq!(frame.len(), 7);
    let (s, frame) = event_request(WaitInt::Acc);
    assert_eq!(s, Sensor::Acc);
    assert_eq!(frame[0], 0x92);
    assert_eq!(frame.len(), 8);
    assert!(drives_estimator(WaitInt::Gyro));
    assert!(!drives_estimator(WaitInt::Acc));
}
