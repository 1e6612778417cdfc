use arducam_legacy::bus::{Action, BusOp, Reply};
use arducam_legacy::image_sensor::{MirrorFlip, TestPattern};

fn ops_of(mut p: arducam_legacy::bus::Procedure) -> Vec<BusOp> {
    let mut ops = Vec::new();
    while let Action::Perform(op) = p.next_action() {
        ops.push(op);
        p.answer(Reply::Done(vec![]));
    }
    ops
}

#[test]
fn orientation_commands() {
    assert_eq!(MirrorFlip::Original.to_command(), 0x80);
    assert_eq!(MirrorFlip::Mirrored.to_command(), 0xC0);
    assert_eq!(MirrorFlip::Flipped.to_command(), 0xA0);
    assert_eq!(MirrorFlip::MirrorFlipped.to_command(), 0xE0);
}

#[test]
fn flipped_writes_once() {
    assert_eq!(
        ops_of(MirrorFlip::Flipped.control()),
        vec![BusOp::I2cWrite { address: 0x30, bytes: vec![0x38, 0x18, 0xA0] }]
    );
}

#[test]
fn mirrored_writes_three_times() {
    assert_eq!(
        ops_of(MirrorFlip::MirrorFlipped.control()),
        vec![
            BusOp::I2cWrite { address: 0x30, bytes: vec![0x38, 0x18, 0xE0] },
            BusOp::I2cWrite { address: 0x30, bytes: vec![0x36, 0x21, 0xE0] },
            BusOp::I2cWrite { address: 0x30, bytes: vec![0x38, 0x01, 0xE0] },
        ]
    );
}

#[test]
fn test_pattern_control_does_nothing() {
    assert!(ops_of(TestPattern::Pattern2.control()).is_empty());
}
