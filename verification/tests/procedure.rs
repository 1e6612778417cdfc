use arducam_legacy::bus::{
    Action, BitUpdate, BusOp, Procedure, Reply, SpiOp, Step,
};
use arducam_legacy::ArducamError;
use embedded_hal::i2c::ErrorKind as I2cKind;
use embedded_hal::spi::ErrorKind as SpiKind;

fn write(bytes: &[u8]) -> Step {
    Step::Bus(BusOp::SpiWrite { bytes: bytes.to_vec() })
}

fn read_reg(addr: u8) -> Step {
    Step::Bus(BusOp::SpiTransaction { ops: vec![SpiOp::Write(vec![addr]), SpiOp::Read(1)] })
}

#[test]
fn fresh_procedure_hands_out_first_step() {
    let p = Procedure::new(vec![write(&[0x84, 0x01]), write(&[0x84, 0x02])]);
    assert!(!p.is_finished());
    assert_eq!(p.next_action(), Action::Perform(BusOp::SpiWrite { bytes: vec![0x84, 0x01] }));
}

#[test]
fn successful_run_performs_every_step_in_order() {
    let mut p = Procedure::new(vec![write(&[0x84, 0x01]), read_reg(0x41), write(&[0x84, 0x02])]);
    let mut seen = Vec::new();
    let answers = vec![vec![], vec![0x08], vec![]];
    for a in answers {
        match p.next_action() {
            Action::Perform(op) => seen.push(op),
            Action::Finished => panic!("finished early"),
        }
        p.answer(Reply::Done(a));
    }
    assert_eq!(p.next_action(), Action::Finished);
    assert_eq!(seen.len(), 3);
    assert_eq!(seen[2], BusOp::SpiWrite { bytes: vec![0x84, 0x02] });
    let out = p.outcome().unwrap();
    assert_eq!(out, vec![vec![], vec![0x08], vec![]]);
}

#[test]
fn first_failure_ends_the_procedure() {
    let mut p = Procedure::new(vec![write(&[1]), write(&[2]), write(&[3])]);
    p.answer(Reply::Done(vec![]));
    p.answer(Reply::SpiFailed(SpiKind::ModeFault));
    assert!(p.is_finished());
    assert_eq!(p.next_action(), Action::Finished);
    // later replies change nothing
    p.answer(Reply::Done(vec![9]));
    p.answer(Reply::I2cFailed(I2cKind::Bus));
    match p.outcome() {
        Err(ArducamError::SpiError(SpiKind::ModeFault)) => {}
        other => panic!("unexpected {:?}", other),
    }
}

#[test]
fn i2c_failure_maps_to_i2c_error() {
    let mut p = Procedure::new(vec![write(&[1])]);
    p.answer(Reply::I2cFailed(I2cKind::ArbitrationLoss));
    assert!(matches!(p.outcome(), Err(ArducamError::I2cError(I2cKind::ArbitrationLoss))));
}

#[test]
fn finished_procedure_ignores_replies() {
    let mut p = Procedure::new(vec![]);
    assert!(p.is_finished());
    p.answer(Reply::Done(vec![1, 2]));
    assert_eq!(p.outcome().unwrap(), Vec::<Vec<u8>>::new());
}

#[test]
fn sensor_update_uses_earlier_read() {
    let steps = vec![
        Step::Bus(BusOp::I2cWriteRead { address: 0x3c, bytes: vec![0x38, 0x18], read_len: 1 }),
        Step::SensorUpdate { address: 0x3c, register: 0x3818, source: 0, update: BitUpdate::SetBits(0x60) },
    ];
    let mut p = Procedure::new(steps);
    p.answer(Reply::Done(vec![0x81]));
    assert_eq!(
        p.next_action(),
        Action::Perform(BusOp::I2cWrite { address: 0x3c, bytes: vec![0x38, 0x18, 0xE1] })
    );
}

#[test]
fn sensor_update_keep_bits_and_missing_read() {
    let steps = vec![
        Step::Bus(BusOp::I2cWriteRead { address: 0x3c, bytes: vec![0x36, 0x21], read_len: 1 }),
        Step::SensorUpdate { address: 0x3c, register: 0x3621, source: 0, update: BitUpdate::KeepBits(0xdf) },
    ];
    let mut p = Procedure::new(steps);
    p.answer(Reply::Done(vec![0xff]));
    assert_eq!(
        p.next_action(),
        Action::Perform(BusOp::I2cWrite { address: 0x3c, bytes: vec![0x36, 0x21, 0xdf] })
    );
    // a read that delivered nothing leaves the zeroed buffer
    let steps = vec![
        Step::Bus(BusOp::I2cWriteRead { address: 0x3c, bytes: vec![0x36, 0x21], read_len: 1 }),
        Step::SensorUpdate { address: 0x3c, register: 0x3621, source: 0, update: BitUpdate::SetBits(0x01) },
    ];
    let mut p = Procedure::new(steps);
    p.answer(Reply::Done(vec![]));
    assert_eq!(
        p.next_action(),
        Action::Perform(BusOp::I2cWrite { address: 0x3c, bytes: vec![0x36, 0x21, 0x01] })
    );
}

#[test]
fn completed_drops_replies() {
    assert!(arducam_legacy::bus::completed(Ok(vec![vec![1]])).is_ok());
    assert!(matches!(
        arducam_legacy::bus::completed(Err(ArducamError::I2cError(I2cKind::Overrun))),
        Err(ArducamError::I2cError(I2cKind::Overrun))
    ));
}

#[test]
fn byte_helpers() {
    assert_eq!(arducam_legacy::bus::register_bytes(0x3818), (0x38, 0x18));
    assert_eq!(arducam_legacy::bus::u16_from_be(0x56, 0x42), 0x5642);
    assert_eq!(arducam_legacy::bus::read_byte(&vec![]), 0);
    assert_eq!(arducam_legacy::bus::read_byte(&vec![7, 8]), 7);
    assert_eq!(arducam_legacy::bus::reply_byte_at(&vec![vec![1], vec![2]], 5), 0);
    assert_eq!(arducam_legacy::bus::apply_bit_update(0x0f, BitUpdate::SetBits(0xf0)), 0xff);
}
