use arducam_legacy::bus::{BusOp, SpiOp, Step};
use arducam_legacy::camera::{Arduchip, Sensor};

#[test]
fn sensor_write_splits_register_big_endian() {
    let s = Sensor::new(0x3c);
    assert_eq!(s.i2c_write(0x3008, 0x80), BusOp::I2cWrite { address: 0x3c, bytes: vec![0x30, 0x08, 0x80] });
    assert_eq!(s.i2c_read(0x300b), BusOp::I2cWriteRead { address: 0x3c, bytes: vec![0x30, 0x0b], read_len: 1 });
}

#[test]
fn register_rows_go_out_verbatim() {
    let s = Sensor::new(0x3c);
    let steps = s.i2c_write_registers(&vec![[0x12, 0x34, 0x56], [0xff, 0x00, 0x01]]);
    assert_eq!(
        steps,
        vec![
            Step::Bus(BusOp::I2cWrite { address: 0x3c, bytes: vec![0x12, 0x34, 0x56] }),
            Step::Bus(BusOp::DelayMs { ms: 1 }),
            Step::Bus(BusOp::I2cWrite { address: 0x3c, bytes: vec![0xff, 0x00, 0x01] }),
            Step::Bus(BusOp::DelayMs { ms: 1 }),
        ]
    );
    assert!(s.i2c_write_registers(&vec![]).is_empty());
}

#[test]
fn arduchip_command_bits() {
    let a = Arduchip;
    assert_eq!(
        a.spi_write(0x04, Some(0x01)),
        vec![Step::Bus(BusOp::SpiWrite { bytes: vec![0x84, 0x01] }), Step::Bus(BusOp::DelayMs { ms: 1 })]
    );
    assert_eq!(
        a.spi_write(0x07, None),
        vec![Step::Bus(BusOp::SpiWrite { bytes: vec![0x87] }), Step::Bus(BusOp::DelayMs { ms: 1 })]
    );
    // the read command clears the top bit of the address
    assert_eq!(
        a.spi_read(0xC1),
        BusOp::SpiTransaction { ops: vec![SpiOp::Write(vec![0x41]), SpiOp::Read(1)] }
    );
}
