use arducam_legacy::bus::{Action, BusOp, Procedure, Reply, SpiOp};
use arducam_legacy::{Arducam, ArducamError, Async, Blocking, Ov2640Tables, Resolution};
use embedded_hal::spi::ErrorKind as SpiKind;

/// Runs a procedure, answering the k-th action with `reads[k]` (or an empty
/// success), and returns the actions and the outcome.
fn drive(mut p: Procedure, reads: &[Vec<u8>]) -> (Vec<BusOp>, Result<Vec<Vec<u8>>, ArducamError>) {
    let mut ops = Vec::new();
    loop {
        match p.next_action() {
            Action::Perform(op) => {
                let r = reads.get(ops.len()).cloned().unwrap_or_default();
                ops.push(op);
                p.answer(Reply::Done(r));
            }
            Action::Finished => return (ops, p.outcome()),
        }
    }
}

fn i2c(bytes: &[u8]) -> BusOp {
    BusOp::I2cWrite { address: 0x30, bytes: bytes.to_vec() }
}

fn settle() -> BusOp {
    BusOp::SpiTransaction { ops: vec![SpiOp::DelayNs(100_000_000)] }
}

fn spi_read(addr: u8) -> BusOp {
    BusOp::SpiTransaction { ops: vec![SpiOp::Write(vec![addr]), SpiOp::Read(1)] }
}

fn tables() -> Ov2640Tables {
    Ov2640Tables {
        jpeg_init: vec![[0xff, 0x00], [0x2c, 0xff]],
        yuv422: vec![[0xda, 0x10]],
        jpeg: vec![[0xe0, 0x14]],
        res_160x120: vec![[0x01, 0x60]],
        res_176x144: vec![[0x01, 0x76]],
        res_320x240: vec![[0x03, 0x20]],
        res_352x288: vec![[0x03, 0x52]],
        res_640x480: vec![[0x06, 0x40]],
        res_800x600: vec![[0x08, 0x00]],
        res_1024x768: vec![[0x10, 0x24]],
        res_1280x1024: vec![[0x12, 0x80]],
        res_1600x1200: vec![[0x16, 0x00], [0x12, 0x00]],
    }
}

#[test]
fn new_blocking_keeps_resolution() {
    let cam = Arducam::new_blocking(1u8, 2u8, Resolution::Res640x480);
    assert_eq!(cam.resolution(), Resolution::Res640x480);
    assert_eq!(cam.i2c, 1);
    assert_eq!(cam.spi, 2);
}

#[test]
fn blocking_init_sequence() {
    let cam = Arducam::new_blocking((), (), Resolution::Res160x120);
    let (ops, out) = drive(cam.init(&tables()), &[]);
    assert!(out.is_ok());
    let expected = vec![
        BusOp::SpiWrite { bytes: vec![0x87, 0x80] },
        settle(),
        BusOp::SpiWrite { bytes: vec![0x87, 0x00] },
        settle(),
        i2c(&[0xFF, 0x01]),
        settle(),
        i2c(&[0x12, 0x80]),
        settle(),
        i2c(&[0xff, 0x00]),
        i2c(&[0x2c, 0xff]),
        i2c(&[0xda, 0x10]),
        i2c(&[0xe0, 0x14]),
        i2c(&[0xFF, 0x01]),
        i2c(&[0x15, 0x00]),
        i2c(&[0x01, 0x60]),
    ];
    assert_eq!(ops, expected);
}

#[test]
fn async_init_splits_arduchip_writes() {
    let cam = Arducam::<Async, (), ()>::new((), (), Resolution::Res1600x1200);
    let (ops, _) = drive(cam.init(&tables()), &[]);
    assert_eq!(
        ops[0],
        BusOp::SpiTransaction { ops: vec![SpiOp::Write(vec![0x87]), SpiOp::Write(vec![0x80])] }
    );
    // ends with the table of the configured resolution
    assert_eq!(ops[ops.len() - 2], i2c(&[0x16, 0x00]));
    assert_eq!(ops[ops.len() - 1], i2c(&[0x12, 0x00]));
}

#[test]
fn set_resolution_updates_and_sends_table() {
    let mut cam = Arducam::new_blocking((), (), Resolution::Res160x120);
    let p = cam.set_resolution(Resolution::Res800x600, &tables());
    assert_eq!(cam.resolution(), Resolution::Res800x600);
    let (ops, out) = drive(p, &[]);
    assert!(out.is_ok());
    assert_eq!(ops, vec![i2c(&[0x08, 0x00])]);
}

#[test]
fn set_resolution_kept_even_if_send_fails() {
    let mut cam = Arducam::new_blocking((), (), Resolution::Res160x120);
    let mut p = cam.set_resolution(Resolution::Res1024x768, &tables());
    p.answer(Reply::I2cFailed(embedded_hal::i2c::ErrorKind::Bus));
    assert!(p.outcome().is_err());
    assert_eq!(cam.resolution(), Resolution::Res1024x768);
}

#[test]
fn start_capture_blocking_frames() {
    let cam = Arducam::new_blocking((), (), Resolution::Res160x120);
    let (ops, _) = drive(cam.start_capture(), &[]);
    assert_eq!(
        ops,
        vec![BusOp::SpiWrite { bytes: vec![0x84, 0x01] }, BusOp::SpiWrite { bytes: vec![0x84, 0x02] }]
    );
}

#[test]
fn start_capture_async_frames() {
    let cam = Arducam::<Async, (), ()>::new((), (), Resolution::Res160x120);
    let (ops, _) = drive(cam.start_capture(), &[]);
    assert_eq!(
        ops[1],
        BusOp::SpiTransaction { ops: vec![SpiOp::Write(vec![0x84]), SpiOp::Write(vec![0x02])] }
    );
}

#[test]
fn capture_done_bit() {
    let cam = Arducam::new_blocking((), (), Resolution::Res160x120);
    let (ops, out) = drive(cam.is_capture_done(), &[vec![0x08]]);
    assert_eq!(ops, vec![spi_read(0x41)]);
    assert_eq!(cam.is_capture_done_reply(out).unwrap(), true);
    let (_, out) = drive(cam.is_capture_done(), &[vec![0xF7]]);
    assert_eq!(cam.is_capture_done_reply(out).unwrap(), false);
}

#[test]
fn fifo_length_masks_to_23_bits() {
    let cam = Arducam::new_blocking((), (), Resolution::Res160x120);
    let (ops, out) = drive(cam.get_fifo_length(), &[vec![0x34], vec![0x12], vec![0xFF]]);
    assert_eq!(ops, vec![spi_read(0x42), spi_read(0x43), spi_read(0x44)]);
    assert_eq!(cam.get_fifo_length_reply(out).unwrap(), 0x7F1234);
    let (_, out) = drive(cam.get_fifo_length(), &[vec![0x00], vec![0x0C], vec![0x00]]);
    assert_eq!(cam.get_fifo_length_reply(out).unwrap(), 3072);
}

#[test]
fn fifo_length_error_is_passed_on() {
    let cam = Arducam::new_blocking((), (), Resolution::Res160x120);
    let mut p = cam.get_fifo_length();
    p.answer(Reply::SpiFailed(SpiKind::Overrun));
    assert!(matches!(
        cam.get_fifo_length_reply(p.outcome()),
        Err(ArducamError::SpiError(SpiKind::Overrun))
    ));
}

#[test]
fn sensor_chipid_reads_two_registers() {
    let cam = Arducam::new_blocking((), (), Resolution::Res160x120);
    let (ops, out) = drive(cam.get_sensor_chipid(), &[vec![], vec![0x26], vec![0x42]]);
    assert_eq!(
        ops,
        vec![
            i2c(&[0xFF, 0x01]),
            BusOp::I2cWriteRead { address: 0x30, bytes: vec![0x0A], read_len: 1 },
            BusOp::I2cWriteRead { address: 0x30, bytes: vec![0x0B], read_len: 1 },
        ]
    );
    assert_eq!(cam.get_sensor_chipid_reply(out).unwrap(), [0x26, 0x42]);
}

#[test]
fn is_connected_answers() {
    let cam = Arducam::new_blocking((), (), Resolution::Res160x120);
    let (ops, out) = drive(cam.is_connected(), &[vec![], vec![0x52], vec![], vec![0x26], vec![0x41]]);
    assert_eq!(ops[0], BusOp::SpiWrite { bytes: vec![0x80, 0x52] });
    assert_eq!(ops[1], spi_read(0x00));
    assert_eq!(cam.is_connected_reply(out).unwrap(), true);
    // wrong test value with chip id 0x2641
    let (_, out) = drive(cam.is_connected(), &[vec![], vec![0x00], vec![], vec![0x26], vec![0x41]]);
    assert_eq!(cam.is_connected_reply(out).unwrap(), false);
    // chip id 0x2642 is an OV2640 too
    let (_, out) = drive(cam.is_connected(), &[vec![], vec![0x52], vec![], vec![0x26], vec![0x42]]);
    assert_eq!(cam.is_connected_reply(out).unwrap(), true);
    // a failed SPI echo means not connected, whatever the chip id
    let (_, out) = drive(cam.is_connected(), &[vec![], vec![0x00], vec![], vec![0x26], vec![0x42]]);
    assert_eq!(cam.is_connected_reply(out).unwrap(), false);
    // an unknown chip
    let (_, out) = drive(cam.is_connected(), &[vec![], vec![0x52], vec![], vec![0x56], vec![0x42]]);
    assert_eq!(cam.is_connected_reply(out).unwrap(), false);
}

#[test]
fn read_captured_image_burst_and_fill() {
    let cam = Arducam::new_blocking((), (), Resolution::Res160x120);
    let reads = [vec![0x03], vec![0x00], vec![0x00], vec![0xFF, 0xD8, 0xFF]];
    let (ops, out) = drive(cam.read_captured_image(3), &reads);
    assert_eq!(
        ops,
        vec![
            spi_read(0x42),
            spi_read(0x43),
            spi_read(0x44),
            BusOp::SpiTransaction {
                ops: vec![SpiOp::Write(vec![0x3C]), SpiOp::Read(3), SpiOp::Write(vec![0x84, 0x01])]
            },
        ]
    );
    let mut buf = [9u8; 5];
    assert_eq!(cam.read_captured_image_reply(out, &mut buf).unwrap(), 3);
    assert_eq!(buf, [0xFF, 0xD8, 0xFF, 9, 9]);
}

#[test]
fn read_captured_image_reports_size_of_cut_image() {
    let cam = Arducam::new_blocking((), (), Resolution::Res160x120);
    let reads = [vec![0x00], vec![0x10], vec![0x00], vec![1, 2]];
    let (_, out) = drive(cam.read_captured_image(2), &reads);
    let mut buf = [0u8; 2];
    assert_eq!(cam.read_captured_image_reply(out, &mut buf).unwrap(), 4096);
    assert_eq!(buf, [1, 2]);
}

#[test]
fn read_captured_image_failure_leaves_buffer() {
    let cam = Arducam::new_blocking((), (), Resolution::Res160x120);
    let mut buf = [7u8; 2];
    let r = cam.read_captured_image_reply(Err(ArducamError::SpiError(SpiKind::Other)), &mut buf);
    assert!(r.is_err());
    assert_eq!(buf, [7, 7]);
}

#[test]
fn resolution_tables_are_chosen_by_resolution() {
    let t = tables();
    assert_eq!(t.for_resolution(Resolution::Res352x288), &vec![[0x03, 0x52]]);
    assert_eq!(t.for_resolution(Resolution::Res1280x1024), &vec![[0x12, 0x80]]);
}

#[test]
fn fifo_length_assembly() {
    assert_eq!(arducam_legacy::ov2640::assemble_fifo_length(0xFF, 0xFF, 0xFF), 0x7F_FFFF);
    assert_eq!(arducam_legacy::ov2640::assemble_fifo_length(1, 0, 0x80), 1);
}

#[test]
fn blocking_marker_type_compiles() {
    let cam: Arducam<Blocking, (), ()> = Arducam::new_blocking((), (), Resolution::Res176x144);
    assert_eq!(cam.resolution(), Resolution::Res176x144);
}
