use arducam_legacy::bus::{Action, BusOp, Procedure, Reply, SpiOp};
use arducam_legacy::camera::BlockingCamera;
use arducam_legacy::ov5642::{Arducam5MP, Arducam5MPConfig, CameraMode, Ov5642Tables, OV562_CHIPID};
use arducam_legacy::{ArducamError, Async, Resolution};
use embedded_hal::i2c::ErrorKind as I2cKind;

fn drive(mut p: Procedure, reads: &[Vec<u8>]) -> (Vec<BusOp>, Result<Vec<Vec<u8>>, ArducamError>) {
    let mut ops = Vec::new();
    loop {
        match p.next_action() {
            Action::Perform(op) => {
                let r = reads.get(ops.len()).cloned().unwrap_or_default();
                ops.push(op);
                p.answer(Reply::Done(r));
            }
            Action::Finished => return (ops, p.outcome()),
        }
    }
}

fn w(bytes: &[u8]) -> BusOp {
    BusOp::I2cWrite { address: 0x3c, bytes: bytes.to_vec() }
}

fn rd(hi: u8, lo: u8) -> BusOp {
    BusOp::I2cWriteRead { address: 0x3c, bytes: vec![hi, lo], read_len: 1 }
}

fn ms() -> BusOp {
    BusOp::DelayMs { ms: 1 }
}

fn ns() -> BusOp {
    BusOp::DelayNs { ns: 100 }
}

fn spi_read(addr: u8) -> BusOp {
    BusOp::SpiTransaction { ops: vec![SpiOp::Write(vec![addr]), SpiOp::Read(1)] }
}

fn tables() -> Ov5642Tables {
    Ov5642Tables {
        qvga_preview: vec![[0x31, 0x03, 0x93]],
        jpeg_capture_qsxga: vec![[0x30, 0x12, 0x00], [0x30, 0x0e, 0x18]],
        res_320x240: vec![[0x38, 0x08, 0x01]],
        res_1280x960_raw: vec![[0x38, 0x00, 0x01]],
        res_640x480_raw: vec![[0x38, 0x04, 0x02]],
    }
}

fn cam(mode: CameraMode) -> Arducam5MP<arducam_legacy::Blocking, (), ()> {
    Arducam5MP::new((), (), Arducam5MPConfig { mode })
}

#[test]
fn new_keeps_mode() {
    assert_eq!(cam(CameraMode::RAW).mode(), CameraMode::RAW);
    let a = Arducam5MP::<Async, u8, u8>::new_async(3, 4, Arducam5MPConfig { mode: CameraMode::BMP });
    assert_eq!(a.mode(), CameraMode::BMP);
    assert_eq!((a.i2c, a.spi), (3, 4));
}

#[test]
fn spi_test_writes_and_reads_back() {
    let c = cam(CameraMode::JPEG);
    let (ops, out) = drive(c.spi_test(), &[vec![], vec![], vec![0x56]]);
    assert_eq!(ops, vec![BusOp::SpiWrite { bytes: vec![0x80, 0x56] }, ms(), spi_read(0x00)]);
    assert_eq!(c.spi_test_reply(out).unwrap(), true);
    let (_, out) = drive(c.spi_test(), &[vec![], vec![], vec![0x55]]);
    assert_eq!(c.spi_test_reply(out).unwrap(), false);
}

#[test]
fn chip_id_is_big_endian() {
    let c = cam(CameraMode::JPEG);
    let (ops, out) = drive(c.chip_id(), &[vec![], vec![0x56], vec![0x42]]);
    assert_eq!(ops, vec![w(&[0x00, 0xFF, 0x01]), rd(0x30, 0x0a), rd(0x30, 0x0b)]);
    let mut id = 0u16;
    c.chip_id_reply(out, &mut id).unwrap();
    assert_eq!(id, OV562_CHIPID);
}

#[test]
fn chip_id_error_leaves_value() {
    let c = cam(CameraMode::JPEG);
    let mut p = c.chip_id();
    p.answer(Reply::I2cFailed(I2cKind::NoAcknowledge(embedded_hal::i2c::NoAcknowledgeSource::Address)));
    let mut id = 0x1234u16;
    let r = c.chip_id_reply(p.outcome(), &mut id);
    assert!(matches!(r, Err(ArducamError::I2cError(I2cKind::NoAcknowledge(_)))));
    assert_eq!(id, 0x1234);
}

#[test]
fn init_jpeg_sequence() {
    let c = cam(CameraMode::JPEG);
    let (ops, out) = drive(c.init(&tables()), &[]);
    assert!(out.is_ok());
    assert_eq!(
        ops,
        vec![
            w(&[0x30, 0x08, 0x80]),
            w(&[0x31, 0x03, 0x93]),
            ms(),
            ns(),
            ns(),
            w(&[0x30, 0x12, 0x00]),
            ms(),
            w(&[0x30, 0x0e, 0x18]),
            ms(),
            w(&[0x38, 0x08, 0x01]),
            ms(),
            ns(),
            w(&[0x38, 0x18, 0xa8]),
            w(&[0x36, 0x21, 0x10]),
            w(&[0x38, 0x01, 0xb0]),
            w(&[0x44, 0x07, 0x04]),
        ]
    );
}

#[test]
fn init_bmp_read_modify_write() {
    let c = cam(CameraMode::BMP);
    let mut reads = vec![vec![]; 9];
    reads.push(vec![0x81]); // read of 0x3818
    reads.push(vec![]);
    reads.push(vec![0xff]); // read of 0x3621
    let (ops, out) = drive(c.init(&tables()), &reads);
    assert!(out.is_ok());
    assert_eq!(
        ops,
        vec![
            w(&[0x30, 0x08, 0x80]),
            w(&[0x31, 0x03, 0x93]),
            ms(),
            ns(),
            w(&[0x47, 0x40, 0x21]),
            w(&[0x50, 0x1e, 0x2a]),
            w(&[0x50, 0x02, 0xf8]),
            w(&[0x50, 0x1f, 0x01]),
            w(&[0x43, 0x00, 0x61]),
            rd(0x38, 0x18),
            w(&[0x38, 0x18, 0xE1]),
            rd(0x36, 0x21),
            w(&[0x36, 0x21, 0xdf]),
        ]
    );
}

#[test]
fn init_raw_sequence() {
    let c = cam(CameraMode::RAW);
    let (ops, _) = drive(c.init(&tables()), &[]);
    assert_eq!(
        ops,
        vec![
            w(&[0x30, 0x08, 0x80]),
            w(&[0x31, 0x03, 0x93]),
            ms(),
            w(&[0x38, 0x00, 0x01]),
            ms(),
            w(&[0x38, 0x04, 0x02]),
            ms(),
        ]
    );
}

#[test]
fn init_stops_at_first_failure() {
    let c = cam(CameraMode::JPEG);
    let mut p = c.init(&tables());
    p.answer(Reply::Done(vec![]));
    p.answer(Reply::I2cFailed(I2cKind::Bus));
    assert_eq!(p.next_action(), Action::Finished);
    assert!(matches!(p.outcome(), Err(ArducamError::I2cError(I2cKind::Bus))));
}

#[test]
fn fifo_control_writes() {
    let c = cam(CameraMode::JPEG);
    let (ops, _) = drive(c.flush_fifo(), &[]);
    assert_eq!(ops, vec![BusOp::SpiWrite { bytes: vec![0x84, 0x01] }, ms()]);
    let (ops, _) = drive(c.clear_fifo_flag(), &[]);
    assert_eq!(ops, vec![BusOp::SpiWrite { bytes: vec![0x84, 0x01] }, ms()]);
    let (ops, _) = drive(c.start_capture(), &[]);
    assert_eq!(ops, vec![BusOp::SpiWrite { bytes: vec![0x84, 0x02] }, ms()]);
    let (ops, _) = drive(c.vsync_mask(), &[]);
    assert_eq!(ops, vec![BusOp::SpiWrite { bytes: vec![0x83, 0x02] }, ms()]);
    let (ops, _) = drive(c.frames(), &[]);
    assert_eq!(ops, vec![BusOp::SpiWrite { bytes: vec![0x81, 0x00] }, ms()]);
}

#[test]
fn blocking_camera_trait_matches_camera() {
    let c = cam(CameraMode::JPEG);
    let (a, _) = drive(BlockingCamera::start_capture(&c), &[]);
    let (b, _) = drive(c.start_capture(), &[]);
    assert_eq!(a, b);
    let (a, out) = drive(BlockingCamera::is_capture_done(&c), &[vec![0x0C]]);
    assert_eq!(a, vec![spi_read(0x41)]);
    assert_eq!(BlockingCamera::is_capture_done_reply(&c, out).unwrap(), true);
    let (a, _) = drive(BlockingCamera::flush_fifo(&c), &[]);
    let (b, _) = drive(BlockingCamera::clear_fifo_flag(&c), &[]);
    assert_eq!(a, b);
}

#[test]
fn capture_done_5mp() {
    let c = cam(CameraMode::JPEG);
    let (ops, out) = drive(c.is_capture_done(), &[vec![0x08]]);
    assert_eq!(ops, vec![spi_read(0x41)]);
    assert!(c.is_capture_done_reply(out).unwrap());
    let (_, out) = drive(c.is_capture_done(), &[vec![0x00]]);
    assert!(!c.is_capture_done_reply(out).unwrap());
}

#[test]
fn fifo_length_5mp() {
    let c = cam(CameraMode::JPEG);
    let (ops, out) = drive(c.fifo_length(), &[vec![0x01], vec![0x02], vec![0x83]]);
    assert_eq!(ops, vec![spi_read(0x42), spi_read(0x43), spi_read(0x44)]);
    let mut len = 0u32;
    c.fifo_length_reply(out, &mut len).unwrap();
    assert_eq!(len, 0x030201);
    let mut len2 = 5u32;
    assert!(c.fifo_length_reply(Err(ArducamError::I2cError(I2cKind::Other)), &mut len2).is_err());
    assert_eq!(len2, 5);
    assert_eq!(arducam_legacy::ov2640::assemble_fifo_length(0xff, 0xff, 0xff), 0x7fffff);
}

#[test]
fn read_image_5mp() {
    let c = cam(CameraMode::JPEG);
    let (ops, out) = drive(c.read_captured_image(2), &[vec![0xFF, 0xD9]]);
    assert_eq!(
        ops,
        vec![BusOp::SpiTransaction {
            ops: vec![SpiOp::Write(vec![0x3C]), SpiOp::Read(2), SpiOp::Write(vec![0x84, 0x01])]
        }]
    );
    let mut buf = [0u8; 2];
    c.read_captured_image_reply(out, &mut buf).unwrap();
    assert_eq!(buf, [0xFF, 0xD9]);
}

#[test]
fn set_jpeg_size_always_sends_320x240() {
    let c = cam(CameraMode::JPEG);
    let (a, _) = drive(c.set_jpeg_size(Resolution::Res1600x1200, &tables()), &[]);
    let (b, _) = drive(c.set_jpeg_size(Resolution::Res160x120, &tables()), &[]);
    assert_eq!(a, vec![w(&[0x38, 0x08, 0x01]), ms()]);
    assert_eq!(a, b);
}
