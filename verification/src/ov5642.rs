//! The 5MP Arducam boards: an OV5642 sensor with 16-bit registers at I2C
//! address 0x3c, behind an Arduchip.

use core::marker::PhantomData;
use vstd::prelude::*;

use crate::bus::{
    all_done, append_steps, be_u16, feed, first_byte, fresh, lemma_full_run, next_of,
    outcome_view, payloads, push_op, push_step, reply_byte, reply_byte_at, resolve, sensor_frame,
    status_of, steps_view, u16_from_be, ActionView, BitUpdate, BusOp, BusOpView, Procedure,
    ReplyView, Step, StepView,
};
use crate::camera::{
    lemma_register_roundtrip, lemma_register_table_by_index, arduchip_read_op, arduchip_write_steps, register_table_steps, sensor_read_op,
    sensor_write_op, Arduchip, BlockingCamera, Sensor,
};
use crate::ov2640::{
    assemble_fifo_length, burst_read, burst_read_op, bus, capture_done_script, capture_done_value,
    fifo_length_script, fifo_length_value, fill_from_reply, filled, lemma_fifo_length_bound, reply_bytes,
};
use crate::{
    ArducamError, Async, Blocking, Resolution, ARDUCHIP_FIFO, ARDUCHIP_TEST1, ARDUCHIP_TRIG,
    CAP_DONE_MASK, FIFO_CLEAR_MASK, FIFO_SIZE1, FIFO_SIZE2, FIFO_SIZE3, FIFO_START_MASK,
};

verus! {

/// I2C address of the OV5642 sensor.
pub const I2C_ADDR: u8 = 0x3c;

/// OV5642 register holding the high byte of the chip id.
pub const OV562_CHIPID_HIGH_REG: u16 = 0x300a;

/// OV5642 register holding the low byte of the chip id.
pub const OV562_CHIPID_LOW_REG: u16 = 0x300b;

/// The chip id an OV5642 reports.
pub const OV562_CHIPID: u16 = 0x5642;

/// The value the SPI test writes to, and expects back from, the Arduchip test
/// register.
pub const SPI_TEST_VALUE: u8 = 0x56;

/// Arduchip timing register.
pub const ARDUCHIP_TIM: u8 = 0x03;

/// Timing-register bit that makes VSYNC active low.
pub const VSYNC_LEVEL_MASK: u8 = 0x02;

/// Arduchip register with the number of frames to capture.
pub const ARDUCHIP_FRAMES: u8 = 0x01;

/// Output formats of the OV5642.
#[derive(Clone, Copy, Debug, PartialEq, Eq, Structural)]
pub enum CameraMode {
    JPEG,
    RAW,
    BMP,
}

/// How the 5MP camera is set up.
pub struct Arducam5MPConfig {
    pub mode: CameraMode,
}

/// The OV5642 register tables, each a list of `[register high, register low,
/// value]` rows.
pub struct Ov5642Tables {
    pub qvga_preview: Vec<[u8; 3]>,
    pub jpeg_capture_qsxga: Vec<[u8; 3]>,
    pub res_320x240: Vec<[u8; 3]>,
    pub res_1280x960_raw: Vec<[u8; 3]>,
    pub res_640x480_raw: Vec<[u8; 3]>,
}

/// The 5MP camera. `M` is [`Blocking`] or [`Async`]; `I` and `S` are the I2C
/// bus and the SPI device, held for whoever performs the bus actions.
pub struct Arducam5MP<M, I, S> {
    mode: PhantomData<M>,
    pub i2c: I,
    pub spi: S,
    config: Arducam5MPConfig,
}

// ---------------------------------------------------------------------------
// What goes on the wire
// ---------------------------------------------------------------------------

/// Writes `value` to OV5642 register `reg`.
pub open spec fn ov5642_write(reg: u16, value: u8) -> StepView {
    bus(sensor_write_op(I2C_ADDR, reg, value))
}

/// Reads OV5642 register `reg`.
pub open spec fn ov5642_read(reg: u16) -> StepView {
    bus(sensor_read_op(I2C_ADDR, reg))
}

/// Writes an OV5642 register table.
pub open spec fn table(rows: Seq<[u8; 3]>) -> Seq<StepView> {
    register_table_steps(I2C_ADDR, rows)
}

pub open spec fn pause_ns(ns: u32) -> StepView {
    bus(BusOpView::DelayNs { ns })
}

/// Writes the test value to the Arduchip, then reads it back.
pub open spec fn spi_test_script() -> Seq<StepView> {
    arduchip_write_steps(ARDUCHIP_TEST1, Some(SPI_TEST_VALUE)) + seq![
        bus(arduchip_read_op(ARDUCHIP_TEST1)),
    ]
}

/// Selects the register bank, then reads the two chip-id registers.
pub open spec fn chip_id_script() -> Seq<StepView> {
    seq![
        ov5642_write(0x00FF, 0x01),
        ov5642_read(OV562_CHIPID_HIGH_REG),
        ov5642_read(OV562_CHIPID_LOW_REG),
    ]
}

/// The steps of `init` before the mode-specific part.
pub open spec fn init_prefix(t: Ov5642Tables) -> Seq<StepView> {
    seq![ov5642_write(0x3008, 0x80)] + table(t.qvga_preview@)
}

/// The mode-specific part of `init`. In BMP mode two registers are read and
/// written back with bits changed; `base` is the index of the first of the
/// two reads.
pub open spec fn init_mode_steps(mode: CameraMode, t: Ov5642Tables, base: usize) -> Seq<StepView> {
    match mode {
        CameraMode::JPEG => seq![pause_ns(100), pause_ns(100)] + table(t.jpeg_capture_qsxga@)
            + table(t.res_320x240@) + seq![
            pause_ns(100),
            ov5642_write(0x3818, 0xa8),
            ov5642_write(0x3621, 0x10),
            ov5642_write(0x3801, 0xb0),
            ov5642_write(0x4407, 0x04),
        ],
        CameraMode::BMP => seq![
            pause_ns(100),
            ov5642_write(0x4740, 0x21),
            ov5642_write(0x501e, 0x2a),
            ov5642_write(0x5002, 0xf8),
            ov5642_write(0x501f, 0x01),
            ov5642_write(0x4300, 0x61),
            ov5642_read(0x3818),
            StepView::SensorUpdate {
                address: I2C_ADDR,
                register: 0x3818,
                source: base,
                update: BitUpdate::SetBits(0x60),
            },
            ov5642_read(0x3621),
            StepView::SensorUpdate {
                address: I2C_ADDR,
                register: 0x3621,
                source: (base + 2) as usize,
                update: BitUpdate::KeepBits(0xdf),
            },
        ],
        CameraMode::RAW => table(t.res_1280x960_raw@) + table(t.res_640x480_raw@),
    }
}

/// The reset and configuration sequence that `init` performs.
pub open spec fn init_script(mode: CameraMode, t: Ov5642Tables) -> Seq<StepView> {
    init_prefix(t) + init_mode_steps(mode, t, (init_prefix(t).len() + 6) as usize)
}

/// `init` begins, in every mode, with the reset write of 0x80 to register
/// 0x3008 and then every row of the QVGA preview table, each row an I2C write
/// of its three bytes to 0x3c followed by a one-millisecond pause. In JPEG
/// mode it ends with the four fixed register writes, and in RAW mode it is
/// exactly the reset, the preview table and the two RAW tables.
pub proof fn lemma_init_layout(mode: CameraMode, t: Ov5642Tables)
    ensures
        ({
            let s = init_script(mode, t);
            let q = t.qvga_preview@;
            let write = |bytes: Seq<u8>| StepView::Bus(BusOpView::I2cWrite { address: 0x3c, bytes });
            &&& s[0] == write(seq![0x30u8, 0x08u8, 0x80u8])
            &&& forall|k: int|
                #![trigger q[k]]
                0 <= k < q.len() ==> s[1 + 2 * k] == write(seq![q[k][0], q[k][1], q[k][2]]) && s[2
                    + 2 * k] == StepView::Bus(BusOpView::DelayMs { ms: 1 })
            &&& mode == CameraMode::JPEG ==> {
                &&& s.len() >= 4
                &&& s[s.len() - 4] == write(seq![0x38u8, 0x18u8, 0xa8u8])
                &&& s[s.len() - 3] == write(seq![0x36u8, 0x21u8, 0x10u8])
                &&& s[s.len() - 2] == write(seq![0x38u8, 0x01u8, 0xb0u8])
                &&& s[s.len() - 1] == write(seq![0x44u8, 0x07u8, 0x04u8])
            }
            &&& mode == CameraMode::RAW ==> s.len() == 1 + 2 * (q.len()
                + t.res_1280x960_raw@.len() + t.res_640x480_raw@.len())
        }),
{
    let s = init_script(mode, t);
    let q = t.qvga_preview@;
    lemma_register_table_by_index(I2C_ADDR, q);
    lemma_register_table_by_index(I2C_ADDR, t.res_1280x960_raw@);
    lemma_register_table_by_index(I2C_ADDR, t.res_640x480_raw@);
    let pre = init_prefix(t);
    assert(pre.len() == 1 + 2 * q.len());
    let m = init_mode_steps(mode, t, (pre.len() + 6) as usize);
    assert(s == pre + m);
    assert(s[0] == pre[0]);
    assert(sensor_frame(0x3008, 0x80) =~= seq![0x30u8, 0x08u8, 0x80u8]) by {
        lemma_register_roundtrip(0x3008, 0x30, 0x08, 0x80);
    }
    assert forall|k: int| #![trigger q[k]] 0 <= k < q.len() implies s[1 + 2 * k] == StepView::Bus(
        BusOpView::I2cWrite { address: 0x3c, bytes: seq![q[k][0], q[k][1], q[k][2]] },
    ) && s[2 + 2 * k] == StepView::Bus(BusOpView::DelayMs { ms: 1 }) by {
        assert(s[1 + 2 * k] == pre[1 + 2 * k]);
        assert(s[2 + 2 * k] == pre[2 + 2 * k]);
        assert(pre[1 + 2 * k] == table(q)[2 * k]);
        assert(pre[2 + 2 * k] == table(q)[2 * k + 1]);
    }
    if mode == CameraMode::JPEG {
        assert(sensor_frame(0x3818, 0xa8) =~= seq![0x38u8, 0x18u8, 0xa8u8]);
        assert(sensor_frame(0x3621, 0x10) =~= seq![0x36u8, 0x21u8, 0x10u8]);
        assert(sensor_frame(0x3801, 0xb0) =~= seq![0x38u8, 0x01u8, 0xb0u8]);
        assert(sensor_frame(0x4407, 0x04) =~= seq![0x44u8, 0x07u8, 0x04u8]);
        assert(s[s.len() - 1] == m[m.len() - 1]);
        assert(s[s.len() - 2] == m[m.len() - 2]);
        assert(s[s.len() - 3] == m[m.len() - 3]);
        assert(s[s.len() - 4] == m[m.len() - 4]);
    }
}

/// In BMP mode `init` reads registers 0x3818 and 0x3621 and writes each back
/// with only the intended bits changed: when every step succeeds, the write
/// that follows each read sends the byte just read, with bits 5 and 6 set for
/// 0x3818 and with bit 5 cleared for 0x3621.
pub proof fn lemma_bmp_read_modify_write(t: Ov5642Tables, rs: Seq<ReplyView>)
    requires
        all_done(rs),
        rs.len() == init_script(CameraMode::BMP, t).len(),
        init_script(CameraMode::BMP, t).len() <= usize::MAX,
    ensures
        ({
            let steps = init_script(CameraMode::BMP, t);
            let base = init_prefix(t).len() + 6int;
            let read = payloads(rs);
            &&& steps[base] == ov5642_read(0x3818)
            &&& steps[base + 2] == ov5642_read(0x3621)
            &&& next_of(feed(fresh(steps), rs.take(base + 1))) == ActionView::Perform(
                BusOpView::I2cWrite {
                    address: I2C_ADDR,
                    bytes: sensor_frame(0x3818, first_byte(read[base]) | 0x60),
                },
            )
            &&& next_of(feed(fresh(steps), rs.take(base + 3))) == ActionView::Perform(
                BusOpView::I2cWrite {
                    address: I2C_ADDR,
                    bytes: sensor_frame(0x3621, first_byte(read[base + 2]) & 0xdf),
                },
            )
        }),
{
    let steps = init_script(CameraMode::BMP, t);
    let base = init_prefix(t).len() + 6int;
    let read = payloads(rs);
    lemma_full_run(steps, rs);
    let mode = init_mode_steps(CameraMode::BMP, t, base as usize);
    assert(steps == init_prefix(t) + mode);
    assert(mode.len() == 10);
    assert(steps[base] == mode[6]);
    assert(steps[base + 1] == mode[7]);
    assert(steps[base + 2] == mode[8]);
    assert(steps[base + 3] == mode[9]);
    assert(steps[base + 1] == StepView::SensorUpdate {
        address: I2C_ADDR,
        register: 0x3818,
        source: base as usize,
        update: BitUpdate::SetBits(0x60),
    });
    assert(steps[base + 3] == StepView::SensorUpdate {
        address: I2C_ADDR,
        register: 0x3621,
        source: (base + 2) as usize,
        update: BitUpdate::KeepBits(0xdf),
    });
    assert(next_of(feed(fresh(steps), rs.take(base + 1))) == ActionView::Perform(
        resolve(steps[base + 1], read.take(base + 1)),
    ));
    assert(next_of(feed(fresh(steps), rs.take(base + 3))) == ActionView::Perform(
        resolve(steps[base + 3], read.take(base + 3)),
    ));
    assert(reply_byte(read.take(base + 1), base) == first_byte(read[base]));
    assert(reply_byte(read.take(base + 3), base + 2) == first_byte(read[base + 2]));
}

// ---------------------------------------------------------------------------
// The camera
// ---------------------------------------------------------------------------

impl<M, I, S> Arducam5MP<M, I, S> {
    /// The I2C bus and the SPI device.
    pub closed spec fn buses(&self) -> (I, S) {
        (self.i2c, self.spi)
    }

    /// The configured output format.
    pub closed spec fn camera_mode(&self) -> CameraMode {
        self.config.mode
    }

    /// The configured output format.
    pub fn mode(&self) -> (m: CameraMode)
        ensures
            m == self.camera_mode(),
    {
        self.config.mode
    }

    /// The image sensor.
    pub fn sensor(&self) -> (s: Sensor)
        ensures
            s.address == I2C_ADDR,
    {
        Sensor::new(I2C_ADDR)
    }

    /// The Arduchip.
    pub fn arduchip(&self) -> Arduchip {
        Arduchip
    }

    /// Writes `value`, if any, to Arduchip register `addr`, then pauses a
    /// millisecond.
    fn spi_write(&self, addr: u8, value: Option<u8>) -> (steps: Vec<Step>)
        ensures
            steps_view(steps@) == arduchip_write_steps(addr, value),
    {
        self.arduchip().spi_write(addr, value)
    }

    /// Reads Arduchip register `addr`.
    fn spi_read(&self, addr: u8) -> (op: BusOp)
        ensures
            op@ == arduchip_read_op(addr),
    {
        self.arduchip().spi_read(addr)
    }

    /// Writes `value` to OV5642 register `addr`.
    fn i2c_write(&self, addr: u16, value: u8) -> (op: BusOp)
        ensures
            StepView::Bus(op@) == ov5642_write(addr, value),
    {
        self.sensor().i2c_write(addr, value)
    }

    /// Writes an OV5642 register table.
    fn i2c_write_registers(&self, regs: &Vec<[u8; 3]>) -> (steps: Vec<Step>)
        ensures
            steps_view(steps@) == table(regs@),
    {
        self.sensor().i2c_write_registers(regs)
    }

    /// Reads OV5642 register `addr`.
    fn i2c_read(&self, addr: u16) -> (op: BusOp)
        ensures
            StepView::Bus(op@) == ov5642_read(addr),
    {
        self.sensor().i2c_read(addr)
    }

    fn arduchip_write_procedure(&self, addr: u8, value: u8) -> (p: Procedure)
        ensures
            p@ == fresh(arduchip_write_steps(addr, Some(value))),
    {
        Procedure::new(self.spi_write(addr, Some(value)))
    }

    /// Writes the test value to the Arduchip and reads it back.
    pub fn spi_test(&self) -> (p: Procedure)
        ensures
            p@ == fresh(spi_test_script()),
    {
        let mut steps = self.spi_write(ARDUCHIP_TEST1, Some(SPI_TEST_VALUE));
        push_op(&mut steps, self.spi_read(ARDUCHIP_TEST1));
        assert(steps_view(steps@) =~= spi_test_script());
        Procedure::new(steps)
    }

    /// Reads the sensor's chip id.
    pub fn chip_id(&self) -> (p: Procedure)
        ensures
            p@ == fresh(chip_id_script()),
    {
        let mut steps: Vec<Step> = Vec::new();
        push_op(&mut steps, self.i2c_write(0x00FF, 0x01));
        push_op(&mut steps, self.i2c_read(OV562_CHIPID_HIGH_REG));
        push_op(&mut steps, self.i2c_read(OV562_CHIPID_LOW_REG));
        assert(steps_view(steps@) =~= chip_id_script());
        Procedure::new(steps)
    }

    /// Resets the sensor and configures it for the configured output format.
    pub fn init(&self, tables: &Ov5642Tables) -> (p: Procedure)
        ensures
            p@ == fresh(init_script(self.camera_mode(), *tables)),
    {
        let mut steps: Vec<Step> = Vec::new();
        push_op(&mut steps, self.i2c_write(0x3008, 0x80));
        append_steps(&mut steps, self.i2c_write_registers(&tables.qvga_preview));
        let ghost prefix = steps_view(steps@);
        assert(prefix =~= init_prefix(*tables));
        let ghost mode = self.config.mode;
        match self.config.mode {
            CameraMode::JPEG => {
                push_op(&mut steps, BusOp::DelayNs { ns: 100 });
                push_op(&mut steps, BusOp::DelayNs { ns: 100 });
                append_steps(&mut steps, self.i2c_write_registers(&tables.jpeg_capture_qsxga));
                append_steps(&mut steps, self.i2c_write_registers(&tables.res_320x240));
                let ghost mid = steps_view(steps@);
                push_op(&mut steps, BusOp::DelayNs { ns: 100 });
                push_op(&mut steps, self.i2c_write(0x3818, 0xa8));
                push_op(&mut steps, self.i2c_write(0x3621, 0x10));
                push_op(&mut steps, self.i2c_write(0x3801, 0xb0));
                push_op(&mut steps, self.i2c_write(0x4407, 0x04));
                assert(steps_view(steps@) =~= mid + seq![
                    pause_ns(100),
                    ov5642_write(0x3818, 0xa8),
                    ov5642_write(0x3621, 0x10),
                    ov5642_write(0x3801, 0xb0),
                    ov5642_write(0x4407, 0x04),
                ]);
                assert(steps_view(steps@) =~= prefix + init_mode_steps(
                    mode,
                    *tables,
                    (prefix.len() + 6) as usize,
                ));
            },
            CameraMode::BMP => {
                push_op(&mut steps, BusOp::DelayNs { ns: 100 });
                push_op(&mut steps, self.i2c_write(0x4740, 0x21));
                push_op(&mut steps, self.i2c_write(0x501e, 0x2a));
                push_op(&mut steps, self.i2c_write(0x5002, 0xf8));
                push_op(&mut steps, self.i2c_write(0x501f, 0x01));
                push_op(&mut steps, self.i2c_write(0x4300, 0x61));
                let base = steps.len();
                assert(steps_view(steps@).len() == steps@.len());
                assert(base == prefix.len() + 6);
                push_op(&mut steps, self.i2c_read(0x3818));
                push_step(
                    &mut steps,
                    Step::SensorUpdate {
                        address: I2C_ADDR,
                        register: 0x3818,
                        source: base,
                        update: BitUpdate::SetBits(0x60),
                    },
                );
                push_op(&mut steps, self.i2c_read(0x3621));
                assert(steps_view(steps@).len() == steps@.len());
                let second = steps.len() - 1;
                push_step(
                    &mut steps,
                    Step::SensorUpdate {
                        address: I2C_ADDR,
                        register: 0x3621,
                        source: second,
                        update: BitUpdate::KeepBits(0xdf),
                    },
                );
                assert(steps_view(steps@) =~= prefix + init_mode_steps(mode, *tables, base));
            },
            CameraMode::RAW => {
                append_steps(&mut steps, self.i2c_write_registers(&tables.res_1280x960_raw));
                append_steps(&mut steps, self.i2c_write_registers(&tables.res_640x480_raw));
                assert(steps_view(steps@) =~= prefix + init_mode_steps(
                    mode,
                    *tables,
                    (prefix.len() + 6) as usize,
                ));
            },
        }
        Procedure::new(steps)
    }

    /// Clears the FIFO.
    pub fn flush_fifo(&self) -> (p: Procedure)
        ensures
            p@ == fresh(arduchip_write_steps(ARDUCHIP_FIFO, Some(FIFO_CLEAR_MASK))),
    {
        self.arduchip_write_procedure(ARDUCHIP_FIFO, FIFO_CLEAR_MASK)
    }

    /// Clears the FIFO write-done flag.
    pub fn clear_fifo_flag(&self) -> (p: Procedure)
        ensures
            p@ == fresh(arduchip_write_steps(ARDUCHIP_FIFO, Some(FIFO_CLEAR_MASK))),
    {
        self.arduchip_write_procedure(ARDUCHIP_FIFO, FIFO_CLEAR_MASK)
    }

    /// Starts a capture.
    pub fn start_capture(&self) -> (p: Procedure)
        ensures
            p@ == fresh(arduchip_write_steps(ARDUCHIP_FIFO, Some(FIFO_START_MASK))),
    {
        self.arduchip_write_procedure(ARDUCHIP_FIFO, FIFO_START_MASK)
    }

    /// Checks whether a capture is done: reads the trigger register.
    pub fn is_capture_done(&self) -> (p: Procedure)
        ensures
            p@ == fresh(capture_done_script()),
    {
        let mut steps: Vec<Step> = Vec::new();
        push_op(&mut steps, self.spi_read(ARDUCHIP_TRIG));
        assert(steps_view(steps@) =~= capture_done_script());
        Procedure::new(steps)
    }

    /// Reads `len` bytes of the captured image from the FIFO in one burst and
    /// clears the FIFO flag.
    pub fn read_captured_image(&self, len: usize) -> (p: Procedure)
        ensures
            p@ == fresh(seq![bus(burst_read_op(len))]),
    {
        burst_read(len)
    }

    /// Reads the image length the Arduchip reports in its FIFO.
    pub fn fifo_length(&self) -> (p: Procedure)
        ensures
            p@ == fresh(fifo_length_script()),
    {
        let mut steps: Vec<Step> = Vec::new();
        push_op(&mut steps, self.spi_read(FIFO_SIZE1));
        push_op(&mut steps, self.spi_read(FIFO_SIZE2));
        push_op(&mut steps, self.spi_read(FIFO_SIZE3));
        assert(steps_view(steps@) =~= fifo_length_script());
        Procedure::new(steps)
    }

    /// Makes VSYNC active low.
    pub fn vsync_mask(&self) -> (p: Procedure)
        ensures
            p@ == fresh(arduchip_write_steps(ARDUCHIP_TIM, Some(VSYNC_LEVEL_MASK))),
    {
        self.arduchip_write_procedure(ARDUCHIP_TIM, VSYNC_LEVEL_MASK)
    }

    /// Sets the number of frames to capture to one.
    pub fn frames(&self) -> (p: Procedure)
        ensures
            p@ == fresh(arduchip_write_steps(ARDUCHIP_FRAMES, Some(0x00))),
    {
        self.arduchip_write_procedure(ARDUCHIP_FRAMES, 0x00)
    }

    /// Sets the JPEG size. Every resolution gets the 320x240 table.
    pub fn set_jpeg_size(&self, resolution: Resolution, tables: &Ov5642Tables) -> (p: Procedure)
        ensures
            p@ == fresh(table(tables.res_320x240@)),
    {
        let steps = match resolution {
            Resolution::Res160x120 => self.i2c_write_registers(&tables.res_320x240),
            Resolution::Res1024x768 => self.i2c_write_registers(&tables.res_320x240),
            Resolution::Res1280x1024 => self.i2c_write_registers(&tables.res_320x240),
            Resolution::Res1600x1200 => self.i2c_write_registers(&tables.res_320x240),
            Resolution::Res176x144 => self.i2c_write_registers(&tables.res_320x240),
            Resolution::Res320x240 => self.i2c_write_registers(&tables.res_320x240),
            Resolution::Res352x288 => self.i2c_write_registers(&tables.res_320x240),
            Resolution::Res640x480 => self.i2c_write_registers(&tables.res_320x240),
            Resolution::Res800x600 => self.i2c_write_registers(&tables.res_320x240),
        };
        Procedure::new(steps)
    }

    /// Whether the Arduchip returned the test value, from the outcome of `spi_test`.
    pub fn spi_test_reply(&self, outcome: Result<Vec<Vec<u8>>, ArducamError>) -> (res: Result<
        bool,
        ArducamError,
    >)
        ensures
            res == match outcome_view(outcome) {
                Ok(rs) => Ok(reply_byte(rs, 2) == SPI_TEST_VALUE),
                Err(e) => Err(e),
            },
    {
        match outcome {
            Ok(replies) => Ok(SPI_TEST_VALUE == reply_byte_at(&replies, 2)),
            Err(e) => Err(e),
        }
    }

    /// Stores the chip id from the outcome of `chip_id` in `chip_id`; on
    /// failure `chip_id` is left as it was.
    pub fn chip_id_reply(&self, outcome: Result<Vec<Vec<u8>>, ArducamError>, chip_id: &mut u16) -> (res:
        Result<(), ArducamError>)
        ensures
            res == status_of(outcome_view(outcome), ()),
            match outcome_view(outcome) {
                Ok(rs) => *final(chip_id) == be_u16(reply_byte(rs, 1), reply_byte(rs, 2)),
                Err(_) => *final(chip_id) == *old(chip_id),
            },
    {
        match outcome {
            Ok(replies) => {
                *chip_id = u16_from_be(reply_byte_at(&replies, 1), reply_byte_at(&replies, 2));
                Ok(())
            },
            Err(e) => Err(e),
        }
    }

    /// Whether the capture is done, from the outcome of `is_capture_done`.
    pub fn is_capture_done_reply(&self, outcome: Result<Vec<Vec<u8>>, ArducamError>) -> (res:
        Result<bool, ArducamError>)
        ensures
            res == match outcome_view(outcome) {
                Ok(rs) => Ok(capture_done_value(reply_byte(rs, 0))),
                Err(e) => Err(e),
            },
    {
        match outcome {
            Ok(replies) => Ok(reply_byte_at(&replies, 0) & CAP_DONE_MASK != 0),
            Err(e) => Err(e),
        }
    }

    /// Stores the FIFO length from the outcome of `fifo_length` in
    /// `fifo_length`; on failure `fifo_length` is left as it was.
    pub fn fifo_length_reply(
        &self,
        outcome: Result<Vec<Vec<u8>>, ArducamError>,
        fifo_length: &mut u32,
    ) -> (res: Result<(), ArducamError>)
        ensures
            res == status_of(outcome_view(outcome), ()),
            match outcome_view(outcome) {
                Ok(rs) => *final(fifo_length) == fifo_length_value(
                    reply_byte(rs, 0),
                    reply_byte(rs, 1),
                    reply_byte(rs, 2),
                ) && *final(fifo_length) <= 0x7F_FFFF,
                Err(_) => *final(fifo_length) == *old(fifo_length),
            },
    {
        match outcome {
            Ok(replies) => {
                let fst = reply_byte_at(&replies, 0);
                let snd = reply_byte_at(&replies, 1);
                let thrd = reply_byte_at(&replies, 2);
                proof {
                    lemma_fifo_length_bound(fst, snd, thrd);
                }
                *fifo_length = assemble_fifo_length(fst, snd, thrd);
                Ok(())
            },
            Err(e) => Err(e),
        }
    }

    /// Fills `out` with the image bytes from the outcome of
    /// `read_captured_image`; on failure `out` is left as it was.
    pub fn read_captured_image_reply(
        &self,
        outcome: Result<Vec<Vec<u8>>, ArducamError>,
        out: &mut [u8],
    ) -> (res: Result<(), ArducamError>)
        ensures
            res == status_of(outcome_view(outcome), ()),
            match outcome_view(outcome) {
                Ok(rs) => final(out)@ == filled(old(out)@, reply_bytes(rs, 0)),
                Err(_) => final(out)@ == old(out)@,
            },
    {
        match outcome {
            Ok(replies) => {
                fill_from_reply(out, &replies, 0);
                Ok(())
            },
            Err(e) => Err(e),
        }
    }
}

impl<I, S> Arducam5MP<Blocking, I, S> {
    /// A 5MP camera on blocking buses.
    pub fn new(i2c: I, spi: S, config: Arducam5MPConfig) -> (cam: Self)
        ensures
            cam.buses() == (i2c, spi),
            cam.camera_mode() == config.mode,
    {
        Arducam5MP { i2c, spi, config, mode: PhantomData }
    }
}

impl<I, S> Arducam5MP<Async, I, S> {
    /// A 5MP camera on asynchronous buses.
    pub fn new_async(i2c: I, spi: S, config: Arducam5MPConfig) -> (cam: Self)
        ensures
            cam.buses() == (i2c, spi),
            cam.camera_mode() == config.mode,
    {
        Arducam5MP { i2c, spi, config, mode: PhantomData }
    }
}

impl<I, S> BlockingCamera for Arducam5MP<Blocking, I, S> {
    /// The OV5642, at I2C address 0x3c.
    fn sensor(&self) -> (s: Sensor)
        ensures
            s.address == I2C_ADDR,
    {
        Sensor::new(I2C_ADDR)
    }

    fn arduchip(&self) -> Arduchip {
        Arduchip
    }
}

} // verus!
