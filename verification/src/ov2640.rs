//! The ArduCAM Mini 2MP Plus: an OV2640 sensor with 8-bit registers at I2C
//! address 0x30, behind an Arduchip.

use core::marker::PhantomData;
use vstd::prelude::*;

use crate::bus::{
    append_steps, fresh, outcome_view, push_op, reply_byte, reply_byte_at, steps_view,
    BusOp, BusOpView, Procedure, SpiOp, SpiOpView, Step, StepView,
};
use crate::camera::{arduchip_read_op, read_command, write_command, Arduchip, READ_FLAG, WRITE_FLAG};
use crate::{
    ArducamError, Async, Blocking, Resolution, ARDUCHIP_FIFO, ARDUCHIP_TEST1, ARDUCHIP_TRIG,
    CAP_DONE_MASK, FIFO_BURST, FIFO_CLEAR_MASK, FIFO_SIZE1, FIFO_SIZE2, FIFO_SIZE3,
    FIFO_START_MASK, OV2640_ADDR, OV2640_CHIPID_HIGH, OV2640_CHIPID_LOW,
};

verus! {

/// The value the connection test writes to, and expects back from, the
/// Arduchip test register.
pub const CONNECTION_TEST_VALUE: u8 = 0x52;

/// How long the camera is given after each reset step, in nanoseconds.
pub const RESET_SETTLE_NS: u32 = 100_000_000;

/// The OV2640 register tables, each a list of `[register, value]` rows sent
/// verbatim.
pub struct Ov2640Tables {
    pub jpeg_init: Vec<[u8; 2]>,
    pub yuv422: Vec<[u8; 2]>,
    pub jpeg: Vec<[u8; 2]>,
    pub res_160x120: Vec<[u8; 2]>,
    pub res_176x144: Vec<[u8; 2]>,
    pub res_320x240: Vec<[u8; 2]>,
    pub res_352x288: Vec<[u8; 2]>,
    pub res_640x480: Vec<[u8; 2]>,
    pub res_800x600: Vec<[u8; 2]>,
    pub res_1024x768: Vec<[u8; 2]>,
    pub res_1280x1024: Vec<[u8; 2]>,
    pub res_1600x1200: Vec<[u8; 2]>,
}

/// The JPEG table for a resolution.
pub open spec fn resolution_table(t: Ov2640Tables, res: Resolution) -> Seq<[u8; 2]> {
    match res {
        Resolution::Res160x120 => t.res_160x120@,
        Resolution::Res176x144 => t.res_176x144@,
        Resolution::Res320x240 => t.res_320x240@,
        Resolution::Res352x288 => t.res_352x288@,
        Resolution::Res640x480 => t.res_640x480@,
        Resolution::Res800x600 => t.res_800x600@,
        Resolution::Res1024x768 => t.res_1024x768@,
        Resolution::Res1280x1024 => t.res_1280x1024@,
        Resolution::Res1600x1200 => t.res_1600x1200@,
    }
}

impl Ov2640Tables {
    /// The JPEG table for `res`.
    pub fn for_resolution(&self, res: Resolution) -> (t: &Vec<[u8; 2]>)
        ensures
            t@ == resolution_table(*self, res),
    {
        match res {
            Resolution::Res160x120 => &self.res_160x120,
            Resolution::Res176x144 => &self.res_176x144,
            Resolution::Res320x240 => &self.res_320x240,
            Resolution::Res352x288 => &self.res_352x288,
            Resolution::Res640x480 => &self.res_640x480,
            Resolution::Res800x600 => &self.res_800x600,
            Resolution::Res1024x768 => &self.res_1024x768,
            Resolution::Res1280x1024 => &self.res_1280x1024,
            Resolution::Res1600x1200 => &self.res_1600x1200,
        }
    }
}

/// How an Arduchip register write is framed on the SPI device.
#[derive(Clone, Copy, Debug, PartialEq, Eq, Structural)]
pub enum WriteFraming {
    /// One write of the command byte and the value (blocking buses).
    Single,
    /// One transaction of two writes, the command byte then the value
    /// (asynchronous buses).
    Split,
}

/// The 2MP camera. `M` is [`Blocking`] or [`Async`]; `I` and `S` are the I2C
/// bus and the SPI device, held for whoever performs the bus actions.
pub struct Arducam<M, I, S> {
    mode: PhantomData<M>,
    pub i2c: I,
    pub spi: S,
    resolution: Resolution,
}

// ---------------------------------------------------------------------------
// What goes on the wire
// ---------------------------------------------------------------------------

/// Writes `data` to the 8-bit sensor register `reg`.
pub open spec fn sensor8_write(reg: u8, data: u8) -> BusOpView {
    BusOpView::I2cWrite { address: OV2640_ADDR, bytes: seq![reg, data] }
}

/// Reads one byte from the 8-bit sensor register `reg`.
pub open spec fn sensor8_read(reg: u8) -> BusOpView {
    BusOpView::I2cWriteRead { address: OV2640_ADDR, bytes: seq![reg], read_len: 1 }
}

/// Writes `data` to Arduchip register `addr`.
pub open spec fn arduchip_reg_write(framing: WriteFraming, addr: u8, data: u8) -> BusOpView {
    match framing {
        WriteFraming::Single => BusOpView::SpiWrite { bytes: seq![write_command(addr), data] },
        WriteFraming::Split => BusOpView::SpiTransaction {
            ops: seq![SpiOpView::Write(seq![write_command(addr)]), SpiOpView::Write(seq![data])],
        },
    }
}

/// The pause that follows each reset step: a transaction of one delay.
pub open spec fn settle_op() -> BusOpView {
    BusOpView::SpiTransaction { ops: seq![SpiOpView::DelayNs(RESET_SETTLE_NS)] }
}

/// A table of `[register, value]` rows written verbatim, one I2C write each.
pub open spec fn pair_table_steps(rows: Seq<[u8; 2]>) -> Seq<StepView> {
    rows.map_values(|r: [u8; 2]| StepView::Bus(sensor8_write(r[0], r[1])))
}

pub open spec fn bus(op: BusOpView) -> StepView {
    StepView::Bus(op)
}

/// The reset and configuration sequence that `init` performs.
pub open spec fn init_script(framing: WriteFraming, t: Ov2640Tables, res: Resolution) -> Seq<
    StepView,
> {
    seq![
        bus(arduchip_reg_write(framing, 0x07, 0x80)),
        bus(settle_op()),
        bus(arduchip_reg_write(framing, 0x07, 0x00)),
        bus(settle_op()),
        bus(sensor8_write(0xFF, 0x01)),
        bus(settle_op()),
        bus(sensor8_write(0x12, 0x80)),
        bus(settle_op()),
    ] + pair_table_steps(t.jpeg_init@) + pair_table_steps(t.yuv422@) + pair_table_steps(t.jpeg@)
        + seq![bus(sensor8_write(0xFF, 0x01)), bus(sensor8_write(0x15, 0x00))] + pair_table_steps(
        resolution_table(t, res),
    )
}

/// Reads the two chip-id registers after selecting the sensor register bank.
pub open spec fn chipid_script() -> Seq<StepView> {
    seq![
        bus(sensor8_write(0xFF, 0x01)),
        bus(sensor8_read(OV2640_CHIPID_HIGH)),
        bus(sensor8_read(OV2640_CHIPID_LOW)),
    ]
}

/// Writes the test value to the Arduchip, reads it back, then reads the chip id.
pub open spec fn is_connected_script(framing: WriteFraming) -> Seq<StepView> {
    seq![
        bus(arduchip_reg_write(framing, ARDUCHIP_TEST1, CONNECTION_TEST_VALUE)),
        bus(arduchip_read_op(ARDUCHIP_TEST1)),
    ] + chipid_script()
}

/// Clears the FIFO, then starts a capture.
pub open spec fn start_capture_script(framing: WriteFraming) -> Seq<StepView> {
    seq![
        bus(arduchip_reg_write(framing, ARDUCHIP_FIFO, FIFO_CLEAR_MASK)),
        bus(arduchip_reg_write(framing, ARDUCHIP_FIFO, FIFO_START_MASK)),
    ]
}

/// Reads the trigger register.
pub open spec fn capture_done_script() -> Seq<StepView> {
    seq![bus(arduchip_read_op(ARDUCHIP_TRIG))]
}

/// Reads the three FIFO length registers, low byte first.
pub open spec fn fifo_length_script() -> Seq<StepView> {
    seq![
        bus(arduchip_read_op(FIFO_SIZE1)),
        bus(arduchip_read_op(FIFO_SIZE2)),
        bus(arduchip_read_op(FIFO_SIZE3)),
    ]
}

/// One transaction: the burst-read command, a read of `len` image bytes, and
/// the write that clears the FIFO flag.
pub open spec fn burst_read_op(len: usize) -> BusOpView {
    BusOpView::SpiTransaction {
        ops: seq![
            SpiOpView::Write(seq![read_command(FIFO_BURST)]),
            SpiOpView::Read(len),
            SpiOpView::Write(seq![write_command(ARDUCHIP_FIFO), FIFO_CLEAR_MASK]),
        ],
    }
}

/// Reads the FIFO length registers, then the image in one burst of `len` bytes.
pub open spec fn image_read_script(len: usize) -> Seq<StepView> {
    fifo_length_script() + seq![bus(burst_read_op(len))]
}

// ---------------------------------------------------------------------------
// What the answers mean
// ---------------------------------------------------------------------------

/// The FIFO length spelled by the three length registers: 23 bits, low byte
/// first, the top bit of the third register ignored.
pub open spec fn fifo_length_value(b1: u8, b2: u8, b3: u8) -> u32 {
    (b1 as int + 256 * b2 as int + 65536 * (b3 as int % 128)) as u32
}

/// Whether the camera counts as connected: the Arduchip returned the test
/// value over SPI, and the sensor reports an OV2640 chip id (0x2641 or
/// 0x2642) over I2C.
pub open spec fn connected_value(test: u8, hi: u8, lo: u8) -> bool {
    test == CONNECTION_TEST_VALUE && hi == 0x26 && (lo == 0x41 || lo == 0x42)
}

/// Whether the trigger register reports a finished capture.
pub open spec fn capture_done_value(trig: u8) -> bool {
    trig & CAP_DONE_MASK != 0
}

/// The bytes the reply at index `i` delivered, or none.
pub open spec fn reply_bytes(replies: Seq<Seq<u8>>, i: int) -> Seq<u8> {
    if 0 <= i < replies.len() {
        replies[i]
    } else {
        Seq::empty()
    }
}

/// A buffer after `data` has been read into it: as many bytes as fit are
/// replaced, the rest keep their value.
pub open spec fn filled(buf: Seq<u8>, data: Seq<u8>) -> Seq<u8> {
    Seq::new(buf.len(), |i: int| if i < data.len() { data[i] } else { buf[i] })
}

/// The bytes an SPI action writes, in order, whatever it reads.
pub open spec fn spi_bytes_written(op: BusOpView) -> Seq<u8> {
    match op {
        BusOpView::SpiWrite { bytes } => bytes,
        BusOpView::SpiTransaction { ops } => written_by(ops),
        _ => Seq::empty(),
    }
}

/// The bytes written by a run of SPI transaction operations.
pub open spec fn written_by(ops: Seq<SpiOpView>) -> Seq<u8>
    decreases ops.len(),
{
    if ops.len() == 0 {
        Seq::empty()
    } else {
        written_by(ops.drop_last()) + match ops.last() {
            SpiOpView::Write(b) => b,
            _ => Seq::empty(),
        }
    }
}

/// Blocking and asynchronous buses frame an Arduchip register write
/// differently, but the same two bytes reach the Arduchip: the write command,
/// then the value.
pub proof fn lemma_framings_send_same_bytes(addr: u8, data: u8)
    ensures
        spi_bytes_written(arduchip_reg_write(WriteFraming::Single, addr, data)) == seq![
            write_command(addr),
            data,
        ],
        spi_bytes_written(arduchip_reg_write(WriteFraming::Split, addr, data)) == seq![
            write_command(addr),
            data,
        ],
{
    let ops = seq![SpiOpView::Write(seq![write_command(addr)]), SpiOpView::Write(seq![data])];
    assert(ops.drop_last() =~= seq![SpiOpView::Write(seq![write_command(addr)])]);
    assert(ops.drop_last().drop_last() =~= Seq::<SpiOpView>::empty());
    assert(written_by(ops.drop_last().drop_last()) == Seq::<u8>::empty());
    assert(ops.drop_last().last() == SpiOpView::Write(seq![write_command(addr)]));
    assert(written_by(ops.drop_last()) =~= seq![write_command(addr)]);
    assert(ops.last() == SpiOpView::Write(seq![data]));
    assert(written_by(ops) =~= seq![write_command(addr), data]);
}

/// Each resolution is sent the table named after it, and a table of
/// `[register, value]` rows goes out as one I2C write of the row's two bytes
/// to the OV2640 per row, in table order.
pub proof fn lemma_resolution_tables(t: Ov2640Tables, rows: Seq<[u8; 2]>)
    ensures
        resolution_table(t, Resolution::Res160x120) == t.res_160x120@,
        resolution_table(t, Resolution::Res176x144) == t.res_176x144@,
        resolution_table(t, Resolution::Res320x240) == t.res_320x240@,
        resolution_table(t, Resolution::Res352x288) == t.res_352x288@,
        resolution_table(t, Resolution::Res640x480) == t.res_640x480@,
        resolution_table(t, Resolution::Res800x600) == t.res_800x600@,
        resolution_table(t, Resolution::Res1024x768) == t.res_1024x768@,
        resolution_table(t, Resolution::Res1280x1024) == t.res_1280x1024@,
        resolution_table(t, Resolution::Res1600x1200) == t.res_1600x1200@,
        pair_table_steps(rows).len() == rows.len(),
        forall|k: int|
            #![trigger rows[k]]
            0 <= k < rows.len() ==> pair_table_steps(rows)[k] == StepView::Bus(
                BusOpView::I2cWrite { address: 0x30, bytes: seq![rows[k][0], rows[k][1]] },
            ),
{
}

/// The camera counts as connected only when the Arduchip echoed exactly
/// 0x52 and the sensor reported chip id 0x2641 or 0x2642; every such answer
/// counts as connected.
pub proof fn lemma_connected_exactly(test: u8, hi: u8, lo: u8)
    ensures
        connected_value(test, hi, lo) ==> test == 0x52,
        connected_value(test, hi, lo) ==> hi == 0x26 && (lo == 0x41 || lo == 0x42),
        test == 0x52 && hi == 0x26 && lo == 0x41 ==> connected_value(test, hi, lo),
        test == 0x52 && hi == 0x26 && lo == 0x42 ==> connected_value(test, hi, lo),
{
}

/// A capture is done exactly when bit 3 of the trigger byte is set, whatever
/// the other bits hold.
pub proof fn lemma_capture_done_bit(trig: u8)
    ensures
        capture_done_value(trig) <==> (trig / 8) % 2 == 1,
        capture_done_value(trig | 0x08),
        !capture_done_value(trig & 0xF7),
{
    assert((trig & 0x08u8 != 0u8) <==> (trig / 8u8) % 2u8 == 1u8) by (bit_vector);
    assert((trig | 0x08u8) & 0x08u8 != 0u8) by (bit_vector);
    assert((trig & 0xF7u8) & 0x08u8 == 0u8) by (bit_vector);
}

/// Starting a capture, with either framing, first writes the clear bit (0x01)
/// to the FIFO control register (command byte 0x84), then the start bit
/// (0x02), and does nothing else.
pub proof fn lemma_start_capture_clears_then_starts(framing: WriteFraming)
    ensures
        start_capture_script(framing).len() == 2,
        start_capture_script(framing)[0] is Bus,
        start_capture_script(framing)[1] is Bus,
        spi_bytes_written(start_capture_script(framing)[0]->Bus_0) == seq![0x84u8, 0x01u8],
        spi_bytes_written(start_capture_script(framing)[1]->Bus_0) == seq![0x84u8, 0x02u8],
{
    lemma_framings_send_same_bytes(ARDUCHIP_FIFO, FIFO_CLEAR_MASK);
    lemma_framings_send_same_bytes(ARDUCHIP_FIFO, FIFO_START_MASK);
    assert(0x04u8 | 0x80u8 == 0x84u8) by (bit_vector);
    assert(seq![write_command(ARDUCHIP_FIFO), FIFO_CLEAR_MASK] =~= seq![0x84u8, 0x01u8]);
    assert(seq![write_command(ARDUCHIP_FIFO), FIFO_START_MASK] =~= seq![0x84u8, 0x02u8]);
}

/// `init` first resets the Arduchip (0x80, then 0x00, to register 0x07) and
/// the sensor (bank select, then 0x80 to register 0x12), pausing 100 ms after
/// each of the four writes, and in all sends two fixed writes and one I2C
/// write per row of the JPEG-init, YUV422, JPEG and resolution tables.
pub proof fn lemma_init_layout(framing: WriteFraming, t: Ov2640Tables, res: Resolution)
    ensures
        ({
            let s = init_script(framing, t, res);
            &&& s.len() == 10 + t.jpeg_init@.len() + t.yuv422@.len() + t.jpeg@.len()
                + resolution_table(t, res).len()
            &&& s[0] is Bus && spi_bytes_written(s[0]->Bus_0) == seq![0x87u8, 0x80u8]
            &&& s[2] is Bus && spi_bytes_written(s[2]->Bus_0) == seq![0x87u8, 0x00u8]
            &&& s[4] == StepView::Bus(
                BusOpView::I2cWrite { address: 0x30, bytes: seq![0xFFu8, 0x01u8] },
            )
            &&& s[6] == StepView::Bus(
                BusOpView::I2cWrite { address: 0x30, bytes: seq![0x12u8, 0x80u8] },
            )
            &&& s[1] == s[3] && s[3] == s[5] && s[5] == s[7]
            &&& s[1] == StepView::Bus(
                BusOpView::SpiTransaction { ops: seq![SpiOpView::DelayNs(100_000_000)] },
            )
        }),
{
    lemma_framings_send_same_bytes(0x07, 0x80);
    lemma_framings_send_same_bytes(0x07, 0x00);
    assert(0x07u8 | 0x80u8 == 0x87u8) by (bit_vector);
    assert(seq![write_command(0x07), 0x80u8] =~= seq![0x87u8, 0x80u8]);
    assert(seq![write_command(0x07), 0x00u8] =~= seq![0x87u8, 0x00u8]);
}

/// Reading an image into a buffer keeps the buffer's length, puts the image's
/// bytes at the front in order as far as they fit, and leaves the bytes past
/// the image untouched.
pub proof fn lemma_filled(buf: Seq<u8>, data: Seq<u8>)
    ensures
        filled(buf, data).len() == buf.len(),
        forall|k: int| 0 <= k < buf.len() && k < data.len() ==> #[trigger] filled(buf, data)[k] == data[k],
        forall|k: int| data.len() <= k < buf.len() ==> #[trigger] filled(buf, data)[k] == buf[k],
{
}

/// `init` ends by sending the table of the configured resolution, exactly as
/// `set_resolution` to that resolution does.
pub proof fn lemma_init_ends_with_resolution(
    framing: WriteFraming,
    t: Ov2640Tables,
    res: Resolution,
)
    ensures
        ({
            let s = init_script(framing, t, res);
            let k = pair_table_steps(resolution_table(t, res)).len();
            s.subrange(s.len() - k, s.len() as int) == pair_table_steps(resolution_table(t, res))
        }),
{
    let s = init_script(framing, t, res);
    let tail = pair_table_steps(resolution_table(t, res));
    let k = tail.len();
    assert(s.subrange(s.len() - k, s.len() as int) =~= tail);
}

/// Every FIFO length fits in 23 bits.
pub proof fn lemma_fifo_length_bound(b1: u8, b2: u8, b3: u8)
    ensures
        fifo_length_value(b1, b2, b3) <= 0x7F_FFFF,
        fifo_length_value(b1, b2, b3) == b1 + 256 * b2 + 65536 * (b3 % 128),
{
}

/// Computes the FIFO length the way the registers hold it: the third register
/// masked to seven bits, the bytes shifted into place, the result masked to
/// 23 bits.
pub fn assemble_fifo_length(b1: u8, b2: u8, b3: u8) -> (len: u32)
    ensures
        len == fifo_length_value(b1, b2, b3),
{
    let lo = b1 as u32;
    let mid = b2 as u32;
    let masked = b3 & 0x7F;
    assert(masked < 128 && masked == b3 % 128) by (bit_vector)
        requires
            masked == b3 & 0x7F,
    ;
    let hi = masked as u32;
    let len = (hi << 16u32 | mid << 8u32 | lo) & 0x7F_FFFFu32;
    assert(len == lo + 256 * mid + 65536 * hi) by (bit_vector)
        requires
            lo < 256,
            mid < 256,
            hi < 128,
            len == (hi << 16u32 | mid << 8u32 | lo) & 0x7F_FFFFu32,
    ;
    len
}

// ---------------------------------------------------------------------------
// Building blocks
// ---------------------------------------------------------------------------

/// The bus action that writes `data` to Arduchip register `addr`.
pub fn arduchip_write_op(framing: WriteFraming, addr: u8, data: u8) -> (op: BusOp)
    ensures
        op@ == arduchip_reg_write(framing, addr, data),
{
    let command = addr | WRITE_FLAG;
    match framing {
        WriteFraming::Single => {
            let bytes = vec![command, data];
            assert(bytes@ =~= seq![write_command(addr), data]);
            BusOp::SpiWrite { bytes }
        },
        WriteFraming::Split => {
            let ops = vec![SpiOp::Write(vec![command]), SpiOp::Write(vec![data])];
            let op = BusOp::SpiTransaction { ops };
            assert(op@ == arduchip_reg_write(framing, addr, data)) by {
                assert(ops@[0]->Write_0@ =~= seq![write_command(addr)]);
                assert(ops@[1]->Write_0@ =~= seq![data]);
                assert(crate::bus::spi_ops_view(ops@) =~= seq![
                    SpiOpView::Write(seq![write_command(addr)]),
                    SpiOpView::Write(seq![data]),
                ]);
            }
            op
        },
    }
}

/// One SPI transaction of `ops`.
pub fn transaction(ops: Vec<SpiOp>) -> (op: BusOp)
    ensures
        op@ == (BusOpView::SpiTransaction { ops: crate::bus::spi_ops_view(ops@) }),
{
    BusOp::SpiTransaction { ops }
}

/// The pause after a reset step.
pub fn settle() -> (op: BusOp)
    ensures
        op@ == settle_op(),
{
    let ops = vec![SpiOp::DelayNs(RESET_SETTLE_NS)];
    assert(crate::bus::spi_ops_view(ops@) =~= seq![SpiOpView::DelayNs(RESET_SETTLE_NS)]);
    transaction(ops)
}

/// Writes `data` to sensor register `reg`.
pub fn sensor_write_op(reg: u8, data: u8) -> (op: BusOp)
    ensures
        op@ == sensor8_write(reg, data),
{
    let bytes = vec![reg, data];
    assert(bytes@ =~= seq![reg, data]);
    BusOp::I2cWrite { address: OV2640_ADDR, bytes }
}

/// Reads one byte from sensor register `reg`.
pub fn sensor_read_op(reg: u8) -> (op: BusOp)
    ensures
        op@ == sensor8_read(reg),
{
    let bytes = vec![reg];
    assert(bytes@ =~= seq![reg]);
    BusOp::I2cWriteRead { address: OV2640_ADDR, bytes, read_len: 1 }
}

/// Writes a table of `[register, value]` rows.
pub fn pair_table(regs: &Vec<[u8; 2]>) -> (steps: Vec<Step>)
    ensures
        steps_view(steps@) == pair_table_steps(regs@),
{
    let mut steps: Vec<Step> = Vec::new();
    let mut i: usize = 0;
    assert(steps_view(steps@) =~= pair_table_steps(regs@.subrange(0, 0)));
    while i < regs.len()
        invariant
            i <= regs.len(),
            steps_view(steps@) == pair_table_steps(regs@.subrange(0, i as int)),
        decreases regs.len() - i,
    {
        let row = regs[i];
        push_op(&mut steps, sensor_write_op(row[0], row[1]));
        assert(pair_table_steps(regs@.subrange(0, i + 1)) =~= pair_table_steps(
            regs@.subrange(0, i as int),
        ).push(StepView::Bus(sensor8_write(row[0], row[1]))));
        i = i + 1;
    }
    assert(regs@.subrange(0, i as int) =~= regs@);
    steps
}

/// Reads `len` bytes of the captured image from the FIFO in one burst and
/// clears the FIFO flag.
pub fn burst_read(len: usize) -> (p: Procedure)
    ensures
        p@ == fresh(seq![bus(burst_read_op(len))]),
{
    let mut steps: Vec<Step> = Vec::new();
    push_op(&mut steps, burst_read_action(len));
    assert(steps_view(steps@) =~= seq![bus(burst_read_op(len))]);
    Procedure::new(steps)
}

/// The burst read of `len` image bytes that clears the FIFO flag.
pub fn burst_read_action(len: usize) -> (op: BusOp)
    ensures
        op@ == burst_read_op(len),
{
    let ops = vec![
        SpiOp::Write(vec![FIFO_BURST & READ_FLAG]),
        SpiOp::Read(len),
        SpiOp::Write(vec![ARDUCHIP_FIFO | WRITE_FLAG, FIFO_CLEAR_MASK]),
    ];
    let op = BusOp::SpiTransaction { ops };
    assert(op@ == burst_read_op(len)) by {
        assert(ops@[0]->Write_0@ =~= seq![read_command(FIFO_BURST)]);
        assert(ops@[2]->Write_0@ =~= seq![write_command(ARDUCHIP_FIFO), FIFO_CLEAR_MASK]);
        assert(crate::bus::spi_ops_view(ops@) =~= seq![
            SpiOpView::Write(seq![read_command(FIFO_BURST)]),
            SpiOpView::Read(len),
            SpiOpView::Write(seq![write_command(ARDUCHIP_FIFO), FIFO_CLEAR_MASK]),
        ]);
    }
    op
}

impl<M, I, S> Arducam<M, I, S> {
    /// The I2C bus and the SPI device.
    pub closed spec fn buses(&self) -> (I, S) {
        (self.i2c, self.spi)
    }

    /// The resolution the camera is set to.
    pub closed spec fn configured_resolution(&self) -> Resolution {
        self.resolution
    }

    /// The resolution the camera is set to.
    pub fn resolution(&self) -> (r: Resolution)
        ensures
            r == self.configured_resolution(),
    {
        self.resolution
    }

    /// Reads one byte from sensor register `reg`.
    fn sensor_readreg8_8(&self, reg: u8) -> (op: BusOp)
        ensures
            op@ == sensor8_read(reg),
    {
        sensor_read_op(reg)
    }

    /// Writes `data` to sensor register `reg`.
    fn sensor_writereg8_8(&self, reg: u8, data: u8) -> (op: BusOp)
        ensures
            op@ == sensor8_write(reg, data),
    {
        sensor_write_op(reg, data)
    }

    /// Reads one byte from Arduchip register `addr`.
    fn arduchip_read_reg(&self, addr: u8) -> (op: BusOp)
        ensures
            op@ == arduchip_read_op(addr),
    {
        Arduchip.spi_read(addr)
    }

    /// Writes a table of `[register, value]` rows to the sensor.
    fn sensor_writeregs8_8(&self, regs: &Vec<[u8; 2]>) -> (steps: Vec<Step>)
        ensures
            steps_view(steps@) == pair_table_steps(regs@),
    {
        pair_table(regs)
    }

    /// Writes the table of the configured resolution.
    fn send_resolution(&self, tables: &Ov2640Tables) -> (steps: Vec<Step>)
        ensures
            steps_view(steps@) == pair_table_steps(
                resolution_table(*tables, self.configured_resolution()),
            ),
    {
        self.sensor_writeregs8_8(tables.for_resolution(self.resolution))
    }

    /// Clears the FIFO flag.
    fn flush_fifo(&self, framing: WriteFraming) -> (op: BusOp)
        ensures
            op@ == arduchip_reg_write(framing, ARDUCHIP_FIFO, FIFO_CLEAR_MASK),
    {
        arduchip_write_op(framing, ARDUCHIP_FIFO, FIFO_CLEAR_MASK)
    }

    /// Starts a capture.
    fn start_fifo(&self, framing: WriteFraming) -> (op: BusOp)
        ensures
            op@ == arduchip_reg_write(framing, ARDUCHIP_FIFO, FIFO_START_MASK),
    {
        arduchip_write_op(framing, ARDUCHIP_FIFO, FIFO_START_MASK)
    }

    fn init_with(&self, framing: WriteFraming, tables: &Ov2640Tables) -> (p: Procedure)
        ensures
            p@ == fresh(init_script(framing, *tables, self.configured_resolution())),
    {
        let mut steps: Vec<Step> = Vec::new();
        push_op(&mut steps, arduchip_write_op(framing, 0x07, 0x80));
        push_op(&mut steps, settle());
        push_op(&mut steps, arduchip_write_op(framing, 0x07, 0x00));
        push_op(&mut steps, settle());
        push_op(&mut steps, self.sensor_writereg8_8(0xFF, 0x01));
        push_op(&mut steps, settle());
        push_op(&mut steps, self.sensor_writereg8_8(0x12, 0x80));
        push_op(&mut steps, settle());
        let ghost head = steps_view(steps@);
        assert(head =~= seq![
            bus(arduchip_reg_write(framing, 0x07, 0x80)),
            bus(settle_op()),
            bus(arduchip_reg_write(framing, 0x07, 0x00)),
            bus(settle_op()),
            bus(sensor8_write(0xFF, 0x01)),
            bus(settle_op()),
            bus(sensor8_write(0x12, 0x80)),
            bus(settle_op()),
        ]);
        append_steps(&mut steps, self.sensor_writeregs8_8(&tables.jpeg_init));
        append_steps(&mut steps, self.sensor_writeregs8_8(&tables.yuv422));
        append_steps(&mut steps, self.sensor_writeregs8_8(&tables.jpeg));
        let ghost body = steps_view(steps@);
        push_op(&mut steps, self.sensor_writereg8_8(0xFF, 0x01));
        push_op(&mut steps, self.sensor_writereg8_8(0x15, 0x00));
        assert(steps_view(steps@) =~= body + seq![
            bus(sensor8_write(0xFF, 0x01)),
            bus(sensor8_write(0x15, 0x00)),
        ]);
        append_steps(&mut steps, self.send_resolution(tables));
        Procedure::new(steps)
    }

    fn is_connected_with(&self, framing: WriteFraming) -> (p: Procedure)
        ensures
            p@ == fresh(is_connected_script(framing)),
    {
        let mut steps: Vec<Step> = Vec::new();
        push_op(&mut steps, arduchip_write_op(framing, ARDUCHIP_TEST1, CONNECTION_TEST_VALUE));
        push_op(&mut steps, self.arduchip_read_reg(ARDUCHIP_TEST1));
        append_steps(&mut steps, self.chipid_steps());
        assert(steps_view(steps@) =~= is_connected_script(framing));
        Procedure::new(steps)
    }

    fn chipid_steps(&self) -> (steps: Vec<Step>)
        ensures
            steps_view(steps@) == chipid_script(),
    {
        let mut steps: Vec<Step> = Vec::new();
        push_op(&mut steps, self.sensor_writereg8_8(0xFF, 0x01));
        push_op(&mut steps, self.sensor_readreg8_8(OV2640_CHIPID_HIGH));
        push_op(&mut steps, self.sensor_readreg8_8(OV2640_CHIPID_LOW));
        assert(steps_view(steps@) =~= chipid_script());
        steps
    }

    fn start_capture_with(&self, framing: WriteFraming) -> (p: Procedure)
        ensures
            p@ == fresh(start_capture_script(framing)),
    {
        let mut steps: Vec<Step> = Vec::new();
        push_op(&mut steps, self.flush_fifo(framing));
        push_op(&mut steps, self.start_fifo(framing));
        assert(steps_view(steps@) =~= start_capture_script(framing));
        Procedure::new(steps)
    }

    /// Sets the camera resolution and sends that resolution's table. The new
    /// resolution is kept whether or not the table then reaches the sensor.
    pub fn set_resolution(&mut self, resolution: Resolution, tables: &Ov2640Tables) -> (p:
        Procedure)
        ensures
            final(self).configured_resolution() == resolution,
            final(self).buses() == old(self).buses(),
            p@ == fresh(pair_table_steps(resolution_table(*tables, resolution))),
    {
        self.resolution = resolution;
        Procedure::new(self.send_resolution(tables))
    }

    /// Checks whether a capture is done: reads the trigger register.
    pub fn is_capture_done(&self) -> (p: Procedure)
        ensures
            p@ == fresh(capture_done_script()),
    {
        let mut steps: Vec<Step> = Vec::new();
        push_op(&mut steps, self.arduchip_read_reg(ARDUCHIP_TRIG));
        assert(steps_view(steps@) =~= capture_done_script());
        Procedure::new(steps)
    }

    /// Reads the image length the Arduchip reports, then reads `len` bytes of
    /// the captured image from the FIFO in one burst and clears the FIFO flag.
    /// An image longer than `len` is cut.
    pub fn read_captured_image(&self, len: usize) -> (p: Procedure)
        ensures
            p@ == fresh(image_read_script(len)),
    {
        let mut steps: Vec<Step> = Vec::new();
        push_op(&mut steps, self.arduchip_read_reg(FIFO_SIZE1));
        push_op(&mut steps, self.arduchip_read_reg(FIFO_SIZE2));
        push_op(&mut steps, self.arduchip_read_reg(FIFO_SIZE3));
        push_op(&mut steps, burst_read_action(len));
        assert(steps_view(steps@) =~= image_read_script(len));
        Procedure::new(steps)
    }

    /// Reads the image length the Arduchip reports in its FIFO.
    pub fn get_fifo_length(&self) -> (p: Procedure)
        ensures
            p@ == fresh(fifo_length_script()),
    {
        let mut steps: Vec<Step> = Vec::new();
        push_op(&mut steps, self.arduchip_read_reg(FIFO_SIZE1));
        push_op(&mut steps, self.arduchip_read_reg(FIFO_SIZE2));
        push_op(&mut steps, self.arduchip_read_reg(FIFO_SIZE3));
        assert(steps_view(steps@) =~= fifo_length_script());
        Procedure::new(steps)
    }

    /// Reads the sensor's vendor and product id.
    pub fn get_sensor_chipid(&self) -> (p: Procedure)
        ensures
            p@ == fresh(chipid_script()),
    {
        Procedure::new(self.chipid_steps())
    }

    /// Whether the camera is connected, from the outcome of `is_connected`.
    pub fn is_connected_reply(&self, outcome: Result<Vec<Vec<u8>>, ArducamError>) -> (r: Result<
        bool,
        ArducamError,
    >)
        ensures
            r == match outcome_view(outcome) {
                Ok(rs) => Ok(
                    connected_value(reply_byte(rs, 1), reply_byte(rs, 3), reply_byte(rs, 4)),
                ),
                Err(e) => Err(e),
            },
    {
        match outcome {
            Ok(replies) => {
                let result = reply_byte_at(&replies, 1);
                let hi = reply_byte_at(&replies, 3);
                let lo = reply_byte_at(&replies, 4);
                Ok(CONNECTION_TEST_VALUE == result && hi == 0x26 && (lo == 0x41 || lo == 0x42))
            },
            Err(e) => Err(e),
        }
    }

    /// Whether the capture is done, from the outcome of `is_capture_done`.
    pub fn is_capture_done_reply(&self, outcome: Result<Vec<Vec<u8>>, ArducamError>) -> (r:
        Result<bool, ArducamError>)
        ensures
            r == match outcome_view(outcome) {
                Ok(rs) => Ok(capture_done_value(reply_byte(rs, 0))),
                Err(e) => Err(e),
            },
    {
        match outcome {
            Ok(replies) => Ok(reply_byte_at(&replies, 0) & CAP_DONE_MASK != 0),
            Err(e) => Err(e),
        }
    }

    /// The FIFO length from the outcome of `get_fifo_length`.
    pub fn get_fifo_length_reply(&self, outcome: Result<Vec<Vec<u8>>, ArducamError>) -> (r:
        Result<u32, ArducamError>)
        ensures
            r == match outcome_view(outcome) {
                Ok(rs) => Ok(
                    fifo_length_value(reply_byte(rs, 0), reply_byte(rs, 1), reply_byte(rs, 2)),
                ),
                Err(e) => Err(e),
            },
            r matches Ok(len) ==> len <= 0x7F_FFFF,
    {
        match outcome {
            Ok(replies) => {
                let b1 = reply_byte_at(&replies, 0);
                let b2 = reply_byte_at(&replies, 1);
                let b3 = reply_byte_at(&replies, 2);
                proof {
                    lemma_fifo_length_bound(b1, b2, b3);
                }
                Ok(assemble_fifo_length(b1, b2, b3))
            },
            Err(e) => Err(e),
        }
    }

    /// The chip id, high byte first, from the outcome of `get_sensor_chipid`.
    pub fn get_sensor_chipid_reply(&self, outcome: Result<Vec<Vec<u8>>, ArducamError>) -> (r:
        Result<[u8; 2], ArducamError>)
        ensures
            match outcome_view(outcome) {
                Ok(rs) => r is Ok && r->Ok_0@ == seq![reply_byte(rs, 1), reply_byte(rs, 2)],
                Err(e) => r == Err::<[u8; 2], ArducamError>(e),
            },
    {
        match outcome {
            Ok(replies) => {
                let id = [reply_byte_at(&replies, 1), reply_byte_at(&replies, 2)];
                assert(id@ =~= seq![id[0], id[1]]);
                Ok(id)
            },
            Err(e) => Err(e),
        }
    }

    /// Fills `out` with the image bytes from the outcome of
    /// `read_captured_image` and returns the actual image size, the FIFO
    /// length the Arduchip reported (larger than `out` when the image was
    /// cut); on failure `out` is left as it was.
    pub fn read_captured_image_reply(
        &self,
        outcome: Result<Vec<Vec<u8>>, ArducamError>,
        out: &mut [u8],
    ) -> (r: Result<u32, ArducamError>)
        ensures
            r == match outcome_view(outcome) {
                Ok(rs) => Ok(
                    fifo_length_value(reply_byte(rs, 0), reply_byte(rs, 1), reply_byte(rs, 2)),
                ),
                Err(e) => Err(e),
            },
            match outcome_view(outcome) {
                Ok(rs) => final(out)@ == filled(old(out)@, reply_bytes(rs, 3)),
                Err(_) => final(out)@ == old(out)@,
            },
    {
        match outcome {
            Ok(replies) => {
                let size = assemble_fifo_length(
                    reply_byte_at(&replies, 0),
                    reply_byte_at(&replies, 1),
                    reply_byte_at(&replies, 2),
                );
                fill_from_reply(out, &replies, 3);
                Ok(size)
            },
            Err(e) => Err(e),
        }
    }
}

/// Copies as much of reply `i` into `out` as fits; a missing reply copies
/// nothing.
pub fn fill_from_reply(out: &mut [u8], replies: &Vec<Vec<u8>>, i: usize)
    ensures
        final(out)@ == filled(old(out)@, reply_bytes(crate::bus::replies_view(replies@), i as int)),
{
    if i < replies.len() {
        fill(out, &replies[i]);
    } else {
        let empty: Vec<u8> = Vec::new();
        fill(out, &empty);
        assert(empty@ =~= Seq::<u8>::empty());
    }
}

/// Copies as much of `data` into `out` as fits.
pub fn fill(out: &mut [u8], data: &Vec<u8>)
    ensures
        final(out)@ == filled(old(out)@, data@),
{
    let mut i: usize = 0;
    while i < out.len() && i < data.len()
        invariant
            i <= out@.len(),
            out@.len() == old(out)@.len(),
            forall|k: int| 0 <= k < out@.len() ==> out@[k] == (if k < i && k < data@.len() {
                data@[k]
            } else {
                old(out)@[k]
            }),
        decreases out@.len() - i,
    {
        out[i] = data[i];
        i = i + 1;
    }
    assert(final(out)@ =~= filled(old(out)@, data@));
}

impl<I, S> Arducam<Blocking, I, S> {
    /// A camera on blocking buses, set to `resolution`.
    pub fn new_blocking(i2c: I, spi: S, resolution: Resolution) -> (cam: Self)
        ensures
            cam.buses() == (i2c, spi),
            cam.configured_resolution() == resolution,
    {
        Arducam { mode: PhantomData, i2c, spi, resolution }
    }

    /// Writes `data` to sensor register `reg`.
    fn blocking_sensor_writereg8_8(&self, reg: u8, data: u8) -> (op: BusOp)
        ensures
            op@ == sensor8_write(reg, data),
    {
        self.sensor_writereg8_8(reg, data)
    }

    /// Writes `data` to Arduchip register `addr`: one SPI write.
    fn arduchip_write_reg(&self, addr: u8, data: u8) -> (op: BusOp)
        ensures
            op@ == arduchip_reg_write(WriteFraming::Single, addr, data),
    {
        arduchip_write_op(WriteFraming::Single, addr, data)
    }

    /// Resets the camera to its initial state and configures JPEG output at
    /// the configured resolution.
    pub fn init(&self, tables: &Ov2640Tables) -> (p: Procedure)
        ensures
            p@ == fresh(init_script(WriteFraming::Single, *tables, self.configured_resolution())),
    {
        self.init_with(WriteFraming::Single, tables)
    }

    /// Checks that the camera still answers on both buses.
    pub fn is_connected(&self) -> (p: Procedure)
        ensures
            p@ == fresh(is_connected_script(WriteFraming::Single)),
    {
        self.is_connected_with(WriteFraming::Single)
    }

    /// Requests an image capture: clears the FIFO flag, then starts a capture.
    pub fn start_capture(&self) -> (p: Procedure)
        ensures
            p@ == fresh(start_capture_script(WriteFraming::Single)),
    {
        self.start_capture_with(WriteFraming::Single)
    }
}

impl<I, S> Arducam<Async, I, S> {
    /// A camera on asynchronous buses, set to `resolution`.
    pub fn new(i2c: I, spi: S, resolution: Resolution) -> (cam: Self)
        ensures
            cam.buses() == (i2c, spi),
            cam.configured_resolution() == resolution,
    {
        Arducam { mode: PhantomData, i2c, spi, resolution }
    }

    /// Writes `data` to Arduchip register `addr`: one transaction of two writes.
    fn arduchip_write_reg(&self, addr: u8, data: u8) -> (op: BusOp)
        ensures
            op@ == arduchip_reg_write(WriteFraming::Split, addr, data),
    {
        arduchip_write_op(WriteFraming::Split, addr, data)
    }

    /// Resets the camera to its initial state and configures JPEG output at
    /// the configured resolution.
    pub fn init(&self, tables: &Ov2640Tables) -> (p: Procedure)
        ensures
            p@ == fresh(init_script(WriteFraming::Split, *tables, self.configured_resolution())),
    {
        self.init_with(WriteFraming::Split, tables)
    }

    /// Checks that the camera still answers on both buses.
    pub fn is_connected(&self) -> (p: Procedure)
        ensures
            p@ == fresh(is_connected_script(WriteFraming::Split)),
    {
        self.is_connected_with(WriteFraming::Split)
    }

    /// Requests an image capture: clears the FIFO flag, then starts a capture.
    pub fn start_capture(&self) -> (p: Procedure)
        ensures
            p@ == fresh(start_capture_script(WriteFraming::Split)),
    {
        self.start_capture_with(WriteFraming::Split)
    }
}

} // verus!
