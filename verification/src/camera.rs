//! The two devices on an Arducam board: the image sensor, reached over I2C
//! with 16-bit register addresses, and the Arduchip controller with its frame
//! FIFO, reached over SPI.

use vstd::prelude::*;

use crate::ArducamError;
use crate::{ARDUCHIP_FIFO, ARDUCHIP_TRIG, CAP_DONE_MASK, FIFO_CLEAR_MASK, FIFO_START_MASK};
use crate::bus::{
    be_u16, fresh, outcome_view, push_op, reply_byte, reply_byte_at, Procedure, reg_hi, reg_lo, register_bytes, sensor_frame, steps_view, u16_from_be,
    BusOp, BusOpView, SpiOp, SpiOpView, Step, StepView,
};

verus! {

/// The bit that marks an Arduchip command byte as a register write.
pub const WRITE_FLAG: u8 = 0x80;

/// The mask that marks an Arduchip command byte as a register read.
pub const READ_FLAG: u8 = 0x7f;

/// The Arduchip command byte that writes register `addr`.
pub open spec fn write_command(addr: u8) -> u8 {
    addr | WRITE_FLAG
}

/// The Arduchip command byte that reads register `addr`.
pub open spec fn read_command(addr: u8) -> u8 {
    addr & READ_FLAG
}

/// The SPI frame that writes `value`, if any, to Arduchip register `addr`.
pub open spec fn spi_write_frame(addr: u8, value: Option<u8>) -> Seq<u8> {
    match value {
        Some(v) => seq![write_command(addr), v],
        None => seq![write_command(addr)],
    }
}

/// An Arduchip register write as the board expects it: the frame, then a
/// pause of one millisecond.
pub open spec fn arduchip_write_steps(addr: u8, value: Option<u8>) -> Seq<StepView> {
    seq![
        StepView::Bus(BusOpView::SpiWrite { bytes: spi_write_frame(addr, value) }),
        StepView::Bus(BusOpView::DelayMs { ms: 1 }),
    ]
}

/// An Arduchip register read: one transaction that sends the read command and
/// reads one byte.
pub open spec fn arduchip_read_op(addr: u8) -> BusOpView {
    BusOpView::SpiTransaction {
        ops: seq![SpiOpView::Write(seq![read_command(addr)]), SpiOpView::Read(1)],
    }
}

/// An I2C write of `value` to the 16-bit sensor register `register`.
pub open spec fn sensor_write_op(address: u8, register: u16, value: u8) -> BusOpView {
    BusOpView::I2cWrite { address, bytes: sensor_frame(register, value) }
}

/// An I2C read of one byte from the 16-bit sensor register `register`.
pub open spec fn sensor_read_op(address: u8, register: u16) -> BusOpView {
    BusOpView::I2cWriteRead {
        address,
        bytes: seq![reg_hi(register), reg_lo(register)],
        read_len: 1,
    }
}

/// The bytes of a register-table row: register high byte, low byte, value.
pub open spec fn row_frame(row: [u8; 3]) -> Seq<u8> {
    seq![row[0], row[1], row[2]]
}

/// A register table written row by row, each row verbatim and followed by a
/// pause of one millisecond.
pub open spec fn register_table_steps(address: u8, rows: Seq<[u8; 3]>) -> Seq<StepView>
    decreases rows.len(),
{
    if rows.len() == 0 {
        Seq::empty()
    } else {
        register_table_steps(address, rows.drop_last()) + seq![
            StepView::Bus(BusOpView::I2cWrite { address, bytes: row_frame(rows.last()) }),
            StepView::Bus(BusOpView::DelayMs { ms: 1 }),
        ]
    }
}

/// Writing and reading one Arduchip register address the same register: the
/// write command has the top bit set, the read command has it clear, and both
/// carry the same seven address bits.
pub proof fn lemma_command_bits(addr: u8)
    ensures
        write_command(addr) & 0x80 == 0x80,
        read_command(addr) & 0x80 == 0,
        write_command(addr) & 0x7f == read_command(addr),
        addr < 0x80 ==> read_command(addr) == addr,
{
    assert((addr | 0x80u8) & 0x80u8 == 0x80u8) by (bit_vector);
    assert((addr & 0x7fu8) & 0x80u8 == 0u8) by (bit_vector);
    assert((addr | 0x80u8) & 0x7fu8 == addr & 0x7fu8) by (bit_vector);
    assert(addr < 0x80u8 ==> addr & 0x7fu8 == addr) by (bit_vector);
}

/// Writing a register table sends every row, in table order, each as one I2C
/// write of its three bytes to the sensor followed by a pause of one
/// millisecond: two steps per row, row `k` at steps `2k` and `2k + 1`.
pub proof fn lemma_register_table_by_index(address: u8, rows: Seq<[u8; 3]>)
    ensures
        register_table_steps(address, rows).len() == 2 * rows.len(),
        forall|k: int|
            #![trigger rows[k]]
            0 <= k < rows.len() ==> {
                &&& register_table_steps(address, rows)[2 * k] == StepView::Bus(
                    BusOpView::I2cWrite { address, bytes: seq![rows[k][0], rows[k][1], rows[k][2]] },
                )
                &&& register_table_steps(address, rows)[2 * k + 1] == StepView::Bus(
                    BusOpView::DelayMs { ms: 1 },
                )
            },
    decreases rows.len(),
{
    if rows.len() > 0 {
        let front = rows.drop_last();
        lemma_register_table_by_index(address, front);
        let steps = register_table_steps(address, rows);
        let prev = register_table_steps(address, front);
        assert forall|k: int| #![trigger rows[k]] 0 <= k < rows.len() implies {
            &&& steps[2 * k] == StepView::Bus(
                BusOpView::I2cWrite { address, bytes: seq![rows[k][0], rows[k][1], rows[k][2]] },
            )
            &&& steps[2 * k + 1] == StepView::Bus(BusOpView::DelayMs { ms: 1 })
        } by {
            if k < rows.len() - 1 {
                assert(front[k] == rows[k]);
                assert(steps[2 * k] == prev[2 * k]);
                assert(steps[2 * k + 1] == prev[2 * k + 1]);
            } else {
                assert(rows.last() == rows[k]);
                assert(row_frame(rows.last()) =~= seq![rows[k][0], rows[k][1], rows[k][2]]);
            }
        }
    }
}

/// A 16-bit register address survives the trip through its big-endian bytes,
/// and two bytes survive the trip through the address they spell: a table row
/// read as an address and a value goes out on the wire exactly as written.
pub proof fn lemma_register_roundtrip(register: u16, hi: u8, lo: u8, value: u8)
    ensures
        reg_hi(register) as int * 256 + reg_lo(register) as int == register as int,
        be_u16(hi, lo) as int == hi as int * 256 + lo as int,
        be_u16(reg_hi(register), reg_lo(register)) == register,
        reg_hi(be_u16(hi, lo)) == hi,
        reg_lo(be_u16(hi, lo)) == lo,
        sensor_frame(be_u16(hi, lo), value) == seq![hi, lo, value],
{
}

/// The image sensor, addressed on the I2C bus at `address`.
pub struct Sensor {
    pub address: u8,
}

/// The Arduchip controller on the SPI bus.
pub struct Arduchip;

impl Sensor {
    pub fn new(address: u8) -> (s: Sensor)
        ensures
            s.address == address,
    {
        Sensor { address }
    }

    /// Writes `value` to register `addr`.
    pub fn i2c_write(&self, addr: u16, value: u8) -> (op: BusOp)
        ensures
            op@ == sensor_write_op(self.address, addr, value),
    {
        let (hi, lo) = register_bytes(addr);
        let bytes = vec![hi, lo, value];
        assert(bytes@ =~= sensor_frame(addr, value));
        BusOp::I2cWrite { address: self.address, bytes }
    }

    /// Writes a register table: for each row, the register spelled by its
    /// first two bytes gets its third byte, then the sensor is given a
    /// millisecond.
    pub fn i2c_write_registers(&self, regs: &Vec<[u8; 3]>) -> (steps: Vec<Step>)
        ensures
            steps_view(steps@) == register_table_steps(self.address, regs@),
    {
        let mut steps: Vec<Step> = Vec::new();
        let mut i: usize = 0;
        assert(regs@.subrange(0, 0) =~= Seq::<[u8; 3]>::empty());
        assert(steps_view(steps@) =~= Seq::<StepView>::empty());
        while i < regs.len()
            invariant
                i <= regs.len(),
                steps_view(steps@) == register_table_steps(self.address, regs@.subrange(0, i as int)),
            decreases regs.len() - i,
        {
            let row = regs[i];
            let addr = u16_from_be(row[0], row[1]);
            proof {
                lemma_register_roundtrip(addr, row[0], row[1], row[2]);
            }
            push_op(&mut steps, self.i2c_write(addr, row[2]));
            push_op(&mut steps, BusOp::DelayMs { ms: 1 });
            proof {
                let next = regs@.subrange(0, i + 1);
                assert(next.drop_last() =~= regs@.subrange(0, i as int));
                assert(next.last() == row);
                assert(sensor_frame(addr, row[2]) =~= row_frame(row));
            }
            i = i + 1;
        }
        assert(regs@.subrange(0, i as int) =~= regs@);
        steps
    }

    /// Reads one byte from register `addr`.
    pub fn i2c_read(&self, addr: u16) -> (op: BusOp)
        ensures
            op@ == sensor_read_op(self.address, addr),
    {
        let (hi, lo) = register_bytes(addr);
        let bytes = vec![hi, lo];
        assert(bytes@ =~= seq![reg_hi(addr), reg_lo(addr)]);
        BusOp::I2cWriteRead { address: self.address, bytes, read_len: 1 }
    }
}

impl Arduchip {
    /// Writes `value`, if any, to register `addr`, then pauses a millisecond.
    pub fn spi_write(&self, addr: u8, value: Option<u8>) -> (steps: Vec<Step>)
        ensures
            steps_view(steps@) == arduchip_write_steps(addr, value),
    {
        let command = addr | WRITE_FLAG;
        let bytes = match value {
            Some(v) => vec![command, v],
            None => vec![command],
        };
        assert(bytes@ =~= spi_write_frame(addr, value));
        let mut steps: Vec<Step> = Vec::new();
        push_op(&mut steps, BusOp::SpiWrite { bytes });
        push_op(&mut steps, BusOp::DelayMs { ms: 1 });
        assert(steps_view(steps@) =~= arduchip_write_steps(addr, value));
        steps
    }

    /// Reads one byte from register `addr`.
    pub fn spi_read(&self, addr: u8) -> (op: BusOp)
        ensures
            op@ == arduchip_read_op(addr),
    {
        let ops = vec![SpiOp::Write(vec![addr & READ_FLAG]), SpiOp::Read(1)];
        let op = BusOp::SpiTransaction { ops };
        assert(op@ == arduchip_read_op(addr)) by {
            assert(ops@[0]@ == SpiOpView::Write(seq![read_command(addr)])) by {
                assert(ops@[0]->Write_0@ =~= seq![read_command(addr)]);
            }
            assert(crate::bus::spi_ops_view(ops@) =~= seq![
                SpiOpView::Write(seq![read_command(addr)]),
                SpiOpView::Read(1),
            ]);
        }
        op
    }
}

/// A camera whose sensor and Arduchip are driven through blocking buses.
pub trait BlockingCamera {
    /// The camera's image sensor.
    fn sensor(&self) -> Sensor;

    /// The camera's Arduchip.
    fn arduchip(&self) -> Arduchip;

    /// Clears the FIFO.
    fn flush_fifo(&self) -> (p: Procedure)
        ensures
            p@ == fresh(arduchip_write_steps(ARDUCHIP_FIFO, Some(FIFO_CLEAR_MASK))),
    {
        Procedure::new(self.arduchip().spi_write(ARDUCHIP_FIFO, Some(FIFO_CLEAR_MASK)))
    }

    /// Clears the FIFO write-done flag.
    fn clear_fifo_flag(&self) -> (p: Procedure)
        ensures
            p@ == fresh(arduchip_write_steps(ARDUCHIP_FIFO, Some(FIFO_CLEAR_MASK))),
    {
        Procedure::new(self.arduchip().spi_write(ARDUCHIP_FIFO, Some(FIFO_CLEAR_MASK)))
    }

    /// Starts a capture.
    fn start_capture(&self) -> (p: Procedure)
        ensures
            p@ == fresh(arduchip_write_steps(ARDUCHIP_FIFO, Some(FIFO_START_MASK))),
    {
        Procedure::new(self.arduchip().spi_write(ARDUCHIP_FIFO, Some(FIFO_START_MASK)))
    }

    /// Reads the trigger register.
    fn is_capture_done(&self) -> (p: Procedure)
        ensures
            p@ == fresh(seq![StepView::Bus(arduchip_read_op(ARDUCHIP_TRIG))]),
    {
        let mut steps: Vec<Step> = Vec::new();
        push_op(&mut steps, self.arduchip().spi_read(ARDUCHIP_TRIG));
        assert(steps_view(steps@) =~= seq![StepView::Bus(arduchip_read_op(ARDUCHIP_TRIG))]);
        Procedure::new(steps)
    }

    /// Whether the capture is done, from the outcome of `is_capture_done`:
    /// the capture-done bit of the trigger register.
    fn is_capture_done_reply(&self, outcome: Result<Vec<Vec<u8>>, ArducamError>) -> (res: Result<
        bool,
        ArducamError,
    >)
        ensures
            res == match outcome_view(outcome) {
                Ok(rs) => Ok(reply_byte(rs, 0) & CAP_DONE_MASK != 0),
                Err(e) => Err(e),
            },
    {
        match outcome {
            Ok(replies) => Ok(reply_byte_at(&replies, 0) & CAP_DONE_MASK != 0),
            Err(e) => Err(e),
        }
    }
}

} // verus!
