//! Image orientation control.

use vstd::prelude::*;

use crate::bus::{fresh, push_op, steps_view, BusOp, BusOpView, Procedure, Step, StepView};

verus! {

/// The I2C address the orientation commands go to.
pub const ORIENTATION_ADDR: u8 = 0x30;

/// Image orientation.
#[derive(Clone, Copy, Debug, PartialEq, Eq, Structural)]
pub enum MirrorFlip {
    Original,
    Mirrored,
    Flipped,
    MirrorFlipped,
}

pub open spec fn is_mirrored(m: MirrorFlip) -> bool {
    m == MirrorFlip::Mirrored || m == MirrorFlip::MirrorFlipped
}

pub open spec fn is_flipped(m: MirrorFlip) -> bool {
    m == MirrorFlip::Flipped || m == MirrorFlip::MirrorFlipped
}

/// The orientation command byte: bit 7 always set, bit 6 for mirroring, bit 5
/// for flipping.
pub open spec fn orientation_command(m: MirrorFlip) -> u8 {
    (0x80 + (if is_mirrored(m) { 0x40int } else { 0 }) + (if is_flipped(m) { 0x20int } else {
        0
    })) as u8
}

/// One orientation write: the register bytes, then the command.
pub open spec fn orientation_write(reg_hi: u8, reg_lo: u8, command: u8) -> StepView {
    StepView::Bus(
        BusOpView::I2cWrite { address: ORIENTATION_ADDR, bytes: seq![reg_hi, reg_lo, command] },
    )
}

/// The writes that apply an orientation: always the 0x3818 write, and for a
/// mirrored image the 0x3621 and 0x3801 writes after it.
pub open spec fn orientation_script(m: MirrorFlip) -> Seq<StepView> {
    let c = orientation_command(m);
    if is_mirrored(m) {
        seq![
            orientation_write(0x38, 0x18, c),
            orientation_write(0x36, 0x21, c),
            orientation_write(0x38, 0x01, c),
        ]
    } else {
        seq![orientation_write(0x38, 0x18, c)]
    }
}

fn orientation_op(reg_hi: u8, reg_lo: u8, command: u8) -> (op: BusOp)
    ensures
        StepView::Bus(op@) == orientation_write(reg_hi, reg_lo, command),
{
    let bytes = vec![reg_hi, reg_lo, command];
    assert(bytes@ =~= seq![reg_hi, reg_lo, command]);
    BusOp::I2cWrite { address: ORIENTATION_ADDR, bytes }
}

impl MirrorFlip {
    /// The command byte for this orientation.
    pub fn to_command(&self) -> (c: u8)
        ensures
            c == orientation_command(*self),
            c & 0x80 == 0x80,
            c & 0x1f == 0,
            (c & 0x40 != 0) == is_mirrored(*self),
            (c & 0x20 != 0) == is_flipped(*self),
    {
        let default_value: u8 = 0x80;
        let c = match self {
            MirrorFlip::Original => default_value,
            MirrorFlip::Mirrored => default_value | (0b10u8 << 5u8),
            MirrorFlip::Flipped => default_value | (0b01u8 << 5u8),
            MirrorFlip::MirrorFlipped => default_value | (0b11u8 << 5u8),
        };
        assert(0x80u8 | (0b10u8 << 5u8) == 0xC0u8) by (bit_vector);
        assert(0x80u8 | (0b01u8 << 5u8) == 0xA0u8) by (bit_vector);
        assert(0x80u8 | (0b11u8 << 5u8) == 0xE0u8) by (bit_vector);
        assert(0x80u8 & 0x80u8 == 0x80u8 && 0x80u8 & 0x1fu8 == 0u8 && 0x80u8 & 0x40u8 == 0u8
            && 0x80u8 & 0x20u8 == 0u8) by (bit_vector);
        assert(0xC0u8 & 0x80u8 == 0x80u8 && 0xC0u8 & 0x1fu8 == 0u8 && 0xC0u8 & 0x40u8 != 0u8
            && 0xC0u8 & 0x20u8 == 0u8) by (bit_vector);
        assert(0xA0u8 & 0x80u8 == 0x80u8 && 0xA0u8 & 0x1fu8 == 0u8 && 0xA0u8 & 0x40u8 == 0u8
            && 0xA0u8 & 0x20u8 != 0u8) by (bit_vector);
        assert(0xE0u8 & 0x80u8 == 0x80u8 && 0xE0u8 & 0x1fu8 == 0u8 && 0xE0u8 & 0x40u8 != 0u8
            && 0xE0u8 & 0x20u8 != 0u8) by (bit_vector);
        c
    }

    /// Applies this orientation.
    pub fn control(self) -> (p: Procedure)
        ensures
            p@ == fresh(orientation_script(self)),
    {
        let c = self.to_command();
        let mut steps: Vec<Step> = Vec::new();
        push_op(&mut steps, orientation_op(0x38, 0x18, c));
        if matches!(self, MirrorFlip::Mirrored | MirrorFlip::MirrorFlipped) {
            push_op(&mut steps, orientation_op(0x36, 0x21, c));
            push_op(&mut steps, orientation_op(0x38, 0x01, c));
        }
        assert(steps_view(steps@) =~= orientation_script(self));
        Procedure::new(steps)
    }
}

/// Color bar test pattern. Register 0x503D: bit 7 enables the color bar,
/// bits 5..4 select the pattern.
#[derive(Clone, Copy, Debug, PartialEq, Eq, Structural)]
pub enum TestPattern {
    Disable,
    Pattern1,
    Pattern2,
    Pattern3,
    Pattern4,
}

impl TestPattern {
    /// Applies this test pattern: no bus action is taken.
    pub fn control(self) -> (p: Procedure)
        ensures
            p@ == fresh(Seq::empty()),
    {
        let steps: Vec<Step> = Vec::new();
        assert(steps_view(steps@) =~= Seq::<StepView>::empty());
        Procedure::new(steps)
    }
}

/// Digital gain settings.
#[derive(Clone, Copy, Debug, PartialEq, Eq, Structural)]
pub enum DigitalGain {
    Automatic,
    X1,
    X2,
    X3,
    X4,
}

} // verus!
