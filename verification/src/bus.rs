//! Bus actions and the procedure state machine that hands them out.

use vstd::prelude::*;

use crate::ArducamError;

verus! {

// ---------------------------------------------------------------------------
// Bytes
// ---------------------------------------------------------------------------

/// The byte that an eight-bit read leaves in its buffer: the buffer starts at
/// zero and the first byte the bus delivers replaces it.
pub open spec fn first_byte(bytes: Seq<u8>) -> u8 {
    if bytes.len() > 0 {
        bytes[0]
    } else {
        0
    }
}

/// The byte read by the reply at index `i`, or zero where there is no such reply.
pub open spec fn reply_byte(replies: Seq<Seq<u8>>, i: int) -> u8 {
    if 0 <= i < replies.len() {
        first_byte(replies[i])
    } else {
        0
    }
}

/// High byte of a 16-bit register address, as sent first on the wire.
pub open spec fn reg_hi(register: u16) -> u8 {
    (register / 256) as u8
}

/// Low byte of a 16-bit register address, as sent second on the wire.
pub open spec fn reg_lo(register: u16) -> u8 {
    (register % 256) as u8
}

/// The 16-bit value whose big-endian bytes are `hi`, `lo`.
pub open spec fn be_u16(hi: u8, lo: u8) -> u16 {
    (hi as int * 256 + lo as int) as u16
}

pub fn read_byte(bytes: &Vec<u8>) -> (b: u8)
    ensures
        b == first_byte(bytes@),
{
    if bytes.len() > 0 {
        bytes[0]
    } else {
        0
    }
}

/// The first byte of reply `i`, or zero.
pub fn reply_byte_at(replies: &Vec<Vec<u8>>, i: usize) -> (b: u8)
    ensures
        b == reply_byte(replies_view(replies@), i as int),
{
    if i < replies.len() {
        read_byte(&replies[i])
    } else {
        0
    }
}

/// The big-endian bytes of a 16-bit register address: `u16::to_be_bytes`.
pub fn register_bytes(register: u16) -> (bytes: (u8, u8))
    ensures
        bytes.0 == reg_hi(register),
        bytes.1 == reg_lo(register),
{
    ((register / 256) as u8, (register % 256) as u8)
}

/// `u16::from_be_bytes([hi, lo])`.
pub fn u16_from_be(hi: u8, lo: u8) -> (v: u16)
    ensures
        v == be_u16(hi, lo),
        v == hi as int * 256 + lo as int,
{
    (hi as u16) * 256 + (lo as u16)
}

/// A copy of a byte buffer.
pub fn copy_bytes(bytes: &Vec<u8>) -> (out: Vec<u8>)
    ensures
        out@ == bytes@,
{
    let mut out: Vec<u8> = Vec::new();
    let mut i: usize = 0;
    while i < bytes.len()
        invariant
            i <= bytes.len(),
            out@ == bytes@.subrange(0, i as int),
        decreases bytes.len() - i,
    {
        out.push(bytes[i]);
        i = i + 1;
        assert(out@ =~= bytes@.subrange(0, i as int));
    }
    assert(bytes@.subrange(0, i as int) =~= bytes@);
    out
}

// ---------------------------------------------------------------------------
// Bus actions
// ---------------------------------------------------------------------------

/// One operation of an SPI transaction (`embedded_hal::spi::Operation`).
#[derive(Debug, PartialEq, Eq)]
pub enum SpiOp {
    /// Write these bytes.
    Write(Vec<u8>),
    /// Read this many bytes.
    Read(usize),
    /// Wait at least this many nanoseconds.
    DelayNs(u32),
}

pub enum SpiOpView {
    Write(Seq<u8>),
    Read(usize),
    DelayNs(u32),
}

impl View for SpiOp {
    type V = SpiOpView;

    open spec fn view(&self) -> SpiOpView {
        match self {
            SpiOp::Write(b) => SpiOpView::Write(b@),
            SpiOp::Read(n) => SpiOpView::Read(*n),
            SpiOp::DelayNs(ns) => SpiOpView::DelayNs(*ns),
        }
    }
}

pub open spec fn spi_ops_view(ops: Seq<SpiOp>) -> Seq<SpiOpView> {
    ops.map_values(|o: SpiOp| o@)
}

/// One action on the camera's buses, or a pause.
#[derive(Debug, PartialEq, Eq)]
pub enum BusOp {
    /// `I2c::write(address, bytes)`.
    I2cWrite { address: u8, bytes: Vec<u8> },
    /// `I2c::write_read(address, bytes, buffer)` with a buffer of `read_len` bytes.
    I2cWriteRead { address: u8, bytes: Vec<u8>, read_len: usize },
    /// `SpiDevice::write(bytes)`.
    SpiWrite { bytes: Vec<u8> },
    /// `SpiDevice::transaction(ops)`.
    SpiTransaction { ops: Vec<SpiOp> },
    /// `DelayNs::delay_ms(ms)`.
    DelayMs { ms: u32 },
    /// `DelayNs::delay_ns(ns)`.
    DelayNs { ns: u32 },
}

pub enum BusOpView {
    I2cWrite { address: u8, bytes: Seq<u8> },
    I2cWriteRead { address: u8, bytes: Seq<u8>, read_len: usize },
    SpiWrite { bytes: Seq<u8> },
    SpiTransaction { ops: Seq<SpiOpView> },
    DelayMs { ms: u32 },
    DelayNs { ns: u32 },
}

impl View for BusOp {
    type V = BusOpView;

    open spec fn view(&self) -> BusOpView {
        match self {
            BusOp::I2cWrite { address, bytes } => BusOpView::I2cWrite {
                address: *address,
                bytes: bytes@,
            },
            BusOp::I2cWriteRead { address, bytes, read_len } => BusOpView::I2cWriteRead {
                address: *address,
                bytes: bytes@,
                read_len: *read_len,
            },
            BusOp::SpiWrite { bytes } => BusOpView::SpiWrite { bytes: bytes@ },
            BusOp::SpiTransaction { ops } => BusOpView::SpiTransaction { ops: spi_ops_view(ops@) },
            BusOp::DelayMs { ms } => BusOpView::DelayMs { ms: *ms },
            BusOp::DelayNs { ns } => BusOpView::DelayNs { ns: *ns },
        }
    }
}

impl SpiOp {
    pub fn duplicate(&self) -> (out: SpiOp)
        ensures
            out@ == self@,
    {
        match self {
            SpiOp::Write(b) => SpiOp::Write(copy_bytes(b)),
            SpiOp::Read(n) => SpiOp::Read(*n),
            SpiOp::DelayNs(ns) => SpiOp::DelayNs(*ns),
        }
    }
}

pub fn copy_spi_ops(ops: &Vec<SpiOp>) -> (out: Vec<SpiOp>)
    ensures
        spi_ops_view(out@) == spi_ops_view(ops@),
{
    let mut out: Vec<SpiOp> = Vec::new();
    let mut i: usize = 0;
    while i < ops.len()
        invariant
            i <= ops.len(),
            spi_ops_view(out@) =~= spi_ops_view(ops@).subrange(0, i as int),
        decreases ops.len() - i,
    {
        let o = ops[i].duplicate();
        let ghost before = out@;
        out.push(o);
        assert(out@ == before.push(o));
        assert(spi_ops_view(out@) =~= spi_ops_view(before).push(o@));
        i = i + 1;
        assert(spi_ops_view(out@) =~= spi_ops_view(ops@).subrange(0, i as int));
    }
    assert(spi_ops_view(ops@).subrange(0, i as int) =~= spi_ops_view(ops@));
    out
}

impl BusOp {
    pub fn duplicate(&self) -> (out: BusOp)
        ensures
            out@ == self@,
    {
        match self {
            BusOp::I2cWrite { address, bytes } => BusOp::I2cWrite {
                address: *address,
                bytes: copy_bytes(bytes),
            },
            BusOp::I2cWriteRead { address, bytes, read_len } => BusOp::I2cWriteRead {
                address: *address,
                bytes: copy_bytes(bytes),
                read_len: *read_len,
            },
            BusOp::SpiWrite { bytes } => BusOp::SpiWrite { bytes: copy_bytes(bytes) },
            BusOp::SpiTransaction { ops } => BusOp::SpiTransaction { ops: copy_spi_ops(ops) },
            BusOp::DelayMs { ms } => BusOp::DelayMs { ms: *ms },
            BusOp::DelayNs { ns } => BusOp::DelayNs { ns: *ns },
        }
    }
}

// ---------------------------------------------------------------------------
// Steps
// ---------------------------------------------------------------------------

/// How a register value read earlier is changed before it is written back.
#[derive(Clone, Copy, Debug, PartialEq, Eq, Structural)]
pub enum BitUpdate {
    /// Set the bits of the mask: `value | mask`.
    SetBits(u8),
    /// Keep only the bits of the mask: `value & mask`.
    KeepBits(u8),
}

pub open spec fn apply_update(value: u8, update: BitUpdate) -> u8 {
    match update {
        BitUpdate::SetBits(m) => value | m,
        BitUpdate::KeepBits(m) => value & m,
    }
}

pub fn apply_bit_update(value: u8, update: BitUpdate) -> (out: u8)
    ensures
        out == apply_update(value, update),
{
    match update {
        BitUpdate::SetBits(m) => value | m,
        BitUpdate::KeepBits(m) => value & m,
    }
}

/// One step of a camera procedure.
#[derive(Debug, PartialEq, Eq)]
pub enum Step {
    /// A bus action fixed in advance.
    Bus(BusOp),
    /// Writes a 16-bit-addressed sensor register over I2C with the byte read by
    /// the reply at index `source`, changed by `update`.
    SensorUpdate { address: u8, register: u16, source: usize, update: BitUpdate },
}

pub enum StepView {
    Bus(BusOpView),
    SensorUpdate { address: u8, register: u16, source: usize, update: BitUpdate },
}

impl View for Step {
    type V = StepView;

    open spec fn view(&self) -> StepView {
        match self {
            Step::Bus(op) => StepView::Bus(op@),
            Step::SensorUpdate { address, register, source, update } => StepView::SensorUpdate {
                address: *address,
                register: *register,
                source: *source,
                update: *update,
            },
        }
    }
}

pub open spec fn steps_view(steps: Seq<Step>) -> Seq<StepView> {
    steps.map_values(|s: Step| s@)
}

pub open spec fn replies_view(replies: Seq<Vec<u8>>) -> Seq<Seq<u8>> {
    replies.map_values(|r: Vec<u8>| r@)
}

/// The bytes of an I2C write of `value` to a 16-bit-addressed register.
pub open spec fn sensor_frame(register: u16, value: u8) -> Seq<u8> {
    seq![reg_hi(register), reg_lo(register), value]
}

/// The bus action a step stands for, given the replies received so far.
pub open spec fn resolve(step: StepView, replies: Seq<Seq<u8>>) -> BusOpView {
    match step {
        StepView::Bus(op) => op,
        StepView::SensorUpdate { address, register, source, update } => BusOpView::I2cWrite {
            address,
            bytes: sensor_frame(register, apply_update(reply_byte(replies, source as int), update)),
        },
    }
}

pub proof fn lemma_steps_push(steps: Seq<Step>, s: Step)
    ensures
        steps_view(steps.push(s)) == steps_view(steps).push(s@),
{
    assert(steps_view(steps.push(s)) =~= steps_view(steps).push(s@));
}

pub proof fn lemma_steps_append(a: Seq<Step>, b: Seq<Step>)
    ensures
        steps_view(a + b) == steps_view(a) + steps_view(b),
{
    assert(steps_view(a + b) =~= steps_view(a) + steps_view(b));
}

/// Appends `more` to `steps`.
pub fn append_steps(steps: &mut Vec<Step>, more: Vec<Step>)
    ensures
        steps_view(final(steps)@) == steps_view(old(steps)@) + steps_view(more@),
{
    let mut more = more;
    let ghost m = more@;
    steps.append(&mut more);
    proof {
        lemma_steps_append(old(steps)@, m);
    }
}

/// Appends one step to `steps`.
pub fn push_step(steps: &mut Vec<Step>, s: Step)
    ensures
        steps_view(final(steps)@) == steps_view(old(steps)@).push(s@),
        final(steps)@.len() == old(steps)@.len() + 1,
{
    steps.push(s);
    proof {
        lemma_steps_push(old(steps)@, s);
    }
}

/// Appends one bus action to `steps`.
pub fn push_op(steps: &mut Vec<Step>, op: BusOp)
    ensures
        steps_view(final(steps)@) == steps_view(old(steps)@).push(StepView::Bus(op@)),
{
    let s = Step::Bus(op);
    steps.push(s);
    proof {
        lemma_steps_push(old(steps)@, s);
    }
}

// ---------------------------------------------------------------------------
// Procedures
// ---------------------------------------------------------------------------

/// What the bus owner reports after performing an action.
#[derive(Debug, PartialEq, Eq)]
pub enum Reply {
    /// The action completed; these are the bytes it read (empty for writes and pauses).
    Done(Vec<u8>),
    /// The I2C bus reported this error.
    I2cFailed(embedded_hal::i2c::ErrorKind),
    /// The SPI device reported this error.
    SpiFailed(embedded_hal::spi::ErrorKind),
}

pub enum ReplyView {
    Done(Seq<u8>),
    I2cFailed(embedded_hal::i2c::ErrorKind),
    SpiFailed(embedded_hal::spi::ErrorKind),
}

impl View for Reply {
    type V = ReplyView;

    open spec fn view(&self) -> ReplyView {
        match self {
            Reply::Done(b) => ReplyView::Done(b@),
            Reply::I2cFailed(k) => ReplyView::I2cFailed(*k),
            Reply::SpiFailed(k) => ReplyView::SpiFailed(*k),
        }
    }
}

/// What a procedure asks for next.
#[derive(Debug, PartialEq, Eq)]
pub enum Action {
    /// Perform this bus action and report back with [`Procedure::answer`].
    Perform(BusOp),
    /// The procedure is over; its result is [`Procedure::outcome`].
    Finished,
}

pub enum ActionView {
    Perform(BusOpView),
    Finished,
}

impl View for Action {
    type V = ActionView;

    open spec fn view(&self) -> ActionView {
        match self {
            Action::Perform(op) => ActionView::Perform(op@),
            Action::Finished => ActionView::Finished,
        }
    }
}

/// A camera operation in progress: its steps, the replies to the steps already
/// performed, and the error that ended it, if one did.
pub struct Procedure {
    steps: Vec<Step>,
    replies: Vec<Vec<u8>>,
    failure: Option<ArducamError>,
}

pub struct ProcedureView {
    pub steps: Seq<StepView>,
    pub replies: Seq<Seq<u8>>,
    pub failure: Option<ArducamError>,
}

impl View for Procedure {
    type V = ProcedureView;

    closed spec fn view(&self) -> ProcedureView {
        ProcedureView {
            steps: steps_view(self.steps@),
            replies: replies_view(self.replies@),
            failure: self.failure,
        }
    }
}

/// A procedure that has performed nothing yet.
pub open spec fn fresh(steps: Seq<StepView>) -> ProcedureView {
    ProcedureView { steps, replies: Seq::empty(), failure: None }
}

/// Whether the procedure hands out no more bus actions.
pub open spec fn is_over(p: ProcedureView) -> bool {
    p.failure is Some || p.replies.len() >= p.steps.len()
}

/// The next action: the next step resolved against the replies so far, or the end.
pub open spec fn next_of(p: ProcedureView) -> ActionView {
    if is_over(p) {
        ActionView::Finished
    } else {
        ActionView::Perform(resolve(p.steps[p.replies.len() as int], p.replies))
    }
}

/// The error a failed reply stands for.
pub open spec fn reply_error(r: ReplyView) -> Option<ArducamError> {
    match r {
        ReplyView::Done(_) => None,
        ReplyView::I2cFailed(k) => Some(ArducamError::I2cError(k)),
        ReplyView::SpiFailed(k) => Some(ArducamError::SpiError(k)),
    }
}

/// The procedure after a reply: a success is recorded and the next step comes
/// up; a failure ends it with that error. A finished procedure ignores replies.
pub open spec fn after(p: ProcedureView, r: ReplyView) -> ProcedureView {
    if is_over(p) {
        p
    } else {
        match r {
            ReplyView::Done(b) => ProcedureView { replies: p.replies.push(b), ..p },
            _ => ProcedureView { failure: reply_error(r), ..p },
        }
    }
}

/// The procedure after a sequence of replies.
pub open spec fn feed(p: ProcedureView, rs: Seq<ReplyView>) -> ProcedureView
    decreases rs.len(),
{
    if rs.len() == 0 {
        p
    } else {
        feed(after(p, rs[0]), rs.drop_first())
    }
}

/// The result of a procedure: the error that ended it, or every reply received.
pub open spec fn outcome_of(p: ProcedureView) -> Result<Seq<Seq<u8>>, ArducamError> {
    match p.failure {
        Some(e) => Err(e),
        None => Ok(p.replies),
    }
}

/// The view of an outcome returned by [`Procedure::outcome`].
pub open spec fn outcome_view(r: Result<Vec<Vec<u8>>, ArducamError>) -> Result<
    Seq<Seq<u8>>,
    ArducamError,
> {
    match r {
        Ok(v) => Ok(replies_view(v@)),
        Err(e) => Err(e),
    }
}

/// The replies of a successful outcome, or none.
pub open spec fn ok_replies(r: Result<Seq<Seq<u8>>, ArducamError>) -> Seq<Seq<u8>> {
    match r {
        Ok(v) => v,
        Err(_) => Seq::empty(),
    }
}

/// An outcome with its replies dropped.
pub open spec fn status_of<T>(r: Result<Seq<Seq<u8>>, ArducamError>, value: T) -> Result<
    T,
    ArducamError,
> {
    match r {
        Ok(_) => Ok(value),
        Err(e) => Err(e),
    }
}

/// The bus action of `step`, resolved against `replies`.
pub fn resolve_step(step: &Step, replies: &Vec<Vec<u8>>) -> (op: BusOp)
    ensures
        op@ == resolve(step@, replies_view(replies@)),
{
    match step {
        Step::Bus(op) => op.duplicate(),
        Step::SensorUpdate { address, register, source, update } => {
            let value = apply_bit_update(reply_byte_at(replies, *source), *update);
            let (hi, lo) = register_bytes(*register);
            let bytes = vec![hi, lo, value];
            assert(bytes@ =~= sensor_frame(*register, value));
            BusOp::I2cWrite { address: *address, bytes }
        },
    }
}

impl Procedure {
    /// A procedure that will perform `steps` in order.
    pub fn new(steps: Vec<Step>) -> (p: Procedure)
        ensures
            p@ == fresh(steps_view(steps@)),
    {
        let p = Procedure { steps, replies: Vec::new(), failure: None };
        assert(p@.replies =~= Seq::<Seq<u8>>::empty());
        p
    }

    /// Whether the procedure is over.
    pub fn is_finished(&self) -> (b: bool)
        ensures
            b == is_over(self@),
    {
        self.failure.is_some() || self.replies.len() >= self.steps.len()
    }

    /// The next action to take.
    pub fn next_action(&self) -> (a: Action)
        ensures
            a@ == next_of(self@),
    {
        if self.is_finished() {
            Action::Finished
        } else {
            let i = self.replies.len();
            Action::Perform(resolve_step(&self.steps[i], &self.replies))
        }
    }

    /// Takes the reply to the action last handed out.
    pub fn answer(&mut self, reply: Reply)
        ensures
            final(self)@ == after(old(self)@, reply@),
    {
        if self.is_finished() {
            return ;
        }
        match reply {
            Reply::Done(bytes) => {
                let ghost b = bytes;
                self.replies.push(bytes);
                assert(replies_view(self.replies@) =~= replies_view(old(self).replies@).push(b@));
            },
            Reply::I2cFailed(k) => {
                self.failure = Some(ArducamError::I2cError(k));
            },
            Reply::SpiFailed(k) => {
                self.failure = Some(ArducamError::SpiError(k));
            },
        }
    }

    /// The result: the error that ended the procedure, or the replies received.
    pub fn outcome(self) -> (r: Result<Vec<Vec<u8>>, ArducamError>)
        ensures
            outcome_view(r) == outcome_of(self@),
    {
        match self.failure {
            Some(e) => Err(e),
            None => Ok(self.replies),
        }
    }
}

/// The status of an outcome whose replies carry no result.
pub fn completed(outcome: Result<Vec<Vec<u8>>, ArducamError>) -> (r: Result<(), ArducamError>)
    ensures
        r == status_of(outcome_view(outcome), ()),
{
    match outcome {
        Ok(_) => Ok(()),
        Err(e) => Err(e),
    }
}

// ---------------------------------------------------------------------------
// Laws of procedures
// ---------------------------------------------------------------------------

pub open spec fn all_done(rs: Seq<ReplyView>) -> bool {
    forall|i: int| 0 <= i < rs.len() ==> #[trigger] rs[i] is Done
}

pub open spec fn payloads(rs: Seq<ReplyView>) -> Seq<Seq<u8>> {
    rs.map_values(|r: ReplyView| r->Done_0)
}

/// Once a procedure is over, no reply changes it and it asks for no further
/// bus action.
pub proof fn lemma_over_is_final(p: ProcedureView, rs: Seq<ReplyView>)
    requires
        is_over(p),
    ensures
        feed(p, rs) == p,
        next_of(feed(p, rs)) == ActionView::Finished,
    decreases rs.len(),
{
    if rs.len() > 0 {
        lemma_over_is_final(after(p, rs[0]), rs.drop_first());
    }
}

/// Successful replies are recorded in order, one per step performed, and the
/// procedure then asks for the next step resolved against them.
pub proof fn lemma_successes_recorded(p: ProcedureView, rs: Seq<ReplyView>)
    requires
        p.failure is None,
        all_done(rs),
        p.replies.len() + rs.len() <= p.steps.len(),
    ensures
        feed(p, rs) == (ProcedureView { replies: p.replies + payloads(rs), ..p }),
    decreases rs.len(),
{
    if rs.len() == 0 {
        assert(p.replies + payloads(rs) =~= p.replies);
    } else {
        let q = after(p, rs[0]);
        assert(rs[0] is Done);
        assert(all_done(rs.drop_first())) by {
            assert forall|i: int| 0 <= i < rs.drop_first().len() implies #[trigger] rs.drop_first()[i] is Done by {
                assert(rs[i + 1] is Done);
            }
        }
        lemma_successes_recorded(q, rs.drop_first());
        assert(q.replies + payloads(rs.drop_first()) =~= p.replies + payloads(rs));
    }
}

/// A procedure that gets a successful reply to every step performs exactly its
/// steps, each resolved against the replies before it, and ends with `Ok` of
/// all the replies.
pub proof fn lemma_full_run(steps: Seq<StepView>, rs: Seq<ReplyView>)
    requires
        all_done(rs),
        rs.len() == steps.len(),
    ensures
        feed(fresh(steps), rs).replies == payloads(rs),
        outcome_of(feed(fresh(steps), rs)) == Ok::<Seq<Seq<u8>>, ArducamError>(payloads(rs)),
        next_of(feed(fresh(steps), rs)) == ActionView::Finished,
        forall|k: int|
            0 <= k < steps.len() ==> #[trigger] next_of(feed(fresh(steps), rs.take(k)))
                == ActionView::Perform(resolve(steps[k], payloads(rs).take(k))),
{
    lemma_successes_recorded(fresh(steps), rs);
    assert(Seq::<Seq<u8>>::empty() + payloads(rs) =~= payloads(rs));
    assert forall|k: int| 0 <= k < steps.len() implies #[trigger] next_of(
        feed(fresh(steps), rs.take(k)),
    ) == ActionView::Perform(resolve(steps[k], payloads(rs).take(k))) by {
        assert(all_done(rs.take(k))) by {
            assert forall|i: int| 0 <= i < rs.take(k).len() implies #[trigger] rs.take(k)[i] is Done by {
                assert(rs[i] is Done);
            }
        }
        lemma_successes_recorded(fresh(steps), rs.take(k));
        assert(Seq::<Seq<u8>>::empty() + payloads(rs.take(k)) =~= payloads(rs).take(k));
    }
}

/// The first failed reply ends the procedure with its error: the replies
/// before it are kept, and nothing that follows is performed or recorded.
pub proof fn lemma_first_failure_decides(
    steps: Seq<StepView>,
    done: Seq<ReplyView>,
    failed: ReplyView,
    rest: Seq<ReplyView>,
)
    requires
        all_done(done),
        done.len() < steps.len(),
        !(failed is Done),
    ensures
        feed(fresh(steps), done + seq![failed] + rest) == (ProcedureView {
            steps,
            replies: payloads(done),
            failure: reply_error(failed),
        }),
        outcome_of(feed(fresh(steps), done + seq![failed] + rest)) == match reply_error(failed) {
            Some(e) => Err::<Seq<Seq<u8>>, ArducamError>(e),
            None => Ok(payloads(done)),
        },
        next_of(feed(fresh(steps), done + seq![failed] + rest)) == ActionView::Finished,
{
    lemma_feed_split(fresh(steps), done, seq![failed] + rest);
    assert(done + seq![failed] + rest =~= done + (seq![failed] + rest));
    lemma_successes_recorded(fresh(steps), done);
    assert(Seq::<Seq<u8>>::empty() + payloads(done) =~= payloads(done));
    let mid = feed(fresh(steps), done);
    let tail = seq![failed] + rest;
    assert(tail[0] == failed);
    assert(tail.drop_first() =~= rest);
    let ended = after(mid, failed);
    assert(is_over(ended));
    lemma_over_is_final(ended, rest);
}

/// Feeding two runs of replies is feeding their concatenation.
pub proof fn lemma_feed_split(p: ProcedureView, a: Seq<ReplyView>, b: Seq<ReplyView>)
    ensures
        feed(p, a + b) == feed(feed(p, a), b),
    decreases a.len(),
{
    if a.len() == 0 {
        assert(a + b =~= b);
    } else {
        assert((a + b).drop_first() =~= a.drop_first() + b);
        assert((a + b)[0] == a[0]);
        lemma_feed_split(after(p, a[0]), a.drop_first(), b);
    }
}

} // verus!
