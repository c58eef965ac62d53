use vstd::prelude::*;

verus! {

/// Status the C driver expects from a bus callback that succeeded.
pub const I2C_OK: i32 = 0;
/// Status the C driver expects from a bus callback that failed.
pub const I2C_ERROR: i32 = -1;

/// A register access that the bridge's C driver asks of the I2C bus.
#[derive(Debug, Copy, Clone, PartialEq, Eq)]
pub enum I2cTransfer {
    /// Write `val` to register `offset` of device `addr`.
    WriteByte { addr: u8, offset: u8, val: u8 },
    /// Read one byte from register `offset` of device `addr`.
    ReadByte { addr: u8, offset: u8 },
    /// Read `len` bytes starting at register `offset` of device `addr`.
    ReadBytes { addr: u8, offset: u8, len: usize },
}

impl I2cTransfer {
    /// The 7-bit device address the transfer talks to.
    pub open spec fn address(self) -> u8 {
        match self {
            I2cTransfer::WriteByte { addr, .. } => addr,
            I2cTransfer::ReadByte { addr, .. } => addr,
            I2cTransfer::ReadBytes { addr, .. } => addr,
        }
    }

    /// The bytes written first: the register offset, followed by the value
    /// for a register write.
    pub open spec fn frame(self) -> Seq<u8> {
        match self {
            I2cTransfer::WriteByte { offset, val, .. } => seq![offset, val],
            I2cTransfer::ReadByte { offset, .. } => seq![offset],
            I2cTransfer::ReadBytes { offset, .. } => seq![offset],
        }
    }

    /// How many bytes are read once the offset is written; none for a
    /// register write.
    pub open spec fn read_len(self) -> Option<usize> {
        match self {
            I2cTransfer::WriteByte { .. } => None,
            I2cTransfer::ReadByte { .. } => Some(1usize),
            I2cTransfer::ReadBytes { len, .. } => Some(len),
        }
    }
}

/// What the bus reported for the step last asked of it.
#[derive(Debug, Copy, Clone, PartialEq, Eq)]
pub enum I2cOutcome {
    /// Nothing was asked yet.
    Begin,
    /// The write finished, successfully or not.
    Written { ok: bool },
    /// The read finished, successfully or not.
    Read { ok: bool },
}

/// What the bus is asked to do next.
#[derive(Debug, Clone, PartialEq, Eq)]
pub enum I2cStep {
    /// Write `bytes` to device `addr`.
    Write { addr: u8, bytes: Vec<u8> },
    /// Read `len` bytes from device `addr` into the caller's buffer.
    Read { addr: u8, len: usize },
    /// The transfer is over; hand `status` back to the driver.
    Finish { status: i32 },
}

/// An [`I2cStep`] with the written bytes as a sequence.
pub enum I2cStepModel {
    Write { addr: u8, bytes: Seq<u8> },
    Read { addr: u8, len: usize },
    Finish { status: i32 },
}

impl View for I2cStep {
    type V = I2cStepModel;

    open spec fn view(&self) -> I2cStepModel {
        match self {
            I2cStep::Write { addr, bytes } => I2cStepModel::Write { addr: *addr, bytes: bytes@ },
            I2cStep::Read { addr, len } => I2cStepModel::Read { addr: *addr, len: *len },
            I2cStep::Finish { status } => I2cStepModel::Finish { status: *status },
        }
    }
}

/// The status for a bus operation that succeeded or failed.
pub open spec fn status_of(ok: bool) -> i32 {
    if ok {
        I2C_OK
    } else {
        I2C_ERROR
    }
}

/// The step that follows an outcome: write the frame first; stop with an
/// error as soon as an operation fails; after the write, read if the
/// transfer reads, else stop with success; after the read, stop with its
/// status.
pub open spec fn spec_next_step(t: I2cTransfer, o: I2cOutcome) -> I2cStepModel {
    match o {
        I2cOutcome::Begin => I2cStepModel::Write { addr: t.address(), bytes: t.frame() },
        I2cOutcome::Written { ok } => {
            if !ok {
                I2cStepModel::Finish { status: I2C_ERROR }
            } else {
                match t.read_len() {
                    None => I2cStepModel::Finish { status: I2C_OK },
                    Some(n) => I2cStepModel::Read { addr: t.address(), len: n },
                }
            }
        },
        I2cOutcome::Read { ok } => I2cStepModel::Finish { status: status_of(ok) },
    }
}

/// Decides what the bus does next in a transfer, given the outcome of the
/// step before.
pub fn next_step(t: &I2cTransfer, o: I2cOutcome) -> (r: I2cStep)
    ensures
        r@ == spec_next_step(*t, o),
        // The first step writes the register offset, then the value for a
        // register write, to the transfer's device.
        *t matches I2cTransfer::WriteByte { addr, offset, val } ==> (o == I2cOutcome::Begin ==> (
        r matches I2cStep::Write { addr: a, bytes } && a == addr && bytes@ == seq![offset, val])),
        *t matches I2cTransfer::ReadByte { addr, offset } ==> (o == I2cOutcome::Begin ==> (
        r matches I2cStep::Write { addr: a, bytes } && a == addr && bytes@ == seq![offset])),
        *t matches I2cTransfer::ReadBytes { addr, offset, .. } ==> (o == I2cOutcome::Begin ==> (
        r matches I2cStep::Write { addr: a, bytes } && a == addr && bytes@ == seq![offset])),
        // A failed write ends the transfer with -1.
        o == (I2cOutcome::Written { ok: false }) ==> (r matches I2cStep::Finish { status }
            && status == -1),
        // After a successful write: a register write is done, a read reads
        // exactly the requested number of bytes from the same device.
        *t is WriteByte ==> (o == (I2cOutcome::Written { ok: true }) ==> (
        r matches I2cStep::Finish { status } && status == 0)),
        *t matches I2cTransfer::ReadByte { addr, .. } ==> (o == (I2cOutcome::Written {
            ok: true,
        }) ==> (r matches I2cStep::Read { addr: a, len } && a == addr && len == 1)),
        *t matches I2cTransfer::ReadBytes { addr, len, .. } ==> (o == (I2cOutcome::Written {
            ok: true,
        }) ==> (r matches I2cStep::Read { addr: a, len: n } && a == addr && n == len)),
        // The read's outcome is the transfer's status.
        o == (I2cOutcome::Read { ok: true }) ==> (r matches I2cStep::Finish { status } && status
            == 0),
        o == (I2cOutcome::Read { ok: false }) ==> (r matches I2cStep::Finish { status } && status
            == -1),
{
    match o {
        I2cOutcome::Begin => match *t {
            I2cTransfer::WriteByte { addr, offset, val } => {
                let mut bytes: Vec<u8> = Vec::new();
                bytes.push(offset);
                bytes.push(val);
                assert(bytes@ =~= seq![offset, val]);
                I2cStep::Write { addr, bytes }
            },
            I2cTransfer::ReadByte { addr, offset } => {
                let mut bytes: Vec<u8> = Vec::new();
                bytes.push(offset);
                assert(bytes@ =~= seq![offset]);
                I2cStep::Write { addr, bytes }
            },
            I2cTransfer::ReadBytes { addr, offset, .. } => {
                let mut bytes: Vec<u8> = Vec::new();
                bytes.push(offset);
                assert(bytes@ =~= seq![offset]);
                I2cStep::Write { addr, bytes }
            },
        },
        I2cOutcome::Written { ok } => {
            if !ok {
                I2cStep::Finish { status: I2C_ERROR }
            } else {
                match *t {
                    I2cTransfer::WriteByte { .. } => I2cStep::Finish { status: I2C_OK },
                    I2cTransfer::ReadByte { addr, .. } => I2cStep::Read { addr, len: 1 },
                    I2cTransfer::ReadBytes { addr, len, .. } => I2cStep::Read { addr, len },
                }
            }
        },
        I2cOutcome::Read { ok } => {
            if ok {
                I2cStep::Finish { status: I2C_OK }
            } else {
                I2cStep::Finish { status: I2C_ERROR }
            }
        },
    }
}

/// A register write first sends exactly two bytes to the device, the
/// offset and then the value, whatever they are; once that write succeeds
/// the transfer ends with status 0 and reads nothing.
pub proof fn lemma_write_byte_frame(addr: u8, offset: u8, val: u8)
    ensures
        ({
            let t = I2cTransfer::WriteByte { addr, offset, val };
            let first = spec_next_step(t, I2cOutcome::Begin);
            &&& first matches I2cStepModel::Write { addr: a, bytes }
            &&& a == addr
            &&& bytes.len() == 2
            &&& bytes[0] == offset
            &&& bytes[1] == val
            &&& spec_next_step(t, I2cOutcome::Written { ok: true }) == I2cStepModel::Finish {
                status: 0,
            }
        }),
{
}

/// A register read first sends exactly one byte, the offset, to the device,
/// for every offset; once that write succeeds it reads exactly one byte
/// (a single-register read) or exactly the requested number of bytes (a
/// block read) from the same device.
pub proof fn lemma_read_frame(addr: u8, offset: u8, len: usize)
    ensures
        ({
            let one = I2cTransfer::ReadByte { addr, offset };
            let block = I2cTransfer::ReadBytes { addr, offset, len };
            &&& spec_next_step(one, I2cOutcome::Begin) matches I2cStepModel::Write {
                addr: a,
                bytes,
            } && a == addr && bytes.len() == 1 && bytes[0] == offset
            &&& spec_next_step(block, I2cOutcome::Begin) matches I2cStepModel::Write {
                addr: a,
                bytes,
            } && a == addr && bytes.len() == 1 && bytes[0] == offset
            &&& spec_next_step(one, I2cOutcome::Written { ok: true }) == I2cStepModel::Read {
                addr,
                len: 1,
            }
            &&& spec_next_step(block, I2cOutcome::Written { ok: true }) == I2cStepModel::Read {
                addr,
                len,
            }
        }),
{
}

/// The steps of a transfer whose write the bus answers with `write_ok` and
/// whose read, if one is asked, with `read_ok`.
pub open spec fn transfer_steps(t: I2cTransfer, write_ok: bool, read_ok: bool) -> Seq<
    I2cStepModel,
> {
    let first = spec_next_step(t, I2cOutcome::Begin);
    let second = spec_next_step(t, I2cOutcome::Written { ok: write_ok });
    match second {
        I2cStepModel::Read { .. } => seq![
            first,
            second,
            spec_next_step(t, I2cOutcome::Read { ok: read_ok }),
        ],
        _ => seq![first, second],
    }
}

/// Every transfer writes its frame first and ends after at most three steps
/// with status 0 exactly when every bus operation it asked for succeeded,
/// and -1 otherwise; it reads only after a successful write, and then
/// exactly the requested number of bytes.
pub proof fn lemma_transfer_protocol(t: I2cTransfer, write_ok: bool, read_ok: bool)
    ensures
        ({
            let steps = transfer_steps(t, write_ok, read_ok);
            &&& 2 <= steps.len() <= 3
            &&& steps[0] == I2cStepModel::Write { addr: t.address(), bytes: t.frame() }
            &&& steps.last() == I2cStepModel::Finish {
                status: if write_ok && (t.read_len() is Some ==> read_ok) {
                    I2C_OK
                } else {
                    I2C_ERROR
                },
            }
            &&& (steps.len() == 3 <==> (write_ok && t.read_len() is Some))
            &&& steps.len() == 3 ==> steps[1] == I2cStepModel::Read {
                addr: t.address(),
                len: t.read_len().unwrap(),
            }
            &&& forall|i: int| 0 < i < steps.len() ==> !(#[trigger] steps[i] is Write)
        }),
{
}

} // verus!
