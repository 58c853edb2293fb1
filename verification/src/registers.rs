//! The register file of the chip and the transfers that reach it.
//!
//! The chip has 128 byte registers behind two ports. A register is reached
//! by writing its number to the address port and then moving one byte
//! through the data port. Nothing here performs a transfer: the functions
//! say which transfers make up an access, and the caller performs them, as
//! the single owner of the two ports, in the order given.

use vstd::prelude::*;

verus! {

/// The port that selects a register.
pub const ADDRESS_PORT: u16 = 0x70;

/// The port through which the selected register is read or written.
pub const DATA_PORT: u16 = 0x71;

/// The number of registers.
pub const REGISTER_COUNT: usize = 128;

/// The register of the seconds.
pub const SECOND: u8 = 0x00;

/// The register of the minutes.
pub const MINUTE: u8 = 0x02;

/// The register of the hours.
pub const HOUR: u8 = 0x04;

/// The register of the day of the month.
pub const DAY: u8 = 0x07;

/// The register of the month.
pub const MONTH: u8 = 0x08;

/// The register of the two-digit year.
pub const YEAR: u8 = 0x09;

/// Status register A, whose top bit is set while the clock updates itself.
pub const STATUS_A: u8 = 0x0A;

/// Status register B, which holds the format flags of the clock.
pub const STATUS_B: u8 = 0x0B;

/// The bit of status register A that is set while an update is in progress.
pub const UPDATE_IN_PROGRESS: u8 = 0x80;

/// One transfer of a byte through one of the two ports.
#[derive(Debug, Clone, Copy, PartialEq, Eq, Structural)]
pub enum PortOp {
    /// Write a register number to the address port.
    Select(u8),
    /// Read one byte from the data port.
    ReadData,
    /// Write one byte to the data port.
    WriteData(u8),
}

/// One access to a register.
#[derive(Debug, Clone, Copy, PartialEq, Eq, Structural)]
pub enum RegisterOp {
    /// Read the register of this number.
    Read(u8),
    /// Write to the register of this number the byte given.
    Write(u8, u8),
}

impl PortOp {
    /// The number of the port that the transfer goes through.
    pub open spec fn port_number(self) -> u16 {
        match self {
            PortOp::Select(_) => ADDRESS_PORT,
            PortOp::ReadData => DATA_PORT,
            PortOp::WriteData(_) => DATA_PORT,
        }
    }

    /// The number of the port that the transfer goes through.
    pub fn port(&self) -> (number: u16)
        ensures
            number == self.port_number(),
    {
        match self {
            PortOp::Select(_) => ADDRESS_PORT,
            PortOp::ReadData => DATA_PORT,
            PortOp::WriteData(_) => DATA_PORT,
        }
    }
}

impl RegisterOp {
    /// The two transfers of the access, in order: the register is selected,
    /// then the byte moves through the data port.
    pub open spec fn port_ops(self) -> (PortOp, PortOp) {
        match self {
            RegisterOp::Read(reg) => (PortOp::Select(reg), PortOp::ReadData),
            RegisterOp::Write(reg, value) => (PortOp::Select(reg), PortOp::WriteData(value)),
        }
    }

    /// The two transfers that perform the access, in the order in which they
    /// have to be made. The register number is not checked.
    pub fn transfers(&self) -> (ops: (PortOp, PortOp))
        ensures
            ops == self.port_ops(),
    {
        match self {
            RegisterOp::Read(reg) => (PortOp::Select(*reg), PortOp::ReadData),
            RegisterOp::Write(reg, value) => (PortOp::Select(*reg), PortOp::WriteData(*value)),
        }
    }
}

/// The accesses that read every register: one read for each register
/// number from 0 to 127, in ascending order.
pub open spec fn read_all_plan() -> Seq<RegisterOp> {
    Seq::new(128, |i: int| RegisterOp::Read(i as u8))
}

/// The accesses that write `values` to the registers: for each register
/// number from 0 to 127, in ascending order, one write of the byte at that index.
pub open spec fn write_all_plan(values: Seq<u8>) -> Seq<RegisterOp> {
    Seq::new(128, |i: int| RegisterOp::Write(i as u8, values[i]))
}

/// The transfer that reads register `reg`.
pub fn read(reg: u8) -> (op: RegisterOp)
    ensures
        op == RegisterOp::Read(reg),
{
    RegisterOp::Read(reg)
}

/// The transfer that writes `val` to register `reg`.
pub fn write(reg: u8, val: u8) -> (op: RegisterOp)
    ensures
        op == RegisterOp::Write(reg, val),
{
    RegisterOp::Write(reg, val)
}

/// The accesses that read all the registers, in the order in which they have
/// to be made. The byte that the access at index `i` yields is register `i`.
/// The chip may change between any two of them.
pub fn read_all() -> (plan: Vec<RegisterOp>)
    ensures
        plan@ == read_all_plan(),
{
    let mut plan: Vec<RegisterOp> = Vec::new();
    let mut reg: u8 = 0;
    while reg < 128
        invariant
            reg <= 128,
            plan@.len() == reg,
            forall|i: int| 0 <= i < reg ==> plan@[i] == RegisterOp::Read(i as u8),
        decreases 128 - reg,
    {
        plan.push(RegisterOp::Read(reg));
        reg = reg + 1;
    }
    plan
}

/// The accesses that write `input` to all the registers, in the order in
/// which they have to be made. The chip may change between any two of them.
pub fn write_all(input: &[u8; 128]) -> (plan: Vec<RegisterOp>)
    ensures
        plan@ == write_all_plan(input@),
{
    let mut plan: Vec<RegisterOp> = Vec::new();
    let mut reg: u8 = 0;
    while reg < 128
        invariant
            reg <= 128,
            plan@.len() == reg,
            forall|i: int| 0 <= i < reg ==> plan@[i] == RegisterOp::Write(i as u8, input@[i]),
        decreases 128 - reg,
    {
        plan.push(RegisterOp::Write(reg, input[reg as usize]));
        reg = reg + 1;
    }
    plan
}

/// Whether a byte of status register A says that the clock is updating
/// itself: its top bit is set.
pub open spec fn update_in_progress(status_a: u8) -> bool {
    status_a >= 128
}

/// The update-in-progress flag of a byte read from status register A: 0x80
/// while the clock updates itself and its registers cannot be trusted, else 0.
pub fn get_update_in_progress_flag(status_a: u8) -> (flag: u8)
    ensures
        flag == status_a & UPDATE_IN_PROGRESS,
        flag == if update_in_progress(status_a) {
            UPDATE_IN_PROGRESS
        } else {
            0
        },
{
    assert(status_a & 0x80 == if status_a >= 128 {
        0x80u8
    } else {
        0u8
    }) by (bit_vector);
    status_a & UPDATE_IN_PROGRESS
}

} // verus!
