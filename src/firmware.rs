use crate::packet::DiskAddressPacket;
use vstd::prelude::*;

verus! {

/// Interrupt vector of the firmware's video services.
pub const VIDEO_SERVICES: u8 = 0x10;

/// Interrupt vector of the firmware's disk services.
pub const DISK_SERVICES: u8 = 0x13;

/// Video service: write one character to the display (teletype output).
pub const TELETYPE_OUTPUT: u8 = 0x0e;

/// Disk service: check that the disk extensions are installed.
pub const EXTENSION_CHECK: u8 = 0x41;

/// Disk service: extended read, driven by a disk address packet.
pub const EXTENDED_READ: u8 = 0x42;

/// Magic value that the installation check expects in `bx`.
pub const EXTENSION_CHECK_MAGIC: u16 = 0xaa55;

/// One request to the firmware.
#[derive(Clone, Copy, Debug, PartialEq, Eq, Structural)]
pub enum FirmwareCall {
    /// Print one byte on the display.
    TeletypeOutput(u8),
    /// Ask whether the drive supports the disk extensions.
    ExtensionCheck { drive: u8 },
    /// Read sectors from the drive as the packet describes; the packet's
    /// bytes are handed over by address in `si`.
    ExtendedRead { drive: u8, packet: DiskAddressPacket },
}

/// What the firmware answers to a disk request.
#[derive(Clone, Copy, Debug, PartialEq, Eq, Structural)]
pub enum FirmwareReply {
    /// Answer to the installation check: the carry flag, set on failure.
    ExtensionCheck { carry: bool },
    /// Answer to an extended read: the status in `ah`, zero on success.
    ExtendedRead { status: u8 },
}

/// The registers a firmware call is made with. Registers that the call
/// does not read are zero.
#[derive(Clone, Copy, Debug, PartialEq, Eq, Structural)]
pub struct CallRegisters {
    /// Software interrupt to raise.
    pub vector: u8,
    /// Service number.
    pub ah: u8,
    /// Character to print.
    pub al: u8,
    /// Installation-check magic value.
    pub bx: u16,
    /// Drive identifier.
    pub dl: u8,
}

/// The register contract of each firmware call.
pub open spec fn call_registers(c: FirmwareCall) -> CallRegisters {
    match c {
        FirmwareCall::TeletypeOutput(ch) => CallRegisters {
            vector: VIDEO_SERVICES,
            ah: TELETYPE_OUTPUT,
            al: ch,
            bx: 0,
            dl: 0,
        },
        FirmwareCall::ExtensionCheck { drive } => CallRegisters {
            vector: DISK_SERVICES,
            ah: EXTENSION_CHECK,
            al: 0,
            bx: EXTENSION_CHECK_MAGIC,
            dl: drive,
        },
        FirmwareCall::ExtendedRead { drive, .. } => CallRegisters {
            vector: DISK_SERVICES,
            ah: EXTENDED_READ,
            al: 0,
            bx: 0,
            dl: drive,
        },
    }
}

impl FirmwareCall {
    /// The registers to load before raising the call's interrupt.
    pub fn registers(&self) -> (r: CallRegisters)
        ensures
            r == call_registers(*self),
    {
        match *self {
            FirmwareCall::TeletypeOutput(ch) => CallRegisters {
                vector: VIDEO_SERVICES,
                ah: TELETYPE_OUTPUT,
                al: ch,
                bx: 0,
                dl: 0,
            },
            FirmwareCall::ExtensionCheck { drive } => CallRegisters {
                vector: DISK_SERVICES,
                ah: EXTENSION_CHECK,
                al: 0,
                bx: EXTENSION_CHECK_MAGIC,
                dl: drive,
            },
            FirmwareCall::ExtendedRead { drive, .. } => CallRegisters {
                vector: DISK_SERVICES,
                ah: EXTENDED_READ,
                al: 0,
                bx: 0,
                dl: drive,
            },
        }
    }
}

} // verus!
