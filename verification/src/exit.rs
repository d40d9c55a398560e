//! Supervisor-facing exit reasons and access widths.

use vstd::prelude::*;

verus! {

/// Width of an I/O or system-register access, in bytes.
#[derive(Clone, Copy, Debug, PartialEq, Eq, Structural)]
pub enum AccessWidth {
    Byte,
    Word,
    Dword,
    Qword,
}

impl AccessWidth {
    /// The width for an access of `size` bytes, if `size` is one of 1, 2,
    /// 4 or 8.
    pub fn try_from_size(size: u8) -> (r: Option<AccessWidth>)
        ensures
            r == Self::from_size_spec(size),
    {
        match size {
            1 => Some(AccessWidth::Byte),
            2 => Some(AccessWidth::Word),
            4 => Some(AccessWidth::Dword),
            8 => Some(AccessWidth::Qword),
            _ => None,
        }
    }

    /// Specification of [`Self::try_from_size`].
    pub open spec fn from_size_spec(size: u8) -> Option<AccessWidth> {
        match size {
            1 => Some(AccessWidth::Byte),
            2 => Some(AccessWidth::Word),
            4 => Some(AccessWidth::Dword),
            8 => Some(AccessWidth::Qword),
            _ => None,
        }
    }

    /// Mask selecting the low bits that an access of this width carries.
    pub fn mask(self) -> (r: u64)
        ensures
            r == self.mask_spec(),
    {
        match self {
            AccessWidth::Byte => 0xff,
            AccessWidth::Word => 0xffff,
            AccessWidth::Dword => 0xffff_ffff,
            AccessWidth::Qword => 0xffff_ffff_ffff_ffff,
        }
    }

    /// Specification of [`Self::mask`].
    pub open spec fn mask_spec(self) -> u64 {
        match self {
            AccessWidth::Byte => 0xff,
            AccessWidth::Word => 0xffff,
            AccessWidth::Dword => 0xffff_ffff,
            AccessWidth::Qword => 0xffff_ffff_ffff_ffff,
        }
    }
}

/// What a finished run of the guest means to the supervisor.
#[derive(Clone, Copy, Debug, PartialEq, Eq)]
pub enum ExitReason {
    /// A built-in handler consumed the exit; nothing to do.
    Nothing,
    /// VM entry succeeded but the guest state was invalid.
    FailEntry { hardware_entry_failure_reason: u64 },
    /// The guest executed `VMCALL`; arguments are RDI, RSI, RDX, RCX, R8, R9.
    Hypercall { nr: u64, args: [u64; 6] },
    /// The guest read from an I/O port.
    IoRead { port: u16, width: AccessWidth },
    /// The guest wrote to an I/O port.
    IoWrite { port: u16, width: AccessWidth, data: u64 },
    /// The guest asked the platform to power down.
    SystemDown,
    /// An external interrupt arrived while the guest was running.
    ExternalInterrupt { vector: u64 },
    /// The guest read a model-specific register that is not emulated here.
    SysRegRead { addr: u64 },
    /// The guest wrote a model-specific register that is not emulated here.
    SysRegWrite { addr: u64, value: u64 },
    /// Any other exit the runtime does not interpret.
    Halt,
}

} // verus!
