//! Guest general-purpose register file.

use vstd::prelude::*;

verus! {

/// The sixteen general-purpose integer registers of a guest, in the
/// hardware encoding order used by `MOV` register operands.
///
/// The entry/exit trampolines of the embedding push and pop this image as a
/// block, so the field order must stay exactly as written; `rsp` holds no
/// guest value (the guest stack pointer lives in the VMCS) and only keeps
/// the slot that the hardware encoding assigns to index 4.
#[derive(Clone, Copy, Debug, PartialEq, Eq, Structural)]
pub struct GeneralRegisters {
    pub rax: u64,
    pub rcx: u64,
    pub rdx: u64,
    pub rbx: u64,
    /// Placeholder for the encoding slot of RSP; never read or written.
    pub rsp: u64,
    pub rbp: u64,
    pub rsi: u64,
    pub rdi: u64,
    pub r8: u64,
    pub r9: u64,
    pub r10: u64,
    pub r11: u64,
    pub r12: u64,
    pub r13: u64,
    pub r14: u64,
    pub r15: u64,
}

impl GeneralRegisters {
    /// The all-zero register file.
    pub fn zero() -> (r: Self)
        ensures
            r == Self::zero_spec(),
    {
        GeneralRegisters {
            rax: 0, rcx: 0, rdx: 0, rbx: 0, rsp: 0, rbp: 0, rsi: 0, rdi: 0,
            r8: 0, r9: 0, r10: 0, r11: 0, r12: 0, r13: 0, r14: 0, r15: 0,
        }
    }

    /// The all-zero register file, as a specification value.
    pub open spec fn zero_spec() -> Self {
        GeneralRegisters {
            rax: 0, rcx: 0, rdx: 0, rbx: 0, rsp: 0, rbp: 0, rsi: 0, rdi: 0,
            r8: 0, r9: 0, r10: 0, r11: 0, r12: 0, r13: 0, r14: 0, r15: 0,
        }
    }

    /// The register selected by hardware encoding `index`, as a
    /// specification value. Index 4 (the RSP slot) is not a guest register.
    pub open spec fn reg_of_index_spec(self, index: u8) -> u64 {
        match index {
            0 => self.rax,
            1 => self.rcx,
            2 => self.rdx,
            3 => self.rbx,
            5 => self.rbp,
            6 => self.rsi,
            7 => self.rdi,
            8 => self.r8,
            9 => self.r9,
            10 => self.r10,
            11 => self.r11,
            12 => self.r12,
            13 => self.r13,
            14 => self.r14,
            15 => self.r15,
            _ => 0,
        }
    }

    /// `self` with the register selected by `index` replaced by `value`,
    /// as a specification value.
    pub open spec fn with_reg_of_index_spec(self, index: u8, value: u64) -> Self {
        match index {
            0 => GeneralRegisters { rax: value, ..self },
            1 => GeneralRegisters { rcx: value, ..self },
            2 => GeneralRegisters { rdx: value, ..self },
            3 => GeneralRegisters { rbx: value, ..self },
            5 => GeneralRegisters { rbp: value, ..self },
            6 => GeneralRegisters { rsi: value, ..self },
            7 => GeneralRegisters { rdi: value, ..self },
            8 => GeneralRegisters { r8: value, ..self },
            9 => GeneralRegisters { r9: value, ..self },
            10 => GeneralRegisters { r10: value, ..self },
            11 => GeneralRegisters { r11: value, ..self },
            12 => GeneralRegisters { r12: value, ..self },
            13 => GeneralRegisters { r13: value, ..self },
            14 => GeneralRegisters { r14: value, ..self },
            15 => GeneralRegisters { r15: value, ..self },
            _ => self,
        }
    }

    /// Read the register selected by hardware encoding `index`.
    pub fn get_reg_of_index(&self, index: u8) -> (r: u64)
        requires
            index < 16,
            index != 4,
        ensures
            r == self.reg_of_index_spec(index),
    {
        match index {
            0 => self.rax,
            1 => self.rcx,
            2 => self.rdx,
            3 => self.rbx,
            5 => self.rbp,
            6 => self.rsi,
            7 => self.rdi,
            8 => self.r8,
            9 => self.r9,
            10 => self.r10,
            11 => self.r11,
            12 => self.r12,
            13 => self.r13,
            14 => self.r14,
            15 => self.r15,
            _ => 0,
        }
    }

    /// Write the register selected by hardware encoding `index`.
    pub fn set_reg_of_index(&mut self, index: u8, value: u64)
        requires
            index < 16,
            index != 4,
        ensures
            *final(self) == old(self).with_reg_of_index_spec(index, value),
    {
        match index {
            0 => self.rax = value,
            1 => self.rcx = value,
            2 => self.rdx = value,
            3 => self.rbx = value,
            5 => self.rbp = value,
            6 => self.rsi = value,
            7 => self.rdi = value,
            8 => self.r8 = value,
            9 => self.r9 = value,
            10 => self.r10 = value,
            11 => self.r11 = value,
            12 => self.r12 = value,
            13 => self.r13 = value,
            14 => self.r14 = value,
            15 => self.r15 = value,
            _ => (),
        }
    }
}

impl Default for GeneralRegisters {
    /// The all-zero register file.
    fn default() -> (r: Self)
        ensures
            r == Self::zero_spec(),
    {
        Self::zero()
    }
}

} // verus!
