//! Guest page-table walk snapshot handed to the extended-page-table walker.

use vstd::prelude::*;

verus! {

/// Snapshot of the guest paging configuration, read from the guest VMCS
/// state, that an external walker needs to translate a guest virtual
/// address.
#[derive(Clone, Copy, Debug, PartialEq, Eq, Structural)]
pub struct GuestPageWalkInfo {
    /// Guest CR3: physical address of the top-level paging structure.
    pub top_entry: u64,
    /// Paging level: 0 (no paging), 2, 3 or 4.
    pub level: u64,
    /// Index bits per level: 9, 10, or 0 when paging is off.
    pub width: u32,
    /// Whether the access runs with user privilege (SS DPL = 3).
    pub is_user_mode_access: bool,
    /// Whether the access is a write.
    pub is_write_access: bool,
    /// Whether the access is an instruction fetch.
    pub is_inst_fetch: bool,
    /// CR4.PSE for 32-bit paging; true otherwise.
    pub pse: bool,
    /// CR0.WP.
    pub wp: bool,
    /// IA32_EFER.NXE; forced false for 32-bit paging.
    pub nxe: bool,
    /// CR4.SMAP.
    pub is_smap_on: bool,
    /// CR4.SMEP.
    pub is_smep_on: bool,
}

} // verus!
