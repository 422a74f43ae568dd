use crate::packet::{DiskAddressPacket, DAP_SIZE, SECTOR_LENGTH};
use vstd::prelude::*;

verus! {

/// Address at which the firmware places the boot sector and jumps to it.
pub const BOOT_SECTOR_START: u32 = 0x7c00;

/// Initial stack pointer: the stack grows down from just below the boot sector.
pub const STACK_TOP: u16 = 0x7c00;

/// First address of the second stage, right after the boot sector.
pub const STAGE_2_START: u16 = 0x7e00;

/// End (exclusive) of the memory reserved for the second stage.
pub const STAGE_2_END: u16 = 0x9000;

/// Sector of the drive where the second stage begins, right after the boot sector.
pub const STAGE_2_FIRST_SECTOR: u64 = 1;

/// Number of sectors that an image of `len` bytes occupies on disk.
pub open spec fn sectors_occupied(len: nat) -> nat {
    ((len + SECTOR_LENGTH - 1) / (SECTOR_LENGTH as int)) as nat
}

/// Number of bytes that a packet transfers.
pub open spec fn transfer_len(p: DiskAddressPacket) -> nat {
    p.sectors_to_transfer as nat * SECTOR_LENGTH as nat
}

/// Offset on disk of the first byte that a packet reads.
pub open spec fn disk_offset(p: DiskAddressPacket) -> nat {
    p.sector_start as nat * SECTOR_LENGTH as nat
}

/// Whether a packet reads every byte of a second stage of `len` bytes,
/// which the disk image stores from its second sector on.
pub open spec fn loads_whole_image(p: DiskAddressPacket, len: nat) -> bool {
    p.sector_start == STAGE_2_FIRST_SECTOR && transfer_len(p) >= len
}

/// The request that loads the second stage into its reserved memory.
pub open spec fn stage_2_request() -> DiskAddressPacket {
    DiskAddressPacket {
        dap_size: DAP_SIZE,
        always_zero: 0,
        sectors_to_transfer: ((STAGE_2_END - STAGE_2_START) / (SECTOR_LENGTH as int)) as u16,
        ram_start: STAGE_2_START as u32,
        sector_start: STAGE_2_FIRST_SECTOR,
    }
}

/// Builds the request that loads the second stage.
pub fn stage_2_packet() -> (r: DiskAddressPacket)
    ensures
        r == stage_2_request(),
        r.wf(),
{
    DiskAddressPacket::new(
        (STAGE_2_END - STAGE_2_START) / SECTOR_LENGTH,
        STAGE_2_START as u32,
        STAGE_2_FIRST_SECTOR,
    )
}

/// The fixed layout keeps its regions apart: the stack lies below the boot
/// sector, the second stage starts where the boot sector ends, the load
/// request fills exactly the second stage's reserved memory, and it reads
/// the disk from the sector that follows the boot sector.
pub proof fn lemma_layout_disjoint()
    ensures
        STACK_TOP as nat <= BOOT_SECTOR_START,
        BOOT_SECTOR_START + SECTOR_LENGTH == STAGE_2_START,
        stage_2_request().ram_start == STAGE_2_START,
        stage_2_request().ram_start + transfer_len(stage_2_request()) == STAGE_2_END,
        disk_offset(stage_2_request()) == SECTOR_LENGTH,
        stage_2_request().wf(),
{
}

/// Requesting exactly the number of sectors that the second stage occupies
/// loads the whole image; requesting one fewer is still a valid request but
/// leaves the image truncated. Sizing the request is left to the build: no
/// check is made when the stages run.
pub proof fn lemma_sector_count_boundary(p: DiskAddressPacket, len: nat)
    requires
        len > 0,
        p.sector_start == STAGE_2_FIRST_SECTOR,
    ensures
        p.sectors_to_transfer == sectors_occupied(len) ==> loads_whole_image(p, len),
        p.sectors_to_transfer + 1 == sectors_occupied(len) ==> !loads_whole_image(p, len),
{
    let n = sectors_occupied(len);
    assert(n * 512 >= len && (n - 1) * 512 < len) by (nonlinear_arith)
        requires
            n == (len + 511) / 512,
            len > 0,
    ;
}

/// The fixed request loads every second stage that fits its reserved
/// memory, and reads no sector beyond the last one such an image occupies
/// when the image fills that memory.
pub proof fn lemma_stage_2_request_fits(len: nat)
    requires
        len <= STAGE_2_END - STAGE_2_START,
    ensures
        loads_whole_image(stage_2_request(), len),
        len == STAGE_2_END - STAGE_2_START ==> stage_2_request().sectors_to_transfer
            == sectors_occupied(len),
{
}

} // verus!
