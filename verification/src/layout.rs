//! The binary records of the identify-controller query.
//!
//! The device answers with a record of exactly 4096 bytes. Its multi-byte
//! integers are little-endian, as NVMe defines them. Only the
//! vendor ID, the model number and the name field of the vendor-specific
//! region are read; every other byte of the record is skipped by offset.

use vstd::prelude::*;

verus! {

/// Size in bytes of the identify-controller record.
pub const IDENTIFY_SIZE: usize = 4096;

/// Offset of the vendor ID, a 16-bit integer.
pub const VID_OFFSET: usize = 0;

/// Offset of the model number.
pub const MN_OFFSET: usize = 24;

/// Length of the model number, which is padded with spaces.
pub const MN_LEN: usize = 40;

/// Offset of the vendor-specific region, the last 1024 bytes of the record.
/// The name field is at its start.
pub const VS_OFFSET: usize = 3072;

/// Length of the name field.
pub const BDEV_LEN: usize = 32;

/// Size in bytes of an admin command as the kernel takes it.
pub const ADMIN_COMMAND_SIZE: usize = 72;

/// Group of the NVMe device-control requests, the letter `N`.
pub const NVME_IOCTL_GROUP: u8 = 0x4e;

/// Number of the admin command among the NVMe device-control requests.
pub const NVME_IOCTL_ADMIN_CMD_NUM: u8 = 0x41;

/// Opcode of the identify admin command.
pub const NVME_ADMIN_IDENTIFY: u8 = 0x06;

/// Value of the first command word that asks for the controller's record.
pub const IDENTIFY_CNS_CONTROLLER: u32 = 1;

/// The 16-bit integer whose little-endian bytes are `lo`, `hi`.
pub open spec fn le16(lo: u8, hi: u8) -> u16 {
    (lo + 256 * hi) as u16
}

/// The vendor ID of the record `buf`.
pub open spec fn record_vid(buf: Seq<u8>) -> u16 {
    le16(buf[VID_OFFSET as int], buf[VID_OFFSET + 1])
}

/// The model number of the record `buf`.
pub open spec fn record_mn(buf: Seq<u8>) -> Seq<u8> {
    buf.subrange(MN_OFFSET as int, MN_OFFSET + MN_LEN)
}

/// The name field of the record `buf`.
pub open spec fn record_bdev(buf: Seq<u8>) -> Seq<u8> {
    buf.subrange(VS_OFFSET as int, VS_OFFSET + BDEV_LEN)
}

/// The fields of the identify-controller record that this crate reads.
#[derive(Debug, Clone, Copy)]
pub struct IdentifyController {
    /// PCI vendor ID.
    pub vid: u16,
    /// Model number: text padded with spaces, without a terminator.
    pub mn: [u8; 40],
    /// Name field of the vendor-specific region.
    pub bdev: [u8; 32],
}

/// The bytes `buf[offset..offset + N]`.
fn field<const N: usize>(buf: &[u8; 4096], offset: usize) -> (out: [u8; N])
    requires
        offset + N <= 4096,
    ensures
        out@ == buf@.subrange(offset as int, offset + N),
{
    let mut out = [0u8;N];
    let mut i: usize = 0;
    while i < N
        invariant
            i <= N,
            offset + N <= 4096,
            forall|j: int| 0 <= j < i ==> out@[j] == buf@[offset + j],
        decreases N - i,
    {
        out[i] = buf[offset + i];
        i += 1;
    }
    assert(out@ =~= buf@.subrange(offset as int, offset + N));
    out
}

impl IdentifyController {
    /// Reads the fields from the record that the device returned: each
    /// field holds the record's bytes at its offset.
    pub fn from_bytes(buf: &[u8; 4096]) -> (ctrl: IdentifyController)
        ensures
            ctrl.vid == record_vid(buf@),
            ctrl.mn@ == record_mn(buf@),
            ctrl.bdev@ == record_bdev(buf@),
    {
        let lo: u16 = buf[VID_OFFSET] as u16;
        let hi: u16 = buf[VID_OFFSET + 1] as u16;
        IdentifyController {
            vid: lo + 256 * hi,
            mn: field::<40>(buf, MN_OFFSET),
            bdev: field::<32>(buf, VS_OFFSET),
        }
    }
}

/// A record that holds the vendor ID `vid`, the model number `mn` and the
/// name field `bdev` at their offsets decodes to these values, whatever its
/// other bytes hold.
pub proof fn lemma_layout_round_trip(buf: Seq<u8>, vid: u16, mn: Seq<u8>, bdev: Seq<u8>)
    requires
        buf.len() == IDENTIFY_SIZE,
        buf[VID_OFFSET as int] == vid % 256,
        buf[VID_OFFSET + 1] == vid / 256,
        mn.len() == MN_LEN,
        forall|i: int| 0 <= i < MN_LEN ==> buf[MN_OFFSET + i] == #[trigger] mn[i],
        bdev.len() == BDEV_LEN,
        forall|i: int| 0 <= i < BDEV_LEN ==> buf[VS_OFFSET + i] == #[trigger] bdev[i],
    ensures
        record_vid(buf) == vid,
        record_mn(buf) == mn,
        record_bdev(buf) == bdev,
{
    assert(record_mn(buf) =~= mn);
    assert(record_bdev(buf) =~= bdev);
}

/// An admin command, field by field as the kernel's `nvme_admin_cmd` has
/// them.
#[derive(Debug, Clone, Copy)]
pub struct AdminCommand {
    pub opcode: u8,
    pub flags: u8,
    pub rsvd1: u16,
    pub nsid: u32,
    pub cdw2: u32,
    pub cdw3: u32,
    pub metadata: u64,
    /// Address of the data buffer.
    pub addr: u64,
    pub metadata_len: u32,
    /// Length of the data buffer in bytes.
    pub data_len: u32,
    pub cdw10: u32,
    pub cdw11: u32,
    pub cdw12: u32,
    pub cdw13: u32,
    pub cdw14: u32,
    pub cdw15: u32,
    pub timeout_ms: u32,
    pub result: u32,
}

impl AdminCommand {
    /// The command that asks the controller for its identify record and has
    /// it written to the buffer at `addr`, which must hold
    /// [`IDENTIFY_SIZE`] bytes. Every field that the query does not use is
    /// zero.
    pub fn identify_controller(addr: u64) -> (cmd: AdminCommand)
        ensures
            cmd == (AdminCommand {
                opcode: NVME_ADMIN_IDENTIFY,
                flags: 0,
                rsvd1: 0,
                nsid: 0,
                cdw2: 0,
                cdw3: 0,
                metadata: 0,
                addr: addr,
                metadata_len: 0,
                data_len: 4096,
                cdw10: IDENTIFY_CNS_CONTROLLER,
                cdw11: 0,
                cdw12: 0,
                cdw13: 0,
                cdw14: 0,
                cdw15: 0,
                timeout_ms: 0,
                result: 0,
            }),
            cmd.data_len == IDENTIFY_SIZE,
    {
        AdminCommand {
            opcode: NVME_ADMIN_IDENTIFY,
            flags: 0,
            rsvd1: 0,
            nsid: 0,
            cdw2: 0,
            cdw3: 0,
            metadata: 0,
            addr,
            metadata_len: 0,
            data_len: 4096,
            cdw10: IDENTIFY_CNS_CONTROLLER,
            cdw11: 0,
            cdw12: 0,
            cdw13: 0,
            cdw14: 0,
            cdw15: 0,
            timeout_ms: 0,
            result: 0,
        }
    }
}

} // verus!
