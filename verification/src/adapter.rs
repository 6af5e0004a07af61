//! The checks that the block-device adapter makes before it hands a transfer
//! to the device, and the geometry it reports to the ext4 engine. The engine
//! addresses the device in sectors, the device's own blocks.
use vstd::prelude::*;
use crate::wrapper::{CoreError, ErrorKind};

verus! {

/// The file-system block size that the adapter reports to the engine.
pub const FS_BLOCK_SIZE: u32 = 4096;

/// The direction of a block transfer.
#[derive(Clone, Copy, Debug, PartialEq, Eq, Structural)]
pub enum BlockOp {
    Read,
    Write,
}

/// The file-system blocks that a device of `device_blocks` blocks of
/// `device_block_size` bytes holds: its size in bytes over 4096, rounded
/// down.
pub fn total_fs_blocks(device_blocks: u64, device_block_size: u64) -> (r: u64)
    requires
        device_blocks * device_block_size <= u64::MAX,
    ensures
        r == (device_blocks * device_block_size) / (FS_BLOCK_SIZE as int),
        r * FS_BLOCK_SIZE <= device_blocks * device_block_size < (r + 1) * FS_BLOCK_SIZE,
{
    let fs_block_size: u64 = 4096;
    let r: u64 = (device_blocks * device_block_size) / fs_block_size;
    assert(r * 4096 <= device_blocks * device_block_size < (r + 1) * 4096) by (nonlinear_arith)
        requires
            r == (device_blocks * device_block_size) / 4096,
    ;
    r
}

/// The error for a buffer shorter than the sectors to transfer.
pub open spec fn spec_buffer_too_small() -> CoreError {
    CoreError { kind: ErrorKind::InvalidInput, message: "Buffer too small" }
}

/// The error for a transfer that runs past the device's last sector.
pub open spec fn spec_out_of_bounds(op: BlockOp) -> CoreError {
    match op {
        BlockOp::Read => CoreError { kind: ErrorKind::Io, message: "Read out of bounds" },
        BlockOp::Write => CoreError { kind: ErrorKind::Io, message: "Write out of bounds" },
    }
}

/// Whether a transfer of `count` sectors of `sector_size` bytes from sector
/// `lba` may go ahead with a buffer of `buf_len` bytes on a device of
/// `device_sectors` sectors; on success, the bytes to transfer.
pub open spec fn spec_check_transfer(
    op: BlockOp,
    buf_len: usize,
    lba: u64,
    count: u32,
    sector_size: usize,
    device_sectors: u64,
) -> Result<usize, CoreError> {
    let expected: int = count * sector_size;
    if buf_len < expected {
        Err(spec_buffer_too_small())
    } else if lba + count > device_sectors {
        Err(spec_out_of_bounds(op))
    } else {
        Ok(expected as usize)
    }
}

/// Checks a transfer of `count` sectors of `sector_size` bytes starting at
/// sector `lba`, with a buffer of `buf_len` bytes, on a device of
/// `device_sectors` sectors. It succeeds with the number of bytes to
/// transfer, fails with "Buffer too small" when the buffer cannot hold them,
/// and otherwise with an out-of-bounds error when the transfer runs past the
/// device's last sector.
pub fn check_transfer(
    op: BlockOp,
    buf_len: usize,
    lba: u64,
    count: u32,
    sector_size: usize,
    device_sectors: u64,
) -> (r: Result<usize, CoreError>)
    requires
        count * sector_size <= usize::MAX,
        lba + count <= u64::MAX,
    ensures
        r == spec_check_transfer(op, buf_len, lba, count, sector_size, device_sectors),
{
    let expected: usize = count as usize * sector_size;
    if buf_len < expected {
        return Err(CoreError::new(ErrorKind::InvalidInput, "Buffer too small"));
    }
    if lba + count as u64 > device_sectors {
        let message = match op {
            BlockOp::Read => "Read out of bounds",
            BlockOp::Write => "Write out of bounds",
        };
        return Err(CoreError::new(ErrorKind::Io, message));
    }
    Ok(expected)
}

/// The error that stands for a failure of the device itself.
pub open spec fn spec_device_failure(op: Option<BlockOp>) -> CoreError {
    match op {
        Some(BlockOp::Read) => CoreError { kind: ErrorKind::Io, message: "Block read failed" },
        Some(BlockOp::Write) => CoreError { kind: ErrorKind::Io, message: "Block write failed" },
        None => CoreError { kind: ErrorKind::Io, message: "Block flush failed" },
    }
}

/// The error that stands for a failure of the device itself during a read,
/// a write, or (with no transfer) a flush.
pub fn device_failure(op: Option<BlockOp>) -> (r: CoreError)
    ensures
        r == spec_device_failure(op),
{
    match op {
        Some(BlockOp::Read) => CoreError::new(ErrorKind::Io, "Block read failed"),
        Some(BlockOp::Write) => CoreError::new(ErrorKind::Io, "Block write failed"),
        None => CoreError::new(ErrorKind::Io, "Block flush failed"),
    }
}

/// A transfer that the check lets through fits both the buffer and the
/// device: it moves exactly `count` sectors, no more bytes than the buffer
/// holds, and no sector past the device's last.
pub proof fn lemma_checked_transfer_in_bounds(
    op: BlockOp,
    buf_len: usize,
    lba: u64,
    count: u32,
    sector_size: usize,
    device_sectors: u64,
)
    requires
        count * sector_size <= usize::MAX,
        spec_check_transfer(op, buf_len, lba, count, sector_size, device_sectors) is Ok,
    ensures
        ({
            let n: usize = spec_check_transfer(op, buf_len, lba, count, sector_size, device_sectors)->Ok_0;
            &&& n == count * sector_size
            &&& n <= buf_len
            &&& lba + count <= device_sectors
        }),
{
}

/// A transfer fails for its buffer only when the buffer is shorter than the
/// sectors it moves; a buffer at least that long, on a transfer within the
/// device, always succeeds with the byte count of the sectors.
pub proof fn lemma_transfer_buffer_rule(
    op: BlockOp,
    buf_len: usize,
    lba: u64,
    count: u32,
    sector_size: usize,
    device_sectors: u64,
)
    requires
        count * sector_size <= usize::MAX,
    ensures
        buf_len >= count * sector_size && lba + count <= device_sectors ==> spec_check_transfer(
            op,
            buf_len,
            lba,
            count,
            sector_size,
            device_sectors,
        ) == Ok::<usize, CoreError>((count * sector_size) as usize),
        spec_check_transfer(op, buf_len, lba, count, sector_size, device_sectors) == Err::<
            usize,
            CoreError,
        >(spec_buffer_too_small()) <==> buf_len < count * sector_size,
        buf_len >= count * sector_size && lba + count > device_sectors ==> spec_check_transfer(
            op,
            buf_len,
            lba,
            count,
            sector_size,
            device_sectors,
        ) is Err,
{
}

/// A device failure is always an I/O error, and says which operation failed;
/// an out-of-bounds transfer is an I/O error that says whether it was a read
/// or a write.
pub proof fn lemma_device_error_messages(op: BlockOp)
    ensures
        spec_device_failure(Some(op)).kind == ErrorKind::Io,
        spec_device_failure(None).kind == ErrorKind::Io,
        spec_device_failure(Some(BlockOp::Read)).message == "Block read failed",
        spec_device_failure(Some(BlockOp::Write)).message == "Block write failed",
        spec_device_failure(None).message == "Block flush failed",
        spec_out_of_bounds(op).kind == ErrorKind::Io,
        spec_out_of_bounds(BlockOp::Read).message == "Read out of bounds",
        spec_out_of_bounds(BlockOp::Write).message == "Write out of bounds",
        spec_buffer_too_small().kind == ErrorKind::InvalidInput,
{
}

} // verus!
