//! The control page that the kernel shares with the monitor for one virtual CPU.
//!
//! After every return from the guest the kernel leaves the reason in this
//! page, and for a port transfer its direction, port, width and the place of
//! the transferred data. The page is read and written here as plain bytes at
//! fixed offsets, little-endian, and checked against its length before any
//! field is touched.

use vstd::prelude::*;

verus! {

/// Offset of the 32-bit exit reason.
pub const EXIT_REASON_AT: usize = 8;

/// Offset of the direction byte of a port transfer.
pub const IO_DIRECTION_AT: usize = 32;

/// Offset of the width byte of a port transfer.
pub const IO_WIDTH_AT: usize = 33;

/// Offset of the 16-bit port number of a port transfer.
pub const IO_PORT_AT: usize = 34;

/// Offset of the 64-bit field that says where in the page the data lies.
pub const IO_DATA_OFFSET_AT: usize = 40;

/// Length of the fixed part of the page that the monitor reads.
pub const HEADER_LEN: usize = 48;

/// Number of data bytes that a port transfer moves, whatever width it reports.
pub const DATA_LEN: usize = 4;

/// Why the guest stopped running, with what a port transfer carries.
#[derive(Clone, Copy, Debug, PartialEq, Eq)]
pub enum ExitInfo {
    /// The guest executed a halt instruction.
    Halt,
    /// The guest wrote `value` to `port`.
    IoOut { port: u16, width: u8, value: i32 },
    /// The guest reads from `port`, and expects the value at `data_offset`.
    IoIn { port: u16, width: u8, data_offset: usize },
    /// The kernel could not go on with the guest.
    InternalError,
    /// The guest shut down.
    Shutdown,
    /// Any other reason, by its number.
    Unsupported { reason: u32 },
}

/// Why a control page could not be read or written.
#[derive(Clone, Copy, Debug, PartialEq, Eq)]
pub enum PageError {
    /// The page is shorter than its fixed part.
    Truncated { len: usize },
    /// The data of a transfer would not lie inside the page.
    DataOutOfBounds { data_offset: u64, len: usize },
}

/// The 16-bit little-endian word at `at`.
pub open spec fn word16(s: Seq<u8>, at: int) -> int {
    s[at] + 0x100 * s[at + 1]
}

/// The 32-bit little-endian word at `at`.
pub open spec fn word32(s: Seq<u8>, at: int) -> int {
    word16(s, at) + 0x1_0000 * word16(s, at + 2)
}

/// The 64-bit little-endian word at `at`.
pub open spec fn word64(s: Seq<u8>, at: int) -> int {
    word32(s, at) + 0x1_0000_0000 * word32(s, at + 4)
}

/// The signed value that a 32-bit word stands for in two's complement.
pub open spec fn signed32(w: int) -> int {
    if w >= 0x8000_0000 {
        w - 0x1_0000_0000
    } else {
        w
    }
}

/// The 32-bit word that stands for a signed value in two's complement.
pub open spec fn unsigned32(v: int) -> int {
    if v < 0 {
        v + 0x1_0000_0000
    } else {
        v
    }
}

/// The four bytes of a 32-bit word, lowest first.
pub open spec fn word32_bytes(w: int) -> Seq<u8> {
    seq![
        (w % 0x100) as u8,
        (w / 0x100 % 0x100) as u8,
        (w / 0x1_0000 % 0x100) as u8,
        (w / 0x100_0000 % 0x100) as u8,
    ]
}

/// Whether four data bytes at `offset` lie inside a page of `len` bytes.
pub open spec fn data_fits(len: nat, offset: int) -> bool {
    0 <= offset && offset + DATA_LEN <= len
}

/// The signed 32-bit value at `offset`.
pub open spec fn value_at(page: Seq<u8>, offset: int) -> i32 {
    signed32(word32(page, offset)) as i32
}

/// The page with `value` written at `offset`, all other bytes as before.
pub open spec fn stored(page: Seq<u8>, offset: int, value: i32) -> Seq<u8> {
    page.subrange(0, offset) + word32_bytes(unsigned32(value as int)) + page.skip(
        offset + DATA_LEN,
    )
}

/// The exit reason of a halt.
pub open spec fn reason_halt() -> u32 {
    5
}

/// The exit reason of a port transfer.
pub open spec fn reason_io() -> u32 {
    2
}

/// The exit reason of an internal error.
pub open spec fn reason_internal_error() -> u32 {
    17
}

/// The exit reason of a shutdown.
pub open spec fn reason_shutdown() -> u32 {
    8
}

/// The direction byte of a transfer from the guest to the host.
pub open spec fn direction_out() -> u8 {
    1
}

/// What a control page says, or why it cannot be read.
///
/// The fixed part must be there whatever the reason is. The fields of a
/// port transfer count only where the reason is a port transfer, and its
/// data must lie inside the page. A direction byte other than that of an
/// outward transfer means an inward one.
pub open spec fn decoded(page: Seq<u8>) -> Result<ExitInfo, PageError> {
    if page.len() < HEADER_LEN {
        Err(PageError::Truncated { len: page.len() as usize })
    } else {
        let reason = word32(page, EXIT_REASON_AT as int);
        if reason == reason_halt() {
            Ok(ExitInfo::Halt)
        } else if reason == reason_io() {
            let data_offset = word64(page, IO_DATA_OFFSET_AT as int);
            let port = word16(page, IO_PORT_AT as int) as u16;
            let width = page[IO_WIDTH_AT as int];
            if !data_fits(page.len(), data_offset) {
                Err(
                    PageError::DataOutOfBounds {
                        data_offset: data_offset as u64,
                        len: page.len() as usize,
                    },
                )
            } else if page[IO_DIRECTION_AT as int] == direction_out() {
                Ok(ExitInfo::IoOut { port, width, value: value_at(page, data_offset) })
            } else {
                Ok(ExitInfo::IoIn { port, width, data_offset: data_offset as usize })
            }
        } else if reason == reason_internal_error() {
            Ok(ExitInfo::InternalError)
        } else if reason == reason_shutdown() {
            Ok(ExitInfo::Shutdown)
        } else {
            Ok(ExitInfo::Unsupported { reason: reason as u32 })
        }
    }
}

/// `kvm_bindings::KVM_EXIT_HLT`, the number the kernel gives a halt: 5.
#[verifier::external_body]
fn exit_hlt() -> (r: u32)
    ensures
        r == reason_halt(),
{
    kvm_bindings::KVM_EXIT_HLT
}

/// `kvm_bindings::KVM_EXIT_IO`, the number the kernel gives a port
/// transfer: 2.
#[verifier::external_body]
fn exit_io() -> (r: u32)
    ensures
        r == reason_io(),
{
    kvm_bindings::KVM_EXIT_IO
}

/// `kvm_bindings::KVM_EXIT_INTERNAL_ERROR`, the number the kernel gives an
/// internal error: 17.
#[verifier::external_body]
fn exit_internal_error() -> (r: u32)
    ensures
        r == reason_internal_error(),
{
    kvm_bindings::KVM_EXIT_INTERNAL_ERROR
}

/// `kvm_bindings::KVM_EXIT_SHUTDOWN`, the number the kernel gives a
/// shutdown: 8.
#[verifier::external_body]
fn exit_shutdown() -> (r: u32)
    ensures
        r == reason_shutdown(),
{
    kvm_bindings::KVM_EXIT_SHUTDOWN
}

/// `kvm_bindings::KVM_EXIT_IO_OUT`, the direction of a transfer from the
/// guest to the host, as the byte the page holds: 1.
#[verifier::external_body]
fn exit_io_out() -> (r: u8)
    ensures
        r == direction_out(),
{
    kvm_bindings::KVM_EXIT_IO_OUT as u8
}

fn read_u16(page: &[u8], at: usize) -> (w: u16)
    requires
        at + 2 <= page.len(),
    ensures
        w == word16(page@, at as int),
{
    let lo: u16 = page[at] as u16;
    let hi: u16 = page[at + 1] as u16;
    lo + 0x100 * hi
}

fn read_u32(page: &[u8], at: usize) -> (w: u32)
    requires
        at + 4 <= page.len(),
    ensures
        w == word32(page@, at as int),
{
    let lo: u32 = read_u16(page, at) as u32;
    let hi: u32 = read_u16(page, at + 2) as u32;
    lo + 0x1_0000 * hi
}

fn read_u64(page: &[u8], at: usize) -> (w: u64)
    requires
        at + 8 <= page.len(),
    ensures
        w == word64(page@, at as int),
{
    let lo: u64 = read_u32(page, at) as u64;
    let hi: u64 = read_u32(page, at + 4) as u64;
    lo + 0x1_0000_0000 * hi
}

fn read_i32(page: &[u8], at: usize) -> (v: i32)
    requires
        at + 4 <= page.len(),
    ensures
        v == value_at(page@, at as int),
{
    let w: u32 = read_u32(page, at);
    if w >= 0x8000_0000 {
        (w as i64 - 0x1_0000_0000) as i32
    } else {
        w as i32
    }
}

/// Reads what the kernel left in the control page when the guest stopped.
pub fn decode_exit(page: &[u8]) -> (res: Result<ExitInfo, PageError>)
    ensures
        res == decoded(page@),
{
    let len: usize = page.len();
    if len < HEADER_LEN {
        return Err(PageError::Truncated { len });
    }
    let reason: u32 = read_u32(page, EXIT_REASON_AT);
    if reason == exit_hlt() {
        Ok(ExitInfo::Halt)
    } else if reason == exit_io() {
        let data_offset: u64 = read_u64(page, IO_DATA_OFFSET_AT);
        let port: u16 = read_u16(page, IO_PORT_AT);
        let width: u8 = page[IO_WIDTH_AT];
        if data_offset > (len - DATA_LEN) as u64 {
            Err(PageError::DataOutOfBounds { data_offset, len })
        } else if page[IO_DIRECTION_AT] == exit_io_out() {
            let value: i32 = read_i32(page, data_offset as usize);
            Ok(ExitInfo::IoOut { port, width, value })
        } else {
            Ok(ExitInfo::IoIn { port, width, data_offset: data_offset as usize })
        }
    } else if reason == exit_internal_error() {
        Ok(ExitInfo::InternalError)
    } else if reason == exit_shutdown() {
        Ok(ExitInfo::Shutdown)
    } else {
        Ok(ExitInfo::Unsupported { reason })
    }
}

/// Reads the signed 32-bit value at `offset` of the page.
pub fn load_i32(page: &[u8], offset: usize) -> (res: Result<i32, PageError>)
    ensures
        data_fits(page@.len(), offset as int) ==> res == Ok::<i32, PageError>(
            value_at(page@, offset as int),
        ),
        !data_fits(page@.len(), offset as int) ==> res == Err::<i32, PageError>(
            PageError::DataOutOfBounds { data_offset: offset as u64, len: page.len() },
        ),
{
    let len: usize = page.len();
    if len < DATA_LEN || offset > len - DATA_LEN {
        return Err(PageError::DataOutOfBounds { data_offset: offset as u64, len });
    }
    Ok(read_i32(page, offset))
}

/// Writes `value` at `offset` of the page, where the guest will read it,
/// or refuses and leaves the page as it was when the value would not lie
/// inside it.
pub fn store_i32(page: &mut [u8], offset: usize, value: i32) -> (res: Result<(), PageError>)
    ensures
        data_fits(old(page)@.len(), offset as int) ==> res.is_ok() && final(page)@ == stored(
            old(page)@,
            offset as int,
            value,
        ),
        !data_fits(old(page)@.len(), offset as int) ==> res == Err::<(), PageError>(
            PageError::DataOutOfBounds { data_offset: offset as u64, len: old(page).len() },
        ) && final(page)@ == old(page)@,
{
    let len: usize = page.len();
    if len < DATA_LEN || offset > len - DATA_LEN {
        return Err(PageError::DataOutOfBounds { data_offset: offset as u64, len });
    }
    let w: u32 = if value < 0 {
        (value as i64 + 0x1_0000_0000) as u32
    } else {
        value as u32
    };
    page[offset] = (w % 0x100) as u8;
    page[offset + 1] = (w / 0x100 % 0x100) as u8;
    page[offset + 2] = (w / 0x1_0000 % 0x100) as u8;
    page[offset + 3] = (w / 0x100_0000 % 0x100) as u8;
    Ok(())
}

/// A value written to the page is the value read back from the same place,
/// the page keeps its length, and no byte outside the four changes.
pub proof fn lemma_store_then_load(page: Seq<u8>, offset: int, value: i32)
    requires
        data_fits(page.len(), offset),
    ensures
        stored(page, offset, value).len() == page.len(),
        value_at(stored(page, offset, value), offset) == value,
        forall|i: int|
            0 <= i < page.len() && !(offset <= i < offset + DATA_LEN) ==> stored(
                page,
                offset,
                value,
            )[i] == page[i],
{
    let w = unsigned32(value as int);
    let s = stored(page, offset, value);
    assert(0 <= w < 0x1_0000_0000);
    assert(s[offset] == (w % 0x100) as u8);
    assert(s[offset + 1] == (w / 0x100 % 0x100) as u8);
    assert(s[offset + 2] == (w / 0x1_0000 % 0x100) as u8);
    assert(s[offset + 3] == (w / 0x100_0000 % 0x100) as u8);
    assert(word32(s, offset) == w);
}

} // verus!
