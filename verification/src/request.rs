//! The requests that the monitor makes of the kernel: for each its name,
//! its number, what travels with it and the code that the system call takes;
//! and the reading of the status that comes back.

use vstd::prelude::*;

verus! {

/// The type byte that all requests to the virtualization facility share.
pub const KVMIO: u32 = 0xAE;

/// A request to the virtualization facility.
#[derive(Clone, Copy, Debug, PartialEq, Eq)]
pub enum Request {
    /// Ask the device for the version of its interface.
    GetApiVersion,
    /// Ask the device for a new virtual machine.
    CreateVm,
    /// Ask the device for the size of a virtual CPU's control page.
    GetVcpuMmapSize,
    /// Ask a virtual machine for a new virtual CPU.
    CreateVcpu,
    /// Hand a virtual machine a region of guest memory.
    SetUserMemoryRegion,
    /// Enter the guest on a virtual CPU until it stops.
    Run,
    /// Write the general-purpose registers of a virtual CPU.
    SetRegs,
    /// Read the segment and control registers of a virtual CPU.
    GetSregs,
    /// Write the segment and control registers of a virtual CPU.
    SetSregs,
}

/// Which way the data of a request travels.
#[derive(Clone, Copy, Debug, PartialEq, Eq)]
pub enum Transfer {
    /// The request carries no data.
    Nothing,
    /// The kernel takes data from the monitor.
    Write,
    /// The kernel hands data to the monitor.
    Read,
}

/// What travels with a request.
#[derive(Clone, Copy, Debug, PartialEq, Eq)]
pub enum Payload {
    /// Nothing, or a plain number.
    Nothing,
    /// The description of a region of guest memory.
    MemoryRegion,
    /// The general-purpose registers.
    Regs,
    /// The segment and control registers.
    Sregs,
}

/// The failure of a request, with the error number the host gave.
#[derive(Clone, Copy, Debug, PartialEq, Eq)]
pub struct HostError {
    pub request: Request,
    pub errno: i32,
}

/// The request code made of a direction, a type byte, a number and the size
/// of what travels with the request: each in its own bits, the direction
/// highest, then the size, the type and the number.
pub open spec fn request_code(dir: u32, ty: u32, nr: u32, size: u32) -> int {
    dir * 0x4000_0000 + size * 0x1_0000 + ty * 0x100 + nr
}

impl Transfer {
    /// The direction bits of a request code.
    pub open spec fn bits(self) -> u32 {
        match self {
            Transfer::Nothing => 0,
            Transfer::Write => 1,
            Transfer::Read => 2,
        }
    }
}

impl Payload {
    /// The size in bytes of what travels.
    pub open spec fn size(self) -> u32 {
        match self {
            Payload::Nothing => 0,
            Payload::MemoryRegion => 32,
            Payload::Regs => 144,
            Payload::Sregs => 312,
        }
    }
}

impl Request {
    /// The number of the request among those of the facility.
    pub open spec fn number(self) -> u32 {
        match self {
            Request::GetApiVersion => 0x00,
            Request::CreateVm => 0x01,
            Request::GetVcpuMmapSize => 0x04,
            Request::CreateVcpu => 0x41,
            Request::SetUserMemoryRegion => 0x46,
            Request::Run => 0x80,
            Request::SetRegs => 0x82,
            Request::GetSregs => 0x83,
            Request::SetSregs => 0x84,
        }
    }

    /// Which way the data of the request travels.
    pub open spec fn transfer(self) -> Transfer {
        match self {
            Request::SetUserMemoryRegion | Request::SetRegs | Request::SetSregs => Transfer::Write,
            Request::GetSregs => Transfer::Read,
            _ => Transfer::Nothing,
        }
    }

    /// What travels with the request.
    pub open spec fn payload(self) -> Payload {
        match self {
            Request::SetUserMemoryRegion => Payload::MemoryRegion,
            Request::SetRegs => Payload::Regs,
            Request::GetSregs | Request::SetSregs => Payload::Sregs,
            _ => Payload::Nothing,
        }
    }

    /// The code that the system call takes for the request.
    pub open spec fn code_of(self) -> int {
        request_code(self.transfer().bits(), KVMIO, self.number(), self.payload().size())
    }

    /// The name of the request, as the kernel's headers spell it.
    pub open spec fn name_of(self) -> Seq<char> {
        match self {
            Request::GetApiVersion => "KVM_GET_API_VERSION"@,
            Request::CreateVm => "KVM_CREATE_VM"@,
            Request::GetVcpuMmapSize => "KVM_GET_VCPU_MMAP_SIZE"@,
            Request::CreateVcpu => "KVM_CREATE_VCPU"@,
            Request::SetUserMemoryRegion => "KVM_SET_USER_MEMORY_REGION"@,
            Request::Run => "KVM_RUN"@,
            Request::SetRegs => "KVM_SET_REGS"@,
            Request::GetSregs => "KVM_GET_SREGS"@,
            Request::SetSregs => "KVM_SET_SREGS"@,
        }
    }
}

/// The four fields of a request code joined bit by bit: the direction
/// shifted by 30 bits, the type by 8, the number by none and the size by 16.
pub open spec fn packed(dir: u32, ty: u32, nr: u32, size: u32) -> u32 {
    (dir << 30u32) | (ty << 8u32) | (nr << 0u32) | (size << 16u32)
}

/// `vmm_sys_util::ioctl::ioctl_expr`: shifts the direction by 30 bits, the
/// type by 8, the number by none and the size by 16, joins the four with
/// `|` as 32-bit numbers, and widens the result.
#[verifier::external_body]
fn pack(dir: u32, ty: u32, nr: u32, size: u32) -> (code: u64)
    ensures
        code == packed(dir, ty, nr, size),
{
    vmm_sys_util::ioctl::ioctl_expr(dir, ty, nr, size) as u64
}

/// Fields that each stay inside their bits share no bit, so that joining
/// them bit by bit adds them up.
proof fn lemma_packed_is_code(dir: u32, ty: u32, nr: u32, size: u32)
    requires
        dir < 4,
        ty < 0x100,
        nr < 0x100,
        size < 0x4000,
    ensures
        packed(dir, ty, nr, size) == request_code(dir, ty, nr, size),
{
    assert((dir << 30u32) | (ty << 8u32) | (nr << 0u32) | (size << 16u32) == dir * 0x4000_0000
        + size * 0x1_0000 + ty * 0x100 + nr) by (bit_vector)
        requires
            dir < 4,
            ty < 0x100,
            nr < 0x100,
            size < 0x4000,
    ;
}

/// `vmm_sys_util::ioctl::_IOC_NONE`, the direction bits of a request
/// without data: 0.
#[verifier::external_body]
fn ioc_none() -> (dir: u32)
    ensures
        dir == Transfer::Nothing.bits(),
{
    vmm_sys_util::ioctl::_IOC_NONE
}

/// `vmm_sys_util::ioctl::_IOC_WRITE`, the direction bits of a request
/// whose data the kernel takes: 1.
#[verifier::external_body]
fn ioc_write() -> (dir: u32)
    ensures
        dir == Transfer::Write.bits(),
{
    vmm_sys_util::ioctl::_IOC_WRITE
}

/// `vmm_sys_util::ioctl::_IOC_READ`, the direction bits of a request whose
/// data the kernel hands over: 2.
#[verifier::external_body]
fn ioc_read() -> (dir: u32)
    ensures
        dir == Transfer::Read.bits(),
{
    vmm_sys_util::ioctl::_IOC_READ
}

/// The size of `kvm_bindings::kvm_userspace_memory_region`: 32 bytes.
#[verifier::external_body]
fn memory_region_size() -> (size: u32)
    ensures
        size == Payload::MemoryRegion.size(),
{
    core::mem::size_of::<kvm_bindings::kvm_userspace_memory_region>() as u32
}

/// The size of `kvm_bindings::kvm_regs`: 144 bytes.
#[verifier::external_body]
fn regs_size() -> (size: u32)
    ensures
        size == Payload::Regs.size(),
{
    core::mem::size_of::<kvm_bindings::kvm_regs>() as u32
}

/// The size of `kvm_bindings::kvm_sregs`: 312 bytes.
#[verifier::external_body]
fn sregs_size() -> (size: u32)
    ensures
        size == Payload::Sregs.size(),
{
    core::mem::size_of::<kvm_bindings::kvm_sregs>() as u32
}

impl Transfer {
    fn direction(self) -> (dir: u32)
        ensures
            dir == self.bits(),
    {
        match self {
            Transfer::Nothing => ioc_none(),
            Transfer::Write => ioc_write(),
            Transfer::Read => ioc_read(),
        }
    }
}

impl Payload {
    fn byte_size(self) -> (size: u32)
        ensures
            size == self.size(),
    {
        match self {
            Payload::Nothing => 0,
            Payload::MemoryRegion => memory_region_size(),
            Payload::Regs => regs_size(),
            Payload::Sregs => sregs_size(),
        }
    }
}

impl Request {
    /// The code that the system call takes for this request.
    pub fn code(self) -> (code: u64)
        ensures
            code == self.code_of(),
    {
        let (transfer, payload, nr): (Transfer, Payload, u32) = match self {
            Request::GetApiVersion => (Transfer::Nothing, Payload::Nothing, 0x00),
            Request::CreateVm => (Transfer::Nothing, Payload::Nothing, 0x01),
            Request::GetVcpuMmapSize => (Transfer::Nothing, Payload::Nothing, 0x04),
            Request::CreateVcpu => (Transfer::Nothing, Payload::Nothing, 0x41),
            Request::SetUserMemoryRegion => (Transfer::Write, Payload::MemoryRegion, 0x46),
            Request::Run => (Transfer::Nothing, Payload::Nothing, 0x80),
            Request::SetRegs => (Transfer::Write, Payload::Regs, 0x82),
            Request::GetSregs => (Transfer::Read, Payload::Sregs, 0x83),
            Request::SetSregs => (Transfer::Write, Payload::Sregs, 0x84),
        };
        proof {
            lemma_packed_is_code(transfer.bits(), KVMIO, nr, payload.size());
        }
        pack(transfer.direction(), KVMIO, nr, payload.byte_size())
    }

    /// The name of this request.
    pub fn name(self) -> (name: &'static str)
        ensures
            name@ == self.name_of(),
    {
        match self {
            Request::GetApiVersion => "KVM_GET_API_VERSION",
            Request::CreateVm => "KVM_CREATE_VM",
            Request::GetVcpuMmapSize => "KVM_GET_VCPU_MMAP_SIZE",
            Request::CreateVcpu => "KVM_CREATE_VCPU",
            Request::SetUserMemoryRegion => "KVM_SET_USER_MEMORY_REGION",
            Request::Run => "KVM_RUN",
            Request::SetRegs => "KVM_SET_REGS",
            Request::GetSregs => "KVM_GET_SREGS",
            Request::SetSregs => "KVM_SET_SREGS",
        }
    }
}

/// Reads the status that a request came back with: a negative status is
/// the failure of the request, and goes with the error number of the host;
/// any other status is the request's answer.
pub fn check_status(request: Request, status: i32, errno: i32) -> (res: Result<i32, HostError>)
    ensures
        status >= 0 ==> res == Ok::<i32, HostError>(status),
        status < 0 ==> res == Err::<i32, HostError>(HostError { request, errno }),
{
    if status < 0 {
        Err(HostError { request, errno })
    } else {
        Ok(status)
    }
}

/// No two requests share a code.
pub proof fn lemma_codes_differ(a: Request, b: Request)
    requires
        a != b,
    ensures
        a.code_of() != b.code_of(),
{
}

} // verus!
