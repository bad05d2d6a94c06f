use crate::mem::memory_region::MemoryRegionFlags;
use vstd::prelude::*;

verus! {

/// The errors that the memory, layout and sandbox logic can report.
#[derive(Debug, PartialEq, Eq)]
pub enum HyperlightError {
    /// An access of `size` bytes at `offset` does not fit in memory of `mem_size` bytes.
    BoundsCheckFailed(usize, usize, usize),
    /// A request for a memory region of size zero.
    ZeroSizedMemory,
    /// The memory required exceeds what the address width can hold.
    MemoryRequiredExceedsMax,
    /// The computed sandbox memory size is bigger than the maximum allowed.
    MemoryRequestTooBig(usize, usize),
    /// The guest offset passed to the layout writer is neither the guest base
    /// address nor the host base address.
    GuestOffsetIsInvalid(usize),
    /// An arithmetic operation on offsets or addresses overflowed.
    ArithmeticOverflow,
    /// The operating system's random source failed.
    RandomSourceFailed,
    /// A raw pointer lies below the base address of its address space.
    PointerBelowBase(u64, u64),
    /// The stack pointer of a stack buffer lies outside the buffer
    /// (the stack pointer and the buffer size).
    StackPointerOutOfBounds(usize, usize),
    /// A stack buffer has not enough room left (the space required and the
    /// space available).
    NotEnoughSpaceInBuffer(usize, usize),
    /// The hypervisor reported a memory access of an unknown type.
    UnknownMemoryAccessType(u8),
    /// A restore of memory was asked for before any snapshot was taken.
    NoMemorySnapshot,
    /// The host exception data has a length other than the one recorded in
    /// memory (the recorded length and the length of the data).
    ExceptionDataLengthIncorrect(i32, usize),
    /// The host exception message does not fit in its buffer (its length and
    /// the room available).
    ExceptionMessageTooBig(usize, usize),
    /// The guest error does not fit in the guest error buffer (its length and
    /// the size of the buffer).
    GuestErrorTooLarge(u64, u64),
    /// A buffer does not fit in the memory buffer it is written to (its
    /// length and the size of the memory buffer).
    BufferTooLarge(usize, usize),
    /// A length recorded in memory is negative.
    NegativeLength(i32),
    /// The guest accessed memory at an address without the permissions it
    /// needed (the address, the access tried and the region's permissions).
    MemoryAccessViolation(u64, MemoryRegionFlags, MemoryRegionFlags),
    /// The host cancelled the guest's execution.
    ExecutionCanceledByHost,
    /// The guest accessed memory at an unmapped address.
    MmioAccess(u64),
    /// The virtual CPU exited for a reason that is not handled.
    UnexpectedVmExit(String),
    /// Neither KVM nor the Microsoft hypervisor is available.
    NoHypervisorFound,
    /// The base relocation table of a PE file lies in none of its sections.
    RelocationTableNotInSection(u32),
    /// The base relocation table of a PE file is malformed.
    MalformedBaseRelocations,
    /// A relocation patch lies at or beyond the end of the payload (its
    /// offset and the payload's length).
    InvalidRelocationOffset(usize, usize),
    /// A base relocation has a type other than the two that are supported.
    UnsupportedRelocationType(u8),
    /// A 64-bit value could not be read at this offset of a PE file.
    RelocationReadFailed(u64),
    /// The PE file could not be parsed.
    PeParseFailed(String),
    /// The PE file is not for x64.
    PeNotX64,
    /// The PE file is not in the PE32+ format.
    PeNotPe32Plus,
    /// The PE file is not an executable image.
    PeNotExecutable,
    /// The PE file's relocations have been stripped.
    PeRelocationsStripped,
    /// An atomic compare-and-exchange found another value than the one
    /// expected.
    CompareExchangeFailed,
    /// Memory could not be allocated: the size was zero or the allocator
    /// refused the request.
    MemoryAllocationFailed,
    /// An offset lies beyond the end of memory (the offset and the size of
    /// the memory).
    OffsetOutOfBounds(u64, u64),
    /// A read began at the very end of memory, where no byte is left.
    UnexpectedEndOfMemory(u64),
    /// Running the virtual CPU failed with this error number.
    VcpuRunFailed(i32),
    /// The Microsoft hypervisor reported a run message of this unknown type.
    UnknownRunMessage(u32),
    /// The guest wrote to a port, but no data came with the write.
    NoIoData,
    /// The id of the thread that runs the virtual CPU is unknown, so it
    /// cannot be signalled.
    ThreadIdUnavailable,
    /// Signalling the thread that runs the virtual CPU failed with this
    /// return value.
    SignalFailed(i32),
    /// The host signalled the virtual CPU's thread this many times and the
    /// run still did not stop.
    HostFailedToCancelGuestExecutionSendingSignals(i32),
    /// The guest overwrote the stack guard: its stack overflowed.
    StackOverflow,
    /// A sandbox that is not reusable was asked to run a second guest call.
    SandboxNotReusable,
}

} // verus!
