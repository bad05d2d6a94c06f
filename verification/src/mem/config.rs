//! The sizes that a sandbox's memory is configured with.
use crate::option_when;
use crate::mem::pe::pe_info::PEInfo;
use vstd::prelude::*;

verus! {

/// The complete set of configuration needed to create a guest memory region.
#[derive(Copy, Clone, Debug, PartialEq, Eq, Structural)]
pub struct SandboxMemoryConfiguration {
    /// The maximum size of the guest error buffer.
    pub guest_error_buffer_size: usize,
    /// The size of the memory buffer that is made available for Guest Function
    /// Definitions
    pub host_function_definition_size: usize,
    /// The size of the memory buffer that is made available for serialising
    /// Host Exceptions
    pub host_exception_size: usize,
    /// The size of the memory buffer that is made available for input to the
    /// Guest Binary
    pub input_data_size: usize,
    /// The size of the memory buffer that is made available for output from
    /// the Guest Binary
    pub output_data_size: usize,
    /// The size of the memory buffer that is made available for the context
    /// of a guest panic
    pub guest_panic_context_buffer_size: usize,
    /// The stack size to use in the guest sandbox. If set to 0, the stack
    /// size will be determined from the PE file header
    pub stack_size_override: u64,
    /// The heap size to use in the guest sandbox. If set to 0, the heap
    /// size will be determined from the PE file header
    pub heap_size_override: u64,
}

/// The larger of two sizes.
pub open spec fn spec_max(a: usize, b: usize) -> usize {
    if a >= b {
        a
    } else {
        b
    }
}

/// The value inside `o`, or `0` when there is none.
pub open spec fn spec_unwrap_or_zero(o: Option<u64>) -> u64 {
    match o {
        Some(v) => v,
        None => 0,
    }
}

fn max_usize(a: usize, b: usize) -> (r: usize)
    ensures
        r == spec_max(a, b),
{
    if a >= b {
        a
    } else {
        b
    }
}

impl SandboxMemoryConfiguration {
    /// The default size of input data
    pub const DEFAULT_INPUT_SIZE: usize = 0x4000;
    /// The minimum size of input data
    pub const MIN_INPUT_SIZE: usize = 0x2000;
    /// The default size of output data
    pub const DEFAULT_OUTPUT_SIZE: usize = 0x4000;
    /// The minimum size of output data
    pub const MIN_OUTPUT_SIZE: usize = 0x2000;
    /// The default size of host function definitions
    pub const DEFAULT_HOST_FUNCTION_DEFINITION_SIZE: usize = 0x1000;
    /// The minimum size of host function definitions
    pub const MIN_HOST_FUNCTION_DEFINITION_SIZE: usize = 0x400;
    /// The default size for host exceptions
    pub const DEFAULT_HOST_EXCEPTION_SIZE: usize = 0x4000;
    /// The minimum size for host exceptions
    pub const MIN_HOST_EXCEPTION_SIZE: usize = 0x4000;
    /// The default size for guest error messages
    pub const DEFAULT_GUEST_ERROR_BUFFER_SIZE: usize = 0x100;
    /// The minimum size for guest error messages
    pub const MIN_GUEST_ERROR_BUFFER_SIZE: usize = 0x80;
    /// The size of the buffer for the context of a guest panic
    pub const DEFAULT_GUEST_PANIC_CONTEXT_BUFFER_SIZE: usize = 0x400;

    /// Create a new configuration for a sandbox with the given sizes. Each
    /// buffer size is raised to its minimum where it is below it, and a
    /// missing stack or heap override becomes `0`.
    pub fn new(
        input_data_size: usize,
        output_data_size: usize,
        function_definition_size: usize,
        host_exception_size: usize,
        guest_error_buffer_size: usize,
        stack_size_override: Option<u64>,
        heap_size_override: Option<u64>,
    ) -> (r: Self)
        ensures
            r.input_data_size == spec_max(input_data_size, Self::MIN_INPUT_SIZE),
            r.output_data_size == spec_max(output_data_size, Self::MIN_OUTPUT_SIZE),
            r.host_function_definition_size == spec_max(
                function_definition_size,
                Self::MIN_HOST_FUNCTION_DEFINITION_SIZE,
            ),
            r.host_exception_size == spec_max(host_exception_size, Self::MIN_HOST_EXCEPTION_SIZE),
            r.guest_error_buffer_size == spec_max(
                guest_error_buffer_size,
                Self::MIN_GUEST_ERROR_BUFFER_SIZE,
            ),
            r.guest_panic_context_buffer_size == Self::DEFAULT_GUEST_PANIC_CONTEXT_BUFFER_SIZE,
            r.stack_size_override == spec_unwrap_or_zero(stack_size_override),
            r.heap_size_override == spec_unwrap_or_zero(heap_size_override),
    {
        Self {
            input_data_size: max_usize(input_data_size, Self::MIN_INPUT_SIZE),
            output_data_size: max_usize(output_data_size, Self::MIN_OUTPUT_SIZE),
            host_function_definition_size: max_usize(
                function_definition_size,
                Self::MIN_HOST_FUNCTION_DEFINITION_SIZE,
            ),
            host_exception_size: max_usize(host_exception_size, Self::MIN_HOST_EXCEPTION_SIZE),
            guest_error_buffer_size: max_usize(
                guest_error_buffer_size,
                Self::MIN_GUEST_ERROR_BUFFER_SIZE,
            ),
            guest_panic_context_buffer_size: Self::DEFAULT_GUEST_PANIC_CONTEXT_BUFFER_SIZE,
            stack_size_override: match stack_size_override {
                Some(v) => v,
                None => 0,
            },
            heap_size_override: match heap_size_override {
                Some(v) => v,
                None => 0,
            },
        }
    }

    /// The stack size override, when it is set (non-zero).
    pub fn stack_size_override_opt(&self) -> (r: Option<u64>)
        ensures
            r == (if self.stack_size_override > 0 {
                Some(self.stack_size_override)
            } else {
                None::<u64>
            }),
    {
        option_when(self.stack_size_override, self.stack_size_override > 0)
    }

    /// The stack size of a sandbox running `pe_info`: the override where it
    /// is set (non-zero), otherwise the PE file's stack reserve.
    pub fn get_stack_size(&self, pe_info: &PEInfo) -> (r: u64)
        ensures
            r == (if self.stack_size_override > 0 {
                self.stack_size_override
            } else {
                pe_info.optional_header_spec().size_of_stack_reserve
            }),
    {
        match self.stack_size_override_opt() {
            Some(s) => s,
            None => pe_info.stack_reserve(),
        }
    }

    /// The heap size of a sandbox running `pe_info`: the override where it
    /// is set (non-zero), otherwise the PE file's heap reserve.
    pub fn get_heap_size(&self, pe_info: &PEInfo) -> (r: u64)
        ensures
            r == (if self.heap_size_override > 0 {
                self.heap_size_override
            } else {
                pe_info.optional_header_spec().size_of_heap_reserve
            }),
    {
        match self.heap_size_override_opt() {
            Some(s) => s,
            None => pe_info.heap_reserve(),
        }
    }

    /// The heap size override, when it is set (non-zero).
    pub fn heap_size_override_opt(&self) -> (r: Option<u64>)
        ensures
            r == (if self.heap_size_override > 0 {
                Some(self.heap_size_override)
            } else {
                None::<u64>
            }),
    {
        option_when(self.heap_size_override, self.heap_size_override > 0)
    }

    /// The size of the host function definitions buffer.
    pub fn get_host_function_definition_size(&self) -> (r: usize)
        ensures
            r == self.host_function_definition_size,
    {
        self.host_function_definition_size
    }

    /// The size of the host exception buffer.
    pub fn get_host_exception_size(&self) -> (r: usize)
        ensures
            r == self.host_exception_size,
    {
        self.host_exception_size
    }

    /// The size of the guest error buffer.
    pub fn get_guest_error_buffer_size(&self) -> (r: usize)
        ensures
            r == self.guest_error_buffer_size,
    {
        self.guest_error_buffer_size
    }

    /// The size of the input data buffer.
    pub fn get_input_data_size(&self) -> (r: usize)
        ensures
            r == self.input_data_size,
    {
        self.input_data_size
    }

    /// The size of the output data buffer.
    pub fn get_output_data_size(&self) -> (r: usize)
        ensures
            r == self.output_data_size,
    {
        self.output_data_size
    }

    /// The size of the guest panic context buffer.
    pub fn get_guest_panic_context_buffer_size(&self) -> (r: usize)
        ensures
            r == self.guest_panic_context_buffer_size,
    {
        self.guest_panic_context_buffer_size
    }
}

impl Default for SandboxMemoryConfiguration {
    fn default() -> (r: Self)
        ensures
            r.input_data_size == Self::DEFAULT_INPUT_SIZE,
            r.output_data_size == Self::DEFAULT_OUTPUT_SIZE,
            r.host_function_definition_size == Self::DEFAULT_HOST_FUNCTION_DEFINITION_SIZE,
            r.host_exception_size == Self::DEFAULT_HOST_EXCEPTION_SIZE,
            r.guest_error_buffer_size == Self::DEFAULT_GUEST_ERROR_BUFFER_SIZE,
            r.guest_panic_context_buffer_size == Self::DEFAULT_GUEST_PANIC_CONTEXT_BUFFER_SIZE,
            r.stack_size_override == 0,
            r.heap_size_override == 0,
    {
        Self::new(
            Self::DEFAULT_INPUT_SIZE,
            Self::DEFAULT_OUTPUT_SIZE,
            Self::DEFAULT_HOST_FUNCTION_DEFINITION_SIZE,
            Self::DEFAULT_HOST_EXCEPTION_SIZE,
            Self::DEFAULT_GUEST_ERROR_BUFFER_SIZE,
            None,
            None,
        )
    }
}

} // verus!
