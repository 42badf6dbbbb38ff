//! System call helpers: IPC command headers, handles and the values that
//! system calls take and return.
use vstd::prelude::*;
use vstd::std_specs::convert::FromSpecImpl;
use crate::error::{Error, ResultCode, is_failure_code};

verus! {

/// The IPC command header for a command id and its numbers of normal and
/// translate parameters (each parameter count is kept to its low 6 bits).
pub open spec fn ipc_header(command_id: u16, normal_params: u8, translate_params: u8) -> nat {
    command_id as nat * 0x10000 + (normal_params as nat % 64) * 64 + translate_params as nat % 64
}

/// Creates a command header to be used for IPC.
pub fn make_ipc_header(command_id: u16, normal_params: u8, translate_params: u8) -> (h: u32)
    ensures
        h == ipc_header(command_id, normal_params, translate_params),
{
    let c = command_id as u32;
    let n = normal_params as u32;
    let t = translate_params as u32;
    assert(((c << 16u32) | ((n & 0x3F) << 6u32) | (t & 0x3F)) == c * 0x10000 + (n % 64) * 64 + t % 64)
        by (bit_vector)
        requires
            c < 0x10000,
            n < 0x100,
            t < 0x100,
    ;
    (c << 16) | ((n & 0x3F) << 6) | (t & 0x3F)
}

/// Reasons for a user to break.
#[derive(Copy, Clone, Debug, PartialEq, Eq, Structural)]
pub enum UserBreakType {
    /// Panic.
    Panic,
    /// Assertion failure.
    Assert,
    /// Requested by the user.
    User,
    /// A CRO was loaded.
    LoadRo,
    /// A CRO was unloaded.
    UnloadRo,
}

impl UserBreakType {
    /// The raw value of the variant.
    pub open spec fn raw_spec(self) -> u32 {
        match self {
            UserBreakType::Panic => 0,
            UserBreakType::Assert => 1,
            UserBreakType::User => 2,
            UserBreakType::LoadRo => 3,
            UserBreakType::UnloadRo => 4,
        }
    }

    /// The variant with the given raw value, if any.
    pub open spec fn from_raw_spec(value: u32) -> Option<UserBreakType> {
        if value == 0 {
            Some(UserBreakType::Panic)
        } else if value == 1 {
            Some(UserBreakType::Assert)
        } else if value == 2 {
            Some(UserBreakType::User)
        } else if value == 3 {
            Some(UserBreakType::LoadRo)
        } else if value == 4 {
            Some(UserBreakType::UnloadRo)
        } else {
            None
        }
    }

    /// The raw value of the variant.
    pub fn raw(self) -> (r: u32)
        ensures
            r == self.raw_spec(),
    {
        match self {
            UserBreakType::Panic => 0,
            UserBreakType::Assert => 1,
            UserBreakType::User => 2,
            UserBreakType::LoadRo => 3,
            UserBreakType::UnloadRo => 4,
        }
    }

    /// The variant with the given raw value, if any.
    pub fn from_raw(value: u32) -> (r: Option<UserBreakType>)
        ensures
            r == Self::from_raw_spec(value),
    {
        match value {
            0 => Some(UserBreakType::Panic),
            1 => Some(UserBreakType::Assert),
            2 => Some(UserBreakType::User),
            3 => Some(UserBreakType::LoadRo),
            4 => Some(UserBreakType::UnloadRo),
            _ => None,
        }
    }
}

impl From<UserBreakType> for u32 {
    fn from(v: UserBreakType) -> (r: u32) {
        v.raw()
    }
}

impl FromSpecImpl<UserBreakType> for u32 {
    open spec fn obeys_from_spec() -> bool {
        true
    }

    open spec fn from_spec(v: UserBreakType) -> u32 {
        v.raw_spec()
    }
}

/// How an event resets after it fires.
#[derive(Copy, Clone, Debug, PartialEq, Eq, Structural)]
pub enum EventResetType {
    /// Resets after one waiter wakes.
    OneShot,
    /// Stays signaled until cleared.
    Sticky,
    /// Resets right after waking the waiters.
    Pulse,
}

impl EventResetType {
    /// The raw value of the variant.
    pub open spec fn raw_spec(self) -> u32 {
        match self {
            EventResetType::OneShot => 0,
            EventResetType::Sticky => 1,
            EventResetType::Pulse => 2,
        }
    }

    /// The variant with the given raw value, if any.
    pub open spec fn from_raw_spec(value: u32) -> Option<EventResetType> {
        if value == 0 {
            Some(EventResetType::OneShot)
        } else if value == 1 {
            Some(EventResetType::Sticky)
        } else if value == 2 {
            Some(EventResetType::Pulse)
        } else {
            None
        }
    }

    /// The raw value of the variant.
    pub fn raw(self) -> (r: u32)
        ensures
            r == self.raw_spec(),
    {
        match self {
            EventResetType::OneShot => 0,
            EventResetType::Sticky => 1,
            EventResetType::Pulse => 2,
        }
    }

    /// The variant with the given raw value, if any.
    pub fn from_raw(value: u32) -> (r: Option<EventResetType>)
        ensures
            r == Self::from_raw_spec(value),
    {
        match value {
            0 => Some(EventResetType::OneShot),
            1 => Some(EventResetType::Sticky),
            2 => Some(EventResetType::Pulse),
            _ => None,
        }
    }
}

impl From<EventResetType> for u32 {
    fn from(v: EventResetType) -> (r: u32) {
        v.raw()
    }
}

impl FromSpecImpl<EventResetType> for u32 {
    open spec fn obeys_from_spec() -> bool {
        true
    }

    open spec fn from_spec(v: EventResetType) -> u32 {
        v.raw_spec()
    }
}

/// Memory permissions.
#[derive(Copy, Clone, Debug, PartialEq, Eq, Structural)]
pub enum MemoryPermission {
    /// No access.
    NoAccess,
    /// Read.
    Read,
    /// Write.
    Write,
    /// Read and write.
    ReadWrite,
    /// Execute.
    Execute,
    /// Read and execute.
    ReadExecute,
    /// Any permission.
    DontCare,
}

impl MemoryPermission {
    /// The raw value of the variant.
    pub open spec fn raw_spec(self) -> u32 {
        match self {
            MemoryPermission::NoAccess => 0,
            MemoryPermission::Read => 1,
            MemoryPermission::Write => 2,
            MemoryPermission::ReadWrite => 3,
            MemoryPermission::Execute => 4,
            MemoryPermission::ReadExecute => 5,
            MemoryPermission::DontCare => 268435456,
        }
    }

    /// The variant with the given raw value, if any.
    pub open spec fn from_raw_spec(value: u32) -> Option<MemoryPermission> {
        if value == 0 {
            Some(MemoryPermission::NoAccess)
        } else if value == 1 {
            Some(MemoryPermission::Read)
        } else if value == 2 {
            Some(MemoryPermission::Write)
        } else if value == 3 {
            Some(MemoryPermission::ReadWrite)
        } else if value == 4 {
            Some(MemoryPermission::Execute)
        } else if value == 5 {
            Some(MemoryPermission::ReadExecute)
        } else if value == 268435456 {
            Some(MemoryPermission::DontCare)
        } else {
            None
        }
    }

    /// The raw value of the variant.
    pub fn raw(self) -> (r: u32)
        ensures
            r == self.raw_spec(),
    {
        match self {
            MemoryPermission::NoAccess => 0,
            MemoryPermission::Read => 1,
            MemoryPermission::Write => 2,
            MemoryPermission::ReadWrite => 3,
            MemoryPermission::Execute => 4,
            MemoryPermission::ReadExecute => 5,
            MemoryPermission::DontCare => 268435456,
        }
    }

    /// The variant with the given raw value, if any.
    pub fn from_raw(value: u32) -> (r: Option<MemoryPermission>)
        ensures
            r == Self::from_raw_spec(value),
    {
        match value {
            0 => Some(MemoryPermission::NoAccess),
            1 => Some(MemoryPermission::Read),
            2 => Some(MemoryPermission::Write),
            3 => Some(MemoryPermission::ReadWrite),
            4 => Some(MemoryPermission::Execute),
            5 => Some(MemoryPermission::ReadExecute),
            268435456 => Some(MemoryPermission::DontCare),
            _ => None,
        }
    }
}

impl From<MemoryPermission> for u32 {
    fn from(v: MemoryPermission) -> (r: u32) {
        v.raw()
    }
}

impl FromSpecImpl<MemoryPermission> for u32 {
    open spec fn obeys_from_spec() -> bool {
        true
    }

    open spec fn from_spec(v: MemoryPermission) -> u32 {
        v.raw_spec()
    }
}

/// Flags of a debugged process.
#[derive(Copy, Clone, Debug, PartialEq, Eq, Structural)]
pub enum DebugFlag {
    /// Inhibit user CPU exception handlers.
    InhibitUserCpuExceptionHandlers,
    /// Signal fault exception events.
    SignalFaultExceptionEvents,
    /// Both of the above.
    InhibitUserCpuExceptionHandlersAndSignalFaultExceptionEvents,
    /// Signal schedule events.
    SignalScheduleEvents,
    /// Signal syscall events.
    SignalSyscallEvents,
    /// Signal map events.
    SignalMapEvents,
}

impl DebugFlag {
    /// The raw value of the variant.
    pub open spec fn raw_spec(self) -> u32 {
        match self {
            DebugFlag::InhibitUserCpuExceptionHandlers => 1,
            DebugFlag::SignalFaultExceptionEvents => 2,
            DebugFlag::InhibitUserCpuExceptionHandlersAndSignalFaultExceptionEvents => 3,
            DebugFlag::SignalScheduleEvents => 4,
            DebugFlag::SignalSyscallEvents => 8,
            DebugFlag::SignalMapEvents => 16,
        }
    }

    /// The variant with the given raw value, if any.
    pub open spec fn from_raw_spec(value: u32) -> Option<DebugFlag> {
        if value == 1 {
            Some(DebugFlag::InhibitUserCpuExceptionHandlers)
        } else if value == 2 {
            Some(DebugFlag::SignalFaultExceptionEvents)
        } else if value == 3 {
            Some(DebugFlag::InhibitUserCpuExceptionHandlersAndSignalFaultExceptionEvents)
        } else if value == 4 {
            Some(DebugFlag::SignalScheduleEvents)
        } else if value == 8 {
            Some(DebugFlag::SignalSyscallEvents)
        } else if value == 16 {
            Some(DebugFlag::SignalMapEvents)
        } else {
            None
        }
    }

    /// The raw value of the variant.
    pub fn raw(self) -> (r: u32)
        ensures
            r == self.raw_spec(),
    {
        match self {
            DebugFlag::InhibitUserCpuExceptionHandlers => 1,
            DebugFlag::SignalFaultExceptionEvents => 2,
            DebugFlag::InhibitUserCpuExceptionHandlersAndSignalFaultExceptionEvents => 3,
            DebugFlag::SignalScheduleEvents => 4,
            DebugFlag::SignalSyscallEvents => 8,
            DebugFlag::SignalMapEvents => 16,
        }
    }

    /// The variant with the given raw value, if any.
    pub fn from_raw(value: u32) -> (r: Option<DebugFlag>)
        ensures
            r == Self::from_raw_spec(value),
    {
        match value {
            1 => Some(DebugFlag::InhibitUserCpuExceptionHandlers),
            2 => Some(DebugFlag::SignalFaultExceptionEvents),
            3 => Some(DebugFlag::InhibitUserCpuExceptionHandlersAndSignalFaultExceptionEvents),
            4 => Some(DebugFlag::SignalScheduleEvents),
            8 => Some(DebugFlag::SignalSyscallEvents),
            16 => Some(DebugFlag::SignalMapEvents),
            _ => None,
        }
    }
}

impl From<DebugFlag> for u32 {
    fn from(v: DebugFlag) -> (r: u32) {
        v.raw()
    }
}

impl FromSpecImpl<DebugFlag> for u32 {
    open spec fn obeys_from_spec() -> bool {
        true
    }

    open spec fn from_spec(v: DebugFlag) -> u32 {
        v.raw_spec()
    }
}

/// Kinds of process information.
#[derive(Copy, Clone, Debug, PartialEq, Eq, Structural)]
pub enum ProcessInfoType {
    /// The title id.
    TitleId,
    /// The start address.
    StartAddress,
}

impl ProcessInfoType {
    /// The raw value of the variant.
    pub open spec fn raw_spec(self) -> u32 {
        match self {
            ProcessInfoType::TitleId => 65537,
            ProcessInfoType::StartAddress => 65541,
        }
    }

    /// The variant with the given raw value, if any.
    pub open spec fn from_raw_spec(value: u32) -> Option<ProcessInfoType> {
        if value == 65537 {
            Some(ProcessInfoType::TitleId)
        } else if value == 65541 {
            Some(ProcessInfoType::StartAddress)
        } else {
            None
        }
    }

    /// The raw value of the variant.
    pub fn raw(self) -> (r: u32)
        ensures
            r == self.raw_spec(),
    {
        match self {
            ProcessInfoType::TitleId => 65537,
            ProcessInfoType::StartAddress => 65541,
        }
    }

    /// The variant with the given raw value, if any.
    pub fn from_raw(value: u32) -> (r: Option<ProcessInfoType>)
        ensures
            r == Self::from_raw_spec(value),
    {
        match value {
            65537 => Some(ProcessInfoType::TitleId),
            65541 => Some(ProcessInfoType::StartAddress),
            _ => None,
        }
    }
}

impl From<ProcessInfoType> for u32 {
    fn from(v: ProcessInfoType) -> (r: u32) {
        v.raw()
    }
}

impl FromSpecImpl<ProcessInfoType> for u32 {
    open spec fn obeys_from_spec() -> bool {
        true
    }

    open spec fn from_spec(v: ProcessInfoType) -> u32 {
        v.raw_spec()
    }
}

/// Whether a raw system call result code reports an error (it is negative).
pub open spec fn call_failed(result: i32) -> bool {
    result < 0
}

/// The outcome of a system call that reports `result`: an error carrying the code
/// when it is negative, or else `value`.
pub open spec fn call_outcome<T>(result: i32, value: T) -> Result<T, Error> {
    if result < 0 {
        Err(Error::Os(result))
    } else {
        Ok(value)
    }
}

/// The outcome of a system call that reports `result`, with `value` on success.
pub fn check_call<T>(result: i32, value: T) -> (r: Result<T, Error>)
    ensures
        r == call_outcome(result, value),
{
    if result < 0 {
        Err(Error::Os(result))
    } else {
        Ok(value)
    }
}

/// An abstraction on top of resource handles. A handle should only be made from a
/// resource that is guaranteed to be a unique copy; it is closed when dropped.
#[derive(Debug, PartialEq, Eq, Structural)]
pub struct Handle(u32);

/// The pseudo handle of the current process.
pub const CURRENT_PROCESS_HANDLE: u32 = 0xFFFF8001;

impl Handle {
    /// The raw handle value.
    pub closed spec fn raw_spec(self) -> u32 {
        self.0
    }

    /// The raw handle value.
    pub fn get_raw(&self) -> (r: u32)
        ensures
            r == self.raw_spec(),
    {
        self.0
    }

    /// A pseudo handle for the current process.
    pub fn get_current_process_handle() -> (h: Handle)
        ensures
            h.raw_spec() == CURRENT_PROCESS_HANDLE,
    {
        Handle(CURRENT_PROCESS_HANDLE)
    }
}

impl From<u32> for Handle {
    fn from(raw_handle: u32) -> (h: Handle) {
        Handle(raw_handle)
    }
}

impl FromSpecImpl<u32> for Handle {
    open spec fn obeys_from_spec() -> bool {
        true
    }

    closed spec fn from_spec(v: u32) -> Handle {
        Handle(v)
    }
}

/// The text of the error given for a wait timeout beyond what 64 bits of
/// nanoseconds hold.
pub open spec fn timeout_overflow_message() -> Seq<char> {
    "Failed to convert timeout to 64-bit nanoseconds: out of range integral type conversion attempted"@
}

/// A wait timeout in nanoseconds, as the system takes it: refused with
/// [`Error::Other`] beyond `i64::MAX`.
pub fn wait_timeout_nanos(nanos: u128) -> (r: Result<i64, Error>)
    ensures
        nanos <= i64::MAX ==> r == Ok::<i64, Error>(nanos as i64),
        nanos > i64::MAX ==> (r matches Err(Error::Other(m)) && m@ == timeout_overflow_message()),
{
    if nanos <= i64::MAX as u128 {
        Ok(nanos as i64)
    } else {
        Err(Error::Other(String::from_str(
            "Failed to convert timeout to 64-bit nanoseconds: out of range integral type conversion attempted",
        )))
    }
}

/// The replies that services give on a handle.
pub trait HandleExt {
    /// Waits for the handle's event with `wait` (given the handle and the timeout
    /// in nanoseconds): a timeout beyond `i64::MAX` nanoseconds is refused before
    /// waiting (see [`wait_timeout_nanos`]), and a failing code of the wait is
    /// returned as its error.
    fn wait_for_event<W: FnOnce(u32, i64) -> i32>(&self, timeout_nanos: u128, wait: W) -> (r: Result<(), Error>)
        requires
            timeout_nanos <= i64::MAX ==> call_requires(wait, (self.raw_handle(), timeout_nanos as i64)),
        ensures
            timeout_nanos > i64::MAX ==> (r matches Err(Error::Other(m)) && m@ == timeout_overflow_message()),
            timeout_nanos <= i64::MAX ==> exists|code: i32| #[trigger] call_ensures(wait, (self.raw_handle(), timeout_nanos as i64), code)
                && (if is_failure_code(code) { r == Err::<(), Error>(Error::Os(code)) } else { r is Ok }),
    ;

    /// The raw handle.
    spec fn raw_handle(&self) -> u32;

    /// The response to a service request: the request fails with the code of a
    /// failing sync request, or else with the failing code that the service wrote
    /// in the second word of the command buffer; otherwise the response is the first
    /// `expected_response_len` words of the command buffer.
    fn service_response(&self, sync_result: i32, command_buffer: &[u32], expected_response_len: usize) -> (r: Result<Vec<u32>, Error>)
        requires
            command_buffer@.len() >= 2,
            expected_response_len <= command_buffer@.len(),
        ensures
            is_failure_code(sync_result) ==> r == Err::<Vec<u32>, Error>(Error::Os(sync_result)),
            !is_failure_code(sync_result) && is_failure_code(command_buffer@[1] as i32) ==> r == Err::<Vec<u32>, Error>(Error::Os(command_buffer@[1] as i32)),
            !is_failure_code(sync_result) && !is_failure_code(command_buffer@[1] as i32) ==> r is Ok && r->Ok_0@ == command_buffer@.take(expected_response_len as int),
    ;
}

impl HandleExt for Handle {
    open spec fn raw_handle(&self) -> u32 {
        self.raw_spec()
    }

    fn wait_for_event<W: FnOnce(u32, i64) -> i32>(&self, timeout_nanos: u128, wait: W) -> (r: Result<(), Error>) {
        let timeout = wait_timeout_nanos(timeout_nanos)?;
        let code = wait(self.get_raw(), timeout);
        ResultCode(code).branch()
    }

    fn service_response(&self, sync_result: i32, command_buffer: &[u32], expected_response_len: usize) -> (r: Result<Vec<u32>, Error>) {
        ResultCode(sync_result).branch()?;
        ResultCode(command_buffer[1] as i32).branch()?;
        let mut response: Vec<u32> = Vec::new();
        let mut i: usize = 0;
        while i < expected_response_len
            invariant
                i <= expected_response_len,
                expected_response_len <= command_buffer@.len(),
                response@ == command_buffer@.take(i as int),
            decreases expected_response_len - i,
        {
            response.push(command_buffer[i]);
            assert(command_buffer@.take(i + 1) == command_buffer@.take(i as int).push(command_buffer@[i as int]));
            i = i + 1;
        }
        Ok(response)
    }
}

/// A memory block shared with another process: its handle and the address and
/// length of the memory it maps.
pub struct MemoryBlock {
    handle: Handle,
    address: u32,
    len: usize,
}

impl MemoryBlock {
    /// The block's raw handle, address and length.
    pub closed spec fn parts(&self) -> (u32, u32, usize) {
        (self.handle.raw_spec(), self.address, self.len)
    }

    /// A block created over the memory at `address`, of `len` bytes: refused with
    /// an alignment error unless the address is on a page boundary (see
    /// [`check_memory_block_alignment`]).
    pub fn new(handle: Handle, address: u32, len: usize) -> (r: Result<MemoryBlock, Error>)
        ensures
            address % 0x1000 != 0 ==> r == Err::<MemoryBlock, Error>(Error::Os(INVALID_ALIGNMENT_ERROR)),
            address % 0x1000 == 0 ==> (r matches Ok(b) && b.parts() == (handle.raw_spec(), address, len)),
    {
        check_memory_block_alignment(address)?;
        Ok(MemoryBlock { handle, address, len })
    }

    /// The block's handle and address, with which it is unmapped when it goes
    /// away.
    pub fn unmap_target(&self) -> (t: (u32, u32))
        ensures
            t == (self.parts().0, self.parts().1),
    {
        (self.handle.get_raw(), self.address)
    }
}

/// The error code returned for an address that is not valid.
pub const INVALID_POINTER_ERROR: i32 = 0xc0de00b;
/// The error code returned for a memory block that is not page-aligned.
pub const INVALID_ALIGNMENT_ERROR: i32 = 0xc0de008;
/// The code with which the debugger reports that no debug event is pending.
pub const NO_DEBUG_EVENT_PENDING: u32 = 0xd8402009;

/// Gets the uncached address of a physical address (bit 31 set). A null address is
/// refused with an invalid pointer error.
pub fn convert_pa_to_uncached_pa(physical_addr: u32) -> (r: Result<u32, Error>)
    ensures
        physical_addr == 0 ==> r == Err::<u32, Error>(Error::Os(INVALID_POINTER_ERROR)),
        physical_addr != 0 ==> r == Ok::<u32, Error>((physical_addr as nat % 0x8000_0000 + 0x8000_0000) as u32),
{
    if physical_addr == 0 {
        return Err(Error::Os(INVALID_POINTER_ERROR));
    }
    let low = physical_addr % 0x8000_0000;
    Ok(low + 0x8000_0000)
}

/// Checks that a memory block starts on a page boundary (0x1000), as creating a
/// memory block requires; otherwise it is refused with an alignment error.
pub fn check_memory_block_alignment(address: u32) -> (r: Result<(), Error>)
    ensures
        address % 0x1000 == 0 <==> r is Ok,
        r is Err ==> r == Err::<(), Error>(Error::Os(INVALID_ALIGNMENT_ERROR)),
{
    if address % 0x1000 != 0 {
        Err(Error::Os(INVALID_ALIGNMENT_ERROR))
    } else {
        Ok(())
    }
}

/// What draining the debug events of a process does after one attempt to read an
/// event: stop when no event is pending, or else continue the process and go on.
#[derive(Copy, Clone, Debug, PartialEq, Eq, Structural)]
pub enum EatEventsStep {
    /// No event is pending: draining is done.
    Stop,
    /// Continue the debugged process and read the next event.
    ContinueProcess,
}

/// Whether reading a debug event reported that none is pending.
pub open spec fn no_event_pending(event: Result<(), Error>) -> bool {
    event matches Err(Error::Os(code)) && code as u32 == NO_DEBUG_EVENT_PENDING
}

/// The flag with which the debugged process is continued while draining events.
pub open spec fn eat_events_flag() -> DebugFlag {
    DebugFlag::InhibitUserCpuExceptionHandlersAndSignalFaultExceptionEvents
}

/// The step after reading a debug event while draining the debug events of a
/// process (see [`EatEventsStep`]). Errors other than "no event pending" are
/// skipped: the process is continued with [`eat_events_flag`] and draining goes on.
pub fn eat_events_step(event: &Result<(), Error>) -> (s: EatEventsStep)
    ensures
        s == EatEventsStep::Stop <==> no_event_pending(*event),
{
    match event {
        Err(Error::Os(result)) => {
            if *result as u32 == NO_DEBUG_EVENT_PENDING {
                EatEventsStep::Stop
            } else {
                EatEventsStep::ContinueProcess
            }
        },
        _ => EatEventsStep::ContinueProcess,
    }
}

/// Information about a region of memory.
#[derive(Debug, Clone, Copy, PartialEq, Eq, Structural)]
pub struct MemInfo {
    /// Base address of the region.
    pub base_addr: u32,
    /// Size of the region.
    pub size: u32,
    /// Permissions of the region.
    pub perm: u32,
    /// State of the region.
    pub state: u32,
}

/// Information about a page of memory.
#[derive(Debug, Clone, Copy, PartialEq, Eq, Structural)]
pub struct PageInfo {
    /// Flags of the page.
    pub flags: u32,
}

/// What a memory query reports.
#[derive(Debug, Clone, Copy, PartialEq, Eq, Structural)]
pub struct MemQueryResponse {
    /// The region.
    pub mem_info: MemInfo,
    /// The page.
    pub page_info: PageInfo,
}

/// The answer to a memory query of a debugged process, from the result code and
/// the information the system reported.
pub fn query_response(result: i32, mem_info: MemInfo, page_info: PageInfo) -> (r: Result<MemQueryResponse, Error>)
    ensures
        r == call_outcome(result, MemQueryResponse { mem_info, page_info }),
{
    check_call(result, MemQueryResponse { mem_info, page_info })
}

/// The process ids that the system listed: the first `process_count` entries of
/// the buffer, or the error of a negative result code.
pub fn process_list(result: i32, process_ids: Vec<u32>, process_count: i32) -> (r: Result<Vec<u32>, Error>)
    requires
        result >= 0 ==> 0 <= process_count <= process_ids@.len(),
    ensures
        result < 0 ==> r == Err::<Vec<u32>, Error>(Error::Os(result)),
        result >= 0 ==> r is Ok && r->Ok_0@ == process_ids@.take(process_count as int),
{
    if result < 0 {
        return Err(Error::Os(result));
    }
    let mut ids = process_ids;
    ids.truncate(process_count as usize);
    Ok(ids)
}

/// The raw handle to reply to in a reply-and-receive call: the handle at the given
/// index, or 0 when there is nothing to reply to.
pub fn reply_target_handle(raw_handles: &[u32], reply_target: Option<usize>) -> (h: u32)
    requires
        reply_target matches Some(i) ==> i < raw_handles@.len(),
    ensures
        h == match reply_target {
            Some(i) => raw_handles@[i as int],
            None => 0,
        },
{
    match reply_target {
        Some(target_index) => raw_handles[target_index],
        None => 0,
    }
}

} // verus!
