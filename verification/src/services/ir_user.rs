//! IR (Infrared) User Service.
//!
//! The ir:USER service communicates with IR devices such as the Circle Pad Pro.
//! This module holds its command requests, the layout of its shared memory and
//! the parsing of the status and of the packets found there.
use vstd::prelude::*;
use crate::bits::{bit_field, bit_set, bit_u32, field_u32};
use crate::services::svc::{ipc_header, make_ipc_header};
use crate::text::{dec_digits, decimal_string, hex_digits, hex_string_prefixed};
use crate::error::Error;
use crate::services::reference::{ServiceCounter, ServiceReference, count_after_acquire, effective_count, must_start, refused_as_active};

verus! {

/// Size of the information sections at the start of the shared memory.
pub const SHARED_MEM_INFO_SECTIONS_SIZE: usize = 0x30;
/// Offset of the receive buffer in the shared memory.
pub const SHARED_MEM_RECV_BUFFER_OFFSET: usize = 0x20;
/// The shared memory length is a multiple of this page size.
pub const PAGE_SIZE: usize = 0x1000;
/// The bitrate the service is initialized with.
pub const IR_BITRATE: u32 = 4;
/// Size of one packet information entry.
pub const PACKET_INFO_SIZE: usize = 8;
/// The id of a Circle Pad Pro input response.
pub const CIRCLE_PAD_PRO_INPUT_RESPONSE_PACKET_ID: u8 = 0x10;

/// `value` rounded up to a multiple of `multiple`.
pub open spec fn round_up_spec(value: nat, multiple: nat) -> nat {
    if value % multiple != 0 {
        (value / multiple) * multiple + multiple
    } else {
        (value / multiple) * multiple
    }
}

/// `value` rounded up to a multiple of `multiple` is a multiple of it, at least
/// `value` and less than `value + multiple`.
pub proof fn round_up_bounds(value: nat, multiple: nat)
    requires
        multiple > 0,
    ensures
        round_up_spec(value, multiple) % multiple == 0,
        value <= round_up_spec(value, multiple) < value + multiple,
{
    let q = value / multiple;
    vstd::arithmetic::div_mod::lemma_fundamental_div_mod(value as int, multiple as int);
    vstd::arithmetic::mul::lemma_mul_is_commutative(multiple as int, q as int);
    vstd::arithmetic::div_mod::lemma_mod_multiples_basic(q as int, multiple as int);
    vstd::arithmetic::div_mod::lemma_mod_multiples_basic(q as int + 1, multiple as int);
    vstd::arithmetic::mul::lemma_mul_is_distributive_add_other_way(multiple as int, q as int, 1);
}

/// Rounds `value` up to a multiple of `multiple`.
pub fn round_up(value: usize, multiple: usize) -> (r: usize)
    requires
        multiple > 0,
        value + multiple <= usize::MAX,
    ensures
        r == round_up_spec(value as nat, multiple as nat),
        r % multiple == 0,
        value <= r < value + multiple,
{
    let q = value / multiple;
    proof {
        vstd::arithmetic::div_mod::lemma_fundamental_div_mod(value as int, multiple as int);
        vstd::arithmetic::mul::lemma_mul_is_commutative(multiple as int, q as int);
        vstd::arithmetic::div_mod::lemma_mod_multiples_basic(q as int, multiple as int);
        vstd::arithmetic::div_mod::lemma_mod_multiples_basic(q as int + 1, multiple as int);
        vstd::arithmetic::mul::lemma_mul_is_distributive_add_other_way(multiple as int, q as int, 1);
        assert(q * multiple <= value);
        assert((q + 1) * multiple == q * multiple + multiple);
    }
    if value % multiple != 0 {
        q * multiple + multiple
    } else {
        q * multiple
    }
}

/// The IR devices the 3DS can connect to via the ir:USER service.
#[derive(Copy, Clone, Debug, PartialEq, Eq, Structural)]
pub enum IrDeviceId {
    /// Circle Pad Pro.
    CirclePadPro,
    /// Other devices.
    Custom(u32),
}

impl IrDeviceId {
    /// The id of a device: 1 for the Circle Pad Pro.
    pub open spec fn id_spec(self) -> u32 {
        match self {
            IrDeviceId::CirclePadPro => 1,
            IrDeviceId::Custom(id) => id,
        }
    }

    /// Get the ID of the device.
    pub fn get_id(&self) -> (id: u32)
        ensures
            id == self.id_spec(),
    {
        match *self {
            IrDeviceId::CirclePadPro => 1,
            IrDeviceId::Custom(id) => id,
        }
    }
}

/// The commands of the ir:USER service that this library issues.
#[derive(Copy, Clone, Debug)]
pub enum IrCommand {
    /// Try to connect to a device.
    RequireConnection(IrDeviceId),
    /// Close the current connection.
    Disconnect,
    /// Get the event that fires when a packet is received.
    GetReceiveEvent,
    /// Get the event that fires on connection status changes.
    GetConnectionStatusEvent,
    /// Send data to the device: the payload's length and address.
    SendIrNop { payload_len: u32, payload_address: u32 },
    /// Mark a number of received packets as processed.
    ReleaseReceivedData(u32),
}

/// The request words of a command: its IPC header followed by its parameters.
pub open spec fn command_request_spec(command: IrCommand) -> Seq<u32> {
    match command {
        IrCommand::RequireConnection(device) => seq![ipc_header(6, 1, 0) as u32, device.id_spec()],
        IrCommand::Disconnect => seq![ipc_header(9, 0, 0) as u32],
        IrCommand::GetReceiveEvent => seq![ipc_header(10, 0, 0) as u32],
        IrCommand::GetConnectionStatusEvent => seq![ipc_header(12, 0, 0) as u32],
        IrCommand::SendIrNop { payload_len, payload_address } => seq![
            ipc_header(13, 1, 2) as u32,
            payload_len,
            (2 + payload_len * 0x4000) as u32,
            payload_address,
        ],
        IrCommand::ReleaseReceivedData(count) => seq![ipc_header(25, 1, 0) as u32, count],
    }
}

/// The number of response words each command expects.
pub open spec fn command_response_len_spec(command: IrCommand) -> nat {
    match command {
        IrCommand::GetReceiveEvent | IrCommand::GetConnectionStatusEvent => 4,
        _ => 2,
    }
}

/// The packet that asks a Circle Pad Pro to report its input every `period_ms`
/// milliseconds.
pub open spec fn input_polling_packet_spec(period_ms: u8) -> Seq<u8> {
    seq![1u8, period_ms, (((period_ms + 2) * 4) % 256) as u8]
}

/// Handle to the ir:USER service, with the sizes its shared memory is laid out
/// with.
pub struct IrUser {
    _service_reference: ServiceReference,
    recv_buffer_size: usize,
    recv_packet_count: usize,
    send_buffer_size: usize,
    send_packet_count: usize,
}

/// The size of the shared memory for the given buffer sizes: the information
/// sections and both buffers, rounded up to whole pages.
pub open spec fn shared_memory_len_spec(recv_buffer_size: nat, send_buffer_size: nat) -> nat {
    round_up_spec(0x30 + recv_buffer_size + send_buffer_size, 0x1000)
}

/// Whether the shared memory size for these buffer sizes can be computed without
/// overflow.
pub open spec fn buffer_sizes_fit(recv_buffer_size: nat, send_buffer_size: nat) -> bool {
    0x30 + recv_buffer_size + send_buffer_size + 0x1000 <= usize::MAX
}

/// The length of the shared memory for the given buffer sizes: a multiple of the
/// page size.
pub fn shared_memory_len_for(recv_buffer_size: usize, send_buffer_size: usize) -> (len: usize)
    requires
        buffer_sizes_fit(recv_buffer_size as nat, send_buffer_size as nat),
    ensures
        len == shared_memory_len_spec(recv_buffer_size as nat, send_buffer_size as nat),
        len % PAGE_SIZE == 0,
        len >= SHARED_MEM_INFO_SECTIONS_SIZE + recv_buffer_size + send_buffer_size,
{
    let minimum = SHARED_MEM_INFO_SECTIONS_SIZE + recv_buffer_size + send_buffer_size;
    round_up(minimum, PAGE_SIZE)
}

/// The request that initializes the service with shared memory of length
/// `shared_memory_len` behind the handle `shared_memory_handle`, for the given
/// buffer sizes and packet counts.
pub fn initialize_request(
    recv_buffer_size: usize,
    recv_packet_count: usize,
    send_buffer_size: usize,
    send_packet_count: usize,
    shared_memory_len: usize,
    shared_memory_handle: u32,
) -> (r: Vec<u32>)
    ensures
        r@ == seq![
            ipc_header(24, 6, 2) as u32,
            shared_memory_len as u32,
            recv_buffer_size as u32,
            recv_packet_count as u32,
            send_buffer_size as u32,
            send_packet_count as u32,
            IR_BITRATE,
            0u32,
            shared_memory_handle,
        ],
{
    let mut r: Vec<u32> = Vec::new();
    r.push(make_ipc_header(24, 6, 2));
    r.push(shared_memory_len as u32);
    r.push(recv_buffer_size as u32);
    r.push(recv_packet_count as u32);
    r.push(send_buffer_size as u32);
    r.push(send_packet_count as u32);
    r.push(IR_BITRATE);
    r.push(0);
    r.push(shared_memory_handle);
    r
}

impl IrUser {
    /// Size of the receive buffer.
    pub closed spec fn recv_buffer_size_spec(self) -> nat {
        self.recv_buffer_size as nat
    }

    /// Number of packets the receive buffer holds.
    pub closed spec fn recv_packet_count_spec(self) -> nat {
        self.recv_packet_count as nat
    }

    /// Size of the send buffer.
    pub closed spec fn send_buffer_size_spec(self) -> nat {
        self.send_buffer_size as nat
    }

    /// Number of packets the send buffer holds.
    pub closed spec fn send_packet_count_spec(self) -> nat {
        self.send_packet_count as nat
    }

    /// Whether the shared memory size can be computed without overflow.
    pub open spec fn sizes_fit(self) -> bool {
        buffer_sizes_fit(self.recv_buffer_size_spec(), self.send_buffer_size_spec())
    }

    /// The length of this service's shared memory.
    pub open spec fn shared_memory_len_of(self) -> nat {
        shared_memory_len_spec(self.recv_buffer_size_spec(), self.send_buffer_size_spec())
    }

    /// Initializes the service for the provided buffer sizes and packet counts; a
    /// single handle may be live at a time. The first handle starts the service
    /// with `start`, given the length of the shared memory (see
    /// [`shared_memory_len_for`]): it gets the service, allocates and shares the
    /// memory and sends the [`initialize_request`]. After a lost handle, `close`
    /// releases the service first.
    pub fn init<S, E>(
        counter: &mut ServiceCounter,
        recv_buffer_size: usize,
        recv_packet_count: usize,
        send_buffer_size: usize,
        send_packet_count: usize,
        start: S,
        close: E,
    ) -> (r: Result<IrUser, Error>) where
        S: FnOnce(usize) -> Result<(), Error>,
        E: FnOnce(),
        requires
            buffer_sizes_fit(recv_buffer_size as nat, send_buffer_size as nat),
            must_start(effective_count(old(counter)@)) ==> call_requires(start, (
                shared_memory_len_spec(recv_buffer_size as nat, send_buffer_size as nat) as usize,
            )),
            old(counter)@.poisoned ==> call_requires(close, ()),
            old(counter)@.count < usize::MAX,
        ensures
            refused_as_active(effective_count(old(counter)@), false) ==> r matches Err(Error::ServiceAlreadyActive),
            final(counter)@.count == count_after_acquire(effective_count(old(counter)@), false, r is Ok),
            !final(counter)@.poisoned,
            must_start(effective_count(old(counter)@)) ==> (r is Ok ==> call_ensures(start, (
                shared_memory_len_spec(recv_buffer_size as nat, send_buffer_size as nat) as usize,
            ), Ok::<(), Error>(()))),
            must_start(effective_count(old(counter)@)) ==> (r matches Err(e) ==> call_ensures(start, (
                shared_memory_len_spec(recv_buffer_size as nat, send_buffer_size as nat) as usize,
            ), Err::<(), Error>(e))),
            r matches Ok(ir) ==> {
                &&& ir.recv_buffer_size_spec() == recv_buffer_size
                &&& ir.recv_packet_count_spec() == recv_packet_count
                &&& ir.send_buffer_size_spec() == send_buffer_size
                &&& ir.send_packet_count_spec() == send_packet_count
            },
    {
        let len = shared_memory_len_for(recv_buffer_size, send_buffer_size);
        let start_with_len = move || -> (res: Result<(), Error>)
            requires
                call_requires(start, (len,)),
            ensures
                call_ensures(start, (len,), res),
            {
                start(len)
            };
        let handler = ServiceReference::new(counter, false, start_with_len, close)?;
        Ok(IrUser {
            _service_reference: handler,
            recv_buffer_size,
            recv_packet_count,
            send_buffer_size,
            send_packet_count,
        })
    }

    /// Releases the handle; the service is closed with `close` (which releases the
    /// service and its shared memory) when it was the last.
    pub fn drop_with<E: FnOnce()>(self, counter: &mut ServiceCounter, close: E) -> (closed: bool)
        requires
            old(counter)@.count > 0,
            old(counter)@.count == 1 ==> call_requires(close, ()),
        ensures
            final(counter)@.count == old(counter)@.count - 1,
            closed == (final(counter)@.count == 0),
    {
        self._service_reference.release(counter, close)
    }

    /// The length of the shared memory: a multiple of the page size.
    pub fn shared_memory_len(&self) -> (len: usize)
        requires
            self.sizes_fit(),
        ensures
            len == shared_memory_len_spec(self.recv_buffer_size_spec(), self.send_buffer_size_spec()),
            len % PAGE_SIZE == 0,
            len >= SHARED_MEM_INFO_SECTIONS_SIZE + self.recv_buffer_size_spec() + self.send_buffer_size_spec(),
    {
        shared_memory_len_for(self.recv_buffer_size, self.send_buffer_size)
    }

    /// The request words of a command and the number of response words it expects.
    pub fn command_request(command: IrCommand) -> (r: (Vec<u32>, usize))
        ensures
            r.0@ == command_request_spec(command),
            r.1 == command_response_len_spec(command),
    {
        let mut v: Vec<u32> = Vec::new();
        match command {
            IrCommand::RequireConnection(device) => {
                v.push(make_ipc_header(6, 1, 0));
                v.push(device.get_id());
                (v, 2)
            },
            IrCommand::Disconnect => {
                v.push(make_ipc_header(9, 0, 0));
                (v, 2)
            },
            IrCommand::GetReceiveEvent => {
                v.push(make_ipc_header(10, 0, 0));
                (v, 4)
            },
            IrCommand::GetConnectionStatusEvent => {
                v.push(make_ipc_header(12, 0, 0));
                (v, 4)
            },
            IrCommand::SendIrNop { payload_len, payload_address } => {
                v.push(make_ipc_header(13, 1, 2));
                v.push(payload_len);
                v.push((2u64 + (payload_len as u64) * 0x4000) as u32);
                v.push(payload_address);
                (v, 2)
            },
            IrCommand::ReleaseReceivedData(count) => {
                v.push(make_ipc_header(25, 1, 0));
                v.push(count);
                (v, 2)
            },
        }
    }

    /// The packet that asks a Circle Pad Pro to send back its current input every
    /// `period_ms` milliseconds.
    pub fn input_polling_packet(period_ms: u8) -> (p: Vec<u8>)
        requires
            period_ms <= 253,
        ensures
            p@ == input_polling_packet_spec(period_ms),
    {
        let mut p: Vec<u8> = Vec::new();
        p.push(1);
        p.push(period_ms);
        let n = period_ms + 2;
        p.push((((n as u32) * 4) % 256) as u8);
        p
    }

    /// Hands the service's shared memory to `process_fn`; the memory is the one
    /// shared when the service was started, of length
    /// [`IrUser::shared_memory_len_of`].
    pub fn process_shared_memory<F: FnOnce(&[u8])>(&self, shared_memory: &[u8], process_fn: F)
        requires
            shared_memory@.len() == self.shared_memory_len_of(),
            call_requires(process_fn, (shared_memory,)),
        ensures
            call_ensures(process_fn, (shared_memory,), ()),
    {
        process_fn(shared_memory)
    }
}


/// The little-endian 32-bit number in bytes `off..off + 4` of `s`.
pub open spec fn le_u32(s: Seq<u8>, off: int) -> nat {
    s[off] as nat + 0x100 * (s[off + 1] as nat) + 0x10000 * (s[off + 2] as nat) + 0x1000000 * (s[off + 3] as nat)
}

/// Reads the little-endian 32-bit number in bytes `off..off + 4`, the byte order
/// of the 3DS.
pub fn read_u32(s: &[u8], off: usize) -> (v: u32)
    requires
        off + 4 <= s@.len(),
    ensures
        v == le_u32(s@, off as int),
{
    (s[off] as u32) + 0x100 * (s[off + 1] as u32) + 0x10000 * (s[off + 2] as u32) + 0x1000000 * (s[off + 3] as u32)
}

/// Connection status values of the ir:USER service.
#[derive(Copy, Clone, Debug, PartialEq, Eq, Structural)]
pub enum ConnectionStatus {
    /// Device is not connected.
    Disconnected,
    /// Waiting for device to connect.
    Connecting,
    /// Device is connected.
    Connected,
    /// Unknown connection status.
    Unknown(u8),
}

/// A parsed copy of the ir:USER service status (from shared memory).
#[derive(Copy, Clone, Debug)]
pub struct IrUserStatusInfo {
    /// The result of the last receive operation.
    pub recv_err_result: i32,
    /// The result of the last send operation.
    pub send_err_result: i32,
    /// The current connection status.
    pub connection_status: ConnectionStatus,
    /// The status of the connection attempt.
    pub trying_to_connect_status: u8,
    /// The role of the device in the connection.
    pub connection_role: u8,
    /// The machine ID of the device.
    pub machine_id: u8,
    /// Unknown field.
    pub unknown_field_1: u8,
    /// The network ID of the connection.
    pub network_id: u8,
    /// Unknown field.
    pub unknown_field_2: u8,
    /// Unknown field.
    pub unknown_field_3: u8,
}

/// The connection status that a status byte stands for.
pub open spec fn connection_status_of(b: u8) -> ConnectionStatus {
    if b == 0 {
        ConnectionStatus::Disconnected
    } else if b == 1 {
        ConnectionStatus::Connecting
    } else if b == 2 {
        ConnectionStatus::Connected
    } else {
        ConnectionStatus::Unknown(b)
    }
}

/// A packet of data sent/received to/from the IR device.
#[derive(Clone, Debug)]
pub struct IrUserPacket {
    /// The magic number of the packet. Should always be 0xA5.
    pub magic_number: u8,
    /// The destination network ID.
    pub destination_network_id: u8,
    /// The length of the payload.
    pub payload_length: usize,
    /// The payload data.
    pub payload: Vec<u8>,
    /// The checksum of the packet.
    pub checksum: u8,
}

/// The mathematical value of a packet.
pub struct PacketModel {
    /// The magic number.
    pub magic_number: u8,
    /// The destination network ID.
    pub destination_network_id: u8,
    /// The length of the payload.
    pub payload_length: nat,
    /// The payload.
    pub payload: Seq<u8>,
    /// The checksum.
    pub checksum: u8,
}

impl View for IrUserPacket {
    type V = PacketModel;

    open spec fn view(&self) -> PacketModel {
        PacketModel {
            magic_number: self.magic_number,
            destination_network_id: self.destination_network_id,
            payload_length: self.payload_length as nat,
            payload: self.payload@,
            checksum: self.checksum,
        }
    }
}

/// Whether the packets in the shared memory `s` can be read for a receive buffer
/// of `rbs` bytes holding `rpc` packets: the header words are present and, when
/// there is a packet, the packet count is positive, the data part of the
/// receive buffer is not empty and the receive buffer lies within `s`.
pub open spec fn packets_readable(s: Seq<u8>, rbs: nat, rpc: nat) -> bool {
    &&& s.len() >= 0x1c
    &&& le_u32(s, 0x18) > 0 ==> {
        &&& rpc > 0
        &&& rbs > rpc * 8
        &&& s.len() >= 0x20 + rbs
    }
}

/// Offset of the information entry of the `i`-th valid packet.
pub open spec fn packet_info_offset(s: Seq<u8>, rpc: nat, i: nat) -> nat {
    0x20 + ((i + le_u32(s, 0x10)) % rpc) * 8
}

/// Byte `idx` of the data of a packet whose data starts at `data_offset` in the
/// circular data part of the receive buffer.
pub open spec fn packet_byte(s: Seq<u8>, rbs: nat, rpc: nat, data_offset: nat, idx: nat) -> u8 {
    s[(0x20 + rpc * 8 + (data_offset + idx) % ((rbs - rpc * 8) as nat)) as int]
}

/// The payload length and the offset of the payload within a packet, read from
/// its third (and, for long payloads, fourth) byte.
pub open spec fn payload_shape(b2: u8, b3: u8) -> (nat, nat) {
    if bit_set(b2 as nat, 6) {
        (bit_field(b2 as nat, 0, 6) * 256 + b3 as nat, 4)
    } else {
        (bit_field(b2 as nat, 0, 6), 3)
    }
}

/// The message for a packet whose length does not match its information entry.
pub open spec fn payload_length_message(expected: nat, got: nat) -> Seq<char> {
    "Invalid payload length (expected "@ + dec_digits(expected) + ", got "@ + dec_digits(got) + ")"@
}

/// The message for a packet with a wrong magic number.
pub open spec fn magic_message(magic: u8) -> Seq<char> {
    "Invalid magic number in packet: "@ + "0x"@ + hex_digits(magic as nat, false) + ", expected 0xA5"@
}

/// The `i`-th valid packet of the shared memory, or the message that explains why
/// it is not a well-formed packet.
pub open spec fn parse_packet(s: Seq<u8>, rbs: nat, rpc: nat, i: nat) -> Result<PacketModel, Seq<char>> {
    let info = packet_info_offset(s, rpc, i);
    let data_offset = le_u32(s, info as int);
    let data_length = le_u32(s, info + 4 as int);
    let b = |idx: nat| packet_byte(s, rbs, rpc, data_offset, idx);
    let (len, off) = payload_shape(b(2), b(3));
    if data_length != off + len + 1 {
        Err(payload_length_message(data_length, off + len + 1))
    } else if b(0) != 0xA5 {
        Err(magic_message(b(0)))
    } else {
        Ok(PacketModel {
            magic_number: b(0),
            destination_network_id: b(1),
            payload_length: len,
            payload: Seq::new(len, |k: int| b((off + k) as nat)),
            checksum: b(off + len),
        })
    }
}

/// The first `n` valid packets, or the message of the first one that is not
/// well-formed.
pub open spec fn parse_packets(s: Seq<u8>, rbs: nat, rpc: nat, n: nat) -> Result<Seq<PacketModel>, Seq<char>>
    decreases n,
{
    if n == 0 {
        Ok(Seq::empty())
    } else {
        match parse_packets(s, rbs, rpc, (n - 1) as nat) {
            Err(e) => Err(e),
            Ok(ps) => match parse_packet(s, rbs, rpc, (n - 1) as nat) {
                Err(e) => Err(e),
                Ok(p) => Ok(ps.push(p)),
            },
        }
    }
}

/// Once a packet fails to parse, every longer prefix fails with the same message.
proof fn lemma_parse_error_persists(s: Seq<u8>, rbs: nat, rpc: nat, k: nat, n: nat)
    requires
        k <= n,
        parse_packets(s, rbs, rpc, k) is Err,
    ensures
        parse_packets(s, rbs, rpc, n) == parse_packets(s, rbs, rpc, k),
    decreases n - k,
{
    if k < n {
        lemma_parse_error_persists(s, rbs, rpc, k, (n - 1) as nat);
    }
}

/// The packets that `get_packets` reports for the shared memory `s`: every valid
/// packet, or the message of the first malformed one.
pub open spec fn packets_in(s: Seq<u8>, rbs: nat, rpc: nat) -> Result<Seq<PacketModel>, Seq<char>> {
    parse_packets(s, rbs, rpc, le_u32(s, 0x18))
}

/// The text of a parse result, with packets taken by their value.
pub open spec fn packets_result_view(r: Result<Vec<IrUserPacket>, String>) -> Result<Seq<PacketModel>, Seq<char>> {
    match r {
        Ok(v) => Ok(v@.map_values(|p: IrUserPacket| p@)),
        Err(e) => Err(e@),
    }
}

/// Reads byte `idx` of the data of a packet (see [`packet_byte`]).
fn read_packet_byte(s: &[u8], rbs: usize, rpc: usize, data_offset: u32, idx: usize) -> (b: u8)
    requires
        rpc > 0,
        rbs > rpc * 8,
        s@.len() >= 0x20 + rbs,
        idx < 0x10000,
    ensures
        b == packet_byte(s@, rbs as nat, rpc as nat, data_offset as nat, idx as nat),
{
    let n = s.len();
    let section = rpc * 8;
    let data_buffer_size = rbs - section;
    let m = (data_offset as u64 + idx as u64) % (data_buffer_size as u64);
    assert(m < data_buffer_size);
    let pos = m as usize;
    assert(pos == (data_offset as nat + idx as nat) % (data_buffer_size as nat));
    s[0x20 + section + pos]
}

impl IrUser {
    /// Read and parse the ir:USER service status data from the shared memory.
    pub fn get_status_info(&self, shared_memory: &[u8]) -> (info: IrUserStatusInfo)
        requires
            shared_memory@.len() >= 16,
        ensures
            info.recv_err_result == le_u32(shared_memory@, 0) as u32 as i32,
            info.send_err_result == le_u32(shared_memory@, 4) as u32 as i32,
            info.connection_status == connection_status_of(shared_memory@[8]),
            info.trying_to_connect_status == shared_memory@[9],
            info.connection_role == shared_memory@[10],
            info.machine_id == shared_memory@[11],
            info.unknown_field_1 == shared_memory@[12],
            info.network_id == shared_memory@[13],
            info.unknown_field_2 == shared_memory@[14],
            info.unknown_field_3 == shared_memory@[15],
    {
        IrUserStatusInfo {
            recv_err_result: read_u32(shared_memory, 0) as i32,
            send_err_result: read_u32(shared_memory, 4) as i32,
            connection_status: match shared_memory[8] {
                0 => ConnectionStatus::Disconnected,
                1 => ConnectionStatus::Connecting,
                2 => ConnectionStatus::Connected,
                n => ConnectionStatus::Unknown(n),
            },
            trying_to_connect_status: shared_memory[9],
            connection_role: shared_memory[10],
            machine_id: shared_memory[11],
            unknown_field_1: shared_memory[12],
            network_id: shared_memory[13],
            unknown_field_2: shared_memory[14],
            unknown_field_3: shared_memory[15],
        }
    }

    /// Parses the `i`-th valid packet of the shared memory.
    fn parse_one(&self, s: &[u8], i: u32) -> (r: Result<IrUserPacket, String>)
        requires
            self.recv_packet_count > 0,
            self.recv_buffer_size > self.recv_packet_count * 8,
            s@.len() >= 0x20 + self.recv_buffer_size,
        ensures
            match r {
                Ok(p) => parse_packet(s@, self.recv_buffer_size as nat, self.recv_packet_count as nat, i as nat)
                    == Ok::<PacketModel, Seq<char>>(p@),
                Err(e) => parse_packet(s@, self.recv_buffer_size as nat, self.recv_packet_count as nat, i as nat)
                    == Err::<PacketModel, Seq<char>>(e@),
            },
    {
        let rbs = self.recv_buffer_size;
        let rpc = self.recv_packet_count;
        let ghost gs = s@;
        let n = s.len();
        proof {
            vstd::arithmetic::power2::lemma2_to64();
        }
        let start = read_u32(s, 0x10);
        let m = (i as u64 + start as u64) % (rpc as u64);
        assert(m < rpc);
        let packet_index = m as usize;
        assert(packet_index * 8 <= rpc * 8) by (nonlinear_arith)
            requires
                packet_index < rpc,
        ;
        let info = SHARED_MEM_RECV_BUFFER_OFFSET + packet_index * PACKET_INFO_SIZE;
        assert(info + 8 <= 0x20 + rpc * 8) by (nonlinear_arith)
            requires
                packet_index < rpc,
                info == 0x20 + packet_index * 8,
        ;
        let data_offset = read_u32(s, info);
        let data_length = read_u32(s, info + 4) as usize;
        let b2 = read_packet_byte(s, rbs, rpc, data_offset, 2);
        let b3 = read_packet_byte(s, rbs, rpc, data_offset, 3);
        let (payload_length, payload_offset): (usize, usize) = if bit_u32(b2 as u32, 6) {
            ((field_u32(b2 as u32, 0, 6) as usize) * 256 + b3 as usize, 4)
        } else {
            (field_u32(b2 as u32, 0, 6) as usize, 3)
        };
        assert(payload_length < 0x4000);
        let ghost spec_b = |idx: nat| packet_byte(gs, rbs as nat, rpc as nat, data_offset as nat, idx);
        assert(payload_shape(spec_b(2), spec_b(3)) == (payload_length as nat, payload_offset as nat));
        let total = payload_offset + payload_length + 1;
        if data_length != total {
            let expected = decimal_string(data_length as u64);
            let got = decimal_string(total as u64);
            let mut msg = String::from_str("Invalid payload length (expected ");
            msg.append(expected.as_str());
            msg.append(", got ");
            msg.append(got.as_str());
            msg.append(")");
            return Err(msg);
        }
        let magic_number = read_packet_byte(s, rbs, rpc, data_offset, 0);
        if magic_number != 0xA5 {
            let hex = hex_string_prefixed(magic_number as u64);
            let mut msg = String::from_str("Invalid magic number in packet: ");
            msg.append(hex.as_str());
            msg.append(", expected 0xA5");
            assert(msg@ =~= magic_message(magic_number));
            return Err(msg);
        }
        let destination_network_id = read_packet_byte(s, rbs, rpc, data_offset, 1);
        let mut payload: Vec<u8> = Vec::new();
        let mut k: usize = 0;
        while k < payload_length
            invariant
                k <= payload_length,
                payload_length < 0x4000,
                payload_offset <= 4,
                rpc > 0,
                rbs > rpc * 8,
                s@.len() >= 0x20 + rbs,
                payload@ == Seq::new(k as nat, |j: int| packet_byte(gs, rbs as nat, rpc as nat, data_offset as nat, (payload_offset + j) as nat)),
                gs == s@,
            decreases payload_length - k,
        {
            let b = read_packet_byte(s, rbs, rpc, data_offset, payload_offset + k);
            payload.push(b);
            k = k + 1;
            assert(payload@ =~= Seq::new(k as nat, |j: int| packet_byte(gs, rbs as nat, rpc as nat, data_offset as nat, (payload_offset + j) as nat)));
        }
        let checksum = read_packet_byte(s, rbs, rpc, data_offset, payload_offset + payload_length);
        let p = IrUserPacket {
            magic_number,
            destination_network_id,
            payload_length,
            payload,
            checksum,
        };
        assert(p@.payload =~= Seq::new(payload_length as nat, |j: int| spec_b((payload_offset + j) as nat)));
        Ok(p)
    }

    /// Read and parse the current packets received from the IR device. Stops at
    /// the first malformed packet and reports why it is malformed.
    pub fn get_packets(&self, shared_memory: &[u8]) -> (r: Result<Vec<IrUserPacket>, String>)
        requires
            packets_readable(shared_memory@, self.recv_buffer_size_spec(), self.recv_packet_count_spec()),
        ensures
            packets_result_view(r) == packets_in(
                shared_memory@,
                self.recv_buffer_size_spec(),
                self.recv_packet_count_spec(),
            ),
    {
        let ghost rbs = self.recv_buffer_size as nat;
        let ghost rpc = self.recv_packet_count as nat;
        let valid_packet_count = read_u32(shared_memory, 0x18);
        let mut out: Vec<IrUserPacket> = Vec::new();
        let mut i: u32 = 0;
        assert(out@.map_values(|p: IrUserPacket| p@) =~= Seq::<PacketModel>::empty());
        while i < valid_packet_count
            invariant
                i <= valid_packet_count,
                valid_packet_count == le_u32(shared_memory@, 0x18),
                packets_readable(shared_memory@, rbs, rpc),
                rbs == self.recv_buffer_size,
                rpc == self.recv_packet_count,
                parse_packets(shared_memory@, rbs, rpc, i as nat)
                    == Ok::<Seq<PacketModel>, Seq<char>>(out@.map_values(|p: IrUserPacket| p@)),
            decreases valid_packet_count - i,
        {
            match self.parse_one(shared_memory, i) {
                Ok(p) => {
                    let ghost before = out@;
                    out.push(p);
                    assert(out@.map_values(|q: IrUserPacket| q@)
                        =~= before.map_values(|q: IrUserPacket| q@).push(p@));
                },
                Err(e) => {
                    proof {
                        lemma_parse_error_persists(shared_memory@, rbs, rpc, (i + 1) as nat,
                            valid_packet_count as nat);
                    }
                    return Err(e);
                },
            }
            i = i + 1;
        }
        Ok(out)
    }
}

/// Circle Pad Pro response packet holding the current device input signals and status.
#[derive(Copy, Clone, Debug)]
pub struct CirclePadProInputResponse {
    /// The X value of the C-stick.
    pub c_stick_x: u16,
    /// The Y value of the C-stick.
    pub c_stick_y: u16,
    /// The battery level of the Circle Pad Pro.
    pub battery_level: u8,
    /// Whether the ZL button is pressed.
    pub zl_pressed: bool,
    /// Whether the ZR button is pressed.
    pub zr_pressed: bool,
    /// Whether the R button is pressed.
    pub r_pressed: bool,
    /// Unknown field.
    pub unknown_field: u8,
}

impl Default for CirclePadProInputResponse {
    fn default() -> (r: Self)
        ensures
            r.c_stick_x == 0 && r.c_stick_y == 0 && r.battery_level == 0,
            !r.zl_pressed && !r.zr_pressed && !r.r_pressed,
            r.unknown_field == 0,
    {
        CirclePadProInputResponse {
            c_stick_x: 0,
            c_stick_y: 0,
            battery_level: 0,
            zl_pressed: false,
            zr_pressed: false,
            r_pressed: false,
            unknown_field: 0,
        }
    }
}

/// The input response carried by a 6-byte payload: the C-stick position (12 bits
/// per axis), the battery level (low 5 bits of the fifth byte) and the ZL, ZR and R
/// buttons (bits 5, 6 and 7 of the fifth byte, clear when pressed).
pub open spec fn input_response_of(p: Seq<u8>) -> CirclePadProInputResponse {
    CirclePadProInputResponse {
        c_stick_x: (p[1] as nat + (p[2] as nat % 16) * 256) as u16,
        c_stick_y: (p[2] as nat / 16 + (p[3] as nat) * 16) as u16,
        battery_level: (p[4] as nat % 32) as u8,
        zl_pressed: !bit_set(p[4] as nat, 5),
        zr_pressed: !bit_set(p[4] as nat, 6),
        r_pressed: !bit_set(p[4] as nat, 7),
        unknown_field: p[5],
    }
}

impl CirclePadProInputResponse {
    /// Reads the input response of a Circle Pad Pro packet. The payload must hold
    /// exactly 6 bytes, the first of which is the response id `0x10`.
    pub fn try_from(packet: &IrUserPacket) -> (r: Result<CirclePadProInputResponse, String>)
        ensures
            packet.payload@.len() != 6 ==> r is Err && r->Err_0@ == "Invalid payload length (expected 6 bytes, got "@
                + dec_digits(packet.payload@.len()) + ")"@,
            packet.payload@.len() == 6 && packet.payload@[0] != 0x10 ==> r is Err
                && r->Err_0@ == "Invalid response ID (expected 16, got "@ + "0x"@ + hex_digits(
                packet.payload@[0] as nat,
                false,
            ),
            packet.payload@.len() == 6 && packet.payload@[0] == 0x10 ==> r == Ok::<CirclePadProInputResponse, String>(
                input_response_of(packet.payload@),
            ),
    {
        if packet.payload.len() != 6 {
            let n = decimal_string(packet.payload.len() as u64);
            let mut msg = String::from_str("Invalid payload length (expected 6 bytes, got ");
            msg.append(n.as_str());
            msg.append(")");
            return Err(msg);
        }
        let response_id = packet.payload[0];
        if response_id != CIRCLE_PAD_PRO_INPUT_RESPONSE_PACKET_ID {
            let hex = hex_string_prefixed(packet.payload[0] as u64);
            let mut msg = String::from_str("Invalid response ID (expected 16, got ");
            msg.append(hex.as_str());
            return Err(msg);
        }
        let p1 = packet.payload[1] as u16;
        let p2 = packet.payload[2] as u16;
        let p3 = packet.payload[3] as u16;
        let p4 = packet.payload[4] as u32;
        let c_stick_x = p1 + (p2 % 16) * 256;
        let c_stick_y = p2 / 16 + p3 * 16;
        let battery_level = (p4 % 32) as u8;
        let zl_pressed = !bit_u32(p4, 5);
        let zr_pressed = !bit_u32(p4, 6);
        let r_pressed = !bit_u32(p4, 7);
        let unknown_field = packet.payload[5];
        Ok(CirclePadProInputResponse {
            c_stick_x,
            c_stick_y,
            battery_level,
            zl_pressed,
            zr_pressed,
            r_pressed,
            unknown_field,
        })
    }
}

/// The fields of a Circle Pad Pro input response, read from its payload with
/// masks and shifts: the C-stick's X is the second byte plus the low nibble of
/// the third shifted up by 8; its Y is the high nibble of the third byte shifted
/// down by 4 plus the fourth byte shifted up by 4; the battery level is the low 5
/// bits of the fifth byte; ZL, ZR and R are pressed when bits `0x20`, `0x40` and
/// `0x80` of the fifth byte are clear; the sixth byte is kept as it is.
pub proof fn circle_pad_pro_fields_by_mask(p: Seq<u8>)
    requires
        p.len() == 6,
    ensures
        input_response_of(p).c_stick_x == (p[1] as u16) + (((p[2] & 0x0Fu8) as u16) << 8u16),
        input_response_of(p).c_stick_y == (((p[2] & 0xF0u8) as u16) >> 4u16) + ((p[3] as u16) << 4u16),
        input_response_of(p).battery_level == p[4] & 0x1Fu8,
        input_response_of(p).zl_pressed == (p[4] & 0x20u8 == 0),
        input_response_of(p).zr_pressed == (p[4] & 0x40u8 == 0),
        input_response_of(p).r_pressed == (p[4] & 0x80u8 == 0),
        input_response_of(p).unknown_field == p[5],
{
    vstd::arithmetic::power2::lemma2_to64();
    let b1 = p[1];
    let b2 = p[2];
    let b3 = p[3];
    let b4 = p[4];
    assert(((b4 / 32) % 2 == 1) == (b4 & 0x20u8 != 0)) by (bit_vector);
    assert(((b4 / 64) % 2 == 1) == (b4 & 0x40u8 != 0)) by (bit_vector);
    assert(((b4 / 128) % 2 == 1) == (b4 & 0x80u8 != 0)) by (bit_vector);
    assert(b4 % 32 == b4 & 0x1Fu8) by (bit_vector);
    assert((b1 as u16) + (((b2 & 0x0Fu8) as u16) << 8u16) == b1 + (b2 % 16) * 256) by (bit_vector);
    assert((((b2 & 0xF0u8) as u16) >> 4u16) + ((b3 as u16) << 4u16) == b2 / 16 + b3 * 16) by (bit_vector);
}

/// The first `n` packets parse exactly when each of them does, and then they come
/// in order.
proof fn lemma_parse_packets_ok(s: Seq<u8>, rbs: nat, rpc: nat, n: nat)
    ensures
        (parse_packets(s, rbs, rpc, n) is Ok) == (forall|i: nat| i < n ==> #[trigger] parse_packet(s, rbs, rpc, i) is Ok),
        parse_packets(s, rbs, rpc, n) matches Ok(ps) ==> ps.len() == n && forall|i: int| 0 <= i < n ==> parse_packet(
            s,
            rbs,
            rpc,
            i as nat,
        ) == Ok::<PacketModel, Seq<char>>(#[trigger] ps[i]),
    decreases n,
{
    if n > 0 {
        lemma_parse_packets_ok(s, rbs, rpc, (n - 1) as nat);
        if parse_packets(s, rbs, rpc, n) is Ok {
            assert forall|i: nat| i < n implies #[trigger] parse_packet(s, rbs, rpc, i) is Ok by {
                if i < n - 1 {
                    assert(parse_packet(s, rbs, rpc, i) is Ok);
                }
            }
        }
        if forall|i: nat| i < n ==> #[trigger] parse_packet(s, rbs, rpc, i) is Ok {
            assert forall|i: nat| i < n - 1 implies #[trigger] parse_packet(s, rbs, rpc, i) is Ok by {
                assert(i < n);
            }
            assert(parse_packet(s, rbs, rpc, (n - 1) as nat) is Ok);
        }
    }
}

/// Byte `k` of the data of the `i`-th valid packet, found through the packet
/// information entry that the ring buffer's start index (the word at `0x10`)
/// designates: entry `(i + start) mod rpc` of the table at `0x20`, whose first
/// word is the data's offset in the circular data part that follows the table.
pub open spec fn ring_packet_byte(s: Seq<u8>, rbs: nat, rpc: nat, i: nat, k: nat) -> u8 {
    let entry = 0x20 + ((i + le_u32(s, 0x10)) % rpc) * 8;
    let data = le_u32(s, entry as int);
    s[(0x20 + rpc * 8 + (data + k) % ((rbs - rpc * 8) as nat)) as int]
}

/// The data length that the information entry of the `i`-th valid packet gives,
/// that entry being `(i + start) mod rpc` with `start` the word at `0x10`.
pub open spec fn ring_packet_len(s: Seq<u8>, rpc: nat, i: nat) -> nat {
    le_u32(s, (0x20 + ((i + le_u32(s, 0x10)) % rpc) * 8 + 4) as int)
}

/// Whether the `i`-th valid packet, found through the ring buffer's start index,
/// is well-formed: its data begins with the magic number `0xA5` and has the
/// length its information entry gives (header, payload and checksum).
pub open spec fn ring_packet_ok(s: Seq<u8>, rbs: nat, rpc: nat, i: nat) -> bool {
    let shape = payload_shape(ring_packet_byte(s, rbs, rpc, i, 2), ring_packet_byte(s, rbs, rpc, i, 3));
    &&& ring_packet_byte(s, rbs, rpc, i, 0) == 0xA5
    &&& ring_packet_len(s, rpc, i) == shape.1 + shape.0 + 1
}

/// Whether `p` is what the data of the `i`-th valid packet holds: the first two
/// bytes as magic number and destination, the last as checksum and the payload
/// right before it.
pub open spec fn ring_packet_holds(s: Seq<u8>, rbs: nat, rpc: nat, i: nat, p: PacketModel) -> bool {
    let len = ring_packet_len(s, rpc, i);
    &&& p.magic_number == ring_packet_byte(s, rbs, rpc, i, 0)
    &&& p.destination_network_id == ring_packet_byte(s, rbs, rpc, i, 1)
    &&& p.checksum == ring_packet_byte(s, rbs, rpc, i, (len - 1) as nat)
    &&& p.payload == Seq::new(
        p.payload_length,
        |k: int| ring_packet_byte(s, rbs, rpc, i, (len - 1 - p.payload_length + k) as nat),
    )
}

/// One packet read through its ring-buffer entry.
proof fn lemma_packet_from_ring(s: Seq<u8>, rbs: nat, rpc: nat, i: nat)
    ensures
        (parse_packet(s, rbs, rpc, i) is Ok) == ring_packet_ok(s, rbs, rpc, i),
        parse_packet(s, rbs, rpc, i) matches Ok(p) ==> ring_packet_holds(s, rbs, rpc, i, p),
{
    if parse_packet(s, rbs, rpc, i) is Ok {
        let p = parse_packet(s, rbs, rpc, i)->Ok_0;
        let len = ring_packet_len(s, rpc, i);
        assert(p.payload =~= Seq::new(
            p.payload_length,
            |k: int| ring_packet_byte(s, rbs, rpc, i, (len - 1 - p.payload_length + k) as nat),
        ));
    }
}

/// The packets reported for the shared memory follow the ring buffer's start
/// index: the `i`-th of the `le_u32(s, 0x18)` valid packets is described by the
/// information entry `(i + start) mod rpc`, `start` being the word at `0x10`.
/// The packets are all reported exactly when each is well-formed (see
/// [`ring_packet_ok`]), and each reported packet is what its data holds (see
/// [`ring_packet_holds`]).
pub proof fn packets_follow_ring_start(s: Seq<u8>, rbs: nat, rpc: nat)
    requires
        packets_readable(s, rbs, rpc),
    ensures
        (packets_in(s, rbs, rpc) is Ok) == (forall|i: nat| i < le_u32(s, 0x18) ==> #[trigger] ring_packet_ok(s, rbs, rpc, i)),
        packets_in(s, rbs, rpc) matches Ok(ps) ==> ps.len() == le_u32(s, 0x18) && forall|i: int| 0 <= i < ps.len()
            ==> ring_packet_holds(s, rbs, rpc, i as nat, #[trigger] ps[i]),
{
    let n = le_u32(s, 0x18);
    lemma_parse_packets_ok(s, rbs, rpc, n);
    assert forall|i: nat| i < n implies (#[trigger] parse_packet(s, rbs, rpc, i) is Ok) == ring_packet_ok(s, rbs, rpc, i) by {
        lemma_packet_from_ring(s, rbs, rpc, i);
    }
    assert forall|i: nat| i < n implies (parse_packet(s, rbs, rpc, i) is Ok) == #[trigger] ring_packet_ok(s, rbs, rpc, i) by {
        lemma_packet_from_ring(s, rbs, rpc, i);
    }
    if packets_in(s, rbs, rpc) is Ok {
        let ps = packets_in(s, rbs, rpc)->Ok_0;
        assert forall|i: int| 0 <= i < ps.len() implies ring_packet_holds(s, rbs, rpc, i as nat, #[trigger] ps[i]) by {
            lemma_packet_from_ring(s, rbs, rpc, i as nat);
        }
    }
}

/// The words of the shared memory are little-endian: reading the number back byte
/// by byte, from the bottom, gives the bytes at `off`, `off + 1`, `off + 2` and
/// `off + 3` in order.
pub proof fn shared_memory_words_are_little_endian(s: Seq<u8>, off: int)
    requires
        0 <= off,
        off + 4 <= s.len(),
    ensures
        le_u32(s, off) < 0x1_0000_0000,
        le_u32(s, off) % 0x100 == s[off],
        (le_u32(s, off) / 0x100) % 0x100 == s[off + 1],
        (le_u32(s, off) / 0x10000) % 0x100 == s[off + 2],
        le_u32(s, off) / 0x1000000 == s[off + 3],
{
    let (b0, b1, b2, b3) = (s[off] as int, s[off + 1] as int, s[off + 2] as int, s[off + 3] as int);
    assert(0 <= b0 < 256 && 0 <= b1 < 256 && 0 <= b2 < 256 && 0 <= b3 < 256);
    let v = b0 + 0x100 * b1 + 0x10000 * b2 + 0x1000000 * b3;
    assert(v < 0x1_0000_0000 && v % 0x100 == b0 && (v / 0x100) % 0x100 == b1 && (v / 0x10000) % 0x100 == b2
        && v / 0x1000000 == b3) by (nonlinear_arith)
        requires
            0 <= b0 < 256,
            0 <= b1 < 256,
            0 <= b2 < 256,
            0 <= b3 < 256,
            v == b0 + 0x100 * b1 + 0x10000 * b2 + 0x1000000 * b3,
    ;
}

/// A packet's payload length is variable-length encoded in its third and fourth
/// bytes: when bit `0x40` of the third byte is set, the length is the low 6 bits
/// of the third byte shifted up by 8 plus the fourth byte, and the payload starts
/// at byte 4; otherwise the length is the low 6 bits of the third byte, and the
/// payload starts at byte 3.
pub proof fn payload_length_encoding(b2: u8, b3: u8)
    ensures
        b2 & 0x40u8 != 0 ==> payload_shape(b2, b3) == (((((b2 & 0x3Fu8) as u16) << 8u16) + b3) as nat, 4nat),
        b2 & 0x40u8 == 0 ==> payload_shape(b2, b3) == ((b2 & 0x3Fu8) as nat, 3nat),
{
    vstd::arithmetic::power2::lemma2_to64();
    assert(((b2 / 64) % 2 == 1) == (b2 & 0x40u8 != 0)) by (bit_vector);
    assert(b2 % 64 == b2 & 0x3Fu8) by (bit_vector);
    assert((((b2 & 0x3Fu8) as u16) << 8u16) == (b2 % 64) * 256) by (bit_vector);
}

/// The connection status byte: 0 disconnected, 1 connecting, 2 connected, and any
/// other value an unknown status that keeps the byte.
pub proof fn connection_status_values(b: u8)
    ensures
        connection_status_of(0) == ConnectionStatus::Disconnected,
        connection_status_of(1) == ConnectionStatus::Connecting,
        connection_status_of(2) == ConnectionStatus::Connected,
        b > 2 ==> connection_status_of(b) == ConnectionStatus::Unknown(b),
{
}

} // verus!
