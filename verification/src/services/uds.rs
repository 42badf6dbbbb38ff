//! UDS (local networking) service: the state of a handle (disconnected, client
//! or host), the checks made before each request, and the values exchanged with
//! the system.
use vstd::prelude::*;
use vstd::string::StringSliceAdditionalSpecFns;
use vstd::std_specs::convert::{FromSpecImpl, TryFromSpecImpl};
use crate::error::{Error as CtruError, is_failure_code};
use crate::services::reference::{ServiceCounter, ServiceReference, count_after_acquire, effective_count, must_start, refused_as_active};
use crate::text::{dec_digits, decimal_string};
use crate::utf16::{decode_utf16_lossy, decode_utf16_lossy_spec};
use crate::error::{error_text, spec_description, spec_level, spec_module, spec_summary};

verus! {

/// Longest username accepted, in bytes.
pub const MAX_USERNAME_LEN: usize = 10;

/// The most nodes a network can hold.
pub const MAX_NODES: u8 = 16;

/// The most application data a hosted network can carry, in bytes.
pub const MAX_APPDATA_SIZE: usize = 200;

/// Node ID of the host of a network.
pub const HOST_NODE_ID: u16 = 1;

/// Node ID that addresses every node of a network.
pub const BROADCAST_NODE_ID: u16 = 0xFFFF;

/// Size of the shared memory handed to the service.
pub const SHAREDMEM_SIZE: usize = 0x3000;

/// Size of the buffer used while scanning for networks.
pub const SCAN_BUF_SIZE: usize = 0x4000;

/// The result code by which a send reports that the service is busy; a send
/// that gets it is not an error.
pub const SEND_BUSY_RESULT: i32 = -933162000;

/// Send flag with no documented effect.
pub const SEND_FLAG_DEFAULT: u8 = 1;

/// Send flag: broadcast the data frame even when sending to a non-broadcast
/// address.
pub const SEND_FLAG_BROADCAST: u8 = 2;

/// Flags used for sending packets to a network.
#[derive(Debug, Clone, Copy, PartialEq, Eq, Structural)]
pub struct SendFlags {
    bits: u8,
}

impl SendFlags {
    /// The raw bits of the flags.
    pub closed spec fn bits_spec(self) -> u8 {
        self.bits
    }

    /// The raw bits of the flags.
    pub fn bits(&self) -> (b: u8)
        ensures
            b == self.bits_spec(),
    {
        self.bits
    }

    /// The flags among `bits` that have a meaning; the others are dropped.
    pub fn from_bits_truncate(bits: u8) -> (f: SendFlags)
        ensures
            f.bits_spec() == bits & 3,
    {
        SendFlags { bits: bits & 3 }
    }

    /// No flag set.
    pub fn empty() -> (f: SendFlags)
        ensures
            f.bits_spec() == 0,
    {
        SendFlags { bits: 0 }
    }
}

/// Error enum for generic errors within the [`Uds`] service.
#[derive(Debug)]
pub enum Error {
    /// The provided username was too long.
    UsernameTooLong,
    /// The provided username contained a NULL byte (at the given position).
    UsernameContainsNull(usize),
    /// Not connected to a network.
    NotConnected,
    /// No context bound.
    NoContext,
    /// Cannot send data on a network as a spectator.
    Spectator,
    /// No network created.
    NoNetwork,
    /// The provided app data buffer was too large.
    TooMuchAppData,
    /// The provided node ID does not reference a specific node.
    NotANode,
    /// An error of the library.
    Lib(CtruError),
}

impl From<CtruError> for Error {
    fn from(value: CtruError) -> (e: Error) {
        Error::Lib(value)
    }
}

impl FromSpecImpl<CtruError> for Error {
    open spec fn obeys_from_spec() -> bool {
        true
    }

    open spec fn from_spec(v: CtruError) -> Error {
        Error::Lib(v)
    }
}

/// The human-readable text of a UDS error.
pub open spec fn uds_error_text(e: Error) -> Seq<char> {
    match e {
        Error::UsernameTooLong => "provided username was too long (max 10 bytes, not code points)"@,
        Error::UsernameContainsNull(pos) => "provided username contained a NULL byte at position "@
            + dec_digits(pos as nat),
        Error::NotConnected => "not connected to a network"@,
        Error::NoContext => "no context bound"@,
        Error::Spectator => "cannot send data on a network as a spectator"@,
        Error::NoNetwork => "not hosting a network"@,
        Error::TooMuchAppData => "provided too much app data (max 200 bytes)"@,
        Error::NotANode => "provided node ID was non-specific"@,
        Error::Lib(e) => "ctru-rs error: "@ + error_text(e),
    }
}

impl Error {
    /// The human-readable text of the error (see [`uds_error_text`]).
    pub fn to_display_string(&self) -> (s: String)
        ensures
            s@ == uds_error_text(*self),
    {
        match self {
            Error::UsernameTooLong => String::from_str("provided username was too long (max 10 bytes, not code points)"),
            Error::UsernameContainsNull(pos) => {
                let n = decimal_string(*pos as u64);
                let mut s = String::from_str("provided username contained a NULL byte at position ");
                s.append(n.as_str());
                s
            },
            Error::NotConnected => String::from_str("not connected to a network"),
            Error::NoContext => String::from_str("no context bound"),
            Error::Spectator => String::from_str("cannot send data on a network as a spectator"),
            Error::NoNetwork => String::from_str("not hosting a network"),
            Error::TooMuchAppData => String::from_str("provided too much app data (max 200 bytes)"),
            Error::NotANode => String::from_str("provided node ID was non-specific"),
            Error::Lib(e) => {
                let inner = e.to_display_string();
                let mut s = String::from_str("ctru-rs error: ");
                s.append(inner.as_str());
                s
            },
        }
    }
}

/// Possible types of connection to a network.
#[derive(Copy, Clone, Debug, PartialEq, Eq, Structural)]
pub enum ConnectionType {
    /// A normal client. Can push packets to the network.
    Client,
    /// A spectator. Cannot push packets to the network, but doesn't need the passphrase to join.
    Spectator,
}

impl ConnectionType {
    /// The raw value of the variant.
    pub open spec fn raw_spec(self) -> u8 {
        match self {
            ConnectionType::Client => 1,
            ConnectionType::Spectator => 2,
        }
    }

    /// The variant with the given raw value, if any.
    pub open spec fn from_raw_spec(value: u8) -> Option<ConnectionType> {
        if value == 1 {
            Some(ConnectionType::Client)
        } else if value == 2 {
            Some(ConnectionType::Spectator)
        } else {
            None
        }
    }

    /// The raw value of the variant.
    pub fn raw(self) -> (r: u8)
        ensures
            r == self.raw_spec(),
    {
        match self {
            ConnectionType::Client => 1,
            ConnectionType::Spectator => 2,
        }
    }

    /// The variant with the given raw value, if any.
    pub fn from_raw(value: u8) -> (r: Option<ConnectionType>)
        ensures
            r == Self::from_raw_spec(value),
    {
        match value {
            1 => Some(ConnectionType::Client),
            2 => Some(ConnectionType::Spectator),
            _ => None,
        }
    }
}

impl From<ConnectionType> for u8 {
    fn from(v: ConnectionType) -> (r: u8) {
        v.raw()
    }
}

impl FromSpecImpl<ConnectionType> for u8 {
    open spec fn obeys_from_spec() -> bool {
        true
    }

    open spec fn from_spec(v: ConnectionType) -> u8 {
        v.raw_spec()
    }
}

impl TryFrom<u8> for ConnectionType {
    type Error = ();

    fn try_from(value: u8) -> (r: Result<ConnectionType, ()>) {
        match ConnectionType::from_raw(value) {
            Some(v) => Ok(v),
            None => Err(()),
        }
    }
}

impl TryFromSpecImpl<u8> for ConnectionType {
    open spec fn obeys_try_from_spec() -> bool {
        true
    }

    open spec fn try_from_spec(value: u8) -> Result<ConnectionType, ()> {
        match ConnectionType::from_raw_spec(value) {
            Some(v) => Ok(v),
            None => Err(()),
        }
    }
}

/// Possible raw connection status values.
#[derive(Copy, Clone, Debug, PartialEq, Eq, Structural)]
pub enum ConnectionStatusInfo {
    /// Not connected to any network.
    Disconnected,
    /// Connected as a host.
    Host,
    /// Connected as a client.
    Client,
    /// Connected as a spectator.
    Spectator,
    /// Unknown
    Unknown,
}

impl ConnectionStatusInfo {
    /// The raw value of the variant.
    pub open spec fn raw_spec(self) -> u32 {
        match self {
            ConnectionStatusInfo::Disconnected => 3,
            ConnectionStatusInfo::Host => 6,
            ConnectionStatusInfo::Client => 9,
            ConnectionStatusInfo::Spectator => 10,
            ConnectionStatusInfo::Unknown => 11,
        }
    }

    /// The variant with the given raw value, if any.
    pub open spec fn from_raw_spec(value: u32) -> Option<ConnectionStatusInfo> {
        if value == 3 {
            Some(ConnectionStatusInfo::Disconnected)
        } else if value == 6 {
            Some(ConnectionStatusInfo::Host)
        } else if value == 9 {
            Some(ConnectionStatusInfo::Client)
        } else if value == 10 {
            Some(ConnectionStatusInfo::Spectator)
        } else if value == 11 {
            Some(ConnectionStatusInfo::Unknown)
        } else {
            None
        }
    }

    /// The raw value of the variant.
    pub fn raw(self) -> (r: u32)
        ensures
            r == self.raw_spec(),
    {
        match self {
            ConnectionStatusInfo::Disconnected => 3,
            ConnectionStatusInfo::Host => 6,
            ConnectionStatusInfo::Client => 9,
            ConnectionStatusInfo::Spectator => 10,
            ConnectionStatusInfo::Unknown => 11,
        }
    }

    /// The variant with the given raw value, if any.
    pub fn from_raw(value: u32) -> (r: Option<ConnectionStatusInfo>)
        ensures
            r == Self::from_raw_spec(value),
    {
        match value {
            3 => Some(ConnectionStatusInfo::Disconnected),
            6 => Some(ConnectionStatusInfo::Host),
            9 => Some(ConnectionStatusInfo::Client),
            10 => Some(ConnectionStatusInfo::Spectator),
            11 => Some(ConnectionStatusInfo::Unknown),
            _ => None,
        }
    }
}

impl From<ConnectionStatusInfo> for u32 {
    fn from(v: ConnectionStatusInfo) -> (r: u32) {
        v.raw()
    }
}

impl FromSpecImpl<ConnectionStatusInfo> for u32 {
    open spec fn obeys_from_spec() -> bool {
        true
    }

    open spec fn from_spec(v: ConnectionStatusInfo) -> u32 {
        v.raw_spec()
    }
}

impl TryFrom<u32> for ConnectionStatusInfo {
    type Error = ();

    fn try_from(value: u32) -> (r: Result<ConnectionStatusInfo, ()>) {
        match ConnectionStatusInfo::from_raw(value) {
            Some(v) => Ok(v),
            None => Err(()),
        }
    }
}

impl TryFromSpecImpl<u32> for ConnectionStatusInfo {
    open spec fn obeys_try_from_spec() -> bool {
        true
    }

    open spec fn try_from_spec(value: u32) -> Result<ConnectionStatusInfo, ()> {
        match ConnectionStatusInfo::from_raw_spec(value) {
            Some(v) => Ok(v),
            None => Err(()),
        }
    }
}

/// Converting a [`ConnectionType`] to its raw value and back gives the same variant, and
/// a raw value that stands for a variant converts back to that same raw value.
pub proof fn connection_type_round_trip(v: ConnectionType, raw: u8)
    ensures
        ConnectionType::from_raw_spec(v.raw_spec()) == Some(v),
        ConnectionType::from_raw_spec(raw) matches Some(w) ==> w.raw_spec() == raw,
{
}

/// Converting a [`ConnectionStatusInfo`] to its raw value and back gives the same variant, and
/// a raw value that stands for a variant converts back to that same raw value.
pub proof fn connection_status_info_round_trip(v: ConnectionStatusInfo, raw: u32)
    ensures
        ConnectionStatusInfo::from_raw_spec(v.raw_spec()) == Some(v),
        ConnectionStatusInfo::from_raw_spec(raw) matches Some(w) ==> w.raw_spec() == raw,
{
}

/// ID for a node on the network.
#[derive(Debug, Clone, Copy, PartialEq, Eq, Hash, Structural)]
pub enum NodeID {
    /// No node ID set (not connected to a network).
    NoNode,
    /// A normal node on the network, counting from 1 (the host) to 16, inclusive.
    Node(u8),
    /// Broadcast to all nodes.
    Broadcast,
}

impl NodeID {
    /// The raw value of the ID.
    pub open spec fn raw_spec(self) -> u16 {
        match self {
            NodeID::NoNode => 0,
            NodeID::Node(node) => node as u16,
            NodeID::Broadcast => BROADCAST_NODE_ID,
        }
    }

    /// The ID with the given raw value, if any: 0, a node from 1 to 16, or the
    /// broadcast address.
    pub open spec fn from_raw_spec(value: u16) -> Option<NodeID> {
        if value == 0 {
            Some(NodeID::NoNode)
        } else if HOST_NODE_ID <= value <= MAX_NODES {
            Some(NodeID::Node(value as u8))
        } else if value == BROADCAST_NODE_ID {
            Some(NodeID::Broadcast)
        } else {
            None
        }
    }

    /// The raw value of the ID.
    pub fn raw(self) -> (r: u16)
        ensures
            r == self.raw_spec(),
    {
        match self {
            NodeID::NoNode => 0,
            NodeID::Node(node) => node as u16,
            NodeID::Broadcast => BROADCAST_NODE_ID,
        }
    }

    /// The ID with the given raw value, if any.
    pub fn from_raw(value: u16) -> (r: Option<NodeID>)
        ensures
            r == Self::from_raw_spec(value),
    {
        if value == 0 {
            Some(NodeID::NoNode)
        } else if HOST_NODE_ID <= value && value <= MAX_NODES as u16 {
            Some(NodeID::Node(value as u8))
        } else if value == BROADCAST_NODE_ID {
            Some(NodeID::Broadcast)
        } else {
            None
        }
    }
}

impl From<NodeID> for u16 {
    fn from(value: NodeID) -> (r: u16) {
        value.raw()
    }
}

impl FromSpecImpl<NodeID> for u16 {
    open spec fn obeys_from_spec() -> bool {
        true
    }

    open spec fn from_spec(v: NodeID) -> u16 {
        v.raw_spec()
    }
}

impl TryFrom<u16> for NodeID {
    type Error = ();

    fn try_from(value: u16) -> (r: Result<NodeID, ()>) {
        match NodeID::from_raw(value) {
            Some(v) => Ok(v),
            None => Err(()),
        }
    }
}

impl TryFromSpecImpl<u16> for NodeID {
    open spec fn obeys_try_from_spec() -> bool {
        true
    }

    open spec fn try_from_spec(value: u16) -> Result<NodeID, ()> {
        match NodeID::from_raw_spec(value) {
            Some(v) => Ok(v),
            None => Err(()),
        }
    }
}

/// A raw node ID converts to an ID that converts back to the same raw value, and
/// the ID of a node from 1 to 16, of no node or of the broadcast address
/// converts to a raw value that converts back to it.
pub proof fn node_id_round_trip(id: NodeID, raw: u16)
    ensures
        NodeID::from_raw_spec(raw) matches Some(i) ==> i.raw_spec() == raw,
        (id matches NodeID::Node(n) ==> 1 <= n <= 16) ==> NodeID::from_raw_spec(id.raw_spec()) == Some(id),
{
}

/// Information about a network node.
#[derive(Clone, Copy, Debug)]
pub struct NodeInfo {
    friend_code_seed: u64,
    username: [u16; 10],
    flag: u8,
    node_id: u16,
}

impl NodeInfo {
    /// The node's friend code seed.
    pub closed spec fn friend_code_seed_spec(self) -> u64 {
        self.friend_code_seed
    }

    /// The node's username, as the UTF-16 units reported by the system.
    pub closed spec fn username_units(self) -> Seq<u16> {
        self.username@
    }

    /// The node's flag.
    pub closed spec fn flag_spec(self) -> u8 {
        self.flag
    }

    /// The node's raw network node ID.
    pub closed spec fn raw_node_id(self) -> u16 {
        self.node_id
    }

    /// Node information as reported by the system.
    pub fn new(uds_friendcodeseed: u64, username: [u16; 10], flag: u8, network_node_id: u16) -> (n: NodeInfo)
        ensures
            n.friend_code_seed_spec() == uds_friendcodeseed,
            n.username_units() == username@,
            n.flag_spec() == flag,
            n.raw_node_id() == network_node_id,
    {
        NodeInfo { friend_code_seed: uds_friendcodeseed, username, flag, node_id: network_node_id }
    }

    /// Friend code seed associated with this network node.
    pub fn uds_friendcodeseed(&self) -> (s: u64)
        ensures
            s == self.friend_code_seed_spec(),
    {
        self.friend_code_seed
    }

    /// Username associated with this network node: all of its UTF-16 units
    /// decoded, invalid ones replaced by U+FFFD.
    pub fn username(&self) -> (s: String)
        ensures
            s@ == decode_utf16_lossy_spec(self.username_units()),
    {
        let chars = decode_utf16_lossy(&self.username);
        crate::text::chars_to_string(chars.as_slice())
    }

    /// Flag associated with this network node.
    pub fn flag(&self) -> (f: u8)
        ensures
            f == self.flag_spec(),
    {
        self.flag
    }

    /// Node ID associated with this network node (the system always reports a
    /// valid one).
    pub fn node_id(&self) -> (id: NodeID)
        requires
            NodeID::from_raw_spec(self.raw_node_id()) is Some,
        ensures
            Some(id) == NodeID::from_raw_spec(self.raw_node_id()),
    {
        NodeID::from_raw(self.node_id).unwrap()
    }
}

/// Information returned from scanning for networks: the nodes of the network.
pub struct NetworkScanInfo {
    nodes: Vec<NodeInfo>,
}

impl NetworkScanInfo {
    /// The node slots of the network, as reported by the system.
    pub closed spec fn node_slots(self) -> Seq<NodeInfo> {
        self.nodes@
    }

    /// Scan information with the given node slots.
    pub fn new(nodes: Vec<NodeInfo>) -> (s: NetworkScanInfo)
        ensures
            s.node_slots() == nodes@,
    {
        NetworkScanInfo { nodes }
    }

    /// All nodes on the network (the first is the host): a slot whose friend code
    /// seed is 0 holds no node.
    pub fn nodes(&self) -> (v: Vec<Option<NodeInfo>>)
        ensures
            v.len() == self.node_slots().len(),
            forall|i: int| 0 <= i < v.len() ==> #[trigger] v@[i] == (if self.node_slots()[i].friend_code_seed_spec() != 0 {
                Some(self.node_slots()[i])
            } else {
                None
            }),
    {
        let mut v: Vec<Option<NodeInfo>> = Vec::new();
        let mut i: usize = 0;
        while i < self.nodes.len()
            invariant
                i <= self.nodes.len(),
                v.len() == i,
                forall|k: int| 0 <= k < i ==> #[trigger] v@[k] == (if self.nodes@[k].friend_code_seed != 0 {
                    Some(self.nodes@[k])
                } else {
                    None
                }),
            decreases self.nodes.len() - i,
        {
            let n = self.nodes[i];
            if n.friend_code_seed != 0 {
                v.push(Some(n));
            } else {
                v.push(None);
            }
            i = i + 1;
        }
        v
    }
}

/// Status of the connection, as reported by the system.
#[derive(Clone, Copy, Debug, PartialEq, Eq, Structural)]
pub struct ConnectionStatus {
    status: u32,
    cur_node_id: u16,
    total_nodes: u8,
    max_nodes: u8,
    node_bitmask: u16,
}

impl ConnectionStatus {
    /// The raw status, current node ID, node count, node limit and node bitmask.
    pub closed spec fn parts(self) -> (u32, u16, u8, u8, u16) {
        (self.status, self.cur_node_id, self.total_nodes, self.max_nodes, self.node_bitmask)
    }

    /// A connection status as reported by the system.
    pub fn new(status: u32, cur_node_id: u16, total_nodes: u8, max_nodes: u8, node_bitmask: u16) -> (c: ConnectionStatus)
        ensures
            c.parts() == (status, cur_node_id, total_nodes, max_nodes, node_bitmask),
    {
        ConnectionStatus { status, cur_node_id, total_nodes, max_nodes, node_bitmask }
    }

    /// Raw status information, when it is a known value.
    pub fn status(&self) -> (s: Option<ConnectionStatusInfo>)
        ensures
            s == ConnectionStatusInfo::from_raw_spec(self.parts().0),
    {
        ConnectionStatusInfo::from_raw(self.status)
    }

    /// Network node ID for the current device (the system always reports a valid
    /// one).
    pub fn cur_node_id(&self) -> (id: NodeID)
        requires
            NodeID::from_raw_spec(self.parts().1) is Some,
        ensures
            Some(id) == NodeID::from_raw_spec(self.parts().1),
    {
        NodeID::from_raw(self.cur_node_id).unwrap()
    }

    /// Number of nodes connected to the network.
    pub fn total_nodes(&self) -> (n: u8)
        ensures
            n == self.parts().2,
    {
        self.total_nodes
    }

    /// Maximum nodes allowed on this network.
    pub fn max_nodes(&self) -> (n: u8)
        ensures
            n == self.parts().3,
    {
        self.max_nodes
    }

    /// Bitmask of the connected nodes among the 16 possible: bit 0 is the host,
    /// bit 1 the first client, and so on.
    pub fn node_bitmask(&self) -> (b: u16)
        ensures
            b == self.parts().4,
    {
        self.node_bitmask
    }
}

/// Status of the service handle.
#[derive(Debug, Clone, Copy, PartialEq, Eq, Structural)]
pub enum ServiceStatus {
    /// Not connected to or hosting a network.
    Disconnected,
    /// Connected to a network.
    Client,
    /// Hosting a network.
    Server,
}

/// What the system reports of a bound connection: the bound node, the event that
/// signals data, and whether this console joined as a spectator.
#[derive(Clone, Copy, Debug, PartialEq, Eq, Structural)]
pub struct BindContext {
    /// Bound node ID.
    pub bind_node_id: u32,
    /// Handle of the event that signals received data.
    pub event: u32,
    /// Whether this console joined as a spectator.
    pub spectator: bool,
}

/// The parameters of a network hosted by this console.
#[derive(Clone, Copy, Debug, PartialEq, Eq, Structural)]
pub struct NetworkParameters {
    /// Communication ID (the four ID bytes read big-endian).
    pub comm_id: u32,
    /// Additional ID distinguishing networks of the same application.
    pub additional_id: u8,
    /// Most nodes the network admits (at most 16).
    pub max_nodes: u8,
}

/// The state of a [`Uds`] handle: its bound connection and hosted network.
pub struct UdsState {
    /// The bound connection, if any.
    pub context: Option<BindContext>,
    /// The hosted network, if any.
    pub network: Option<NetworkParameters>,
}

/// A state is consistent when a hosted network always has a bound connection.
pub open spec fn consistent(s: UdsState) -> bool {
    s.network is Some ==> s.context is Some
}

/// The status of a consistent state: disconnected without a connection, host
/// with a network, client otherwise.
pub open spec fn status_of(s: UdsState) -> ServiceStatus {
    if s.context is None {
        ServiceStatus::Disconnected
    } else if s.network is None {
        ServiceStatus::Client
    } else {
        ServiceStatus::Server
    }
}

/// The position of the first NUL byte of `b`, if any.
pub open spec fn is_first_nul(b: Seq<u8>, pos: int) -> bool {
    0 <= pos < b.len() && b[pos] == 0 && forall|i: int| 0 <= i < pos ==> b[i] != 0
}

/// Whether `b` holds a NUL byte.
pub open spec fn has_nul(b: Seq<u8>) -> bool {
    exists|i: int| 0 <= i < b.len() && b[i] == 0
}

/// The four ID bytes read as a big-endian number.
pub open spec fn be_u32(b: Seq<u8>) -> nat {
    b[0] as nat * 0x1000000 + b[1] as nat * 0x10000 + b[2] as nat * 0x100 + b[3] as nat
}

/// The four communication ID bytes read as a big-endian number.
pub fn comm_id_from_bytes(comm_id: &[u8; 4]) -> (id: u32)
    ensures
        id == be_u32(comm_id@),
{
    (comm_id[0] as u32) * 0x1000000 + (comm_id[1] as u32) * 0x10000 + (comm_id[2] as u32) * 0x100 + comm_id[3] as u32
}

/// The parameters of a network to host: the communication ID, the additional ID
/// (0 when none is given) and the node limit (16 when none is given, and never
/// more).
pub fn network_parameters(comm_id: &[u8; 4], additional_id: Option<u8>, max_nodes: Option<u8>) -> (p: NetworkParameters)
    ensures
        p.comm_id == be_u32(comm_id@),
        p.additional_id == additional_id.unwrap_or(0),
        p.max_nodes == max_nodes_spec(max_nodes),
{
    let wanted = max_nodes.unwrap_or(MAX_NODES);
    NetworkParameters {
        comm_id: comm_id_from_bytes(comm_id),
        additional_id: additional_id.unwrap_or(0),
        max_nodes: if wanted < MAX_NODES { wanted } else { MAX_NODES },
    }
}

/// The requested size of application data (200 when none is given), never
/// more than 200.
pub open spec fn appdata_len_spec(max_size: Option<usize>) -> usize {
    match max_size {
        Some(n) => if n < MAX_APPDATA_SIZE { n } else { MAX_APPDATA_SIZE },
        None => MAX_APPDATA_SIZE,
    }
}

/// The requested node limit (16 when none is given), never more than 16.
pub open spec fn max_nodes_spec(max_nodes: Option<u8>) -> u8 {
    match max_nodes {
        Some(n) => if n < MAX_NODES { n } else { MAX_NODES },
        None => MAX_NODES,
    }
}

/// The size of the buffer that receives application data: the requested size
/// (200 when none is given), never more than 200.
pub fn appdata_buffer_len(max_size: Option<usize>) -> (n: usize)
    ensures
        n == appdata_len_spec(max_size),
{
    let wanted = max_size.unwrap_or(MAX_APPDATA_SIZE);
    if wanted < MAX_APPDATA_SIZE {
        wanted
    } else {
        MAX_APPDATA_SIZE
    }
}

/// The application data received in a buffer of which the system filled
/// `actual_size` bytes.
pub open spec fn received_appdata(buffer: Seq<u8>, actual_size: nat) -> Seq<u8> {
    if actual_size <= buffer.len() {
        buffer.subrange(0, actual_size as int)
    } else {
        buffer
    }
}

/// Keeps the first `actual_size` bytes of `buffer`.
pub fn truncate_appdata(buffer: Vec<u8>, actual_size: usize) -> (v: Vec<u8>)
    ensures
        v@ == received_appdata(buffer@, actual_size as nat),
{
    let mut v = buffer;
    v.truncate(actual_size);
    v
}

/// The checks made on a username before the service starts: at most 10 bytes,
/// and no NUL byte.
/// Whether a username may be given to the service: at most 10 bytes and no NUL
/// byte (no username is allowed too).
pub open spec fn username_allowed(username: Option<&str>) -> bool {
    username matches Some(n) ==> n.spec_bytes().len() <= MAX_USERNAME_LEN && !has_nul(n.spec_bytes())
}

pub fn check_username(username: &str) -> (r: Result<(), Error>)
    ensures
        username.spec_bytes().len() > MAX_USERNAME_LEN ==> r matches Err(Error::UsernameTooLong),
        username.spec_bytes().len() <= MAX_USERNAME_LEN && has_nul(username.spec_bytes()) ==> (r matches Err(
            Error::UsernameContainsNull(p),
        ) && is_first_nul(username.spec_bytes(), p as int)),
        username.spec_bytes().len() <= MAX_USERNAME_LEN && !has_nul(username.spec_bytes()) ==> r is Ok,
{
    let bytes = username.as_bytes();
    if bytes.len() > MAX_USERNAME_LEN {
        return Err(Error::UsernameTooLong);
    }
    let mut i: usize = 0;
    while i < bytes.len()
        invariant
            i <= bytes@.len(),
            bytes@ == username.spec_bytes(),
            username.spec_bytes().len() <= MAX_USERNAME_LEN,
            forall|k: int| 0 <= k < i ==> bytes@[k] != 0,
        decreases bytes@.len() - i,
    {
        if bytes[i] == 0 {
            return Err(Error::UsernameContainsNull(i));
        }
        i = i + 1;
    }
    Ok(())
}

/// A library result without a value, as a UDS result.
fn lib_result(res: Result<(), CtruError>) -> (r: Result<(), Error>)
    ensures
        r is Ok <==> res is Ok,
        r is Ok ==> res == Ok::<(), CtruError>(()),
        r is Err ==> (r matches Err(Error::Lib(e)) && res == Err::<(), CtruError>(e)),
{
    match res {
        Ok(u) => {
            assert(res == Ok::<(), CtruError>(()));
            Ok(())
        },
        Err(e) => Err(Error::Lib(e)),
    }
}

/// Handle to the UDS service.
pub struct Uds {
    _service_handler: ServiceReference,
    context: Option<BindContext>,
    network: Option<NetworkParameters>,
}

impl View for Uds {
    type V = UdsState;

    closed spec fn view(&self) -> UdsState {
        UdsState { context: self.context, network: self.network }
    }
}

impl Uds {
    /// Initializes the service with `start` (closing it with `close` after a lost
    /// handle), after checking the username: at most 10 bytes and no NUL byte. A
    /// single handle may be live at a time. The new handle is disconnected.
    pub fn new<S, E>(counter: &mut ServiceCounter, username: Option<&str>, start: S, close: E) -> (r: Result<Uds, Error>) where
        S: FnOnce() -> Result<(), CtruError>,
        E: FnOnce(),
        requires
            username_allowed(username) && must_start(effective_count(old(counter)@)) ==> call_requires(start, ()),
            username_allowed(username) && old(counter)@.poisoned ==> call_requires(close, ()),
            old(counter)@.count < usize::MAX,
        ensures
            username matches Some(n) && n.spec_bytes().len() > MAX_USERNAME_LEN ==> r matches Err(Error::UsernameTooLong),
            username matches Some(n) ==> (n.spec_bytes().len() <= MAX_USERNAME_LEN && has_nul(n.spec_bytes()) ==> (r matches Err(
                Error::UsernameContainsNull(p),
            ) && is_first_nul(n.spec_bytes(), p as int))),
            username matches Some(n) && (n.spec_bytes().len() > MAX_USERNAME_LEN || has_nul(n.spec_bytes())) ==> final(counter)@ == old(counter)@,
            (username matches Some(n) ==> n.spec_bytes().len() <= MAX_USERNAME_LEN && !has_nul(n.spec_bytes())) ==> {
                &&& refused_as_active(effective_count(old(counter)@), false) ==> (r matches Err(Error::Lib(CtruError::ServiceAlreadyActive)))
                &&& final(counter)@.count == count_after_acquire(effective_count(old(counter)@), false, r is Ok)
                &&& !final(counter)@.poisoned
            },
            r matches Ok(u) ==> u@.context is None && u@.network is None,
            must_start(effective_count(old(counter)@)) ==> (r is Ok ==> call_ensures(start, (), Ok::<(), CtruError>(()))),
            must_start(effective_count(old(counter)@)) ==> (r matches Err(Error::Lib(e)) ==> call_ensures(start, (), Err::<(), CtruError>(e))),
    {
        if let Some(n) = username {
            check_username(n)?;
        }
        let handler = match ServiceReference::new(counter, false, start, close) {
            Ok(h) => h,
            Err(e) => {
                return Err(Error::Lib(e));
            },
        };
        Ok(Uds { _service_handler: handler, context: None, network: None })
    }

    /// Releases the handle: a client first leaves its network (with `unbind` and
    /// `disconnect`), a host first stops hosting it (with `unbind` and `destroy`),
    /// and these must succeed; the service is then closed with `close` when this
    /// was the last handle.
    pub fn drop_with<U, D, X, E>(self, counter: &mut ServiceCounter, unbind: U, disconnect: D, destroy: X, close: E) -> (closed: bool) where
        U: FnOnce(BindContext) -> Result<(), CtruError>,
        D: FnOnce() -> Result<(), CtruError>,
        X: FnOnce() -> Result<(), CtruError>,
        E: FnOnce(),
        requires
            consistent(self@),
            status_of(self@) != ServiceStatus::Disconnected ==> (self@.context matches Some(ctx) ==> call_requires(unbind, (ctx,))),
            status_of(self@) == ServiceStatus::Client ==> call_requires(disconnect, ()),
            status_of(self@) == ServiceStatus::Server ==> call_requires(destroy, ()),
            forall|ctx: BindContext, r: Result<(), CtruError>| #[trigger] call_ensures(unbind, (ctx,), r) ==> r is Ok,
            forall|r: Result<(), CtruError>| #[trigger] call_ensures(disconnect, (), r) ==> r is Ok,
            forall|r: Result<(), CtruError>| #[trigger] call_ensures(destroy, (), r) ==> r is Ok,
            old(counter)@.count > 0,
            old(counter)@.count == 1 ==> call_requires(close, ()),
        ensures
            final(counter)@.count == old(counter)@.count - 1,
            closed == (final(counter)@.count == 0),
    {
        let mut uds = self;
        match uds.service_status() {
            ServiceStatus::Client => {
                let r = uds.disconnect_network(unbind, disconnect);
            },
            ServiceStatus::Server => {
                let r = uds.destroy_network(unbind, destroy);
            },
            ServiceStatus::Disconnected => {},
        }
        uds._service_handler.release(counter, close)
    }

    /// Whether the handle is disconnected, a client or a host.
    pub fn service_status(&self) -> (s: ServiceStatus)
        requires
            consistent(self@),
        ensures
            s == status_of(self@),
    {
        match (self.context, self.network) {
            (None, _) => ServiceStatus::Disconnected,
            (Some(_), None) => ServiceStatus::Client,
            (Some(_), Some(_)) => ServiceStatus::Server,
        }
    }

    /// Whether a scan is made as a client of a network (the system is told so).
    pub fn scan_as_client(&self) -> (b: bool)
        requires
            consistent(self@),
        ensures
            b == (status_of(self@) == ServiceStatus::Client),
    {
        self.service_status() == ServiceStatus::Client
    }

    /// Reads the application data of the network this console is connected to:
    /// refused with [`Error::NotConnected`] when disconnected; otherwise `fetch`
    /// fills a buffer of [`appdata_buffer_len`] bytes and tells how many it
    /// filled, and those are returned.
    pub fn appdata<F>(&self, max_size: Option<usize>, fetch: F) -> (r: Result<Vec<u8>, Error>) where
        F: FnOnce(usize) -> Result<(Vec<u8>, usize), CtruError>,
        requires
            consistent(self@),
            status_of(self@) != ServiceStatus::Disconnected ==> call_requires(fetch, (
                appdata_len_spec(max_size),
            )),
        ensures
            status_of(self@) == ServiceStatus::Disconnected ==> r matches Err(Error::NotConnected),
            r matches Ok(v) ==> exists|buf: Vec<u8>, n: usize| #[trigger] call_ensures(fetch, (
                appdata_len_spec(max_size),
            ), Ok::<(Vec<u8>, usize), CtruError>((buf, n))) && v@ == received_appdata(buf@, n as nat),
            r matches Err(Error::Lib(e)) ==> call_ensures(fetch, (
                appdata_len_spec(max_size),
            ), Err::<(Vec<u8>, usize), CtruError>(e)),
    {
        if self.service_status() == ServiceStatus::Disconnected {
            return Err(Error::NotConnected);
        }
        let len = appdata_buffer_len(max_size);
        match fetch(len) {
            Ok((buf, n)) => Ok(truncate_appdata(buf, n)),
            Err(e) => Err(Error::Lib(e)),
        }
    }

    /// Reads the application data of a scanned network: `fetch` fills a buffer of
    /// [`appdata_buffer_len`] bytes and tells how many it filled, and those are
    /// returned.
    pub fn network_appdata<F>(&self, network: &NetworkScanInfo, max_size: Option<usize>, fetch: F) -> (r: Result<Vec<u8>, CtruError>) where
        F: FnOnce(&NetworkScanInfo, usize) -> Result<(Vec<u8>, usize), CtruError>,
        requires
            call_requires(fetch, (network, appdata_len_spec(max_size))),
        ensures
            r matches Ok(v) ==> exists|buf: Vec<u8>, n: usize| #[trigger] call_ensures(fetch, (network, appdata_len_spec(max_size)), Ok::<(Vec<u8>, usize), CtruError>((buf, n)))
                && v@ == received_appdata(buf@, n as nat),
            r matches Err(e) ==> call_ensures(fetch, (network, appdata_len_spec(max_size)), Err::<(Vec<u8>, usize), CtruError>(e)),
    {
        let len = appdata_buffer_len(max_size);
        match fetch(network, len) {
            Ok((buf, n)) => Ok(truncate_appdata(buf, n)),
            Err(e) => Err(e),
        }
    }

    /// Connects to a network with `connect`, which reports the bound connection;
    /// on success the handle holds it.
    pub fn connect_network<F>(&mut self, connect: F) -> (r: Result<(), CtruError>) where
        F: FnOnce() -> Result<BindContext, CtruError>,
        requires
            call_requires(connect, ()),
        ensures
            r is Ok ==> exists|ctx: BindContext| #[trigger] call_ensures(connect, (), Ok::<BindContext, CtruError>(ctx))
                && final(self)@ == (UdsState { context: Some(ctx), network: old(self)@.network }),
            r matches Err(e) ==> call_ensures(connect, (), Err::<BindContext, CtruError>(e)) && final(self)@ == old(self)@,
    {
        match connect() {
            Ok(ctx) => {
                self.context = Some(ctx);
                Ok(())
            },
            Err(e) => Err(e),
        }
    }

    /// Unbinds the connection with `unbind`: refused with [`Error::NoContext`]
    /// when none is bound; on success the handle holds none.
    pub fn unbind_context<U>(&mut self, unbind: U) -> (r: Result<(), Error>) where
        U: FnOnce(BindContext) -> Result<(), CtruError>,
        requires
            old(self)@.context matches Some(ctx) ==> call_requires(unbind, (ctx,)),
        ensures
            old(self)@.context is None ==> r matches Err(Error::NoContext),
            r is Ok ==> final(self)@ == (UdsState { context: None, network: old(self)@.network }),
            r is Ok ==> (old(self)@.context matches Some(ctx) && call_ensures(unbind, (ctx,), Ok::<(), CtruError>(()))),
            r is Err ==> final(self)@ == old(self)@,
            r matches Err(Error::Lib(e)) ==> (old(self)@.context matches Some(ctx) && call_ensures(unbind, (ctx,), Err::<(), CtruError>(e))),
    {
        match self.context {
            Some(ctx) => {
                lib_result(unbind(ctx))?;
            },
            None => {
                return Err(Error::NoContext);
            },
        }
        self.context = None;
        Ok(())
    }

    /// Leaves the network this console is a client of: refused with
    /// [`Error::NotConnected`] unless it is a client; the connection is unbound
    /// with `unbind`, then the network left with `disconnect`.
    pub fn disconnect_network<U, D>(&mut self, unbind: U, disconnect: D) -> (r: Result<(), Error>) where
        U: FnOnce(BindContext) -> Result<(), CtruError>,
        D: FnOnce() -> Result<(), CtruError>,
        requires
            consistent(old(self)@),
            status_of(old(self)@) == ServiceStatus::Client ==> (old(self)@.context matches Some(ctx) ==> call_requires(unbind, (ctx,))),
            status_of(old(self)@) == ServiceStatus::Client ==> call_requires(disconnect, ()),
        ensures
            status_of(old(self)@) != ServiceStatus::Client ==> (r matches Err(Error::NotConnected) && final(self)@ == old(self)@),
            r is Ok ==> status_of(old(self)@) == ServiceStatus::Client && final(self)@ == (UdsState { context: None, network: None })
                && call_ensures(disconnect, (), Ok::<(), CtruError>(())),
            consistent(final(self)@),
    {
        if self.service_status() != ServiceStatus::Client {
            return Err(Error::NotConnected);
        }
        if self.context.is_some() {
            self.unbind_context(unbind)?;
        }
        lib_result(disconnect())
    }

    /// The channel of the network: refused with [`Error::NotConnected`] when
    /// disconnected; otherwise read with `get`.
    pub fn channel<G>(&self, get: G) -> (r: Result<u8, Error>) where G: FnOnce() -> Result<u8, CtruError>,
        requires
            consistent(self@),
            status_of(self@) != ServiceStatus::Disconnected ==> call_requires(get, ()),
        ensures
            status_of(self@) == ServiceStatus::Disconnected ==> r matches Err(Error::NotConnected),
            r matches Ok(c) ==> call_ensures(get, (), Ok::<u8, CtruError>(c)),
            r matches Err(Error::Lib(e)) ==> call_ensures(get, (), Err::<u8, CtruError>(e)),
    {
        if self.service_status() == ServiceStatus::Disconnected {
            return Err(Error::NotConnected);
        }
        match get() {
            Ok(c) => Ok(c),
            Err(e) => Err(Error::Lib(e)),
        }
    }

    /// Waits for a connection status event with `wait_event` (given `next` and
    /// `wait`): refused with [`Error::NotConnected`] when disconnected.
    pub fn wait_status_event<W>(&self, next: bool, wait: bool, wait_event: W) -> (r: Result<bool, Error>) where
        W: FnOnce(bool, bool) -> bool,
        requires
            consistent(self@),
            status_of(self@) != ServiceStatus::Disconnected ==> call_requires(wait_event, (next, wait)),
        ensures
            status_of(self@) == ServiceStatus::Disconnected ==> r matches Err(Error::NotConnected),
            status_of(self@) != ServiceStatus::Disconnected ==> (r matches Ok(b) && call_ensures(wait_event, (next, wait), b)),
    {
        if self.service_status() == ServiceStatus::Disconnected {
            return Err(Error::NotConnected);
        }
        Ok(wait_event(next, wait))
    }

    /// Sends a packet with `send` (given the raw address, the channel, the raw
    /// flags and the packet): refused with [`Error::NotConnected`] when
    /// disconnected and with [`Error::Spectator`] for a spectator. A busy service
    /// is not an error; another failure code is.
    pub fn send_packet<S>(&self, packet: &[u8], address: NodeID, channel: u8, flags: SendFlags, send: S) -> (r: Result<(), Error>) where
        S: FnOnce(u16, u8, u8, &[u8]) -> i32,
        requires
            consistent(self@),
            self@.context matches Some(ctx) && !ctx.spectator ==> call_requires(send, (address.raw_spec(), channel, flags.bits_spec(), packet)),
        ensures
            status_of(self@) == ServiceStatus::Disconnected ==> r matches Err(Error::NotConnected),
            self@.context matches Some(ctx) && ctx.spectator ==> r matches Err(Error::Spectator),
            self@.context matches Some(ctx) && !ctx.spectator ==> exists|code: i32| #[trigger] call_ensures(send, (address.raw_spec(), channel, flags.bits_spec(), packet), code)
                && (if code != SEND_BUSY_RESULT && is_failure_code(code) {
                    r matches Err(Error::Lib(CtruError::Os(c))) && c == code
                } else {
                    r is Ok
                }),
    {
        let ctx = match self.context {
            None => {
                return Err(Error::NotConnected);
            },
            Some(ctx) => ctx,
        };
        if ctx.spectator {
            return Err(Error::Spectator);
        }
        let code = send(address.raw(), channel, flags.bits(), packet);
        if code != SEND_BUSY_RESULT {
            if crate::error::ResultCode(code).is_failure() {
                return Err(Error::Lib(CtruError::Os(code)));
            }
        }
        Ok(())
    }

    /// Pulls a received packet with `pull` (given the bound connection), which
    /// fills a frame and tells how many bytes it filled and which node sent them:
    /// refused with [`Error::NotConnected`] when disconnected; no packet when no
    /// byte was filled. The system always reports a size within the frame and a
    /// valid node ID.
    pub fn pull_packet<P>(&self, pull: P) -> (r: Result<Option<(Vec<u8>, NodeID)>, Error>) where
        P: FnOnce(BindContext) -> Result<(Vec<u8>, usize, u16), CtruError>,
        requires
            consistent(self@),
            self@.context matches Some(ctx) ==> call_requires(pull, (ctx,)),
            forall|ctx: BindContext, frame: Vec<u8>, n: usize, id: u16| #[trigger] call_ensures(pull, (ctx,), Ok::<(Vec<u8>, usize, u16), CtruError>((frame, n, id)))
                ==> n <= frame@.len() && NodeID::from_raw_spec(id) is Some,
        ensures
            status_of(self@) == ServiceStatus::Disconnected ==> r matches Err(Error::NotConnected),
            r matches Ok(p) ==> (self@.context matches Some(ctx) && exists|frame: Vec<u8>, n: usize, id: u16| #[trigger] call_ensures(pull, (ctx,), Ok::<(Vec<u8>, usize, u16), CtruError>((frame, n, id)))
                && (if n == 0 { p is None } else { p matches Some((data, node)) && data@ == frame@.subrange(0, n as int) && NodeID::from_raw_spec(id) == Some(node) })),
            r matches Err(Error::Lib(e)) ==> (self@.context matches Some(ctx) && call_ensures(pull, (ctx,), Err::<(Vec<u8>, usize, u16), CtruError>(e))),
    {
        let ctx = match self.context {
            None => {
                return Err(Error::NotConnected);
            },
            Some(ctx) => ctx,
        };
        let (frame, n, id) = match pull(ctx) {
            Ok(t) => t,
            Err(e) => {
                return Err(Error::Lib(e));
            },
        };
        if n == 0 {
            return Ok(None);
        }
        let mut data = frame;
        data.truncate(n);
        let node = NodeID::from_raw(id).unwrap();
        Ok(Some((data, node)))
    }

    /// Hosts a network with `create` (given the [`network_parameters`]), which
    /// reports the bound connection; on success the handle holds both.
    pub fn create_network<C>(&mut self, comm_id: &[u8; 4], additional_id: Option<u8>, max_nodes: Option<u8>, create: C) -> (r: Result<(), CtruError>) where
        C: FnOnce(NetworkParameters) -> Result<BindContext, CtruError>,
        requires
            forall|p: NetworkParameters| call_requires(create, (p,)),
        ensures
            r is Ok ==> exists|ctx: BindContext, p: NetworkParameters| #[trigger] call_ensures(create, (p,), Ok::<BindContext, CtruError>(ctx))
                && p.comm_id == be_u32(comm_id@) && p.additional_id == additional_id.unwrap_or(0)
                && p.max_nodes == max_nodes_spec(max_nodes)
                && final(self)@ == (UdsState { context: Some(ctx), network: Some(p) }),
            r matches Err(e) ==> exists|p: NetworkParameters| #[trigger] call_ensures(create, (p,), Err::<BindContext, CtruError>(e))
                && p.comm_id == be_u32(comm_id@) && p.additional_id == additional_id.unwrap_or(0)
                && p.max_nodes == max_nodes_spec(max_nodes),
            r is Err ==> final(self)@ == old(self)@,
            consistent(final(self)@) || (r is Err && !consistent(old(self)@)),
    {
        let params = network_parameters(comm_id, additional_id, max_nodes);
        match create(params) {
            Ok(ctx) => {
                self.network = Some(params);
                self.context = Some(ctx);
                Ok(())
            },
            Err(e) => Err(e),
        }
    }

    /// Stops hosting the network: refused with [`Error::NoNetwork`] unless this
    /// console hosts one; the connection is unbound with `unbind`, then the
    /// network destroyed with `destroy`.
    pub fn destroy_network<U, D>(&mut self, unbind: U, destroy: D) -> (r: Result<(), Error>) where
        U: FnOnce(BindContext) -> Result<(), CtruError>,
        D: FnOnce() -> Result<(), CtruError>,
        requires
            consistent(old(self)@),
            status_of(old(self)@) == ServiceStatus::Server ==> (old(self)@.context matches Some(ctx) ==> call_requires(unbind, (ctx,))),
            status_of(old(self)@) == ServiceStatus::Server ==> call_requires(destroy, ()),
        ensures
            status_of(old(self)@) != ServiceStatus::Server ==> (r matches Err(Error::NoNetwork) && final(self)@ == old(self)@),
            r is Ok ==> status_of(old(self)@) == ServiceStatus::Server && final(self)@ == (UdsState { context: None, network: None })
                && call_ensures(destroy, (), Ok::<(), CtruError>(())),
    {
        if self.service_status() != ServiceStatus::Server {
            return Err(Error::NoNetwork);
        }
        if self.context.is_some() {
            self.unbind_context(unbind)?;
        }
        lib_result(destroy())?;
        self.network = None;
        Ok(())
    }

    /// Sets the application data of the hosted network with `set`: refused with
    /// [`Error::NoNetwork`] unless this console hosts one, and with
    /// [`Error::TooMuchAppData`] beyond 200 bytes.
    pub fn set_appdata<S>(&self, data: &[u8], set: S) -> (r: Result<(), Error>) where S: FnOnce(&[u8]) -> Result<(), CtruError>,
        requires
            consistent(self@),
            status_of(self@) == ServiceStatus::Server && data@.len() <= MAX_APPDATA_SIZE ==> call_requires(set, (data,)),
        ensures
            status_of(self@) != ServiceStatus::Server ==> r matches Err(Error::NoNetwork),
            status_of(self@) == ServiceStatus::Server && data@.len() > MAX_APPDATA_SIZE ==> r matches Err(Error::TooMuchAppData),
            r is Ok ==> call_ensures(set, (data,), Ok::<(), CtruError>(())),
            r matches Err(Error::Lib(e)) ==> call_ensures(set, (data,), Err::<(), CtruError>(e)),
    {
        if self.service_status() != ServiceStatus::Server {
            return Err(Error::NoNetwork);
        }
        if data.len() > MAX_APPDATA_SIZE {
            return Err(Error::TooMuchAppData);
        }
        lib_result(set(data))
    }

    /// Waits for received data with `wait_data` (given the bound connection,
    /// `next` and `wait`): refused with [`Error::NotConnected`] when disconnected.
    pub fn wait_data_available<W>(&self, next: bool, wait: bool, wait_data: W) -> (r: Result<bool, Error>) where
        W: FnOnce(BindContext, bool, bool) -> bool,
        requires
            consistent(self@),
            self@.context matches Some(ctx) ==> call_requires(wait_data, (ctx, next, wait)),
        ensures
            status_of(self@) == ServiceStatus::Disconnected ==> r matches Err(Error::NotConnected),
            self@.context matches Some(ctx) ==> (r matches Ok(b) && call_ensures(wait_data, (ctx, next, wait), b)),
    {
        match self.context {
            None => Err(Error::NotConnected),
            Some(ctx) => Ok(wait_data(ctx, next, wait)),
        }
    }

    /// Ejects a client with `eject` (given its raw address): refused with
    /// [`Error::NoNetwork`] unless this console hosts a network.
    pub fn eject_client<J>(&self, address: NodeID, eject: J) -> (r: Result<(), Error>) where J: FnOnce(u16) -> Result<(), CtruError>,
        requires
            consistent(self@),
            status_of(self@) == ServiceStatus::Server ==> call_requires(eject, (address.raw_spec(),)),
        ensures
            status_of(self@) != ServiceStatus::Server ==> r matches Err(Error::NoNetwork),
            r is Ok ==> call_ensures(eject, (address.raw_spec(),), Ok::<(), CtruError>(())),
            r matches Err(Error::Lib(e)) ==> call_ensures(eject, (address.raw_spec(),), Err::<(), CtruError>(e)),
    {
        if self.service_status() != ServiceStatus::Server {
            return Err(Error::NoNetwork);
        }
        lib_result(eject(address.raw()))
    }

    /// Allows spectators (`allow`) or ejects them with `apply` (given `allow`):
    /// refused with [`Error::NoNetwork`] unless this console hosts a network.
    pub fn allow_spectators<A>(&mut self, allow: bool, apply: A) -> (r: Result<(), Error>) where A: FnOnce(bool) -> Result<(), CtruError>,
        requires
            consistent(old(self)@),
            status_of(old(self)@) == ServiceStatus::Server ==> call_requires(apply, (allow,)),
        ensures
            final(self)@ == old(self)@,
            status_of(old(self)@) != ServiceStatus::Server ==> r matches Err(Error::NoNetwork),
            r is Ok ==> call_ensures(apply, (allow,), Ok::<(), CtruError>(())),
            r matches Err(Error::Lib(e)) ==> call_ensures(apply, (allow,), Err::<(), CtruError>(e)),
    {
        if self.service_status() != ServiceStatus::Server {
            return Err(Error::NoNetwork);
        }
        lib_result(apply(allow))
    }

    /// Allows or blocks new clients with `apply`, which is asked to block new
    /// connections when `allow` is false, to block new clients and not spectators:
    /// refused with [`Error::NoNetwork`] unless this console hosts a network.
    pub fn allow_new_clients<A>(&mut self, allow: bool, apply: A) -> (r: Result<(), Error>) where
        A: FnOnce(bool, bool, bool) -> Result<(), CtruError>,
        requires
            consistent(old(self)@),
            status_of(old(self)@) == ServiceStatus::Server ==> call_requires(apply, (!allow, true, false)),
        ensures
            final(self)@ == old(self)@,
            status_of(old(self)@) != ServiceStatus::Server ==> r matches Err(Error::NoNetwork),
            r is Ok ==> call_ensures(apply, (!allow, true, false), Ok::<(), CtruError>(())),
            r matches Err(Error::Lib(e)) ==> call_ensures(apply, (!allow, true, false), Err::<(), CtruError>(e)),
    {
        if self.service_status() != ServiceStatus::Server {
            return Err(Error::NoNetwork);
        }
        lib_result(apply(!allow, true, false))
    }

    /// Information about a node, read with `get` (given the node's number):
    /// refused with [`Error::NotANode`] unless the ID names a node.
    pub fn node_info<G>(&self, address: NodeID, get: G) -> (r: Result<NodeInfo, Error>) where G: FnOnce(u16) -> Result<NodeInfo, CtruError>,
        requires
            address matches NodeID::Node(n) ==> call_requires(get, (n as u16,)),
        ensures
            !(address is Node) ==> r matches Err(Error::NotANode),
            r matches Ok(info) ==> (address matches NodeID::Node(n) && call_ensures(get, (n as u16,), Ok::<NodeInfo, CtruError>(info))),
            r matches Err(Error::Lib(e)) ==> (address matches NodeID::Node(n) && call_ensures(get, (n as u16,), Err::<NodeInfo, CtruError>(e))),
    {
        let node = match address {
            NodeID::Node(node) => node,
            _ => {
                return Err(Error::NotANode);
            },
        };
        match get(node as u16) {
            Ok(info) => Ok(info),
            Err(e) => Err(Error::Lib(e)),
        }
    }
}

/// Hosting a network and destroying it brings a handle back to disconnected,
/// and connecting then leaving does too: every state that the successful
/// requests leave is consistent, and its status is the one that the request
/// names.
pub proof fn uds_transitions(ctx: BindContext, p: NetworkParameters, s: UdsState)
    requires
        consistent(s),
    ensures
        status_of(UdsState { context: Some(ctx), network: Some(p) }) == ServiceStatus::Server,
        consistent(UdsState { context: Some(ctx), network: Some(p) }),
        status_of(UdsState { context: Some(ctx), network: s.network }) != ServiceStatus::Disconnected,
        consistent(UdsState { context: Some(ctx), network: s.network }),
        status_of(UdsState { context: None, network: None }) == ServiceStatus::Disconnected,
        status_of(s) == ServiceStatus::Client ==> s.network is None && s.context is Some,
{
}


/// The busy result of a send is the status-level, out-of-resource result of the
/// UDS module with the "busy" description.
pub proof fn send_busy_result_parts()
    ensures
        spec_level(SEND_BUSY_RESULT) == 25,
        spec_summary(SEND_BUSY_RESULT) == 3,
        spec_module(SEND_BUSY_RESULT) == 68,
        spec_description(SEND_BUSY_RESULT) == 1008,
{
    vstd::arithmetic::power2::lemma2_to64();
    assert((SEND_BUSY_RESULT as u32) == 0xC86113F0u32) by (bit_vector);
}

/// The communication ID is the four bytes read most significant first: reading
/// the number back byte by byte, from the top, gives the bytes in order.
pub proof fn comm_id_is_big_endian(b: Seq<u8>)
    requires
        b.len() == 4,
    ensures
        be_u32(b) < 0x1_0000_0000,
        be_u32(b) / 0x1000000 == b[0],
        (be_u32(b) / 0x10000) % 0x100 == b[1],
        (be_u32(b) / 0x100) % 0x100 == b[2],
        be_u32(b) % 0x100 == b[3],
{
    let (b0, b1, b2, b3) = (b[0] as int, b[1] as int, b[2] as int, b[3] as int);
    assert(0 <= b0 < 256 && 0 <= b1 < 256 && 0 <= b2 < 256 && 0 <= b3 < 256);
    let v = b0 * 0x1000000 + b1 * 0x10000 + b2 * 0x100 + b3;
    assert(v < 0x1_0000_0000 && v / 0x1000000 == b0 && (v / 0x10000) % 0x100 == b1 && (v / 0x100) % 0x100 == b2
        && v % 0x100 == b3) by (nonlinear_arith)
        requires
            0 <= b0 < 256,
            0 <= b1 < 256,
            0 <= b2 < 256,
            0 <= b3 < 256,
            v == b0 * 0x1000000 + b1 * 0x10000 + b2 * 0x100 + b3,
    ;
}

} // verus!
