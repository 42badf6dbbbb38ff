use ctru::error::Error as CtruError;
use ctru::services::reference::ServiceCounter;
use ctru::services::uds::{
    appdata_buffer_len, check_username, comm_id_from_bytes, network_parameters, truncate_appdata,
    BindContext, ConnectionStatus, ConnectionStatusInfo, ConnectionType, Error, NetworkScanInfo, NodeID,
    NodeInfo, SendFlags, ServiceStatus, Uds, SEND_BUSY_RESULT,
};

fn ok_start() -> Result<(), CtruError> {
    Ok(())
}

fn ctx(spectator: bool) -> BindContext {
    BindContext { bind_node_id: 1, event: 2, spectator }
}

fn new_uds(counter: &mut ServiceCounter) -> Uds {
    Uds::new(counter, Some("player"), ok_start, || {}).unwrap()
}

#[test]
fn username_checks() {
    let mut counter = ServiceCounter::new();
    assert!(matches!(
        Uds::new(&mut counter, Some("abcdefghijk"), ok_start, || {}),
        Err(Error::UsernameTooLong)
    ));
    assert!(matches!(
        Uds::new(&mut counter, Some("ab\0cd"), ok_start, || {}),
        Err(Error::UsernameContainsNull(2))
    ));
    assert_eq!(counter.count(), 0);
    // Ten bytes are fine; "é" takes two bytes.
    assert!(check_username("abcdefghij").is_ok());
    assert!(matches!(check_username("\u{e9}\u{e9}\u{e9}\u{e9}\u{e9}\u{e9}"), Err(Error::UsernameTooLong)));
    let u = Uds::new(&mut counter, None, ok_start, || {}).unwrap();
    assert_eq!(u.service_status(), ServiceStatus::Disconnected);
    assert!(matches!(
        Uds::new(&mut counter, None, ok_start, || {}),
        Err(Error::Lib(CtruError::ServiceAlreadyActive))
    ));
}

#[test]
fn client_lifecycle() {
    let mut counter = ServiceCounter::new();
    let mut uds = new_uds(&mut counter);
    assert!(matches!(uds.channel(|| Ok(3)), Err(Error::NotConnected)));
    assert!(matches!(uds.disconnect_network(|_| Ok(()), || Ok(())), Err(Error::NotConnected)));
    assert!(matches!(uds.unbind_context(|_| Ok(())), Err(Error::NoContext)));
    uds.connect_network(|| Ok(ctx(false))).unwrap();
    assert_eq!(uds.service_status(), ServiceStatus::Client);
    assert!(uds.scan_as_client());
    assert_eq!(uds.channel(|| Ok(11)).unwrap(), 11);
    assert!(matches!(uds.destroy_network(|_| Ok(()), || Ok(())), Err(Error::NoNetwork)));
    assert!(matches!(uds.set_appdata(&[1, 2], |_| Ok(())), Err(Error::NoNetwork)));
    uds.disconnect_network(|_| Ok(()), || Ok(())).unwrap();
    assert_eq!(uds.service_status(), ServiceStatus::Disconnected);
    assert!(uds.drop_with(&mut counter, |_| Ok(()), || Ok(()), || Ok(()), || {}));
}

#[test]
fn failed_connect_keeps_state() {
    let mut counter = ServiceCounter::new();
    let mut uds = new_uds(&mut counter);
    assert!(matches!(uds.connect_network(|| Err(CtruError::Os(-2))), Err(CtruError::Os(-2))));
    assert_eq!(uds.service_status(), ServiceStatus::Disconnected);
}

#[test]
fn host_lifecycle() {
    let mut counter = ServiceCounter::new();
    let mut uds = new_uds(&mut counter);
    let mut seen = None;
    uds.create_network(&[0x00, 0x04, 0x00, 0x40], None, Some(40), |p| {
        seen = Some(p);
        Ok(ctx(false))
    })
    .unwrap();
    let p = seen.unwrap();
    assert_eq!(p.comm_id, 0x0004_0040);
    assert_eq!(p.additional_id, 0);
    assert_eq!(p.max_nodes, 16);
    assert_eq!(uds.service_status(), ServiceStatus::Server);
    assert!(uds.set_appdata(&[0u8; 200], |_| Ok(())).is_ok());
    assert!(matches!(uds.set_appdata(&[0u8; 201], |_| Ok(())), Err(Error::TooMuchAppData)));
    assert!(uds.eject_client(NodeID::Node(2), |raw| {
        assert_eq!(raw, 2);
        Ok(())
    })
    .is_ok());
    assert!(uds.allow_spectators(false, |a| {
        assert!(!a);
        Ok(())
    })
    .is_ok());
    assert!(uds.allow_new_clients(false, |block, a, b| {
        assert!(block && a && !b);
        Ok(())
    })
    .is_ok());
    uds.destroy_network(|_| Ok(()), || Ok(())).unwrap();
    assert_eq!(uds.service_status(), ServiceStatus::Disconnected);
}

#[test]
fn sending_packets() {
    let mut counter = ServiceCounter::new();
    let mut uds = new_uds(&mut counter);
    let flags = SendFlags::from_bits_truncate(0xFF);
    assert_eq!(flags.bits(), 3);
    assert!(matches!(
        uds.send_packet(&[1, 2, 3], NodeID::Broadcast, 1, flags, |_, _, _, _| 0),
        Err(Error::NotConnected)
    ));
    uds.connect_network(|| Ok(ctx(true))).unwrap();
    assert!(matches!(
        uds.send_packet(&[1], NodeID::Broadcast, 1, flags, |_, _, _, _| 0),
        Err(Error::Spectator)
    ));
    uds.unbind_context(|_| Ok(())).unwrap();
    uds.connect_network(|| Ok(ctx(false))).unwrap();
    let r = uds.send_packet(&[9, 8], NodeID::Node(3), 4, SendFlags::empty(), |addr, ch, fl, data| {
        assert_eq!((addr, ch, fl, data.len()), (3, 4, 0, 2));
        0
    });
    assert!(r.is_ok());
    assert!(uds.send_packet(&[1], NodeID::Broadcast, 1, flags, |_, _, _, _| SEND_BUSY_RESULT).is_ok());
    assert!(matches!(
        uds.send_packet(&[1], NodeID::Broadcast, 1, flags, |_, _, _, _| -5),
        Err(Error::Lib(CtruError::Os(-5)))
    ));
}

#[test]
fn pulling_packets() {
    let mut counter = ServiceCounter::new();
    let mut uds = new_uds(&mut counter);
    assert!(matches!(uds.pull_packet(|_| Ok((vec![], 0, 0))), Err(Error::NotConnected)));
    uds.connect_network(|| Ok(ctx(false))).unwrap();
    assert!(uds.pull_packet(|_| Ok((vec![1, 2, 3], 0, 1))).unwrap().is_none());
    let (data, from) = uds.pull_packet(|_| Ok((vec![1, 2, 3, 4], 2, 0xFFFF))).unwrap().unwrap();
    assert_eq!(data, vec![1, 2]);
    assert_eq!(from, NodeID::Broadcast);
}

#[test]
fn appdata_buffers() {
    assert_eq!(appdata_buffer_len(None), 200);
    assert_eq!(appdata_buffer_len(Some(50)), 50);
    assert_eq!(appdata_buffer_len(Some(500)), 200);
    assert_eq!(truncate_appdata(vec![1, 2, 3, 4], 2), vec![1, 2]);
    assert_eq!(truncate_appdata(vec![1, 2], 5), vec![1, 2]);
    let mut counter = ServiceCounter::new();
    let mut uds = new_uds(&mut counter);
    assert!(matches!(uds.appdata(None, |_| Ok((vec![], 0))), Err(Error::NotConnected)));
    uds.connect_network(|| Ok(ctx(false))).unwrap();
    let data = uds.appdata(Some(10), |n| {
        assert_eq!(n, 10);
        Ok((vec![7u8; n], 3))
    });
    assert_eq!(data.unwrap(), vec![7, 7, 7]);
}

#[test]
fn network_parameter_defaults() {
    let p = network_parameters(&[1, 2, 3, 4], Some(9), None);
    assert_eq!(p.comm_id, 0x01020304);
    assert_eq!(p.additional_id, 9);
    assert_eq!(p.max_nodes, 16);
    assert_eq!(network_parameters(&[0, 0, 0, 0], None, Some(4)).max_nodes, 4);
    assert_eq!(comm_id_from_bytes(&[0xFF, 0, 0, 1]), 0xFF000001);
}

#[test]
fn node_ids() {
    assert_eq!(u16::from(NodeID::NoNode), 0);
    assert_eq!(u16::from(NodeID::Node(5)), 5);
    assert_eq!(u16::from(NodeID::Broadcast), 0xFFFF);
    assert_eq!(NodeID::try_from(1u16), Ok(NodeID::Node(1)));
    assert_eq!(NodeID::try_from(16u16), Ok(NodeID::Node(16)));
    assert_eq!(NodeID::try_from(17u16), Err(()));
    assert_eq!(NodeID::try_from(0u16), Ok(NodeID::NoNode));
    assert_eq!(NodeID::try_from(0xFFFFu16), Ok(NodeID::Broadcast));
    let mut counter = ServiceCounter::new();
    let uds = new_uds(&mut counter);
    assert!(matches!(uds.node_info(NodeID::Broadcast, |_| Err(CtruError::Os(-1))), Err(Error::NotANode)));
    let info = uds
        .node_info(NodeID::Node(2), |n| Ok(NodeInfo::new(5, [0; 10], 1, n)))
        .unwrap();
    assert_eq!(info.node_id(), NodeID::Node(2));
}

#[test]
fn connection_types_and_status() {
    assert_eq!(u8::from(ConnectionType::Spectator), 2);
    assert_eq!(ConnectionType::try_from(1u8), Ok(ConnectionType::Client));
    assert_eq!(ConnectionType::try_from(3u8), Err(()));
    assert_eq!(ConnectionStatusInfo::try_from(9u32), Ok(ConnectionStatusInfo::Client));
    assert_eq!(u32::from(ConnectionStatusInfo::Unknown), 11);
    let s = ConnectionStatus::new(6, 1, 2, 8, 0b11);
    assert_eq!(s.status(), Some(ConnectionStatusInfo::Host));
    assert_eq!(s.cur_node_id(), NodeID::Node(1));
    assert_eq!((s.total_nodes(), s.max_nodes(), s.node_bitmask()), (2, 8, 3));
    assert_eq!(ConnectionStatus::new(4, 0, 0, 0, 0).status(), None);
}

#[test]
fn node_info_and_scan() {
    let name: Vec<u16> = "Ana".encode_utf16().collect();
    let mut raw = [0u16; 10];
    raw[..3].copy_from_slice(&name);
    let info = NodeInfo::new(12, raw, 3, 1);
    assert_eq!(info.username(), "Ana\0\0\0\0\0\0\0");
    assert_eq!(info.uds_friendcodeseed(), 12);
    assert_eq!(info.flag(), 3);
    let empty = NodeInfo::new(0, [0; 10], 0, 0);
    let scan = NetworkScanInfo::new(vec![info, empty]);
    let nodes = scan.nodes();
    assert!(nodes[0].is_some());
    assert!(nodes[1].is_none());
}

#[test]
fn uds_error_texts() {
    assert_eq!(
        Error::UsernameContainsNull(4).to_display_string(),
        "provided username contained a NULL byte at position 4"
    );
    assert_eq!(Error::TooMuchAppData.to_display_string(), "provided too much app data (max 200 bytes)");
    assert_eq!(
        Error::Lib(CtruError::ServiceAlreadyActive).to_display_string(),
        "ctru-rs error: service already active"
    );
    assert_eq!(Error::NotANode.to_display_string(), "provided node ID was non-specific");
}

#[test]
fn scanned_network_appdata() {
    let mut counter = ServiceCounter::new();
    let uds = new_uds(&mut counter);
    let scan = NetworkScanInfo::new(vec![]);
    let data = uds.network_appdata(&scan, None, |_, n| {
        assert_eq!(n, 200);
        Ok((vec![1u8; n], 4))
    });
    assert_eq!(data.unwrap(), vec![1, 1, 1, 1]);
    assert!(matches!(uds.network_appdata(&scan, Some(3), |_, _| Err(CtruError::Os(-1))), Err(CtruError::Os(-1))));
}

#[test]
fn dropping_a_host_stops_hosting() {
    let mut counter = ServiceCounter::new();
    let mut uds = new_uds(&mut counter);
    uds.create_network(&[0, 0, 0, 1], Some(1), None, |_| Ok(ctx(false))).unwrap();
    let mut destroyed = false;
    let mut disconnected = false;
    let closed = uds.drop_with(&mut counter, |_| Ok(()), || {
        disconnected = true;
        Ok(())
    }, || {
        destroyed = true;
        Ok(())
    }, || {});
    assert!(closed);
    assert!(destroyed);
    assert!(!disconnected);
    assert_eq!(counter.count(), 0);
}
