use ctru::sdmc::Sdmc;
use ctru::services::svc::MemoryBlock;
use ctru::srv::Srv;
use ctru::console::{new_row, print_char, ConsoleCursor, PrintOutcome};
use ctru::error::Error;
use ctru::os::{MemRegion, Version, WifiStrength};
use ctru::services::ir_user::{
    initialize_request, round_up, shared_memory_len_for, CirclePadProInputResponse, ConnectionStatus, IrCommand,
    IrDeviceId, IrUser, IrUserPacket,
};
use ctru::services::reference::ServiceCounter;

fn ir_user(counter: &mut ServiceCounter, recv: usize, recv_count: usize, send: usize, send_count: usize) -> IrUser {
    IrUser::init(counter, recv, recv_count, send, send_count, |_| Ok(()), || {}).unwrap()
}
use ctru::services::svc::{
    check_memory_block_alignment, convert_pa_to_uncached_pa, eat_events_step, make_ipc_header, process_list,
    query_response, reply_target_handle, wait_timeout_nanos, EatEventsStep, Handle, HandleExt, MemInfo, PageInfo,
    INVALID_ALIGNMENT_ERROR, INVALID_POINTER_ERROR, NO_DEBUG_EVENT_PENDING,
};

#[test]
fn version_round_trip() {
    let v = Version::new(2, 58, 7);
    assert_eq!((v.major(), v.minor(), v.revision()), (2, 58, 7));
    let raw = Version::from_raw(0x0237_0500);
    assert_eq!((raw.major(), raw.minor(), raw.revision()), (2, 0x37, 5));
}

#[test]
fn wifi_strength_and_regions() {
    assert!(matches!(WifiStrength::current(0), WifiStrength::Disconnected));
    assert!(matches!(WifiStrength::current(3), WifiStrength::Good));
    assert_eq!(WifiStrength::from_raw(4), None);
    assert_eq!(u32::from(MemRegion::Base), 3);
}

#[test]
fn ipc_headers() {
    assert_eq!(make_ipc_header(0x18, 6, 2), 0x0018_0182);
    assert_eq!(make_ipc_header(1, 0xFF, 0xFF), 0x0001_0FFF);
}

#[test]
fn physical_addresses() {
    assert_eq!(convert_pa_to_uncached_pa(0x2000_0000).unwrap(), 0xA000_0000);
    assert_eq!(convert_pa_to_uncached_pa(0x8000_1000).unwrap(), 0x8000_1000);
    assert!(matches!(convert_pa_to_uncached_pa(0), Err(Error::Os(c)) if c == INVALID_POINTER_ERROR));
    assert!(check_memory_block_alignment(0x1000).is_ok());
    assert!(matches!(check_memory_block_alignment(0x1001), Err(Error::Os(c)) if c == INVALID_ALIGNMENT_ERROR));
}

#[test]
fn debug_event_draining() {
    assert_eq!(eat_events_step(&Err(Error::Os(NO_DEBUG_EVENT_PENDING as i32))), EatEventsStep::Stop);
    assert_eq!(eat_events_step(&Err(Error::Os(-1))), EatEventsStep::ContinueProcess);
    assert_eq!(eat_events_step(&Ok(())), EatEventsStep::ContinueProcess);
}

#[test]
fn handle_replies() {
    let handle = Handle::from(0x1234u32);
    assert_eq!(handle.get_raw(), 0x1234);
    assert_eq!(Handle::get_current_process_handle().get_raw(), 0xFFFF_8001);
    let buffer = [0x0001_0040u32, 0, 7, 8, 9];
    assert_eq!(handle.service_response(0, &buffer, 3).unwrap(), vec![0x0001_0040, 0, 7]);
    assert!(matches!(handle.service_response(-2, &buffer, 3), Err(Error::Os(-2))));
    let failing = [0u32, 0xC8A0_4C02, 1];
    assert!(matches!(handle.service_response(0, &failing, 2), Err(Error::Os(c)) if c == 0xC8A0_4C02u32 as i32));
    let mut waited = None;
    assert!(handle.wait_for_event(5_000, |h, t| {
        waited = Some((h, t));
        0
    })
    .is_ok());
    assert_eq!(waited, Some((0x1234, 5_000)));
    assert!(matches!(handle.wait_for_event(5, |_, _| -3), Err(Error::Os(-3))));
    let too_long = handle.wait_for_event(u128::MAX, |_, _| 0);
    assert!(matches!(too_long, Err(Error::Other(m))
        if m == "Failed to convert timeout to 64-bit nanoseconds: out of range integral type conversion attempted"));
    assert_eq!(wait_timeout_nanos(i64::MAX as u128).unwrap(), i64::MAX);
}

#[test]
fn memory_queries_and_process_lists() {
    let info = MemInfo { base_addr: 0x100000, size: 0x1000, perm: 3, state: 5 };
    let q = query_response(0, info, PageInfo { flags: 1 }).unwrap();
    assert_eq!(q.mem_info, info);
    assert!(matches!(query_response(-1, info, PageInfo { flags: 1 }), Err(Error::Os(-1))));
    assert_eq!(process_list(0, vec![4, 5, 6, 0], 3).unwrap(), vec![4, 5, 6]);
    assert!(matches!(process_list(-9, vec![], 0), Err(Error::Os(-9))));
    assert_eq!(reply_target_handle(&[10, 20, 30], Some(1)), 20);
    assert_eq!(reply_target_handle(&[10, 20, 30], None), 0);
}

#[test]
fn rounding_up() {
    assert_eq!(round_up(0, 0x1000), 0);
    assert_eq!(round_up(1, 0x1000), 0x1000);
    assert_eq!(round_up(0x1000, 0x1000), 0x1000);
    assert_eq!(round_up(0x1001, 0x1000), 0x2000);
}

#[test]
fn ir_user_requests() {
    let mut counter = ServiceCounter::new();
    let mut started_with = 0;
    let ir = IrUser::init(&mut counter, 0x1000, 16, 0x1000, 16, |len| {
        started_with = len;
        Ok(())
    }, || {})
    .unwrap();
    assert_eq!(started_with, 0x3000);
    let len = ir.shared_memory_len();
    assert_eq!(len, 0x3000);
    assert_eq!(shared_memory_len_for(0x1000, 0x1000), 0x3000);
    assert_eq!(
        initialize_request(0x1000, 16, 0x1000, 16, len, 0x55),
        vec![make_ipc_header(24, 6, 2), 0x3000, 0x1000, 16, 0x1000, 16, 4, 0, 0x55]
    );
    let (req, resp_len) = IrUser::command_request(IrCommand::RequireConnection(IrDeviceId::CirclePadPro));
    assert_eq!(req, vec![make_ipc_header(6, 1, 0), 1]);
    assert_eq!(resp_len, 2);
    let (req, _) = IrUser::command_request(IrCommand::SendIrNop { payload_len: 3, payload_address: 0x2000 });
    assert_eq!(req, vec![make_ipc_header(13, 1, 2), 3, 2 + 3 * 0x4000, 0x2000]);
    assert_eq!(IrUser::input_polling_packet(8), vec![1, 8, 40]);
    assert_eq!(IrDeviceId::Custom(9).get_id(), 9);
    let mut seen = 0;
    let mem = vec![0u8; 0x3000];
    ir.process_shared_memory(&mem, |m| seen = m.len());
    assert_eq!(seen, 0x3000);
}

#[test]
fn ir_user_single_handle() {
    let mut counter = ServiceCounter::new();
    let ir = ir_user(&mut counter, 0x40, 2, 0x40, 2);
    assert!(matches!(
        IrUser::init(&mut counter, 0x40, 2, 0x40, 2, |_| Ok(()), || {}),
        Err(Error::ServiceAlreadyActive)
    ));
    let mut closed_calls = 0;
    assert!(ir.drop_with(&mut counter, || closed_calls += 1));
    assert_eq!(closed_calls, 1);
    assert!(matches!(
        IrUser::init(&mut counter, 0x40, 2, 0x40, 2, |_| Err(Error::Os(-5)), || {}),
        Err(Error::Os(-5))
    ));
    assert_eq!(counter.count(), 0);
}

#[test]
fn ir_user_status_info() {
    let mut counter = ServiceCounter::new();
    let ir = ir_user(&mut counter, 0x40, 2, 0x40, 2);
    let mut mem = vec![0u8; 16];
    mem[0] = 0xFF;
    mem[1] = 0xFF;
    mem[2] = 0xFF;
    mem[3] = 0xFF;
    mem[4] = 7;
    mem[8] = 2;
    mem[13] = 9;
    let info = ir.get_status_info(&mem);
    assert_eq!(info.recv_err_result, -1);
    assert_eq!(info.send_err_result, 7);
    assert_eq!(info.connection_status, ConnectionStatus::Connected);
    assert_eq!(info.network_id, 9);
    mem[8] = 7;
    assert_eq!(ir.get_status_info(&mem).connection_status, ConnectionStatus::Unknown(7));
}

fn memory_with_packet(bytes: &[u8], data_length: u32) -> Vec<u8> {
    let mut mem = vec![0u8; 0x20 + 0x40];
    mem[0x18] = 1;
    mem[0x24] = data_length as u8;
    for (i, b) in bytes.iter().enumerate() {
        mem[0x30 + i] = *b;
    }
    mem
}

#[test]
fn ir_user_packets() {
    let mut counter = ServiceCounter::new();
    let ir = ir_user(&mut counter, 0x40, 2, 0x40, 2);
    let mem = memory_with_packet(&[0xA5, 0x00, 0x01, 0x42, 0x77], 5);
    let packets = ir.get_packets(&mem).unwrap();
    assert_eq!(packets.len(), 1);
    assert_eq!(packets[0].magic_number, 0xA5);
    assert_eq!(packets[0].payload_length, 1);
    assert_eq!(packets[0].payload, vec![0x42]);
    assert_eq!(packets[0].checksum, 0x77);
    let bad_magic = memory_with_packet(&[0xA4, 0x00, 0x01, 0x42, 0x77], 5);
    assert_eq!(ir.get_packets(&bad_magic).unwrap_err(), "Invalid magic number in packet: 0xa4, expected 0xA5");
    let bad_length = memory_with_packet(&[0xA5, 0x00, 0x01, 0x42, 0x77], 6);
    assert_eq!(ir.get_packets(&bad_length).unwrap_err(), "Invalid payload length (expected 6, got 5)");
    let mut none = memory_with_packet(&[], 0);
    none[0x18] = 0;
    assert!(ir.get_packets(&none).unwrap().is_empty());
}

#[test]
fn circle_pad_pro_response() {
    let packet = IrUserPacket {
        magic_number: 0xA5,
        destination_network_id: 0,
        payload_length: 6,
        payload: vec![0x10, 0x34, 0x12, 0x56, 0b0100_0101, 0x99],
        checksum: 0,
    };
    let r = CirclePadProInputResponse::try_from(&packet).unwrap();
    assert_eq!(r.c_stick_x, 0x234);
    assert_eq!(r.c_stick_y, 0x561);
    assert_eq!(r.battery_level, 5);
    assert!(r.zl_pressed);
    assert!(!r.zr_pressed);
    assert!(r.r_pressed);
    assert_eq!(r.unknown_field, 0x99);
    let short = IrUserPacket { payload: vec![0x10], payload_length: 1, ..packet.clone() };
    assert_eq!(
        CirclePadProInputResponse::try_from(&short).unwrap_err(),
        "Invalid payload length (expected 6 bytes, got 1)"
    );
    let wrong_id = IrUserPacket { payload: vec![0x11, 0, 0, 0, 0, 0], ..packet };
    assert_eq!(
        CirclePadProInputResponse::try_from(&wrong_id).unwrap_err(),
        "Invalid response ID (expected 16, got 0x11"
    );
    let d = CirclePadProInputResponse::default();
    assert_eq!(d.battery_level, 0);
}

#[test]
fn console_cursor() {
    let mut c = ConsoleCursor { cursor_x: 5, cursor_y: 0, window_width: 10, window_height: 3 };
    assert_eq!(print_char(&mut c, 13), PrintOutcome { handled: true, scrolls: 0 });
    assert_eq!((c.cursor_x, c.cursor_y), (0, 0));
    assert_eq!(print_char(&mut c, 10), PrintOutcome { handled: true, scrolls: 0 });
    assert_eq!((c.cursor_x, c.cursor_y), (0, 1));
    assert_eq!(print_char(&mut c, 'a' as i32), PrintOutcome { handled: false, scrolls: 0 });
    c.cursor_y = 2;
    assert_eq!(print_char(&mut c, 10), PrintOutcome { handled: true, scrolls: 1 });
    assert_eq!(c.cursor_y, 2);
    c.cursor_x = 10;
    assert_eq!(print_char(&mut c, 'b' as i32), PrintOutcome { handled: true, scrolls: 1 });
    assert_eq!((c.cursor_x, c.cursor_y), (0, 2));
    let mut d = ConsoleCursor { cursor_x: 0, cursor_y: 0, window_width: 4, window_height: 4 };
    assert!(!new_row(&mut d));
    assert_eq!(d.cursor_y, 1);
}

#[test]
fn memory_blocks() {
    let b = MemoryBlock::new(Handle::from(3u32), 0x0800_0000, 0x2000).unwrap();
    assert_eq!(b.unmap_target(), (3, 0x0800_0000));
    assert!(matches!(
        MemoryBlock::new(Handle::from(3u32), 0x0800_0010, 0x2000),
        Err(Error::Os(c)) if c == INVALID_ALIGNMENT_ERROR
    ));
}

#[test]
fn service_manager_and_sd_card() {
    assert!(Srv::init(0).is_ok());
    assert!(matches!(Srv::init(-1), Err(Error::Os(-1))));
    assert!(Sdmc::init(1).is_ok());
    assert!(matches!(Sdmc::init(-20), Err(Error::Os(-20))));
}
