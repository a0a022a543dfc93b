use raspi_info_display::bus::{Bus, BusError, MockBus};
use raspi_info_display::handle::BusHandle;
use raspi_info_display::mux::{
    channel_command, select_channel_on, select_then_write_on, MuxError, Tca9548a,
};

fn mock_bus() -> Bus {
    Bus::Mock(MockBus::new())
}

fn into_mock(bus: Bus) -> MockBus {
    match bus {
        Bus::Mock(m) => m,
        Bus::Device(_) => panic!("expected the mock transport"),
    }
}

#[test]
fn command_byte_is_single_bit() {
    for n in 0u8..=7u8 {
        assert_eq!(channel_command(n), 1u8 << n);
    }
}

#[test]
fn select_scenario_writes_expected_bytes() {
    let mut bus = mock_bus();
    assert!(select_channel_on(&mut bus, 0x70, 3).is_ok());
    assert_eq!(
        select_channel_on(&mut bus, 0x70, 8),
        Err(MuxError::InvalidChannel(8))
    );
    assert!(select_channel_on(&mut bus, 0x70, 0).is_ok());
    assert!(select_channel_on(&mut bus, 0x70, 7).is_ok());
    let m = into_mock(bus);
    assert_eq!(m.writes.len(), 3);
    assert_eq!(m.writes[0].addr, 0x70);
    assert_eq!(m.writes[0].data, vec![0x08]);
    assert_eq!(m.writes[1].addr, 0x70);
    assert_eq!(m.writes[1].data, vec![0x01]);
    assert_eq!(m.writes[2].addr, 0x70);
    assert_eq!(m.writes[2].data, vec![0x80]);
}

#[test]
fn out_of_range_channel_writes_nothing() {
    let mut bus = mock_bus();
    assert_eq!(
        select_channel_on(&mut bus, 0x70, 8),
        Err(MuxError::InvalidChannel(8))
    );
    assert_eq!(
        select_channel_on(&mut bus, 0x70, 255),
        Err(MuxError::InvalidChannel(255))
    );
    let m = into_mock(bus);
    assert_eq!(m.writes.len(), 0);
}

#[test]
fn repeated_select_is_idempotent() {
    let mut bus = mock_bus();
    assert!(select_channel_on(&mut bus, 0x70, 5).is_ok());
    assert!(select_channel_on(&mut bus, 0x70, 5).is_ok());
    let m = into_mock(bus);
    assert_eq!(m.writes.len(), 2);
    assert_eq!(m.writes[0].data, vec![0x20]);
    assert_eq!(m.writes[1].data, vec![0x20]);
    assert_eq!(m.writes[0].addr, m.writes[1].addr);
}

#[test]
fn transport_failure_propagates_unchanged() {
    let mut mock = MockBus::new();
    mock.fail_once(BusError::Nack);
    let mut bus = Bus::Mock(mock);
    assert_eq!(
        select_channel_on(&mut bus, 0x70, 2),
        Err(MuxError::Transport(BusError::Nack))
    );
    // The failed select recorded nothing; the next one goes through.
    assert!(select_channel_on(&mut bus, 0x70, 2).is_ok());
    let m = into_mock(bus);
    assert_eq!(m.writes.len(), 1);
    assert_eq!(m.writes[0].data, vec![0x04]);
}

#[test]
fn selects_are_whole_and_in_call_order() {
    let mut bus = mock_bus();
    assert!(select_channel_on(&mut bus, 0x70, 1).is_ok());
    assert!(select_channel_on(&mut bus, 0x70, 4).is_ok());
    let m = into_mock(bus);
    assert_eq!(m.writes.len(), 2);
    assert_eq!(m.writes[0].data, vec![0x02]);
    assert_eq!(m.writes[1].data, vec![0x10]);
}

#[test]
fn select_then_write_shares_one_critical_section() {
    let mut bus = mock_bus();
    let payload = [0xAEu8, 0x01];
    assert!(select_then_write_on(&mut bus, 0x70, 3, 0x3C, &payload).is_ok());
    let m = into_mock(bus);
    assert_eq!(m.writes.len(), 2);
    assert_eq!(m.writes[0].addr, 0x70);
    assert_eq!(m.writes[0].data, vec![0x08]);
    assert_eq!(m.writes[1].addr, 0x3C);
    assert_eq!(m.writes[1].data, vec![0xAE, 0x01]);
}

#[test]
fn select_then_write_stops_on_failed_select() {
    let mut mock = MockBus::new();
    mock.fail_once(BusError::BusFault);
    let mut bus = Bus::Mock(mock);
    let payload = [0xAEu8];
    assert_eq!(
        select_then_write_on(&mut bus, 0x70, 3, 0x3C, &payload),
        Err(MuxError::Transport(BusError::BusFault))
    );
    let m = into_mock(bus);
    assert_eq!(m.writes.len(), 0);
}

#[test]
fn controller_defaults_to_conventional_address() {
    let mux = Tca9548a::new(BusHandle::new(mock_bus()));
    assert_eq!(mux.address(), 0x70);
}

#[test]
fn controller_selects_and_rejects() {
    let handle = BusHandle::new(mock_bus());
    let mut mux = Tca9548a::with_address(handle, 0x71);
    assert_eq!(mux.address(), 0x71);
    assert!(mux.select_channel(0).is_ok());
    assert!(mux.select_channel(7).is_ok());
    assert_eq!(mux.select_channel(8), Err(MuxError::InvalidChannel(8)));
}

#[test]
fn shared_handles_drive_the_same_wire() {
    let handle = BusHandle::new(mock_bus());
    let other = handle.share();
    assert!(handle.write(0x70, &[0x01]).is_ok());
    assert!(other.write(0x3C, &[0xAE]).is_ok());
    let mut mux = Tca9548a::with_address(handle.share(), 0x70);
    assert!(mux.select_channel(4).is_ok());
}

#[test]
fn controller_combined_operation() {
    let handle = BusHandle::new(mock_bus());
    let mut mux = Tca9548a::with_address(handle, 0x70);
    assert!(mux.select_and_write(2, 0x3C, &[0xAF]).is_ok());
    assert_eq!(mux.select_and_write(9, 0x3C, &[0xAF]), Err(MuxError::InvalidChannel(9)));
}

#[test]
fn write_read_records_the_write_part() {
    let mut bus = mock_bus();
    let response = bus.write_read(0x70, &[0x00], 2).unwrap();
    assert_eq!(response, vec![0, 0]);
    let m = into_mock(bus);
    assert_eq!(m.writes.len(), 1);
    assert_eq!(m.writes[0].addr, 0x70);
    assert_eq!(m.writes[0].data, vec![0x00]);
}

#[test]
fn failed_write_read_records_nothing() {
    let mut mock = MockBus::new();
    mock.fail_once(BusError::Overrun);
    let mut bus = Bus::Mock(mock);
    assert_eq!(bus.write_read(0x70, &[0x00], 1), Err(BusError::Overrun));
    let m = into_mock(bus);
    assert_eq!(m.writes.len(), 0);
}

#[test]
fn handle_write_read_length_matches_request() {
    let handle = BusHandle::new(mock_bus());
    let response = handle.write_read(0x70, &[0x01], 4).unwrap();
    assert_eq!(response.len(), 4);
}
