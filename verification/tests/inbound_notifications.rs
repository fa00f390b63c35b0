//! Inbound notification packets routed through the full pipeline.

use uwb_uci::classify::UciNotification;
use uwb_uci::dispatch::{DispatchEvent, DispatchQueue};
use uwb_uci::handler::UwbClientCallback;
use uwb_uci::logger::UciLogMode;

fn setup_client_callback() -> (DispatchQueue, UwbClientCallback) {
    (DispatchQueue::new(), UwbClientCallback::new(UciLogMode::Disabled))
}

fn deliver(data: &[u8]) -> Option<DispatchEvent> {
    let (mut queue, mut callback) = setup_client_callback();
    callback.on_uci_message(&mut queue, &data.to_vec());
    queue.try_recv()
}

#[test]
fn test_generic_error_ntf() {
    let data = [0x60, 0x07, 0x00, 0x01, 0x01];
    let response = deliver(&data);
    assert!(response.is_some());
    assert!(matches!(
        response,
        Some(DispatchEvent::Notification(UciNotification::GenericError { .. }))
    ));
}

#[test]
fn test_device_status_ntf() {
    let data = [0x60, 0x01, 0x00, 0x01, 0x01];
    let response = deliver(&data);
    assert!(response.is_some());
    assert!(matches!(
        response,
        Some(DispatchEvent::Notification(UciNotification::DeviceStatusNtf { .. }))
    ));
}

#[test]
fn test_session_status_ntf() {
    let data = [0x61, 0x02, 0x00, 0x06, 0x01, 0x02, 0x03, 0x04, 0x02, 0x21];
    let response = deliver(&data);
    assert!(response.is_some());
    assert!(matches!(
        response,
        Some(DispatchEvent::Notification(UciNotification::SessionStatusNtf { .. }))
    ));
}

#[test]
fn test_session_update_controller_multicast_list_ntf() {
    let data = [0x61, 0x07, 0x00, 0x06, 0x00, 0x01, 0x02, 0x03, 0x04, 0x00];
    let response = deliver(&data);
    assert!(response.is_some());
    assert!(matches!(
        response,
        Some(DispatchEvent::Notification(
            UciNotification::SessionUpdateControllerMulticastListNtf { .. }
        ))
    ));
}

#[test]
fn test_short_mac_two_way_range_data_ntf() {
    let data = [
        0x62, 0x00, 0x00, 0x19, 0x00, 0x02, 0x03, 0x04, 0x05, 0x06, 0x07, 0x08, 0x00, 0x0a,
        0x01, 0x01, 0x01, 0x01, 0x00, 0x00, 0x00, 0x00, 0x00, 0x00, 0x00, 0x00, 0x00, 0x00,
        0x00,
    ];
    let response = deliver(&data);
    assert!(response.is_some());
    assert!(matches!(
        response,
        Some(DispatchEvent::Notification(
            UciNotification::ShortMacTwoWayRangeDataNtf { .. }
        ))
    ));
}

#[test]
fn test_extended_mac_two_way_range_data_ntf() {
    let data = [
        0x62, 0x00, 0x00, 0x19, 0x00, 0x02, 0x03, 0x04, 0x05, 0x06, 0x07, 0x08, 0x00, 0x0a,
        0x01, 0x01, 0x01, 0x01, 0x00, 0x01, 0x00, 0x00, 0x00, 0x00, 0x00, 0x00, 0x00, 0x00,
        0x00,
    ];
    let response = deliver(&data);
    assert!(response.is_some());
    assert!(matches!(
        response,
        Some(DispatchEvent::Notification(
            UciNotification::ExtendedMacTwoWayRangeDataNtf { .. }
        ))
    ));
}

#[test]
fn test_raw_vendor_ntf_fragmented_packet() {
    let fragment_1 = [
        0x79, 0x01, 0x00, 0xff, 0x81, 0x93, 0xf8, 0x56, 0x53, 0x74, 0x5d, 0xcf, 0x45, 0xfa,
        0x34, 0xbd, 0xf1, 0x56, 0x53, 0x8f, 0x13, 0xff, 0x9b, 0xdd, 0xee, 0xaf, 0x0e, 0xff,
        0x1e, 0x63, 0xb6, 0xd7, 0xd4, 0x7b, 0xb7, 0x78, 0x30, 0xc7, 0x92, 0xd0, 0x8a, 0x5e,
        0xf0, 0x00, 0x1d, 0x05, 0xea, 0xf9, 0x56, 0xce, 0x8b, 0xbc, 0x8b, 0x1b, 0xc2, 0xd4,
        0x2a, 0xb8, 0x14, 0x82, 0x8b, 0xed, 0x12, 0xe5, 0x83, 0xe6, 0xb0, 0xb8, 0xa0, 0xb9,
        0xd0, 0x90, 0x6e, 0x09, 0x4e, 0x2e, 0x22, 0x38, 0x39, 0x03, 0x66, 0xf5, 0x95, 0x14,
        0x1c, 0xd7, 0x60, 0xbf, 0x28, 0x58, 0x9d, 0x47, 0x18, 0x1a, 0x93, 0x59, 0xbb, 0x0d,
        0x88, 0xf7, 0x7c, 0xce, 0x13, 0xa8, 0x2f, 0x3d, 0x0e, 0xd9, 0x5c, 0x19, 0x45, 0x5d,
        0xe8, 0xc3, 0xe0, 0x3a, 0xf3, 0x71, 0x09, 0x6e, 0x73, 0x07, 0x96, 0xa9, 0x1f, 0xf4,
        0x57, 0x84, 0x2e, 0x59, 0x6a, 0xf6, 0x90, 0x28, 0x47, 0xc1, 0x51, 0x7c, 0x59, 0x7e,
        0x95, 0xfc, 0xa6, 0x4d, 0x1b, 0xe6, 0xfe, 0x97, 0xa0, 0x39, 0x91, 0xa8, 0x28, 0xc9,
        0x1d, 0x7e, 0xfc, 0xec, 0x71, 0x1d, 0x43, 0x38, 0xcb, 0xbd, 0x50, 0xea, 0x02, 0xfd,
        0x2c, 0x7a, 0xde, 0x06, 0xdd, 0x77, 0x69, 0x4d, 0x2f, 0x57, 0xf5, 0x4b, 0x97, 0x51,
        0x58, 0x66, 0x7a, 0x8a, 0xcb, 0x7b, 0x91, 0x18, 0xbe, 0x4e, 0x94, 0xe4, 0xf1, 0xed,
        0x52, 0x06, 0xa7, 0xe8, 0x6b, 0xe1, 0x8f, 0x4a, 0x06, 0xe8, 0x2c, 0x9f, 0xc7, 0xcb,
        0xd2, 0x10, 0xb0, 0x0b, 0x71, 0x80, 0x2c, 0xd1, 0xf1, 0x03, 0xc2, 0x79, 0x7e, 0x7f,
        0x70, 0xf4, 0x8c, 0xc9, 0xcf, 0x9f, 0xcf, 0xa2, 0x8e, 0x6a, 0xe4, 0x1a, 0x28, 0x05,
        0xa8, 0xfe, 0x7d, 0xec, 0xd9, 0x5f, 0xa7, 0xd0, 0x29, 0x63, 0x1a, 0xba, 0x39, 0xf7,
        0xfa, 0x5e, 0xff, 0xb8, 0x5a, 0xbd, 0x35,
    ];
    let fragment_2 = [
        0x69, 0x01, 0x00, 0x91, 0xe7, 0x26, 0xfb, 0xc4, 0x48, 0x68, 0x42, 0x93, 0x23, 0x1f,
        0x87, 0xf6, 0x12, 0x5e, 0x60, 0xc8, 0x6a, 0x9d, 0x98, 0xbb, 0xb2, 0xb0, 0x47, 0x2f,
        0xaa, 0xa5, 0xce, 0xdb, 0x32, 0x88, 0x86, 0x0d, 0x6a, 0x5a, 0xfe, 0xc8, 0xda, 0xa1,
        0xc0, 0x06, 0x37, 0x08, 0xda, 0x67, 0x49, 0x6a, 0xa7, 0x04, 0x62, 0x95, 0xf3, 0x1e,
        0xcd, 0x71, 0x00, 0x99, 0x68, 0xb4, 0x03, 0xb3, 0x15, 0x64, 0x8b, 0xde, 0xbc, 0x8f,
        0x41, 0x64, 0xdf, 0x34, 0x6e, 0xff, 0x48, 0xc8, 0xe2, 0xbf, 0x02, 0x15, 0xc5, 0xbc,
        0x0f, 0xf8, 0xa1, 0x49, 0x91, 0x71, 0xdd, 0xb4, 0x37, 0x1c, 0xfa, 0x60, 0xcb, 0x0f,
        0xce, 0x6a, 0x0e, 0x90, 0xaf, 0x14, 0x30, 0xf2, 0x5b, 0x21, 0x6f, 0x85, 0xd3, 0x1b,
        0x89, 0xc9, 0xba, 0x3f, 0x07, 0x11, 0xbd, 0x56, 0xda, 0xdc, 0x88, 0xb4, 0xb0, 0x57,
        0x0b, 0x0c, 0x44, 0xd9, 0xb9, 0xd2, 0x38, 0x4c, 0xb6, 0xff, 0x83, 0xfe, 0xc8, 0x65,
        0xbc, 0x2a, 0x10, 0xed, 0x18, 0x62, 0xd2, 0x1b, 0x87,
    ];
    let (mut queue, mut callback) = setup_client_callback();
    callback.on_uci_message(&mut queue, &fragment_1.to_vec());
    assert_eq!(queue.len(), 0);
    callback.on_uci_message(&mut queue, &fragment_2.to_vec());
    // One defragmented packet queued as a notification.
    let response = queue.try_recv();
    assert!(matches!(
        response,
        Some(DispatchEvent::Notification(UciNotification::RawVendorNtf { .. }))
    ));
    assert_eq!(queue.try_recv(), None);
}
