use sensor_node::usb_interface::{
    device_config, interface_config, msos_config, web_usb_config, DeviceConfig, MsOsConfig,
    Packet, PipeAction, PipeEvent, PipePhase, UsbPipe, WebUsbConfig, WindowsVersion,
    BOS_DESCRIPTOR_LEN, CONFIG_DESCRIPTOR_LEN, CONTROL_BUF_LEN, MAX_PACKET_SIZE,
    MSOS_DESCRIPTOR_LEN,
};

fn packet(bytes: &[u8]) -> Packet {
    let mut data = [0u8; 64];
    data[..bytes.len()].copy_from_slice(bytes);
    Packet { data, len: bytes.len() }
}

/// A host on a scripted bus: it sends the packets it was given, collects what
/// comes back, and can fail one transfer.
struct MockHost {
    outgoing: Vec<Vec<u8>>,
    incoming: Vec<Vec<u8>>,
    fail_transfer: Option<usize>,
    transfers: usize,
    disabled: usize,
    connected: usize,
}

impl MockHost {
    fn new(outgoing: Vec<Vec<u8>>) -> MockHost {
        MockHost {
            outgoing,
            incoming: Vec::new(),
            fail_transfer: None,
            transfers: 0,
            disabled: 0,
            connected: 0,
        }
    }

    /// Performs the action; `None` once the host has nothing left to send.
    fn perform(&mut self, action: PipeAction) -> Option<PipeEvent> {
        match action {
            PipeAction::WaitConnected => {
                self.connected += 1;
                Some(PipeEvent::Connected)
            }
            PipeAction::Receive => {
                if self.outgoing.is_empty() {
                    return None;
                }
                self.transfers += 1;
                if self.fail_transfer == Some(self.transfers - 1) {
                    return Some(PipeEvent::EndpointError);
                }
                let bytes = self.outgoing.remove(0);
                Some(PipeEvent::Received(packet(&bytes)))
            }
            PipeAction::Send(sent) => {
                self.transfers += 1;
                if self.fail_transfer == Some(self.transfers - 1) {
                    return Some(PipeEvent::EndpointError);
                }
                self.incoming.push(sent.data[..sent.len].to_vec());
                Some(PipeEvent::Sent)
            }
            PipeAction::Disable => {
                self.disabled += 1;
                Some(PipeEvent::Disabled)
            }
        }
    }

    fn serve(&mut self, pipe: &mut UsbPipe) {
        let mut action = pipe.start();
        while let Some(event) = self.perform(action) {
            action = pipe.step(event);
        }
    }
}

#[test]
fn device_descriptor_is_vendor_specific() {
    let config = device_config();
    assert_eq!(config.vendor_id, 0xDEAD);
    assert_eq!(config.product_id, 0xC0DE);
    assert_eq!(config.manufacturer, "Manufacturer");
    assert_eq!(config.product, "Product");
    assert_eq!(config.serial_number, "12345678");
    assert_eq!(config.device_class, 0xFF);
    assert_eq!(config.device_sub_class, 0x00);
    assert_eq!(config.device_protocol, 0x00);
    assert!(!config.composite_with_iads);
    assert_eq!(config.max_packet_size_0, 64);
    assert_eq!(config.max_power, 100);
    assert!(config.is_well_formed());
}

#[test]
fn device_config_is_held_to_the_power_budget() {
    assert_eq!(DeviceConfig::POWER_BUDGET, 100);
    let mut config = device_config();
    config.max_power = 101;
    assert!(!config.is_well_formed());
    config.max_power = 0;
    assert!(config.is_well_formed());
}

#[test]
fn device_config_needs_a_full_speed_control_packet_size() {
    for size in 0..=255u8 {
        let mut config = device_config();
        config.max_packet_size_0 = size;
        assert_eq!(config.is_well_formed(), size == 8 || size == 16 || size == 32 || size == 64);
    }
}

#[test]
fn device_config_with_iads_needs_the_composite_class() {
    let mut config = device_config();
    config.composite_with_iads = true;
    assert!(!config.is_well_formed());
    config.device_class = 0xEF;
    config.device_sub_class = 0x02;
    config.device_protocol = 0x01;
    assert!(config.is_well_formed());
    config.device_protocol = 0x00;
    assert!(!config.is_well_formed());
    config.composite_with_iads = false;
    assert!(config.is_well_formed());
}

#[test]
fn web_usb_has_vendor_code_1_and_no_landing_page() {
    let config = web_usb_config();
    assert_eq!(config.vendor_code, 1);
    assert_eq!(config.max_packet_size, 64);
    assert_eq!(config.landing_url, None);
    assert!(config.is_well_formed());
}

fn leaked(text: String) -> &'static str {
    Box::leak(text.into_boxed_str())
}

#[test]
fn web_usb_landing_page_must_fit_its_descriptor() {
    assert_eq!(WebUsbConfig::LANDING_URL_LEN, 252);
    let mut config = web_usb_config();
    config.landing_url = Some("https://example.org/node");
    assert!(config.is_well_formed());
    config.landing_url = Some(leaked("u".repeat(252)));
    assert!(config.is_well_formed());
    config.landing_url = Some(leaked("u".repeat(253)));
    assert!(!config.is_well_formed());
    config.landing_url = Some("");
    assert!(config.is_well_formed());
    config.landing_url = Some("https://example.org/n\u{f6}de");
    assert!(!config.is_well_formed());
}

#[test]
fn web_usb_landing_page_is_measured_without_its_scheme() {
    let mut config = web_usb_config();
    config.landing_url = Some(leaked(format!("https://{}", "u".repeat(252))));
    assert!(config.is_well_formed());
    config.landing_url = Some(leaked(format!("https://{}", "u".repeat(253))));
    assert!(!config.is_well_formed());
    config.landing_url = Some(leaked(format!("http://{}", "u".repeat(252))));
    assert!(config.is_well_formed());
    config.landing_url = Some(leaked(format!("http://{}", "u".repeat(253))));
    assert!(!config.is_well_formed());
    config.landing_url = Some("https://");
    assert!(config.is_well_formed());
    config.landing_url = Some("http://");
    assert!(config.is_well_formed());
}

#[test]
fn web_usb_landing_page_with_another_scheme_is_measured_whole() {
    let mut config = web_usb_config();
    config.landing_url = Some(leaked(format!("ftp://{}", "u".repeat(246))));
    assert!(config.is_well_formed());
    config.landing_url = Some(leaked(format!("ftp://{}", "u".repeat(247))));
    assert!(!config.is_well_formed());
    config.landing_url = Some(leaked(format!("HTTPS://{}", "u".repeat(245))));
    assert!(!config.is_well_formed());
    config.landing_url = Some(leaked(format!("https:/{}", "u".repeat(246))));
    assert!(!config.is_well_formed());
    config.landing_url = Some(leaked(format!("http:/{}", "u".repeat(246))));
    assert!(config.is_well_formed());
}

#[test]
fn web_usb_needs_a_full_speed_packet_size() {
    let mut config = web_usb_config();
    config.max_packet_size = 65;
    assert!(!config.is_well_formed());
    config.max_packet_size = 0;
    assert!(!config.is_well_formed());
    for size in [8, 16, 32, 64] {
        config.max_packet_size = size;
        assert!(config.is_well_formed());
    }
}

#[test]
fn msos_set_binds_winusb_and_the_interface_guid() {
    let config = msos_config();
    assert_eq!(config.windows_version, WindowsVersion::Win8_1);
    assert_eq!(config.vendor_code, 0);
    assert_eq!(config.compatible_id, "WINUSB");
    assert_eq!(config.sub_compatible_id, "");
    assert_eq!(config.property_name, "DeviceInterfaceGUIDs");
    assert_eq!(config.device_interface_guids, ["{AFB9A6FB-30BA-44BC-9232-806CFC875321}"]);
    assert!(config.is_well_formed());
}

#[test]
fn msos_compatible_ids_are_at_most_8_ascii_bytes() {
    assert_eq!(MsOsConfig::COMPATIBLE_ID_LEN, 8);
    let mut config = msos_config();
    config.compatible_id = "WINUSB12";
    assert!(config.is_well_formed());
    config.compatible_id = "WINUSB123";
    assert!(!config.is_well_formed());
    config.compatible_id = "WINUSB";
    config.sub_compatible_id = "12345678";
    assert!(config.is_well_formed());
    config.sub_compatible_id = "123456789";
    assert!(!config.is_well_formed());
    config.sub_compatible_id = "";
    config.compatible_id = "WIN\u{dc}SB";
    assert!(!config.is_well_formed());
}

#[test]
fn interface_has_one_bulk_endpoint_each_way() {
    let config = interface_config(&web_usb_config());
    assert_eq!(config.class, 0xFF);
    assert_eq!(config.sub_class, 0x00);
    assert_eq!(config.protocol, 0x00);
    assert_eq!(config.bulk_in_max_packet_size, 64);
    assert_eq!(config.bulk_out_max_packet_size, 64);
}

#[test]
fn interface_takes_its_packet_size_from_web_usb() {
    let mut web_usb = web_usb_config();
    web_usb.max_packet_size = 32;
    let config = interface_config(&web_usb);
    assert_eq!(config.bulk_in_max_packet_size, 32);
    assert_eq!(config.bulk_out_max_packet_size, 32);
}

#[test]
fn buffer_budgets() {
    assert_eq!(CONFIG_DESCRIPTOR_LEN, 256);
    assert_eq!(BOS_DESCRIPTOR_LEN, 256);
    assert_eq!(MSOS_DESCRIPTOR_LEN, 256);
    assert_eq!(CONTROL_BUF_LEN, 64);
    assert_eq!(MAX_PACKET_SIZE, 64);
}

#[test]
fn new_pipe_waits_for_the_host() {
    let mut pipe = UsbPipe::new();
    assert_eq!(pipe.phase(), PipePhase::AwaitingHost);
    assert_eq!(pipe.start(), PipeAction::WaitConnected);
    assert_eq!(pipe.phase(), PipePhase::AwaitingHost);
}

#[test]
fn usb_loopback() {
    let mut pipe = UsbPipe::new();
    assert_eq!(pipe.start(), PipeAction::WaitConnected);
    assert_eq!(pipe.step(PipeEvent::Connected), PipeAction::Receive);
    assert_eq!(pipe.phase(), PipePhase::Receiving);
    let sent = packet(&[0x01, 0x02, 0x03]);
    let answer = pipe.step(PipeEvent::Received(sent));
    assert_eq!(answer, PipeAction::Send(sent));
    assert_eq!(pipe.phase(), PipePhase::Sending);
    match answer {
        PipeAction::Send(echo) => assert_eq!(&echo.data[..echo.len], &[0x01, 0x02, 0x03]),
        other => panic!("unexpected answer {:?}", other),
    }
    assert_eq!(pipe.step(PipeEvent::Sent), PipeAction::Receive);
    assert_eq!(pipe.phase(), PipePhase::Receiving);
}

#[test]
fn loopback_round_trip_keeps_bytes_and_order() {
    let outgoing: Vec<Vec<u8>> = vec![
        vec![0x01, 0x02, 0x03],
        vec![],
        (0..64).collect(),
        vec![0xFF],
        vec![],
        vec![0x00; 64],
        vec![0x80, 0x7F],
    ];
    let mut host = MockHost::new(outgoing.clone());
    let mut pipe = UsbPipe::new();
    host.serve(&mut pipe);
    assert_eq!(host.incoming, outgoing);
    assert_eq!(host.connected, 1);
    assert_eq!(host.disabled, 0);
    assert_eq!(pipe.phase(), PipePhase::Receiving);
}

#[test]
fn zero_length_packet_is_echoed() {
    let mut pipe = UsbPipe::new();
    pipe.start();
    pipe.step(PipeEvent::Connected);
    let empty = packet(&[]);
    assert_eq!(pipe.step(PipeEvent::Received(empty)), PipeAction::Send(empty));
    assert_eq!(pipe.step(PipeEvent::Sent), PipeAction::Receive);
}

#[test]
fn full_packet_is_echoed_and_a_longer_one_cuts_the_pipe() {
    let mut pipe = UsbPipe::new();
    pipe.start();
    pipe.step(PipeEvent::Connected);
    let full = Packet { data: [0xA5; 64], len: 64 };
    assert_eq!(pipe.step(PipeEvent::Received(full)), PipeAction::Send(full));
    pipe.step(PipeEvent::Sent);
    let overlong = Packet { data: [0xA5; 64], len: 65 };
    assert_eq!(pipe.step(PipeEvent::Received(overlong)), PipeAction::Disable);
    assert_eq!(pipe.phase(), PipePhase::Disabling);
}

#[test]
fn endpoint_error_disables_then_waits_for_the_host() {
    for failing in 0..4 {
        let mut pipe = UsbPipe::new();
        pipe.start();
        pipe.step(PipeEvent::Connected);
        if failing % 2 == 1 {
            pipe.step(PipeEvent::Received(packet(&[0x01])));
            assert_eq!(pipe.phase(), PipePhase::Sending);
        }
        assert_eq!(pipe.step(PipeEvent::EndpointError), PipeAction::Disable);
        assert_eq!(pipe.phase(), PipePhase::Disabling);
        assert_eq!(pipe.step(PipeEvent::Disabled), PipeAction::WaitConnected);
        assert_eq!(pipe.phase(), PipePhase::AwaitingHost);
    }
}

#[test]
fn hot_unplug() {
    let outgoing: Vec<Vec<u8>> = vec![vec![0x01, 0x02, 0x03], vec![0x04], vec![0x05, 0x06]];
    let mut host = MockHost::new(outgoing);
    host.fail_transfer = Some(3);
    let mut pipe = UsbPipe::new();
    host.serve(&mut pipe);
    assert_eq!(host.disabled, 1);
    assert_eq!(host.connected, 2);
    assert_eq!(host.incoming, vec![vec![0x01, 0x02, 0x03], vec![0x05, 0x06]]);
    assert_eq!(pipe.phase(), PipePhase::Receiving);
}

#[test]
fn pump_stop_cuts_the_pipe_in_every_phase() {
    let mut pipe = UsbPipe::new();
    pipe.start();
    assert_eq!(pipe.step(PipeEvent::PumpStopped), PipeAction::Disable);
    assert_eq!(pipe.step(PipeEvent::Disabled), PipeAction::WaitConnected);
    pipe.step(PipeEvent::Connected);
    assert_eq!(pipe.step(PipeEvent::PumpStopped), PipeAction::Disable);
    assert_eq!(pipe.step(PipeEvent::Disabled), PipeAction::WaitConnected);
    pipe.step(PipeEvent::Connected);
    pipe.step(PipeEvent::Received(packet(&[0x09])));
    assert_eq!(pipe.step(PipeEvent::PumpStopped), PipeAction::Disable);
    assert_eq!(pipe.step(PipeEvent::PumpStopped), PipeAction::Disable);
    assert_eq!(pipe.phase(), PipePhase::Disabling);
    assert_eq!(pipe.step(PipeEvent::Disabled), PipeAction::WaitConnected);
}

#[test]
fn no_transfer_is_asked_for_while_the_device_is_disabled() {
    let events = [
        PipeEvent::Connected,
        PipeEvent::Received(packet(&[0x01])),
        PipeEvent::Sent,
        PipeEvent::EndpointError,
        PipeEvent::PumpStopped,
    ];
    for event in events {
        let mut pipe = UsbPipe::new();
        pipe.start();
        pipe.step(PipeEvent::EndpointError);
        assert_eq!(pipe.phase(), PipePhase::Disabling);
        assert_eq!(pipe.step(event), PipeAction::Disable);
        assert_eq!(pipe.phase(), PipePhase::Disabling);
    }
}

#[test]
fn event_out_of_turn_cuts_the_pipe() {
    let mut pipe = UsbPipe::new();
    pipe.start();
    assert_eq!(pipe.step(PipeEvent::Sent), PipeAction::Disable);

    let mut pipe = UsbPipe::new();
    pipe.start();
    assert_eq!(pipe.step(PipeEvent::Received(packet(&[0x01]))), PipeAction::Disable);

    let mut pipe = UsbPipe::new();
    pipe.start();
    assert_eq!(pipe.step(PipeEvent::Disabled), PipeAction::Disable);

    let mut pipe = UsbPipe::new();
    pipe.start();
    pipe.step(PipeEvent::Connected);
    assert_eq!(pipe.step(PipeEvent::Connected), PipeAction::Disable);

    let mut pipe = UsbPipe::new();
    pipe.start();
    pipe.step(PipeEvent::Connected);
    pipe.step(PipeEvent::Received(packet(&[0x01])));
    assert_eq!(pipe.step(PipeEvent::Received(packet(&[0x02]))), PipeAction::Disable);
}

#[test]
fn start_resets_the_pipe() {
    let mut pipe = UsbPipe::new();
    pipe.start();
    pipe.step(PipeEvent::Connected);
    pipe.step(PipeEvent::Received(packet(&[0x01])));
    assert_eq!(pipe.start(), PipeAction::WaitConnected);
    assert_eq!(pipe, UsbPipe::new());
}
