//! The USB side of the node: what the descriptors are built from, and the
//! life cycle of the bulk loopback pipe.

use vstd::prelude::*;
use vstd::string::is_ascii;
use vstd::string::StrSliceExecFns;

verus! {

/// Size of the buffer for the configuration descriptor, in bytes.
pub const CONFIG_DESCRIPTOR_LEN: usize = 256;

/// Size of the buffer for the BOS descriptor, in bytes.
pub const BOS_DESCRIPTOR_LEN: usize = 256;

/// Size of the buffer for the MS OS 2.0 descriptor set, in bytes.
pub const MSOS_DESCRIPTOR_LEN: usize = 256;

/// Size of the buffer for control transfers, in bytes.
pub const CONTROL_BUF_LEN: usize = 64;

/// Largest packet on the bulk endpoints, and the size of the pipe's buffer.
pub const MAX_PACKET_SIZE: usize = 64;

/// What the device descriptor is built from.
#[derive(Clone, Copy, PartialEq, Eq, Debug)]
pub struct DeviceConfig {
    pub vendor_id: u16,
    pub product_id: u16,
    pub manufacturer: &'static str,
    pub product: &'static str,
    pub serial_number: &'static str,
    pub device_class: u8,
    pub device_sub_class: u8,
    pub device_protocol: u8,
    /// Whether each function gets an interface association descriptor.
    pub composite_with_iads: bool,
    /// Largest packet on the control endpoint, in bytes.
    pub max_packet_size_0: u8,
    /// Largest current drawn from the bus, in milliamperes.
    pub max_power: u16,
}

impl DeviceConfig {
    /// Largest current that the node may draw from the bus, in milliamperes.
    pub const POWER_BUDGET: u16 = 100;

    /// What the device stack asks of a configuration, and the node's power
    /// budget: a control packet size that full speed allows, at most 100 mA,
    /// and the class triple of a composite device wherever interface
    /// association descriptors are asked for.
    pub open spec fn well_formed(&self) -> bool {
        &&& self.max_packet_size_0 == 8 || self.max_packet_size_0 == 16 || self.max_packet_size_0
            == 32 || self.max_packet_size_0 == 64
        &&& self.max_power <= DeviceConfig::POWER_BUDGET
        &&& self.composite_with_iads ==> self.device_class == 0xEF && self.device_sub_class == 0x02
            && self.device_protocol == 0x01
    }

    /// Whether the configuration is well formed.
    pub fn is_well_formed(&self) -> (valid: bool)
        ensures
            valid == self.well_formed(),
    {
        (self.max_packet_size_0 == 8 || self.max_packet_size_0 == 16 || self.max_packet_size_0 == 32
            || self.max_packet_size_0 == 64) && self.max_power <= DeviceConfig::POWER_BUDGET && (
        !self.composite_with_iads || (self.device_class == 0xEF && self.device_sub_class == 0x02
            && self.device_protocol == 0x01))
    }
}

/// The node as a device: vendor-specific class, 64-byte control packets, at
/// most 100 mA from the bus.
pub fn device_config() -> (config: DeviceConfig)
    ensures
        config.well_formed(),
        config.vendor_id == 0xDEAD,
        config.product_id == 0xC0DE,
        config.manufacturer@ == "Manufacturer"@,
        config.product@ == "Product"@,
        config.serial_number@ == "12345678"@,
        config.device_class == 0xFF,
        config.device_sub_class == 0x00,
        config.device_protocol == 0x00,
        !config.composite_with_iads,
        config.max_packet_size_0 == 64,
        config.max_power == 100,
{
    DeviceConfig {
        vendor_id: 0xDEAD,
        product_id: 0xC0DE,
        manufacturer: "Manufacturer",
        product: "Product",
        serial_number: "12345678",
        device_class: 0xFF,
        device_sub_class: 0x00,
        device_protocol: 0x00,
        composite_with_iads: false,
        max_packet_size_0: 64,
        max_power: 100,
    }
}

/// What the WebUSB capability is built from.
#[derive(Clone, Copy, PartialEq, Eq, Debug)]
pub struct WebUsbConfig {
    /// Largest packet on the data endpoints, in bytes.
    pub max_packet_size: u16,
    /// Request code by which the host asks for the landing page.
    pub vendor_code: u8,
    /// Page that the browser offers when the device is plugged in.
    pub landing_url: Option<&'static str>,
}

/// Whether `text` begins with `prefix`.
pub open spec fn begins_with(text: Seq<char>, prefix: Seq<char>) -> bool {
    prefix.len() <= text.len() && text.subrange(0, prefix.len() as int) == prefix
}

/// What a landing page descriptor holds of the address `url`: the address
/// without its scheme, where the scheme is `https://` or `http://`, and the
/// whole address otherwise.
pub open spec fn url_body(url: Seq<char>) -> Seq<char> {
    if begins_with(url, "https://"@) {
        url.subrange("https://"@.len() as int, url.len() as int)
    } else if begins_with(url, "http://"@) {
        url.subrange("http://"@.len() as int, url.len() as int)
    } else {
        url
    }
}

/// Whether `text` begins with `prefix`.
fn starts_with(text: &str, prefix: &str) -> (found: bool)
    ensures
        found == begins_with(text@, prefix@),
{
    let text_len = text.unicode_len();
    let prefix_len = prefix.unicode_len();
    if prefix_len > text_len {
        return false;
    }
    let mut i: usize = 0;
    while i < prefix_len
        invariant
            i <= prefix_len <= text_len,
            prefix_len == prefix@.len(),
            text_len == text@.len(),
            forall|j: int| 0 <= j < i ==> text@[j] == prefix@[j],
        decreases prefix_len - i,
    {
        if text.get_char(i) != prefix.get_char(i) {
            proof {
                assert(text@.subrange(0, prefix@.len() as int)[i as int] == text@[i as int]);
            }
            return false;
        }
        i += 1;
    }
    proof {
        assert(text@.subrange(0, prefix@.len() as int) =~= prefix@);
    }
    true
}

impl WebUsbConfig {
    /// Longest landing page address without its scheme, in bytes.
    pub const LANDING_URL_LEN: usize = 252;

    /// The packet size is one that full speed allows, and a landing page
    /// address is ASCII and, without its scheme, at most 252 bytes long, so
    /// that it fits its descriptor.
    pub open spec fn well_formed(&self) -> bool {
        &&& self.max_packet_size == 8 || self.max_packet_size == 16 || self.max_packet_size == 32
            || self.max_packet_size == 64
        &&& self.landing_url matches Some(url) ==> is_ascii(url) && url_body(url@).len()
            <= WebUsbConfig::LANDING_URL_LEN
    }

    /// Whether the configuration is well formed.
    pub fn is_well_formed(&self) -> (valid: bool)
        ensures
            valid == self.well_formed(),
    {
        let size_allowed = self.max_packet_size == 8 || self.max_packet_size == 16
            || self.max_packet_size == 32 || self.max_packet_size == 64;
        let url_fits = match self.landing_url {
            Some(url) => {
                proof {
                    reveal_strlit("https://");
                    reveal_strlit("http://");
                }
                let len = url.unicode_len();
                let body_len = if starts_with(url, "https://") {
                    len - 8
                } else if starts_with(url, "http://") {
                    len - 7
                } else {
                    len
                };
                url.is_ascii() && body_len <= WebUsbConfig::LANDING_URL_LEN
            },
            None => true,
        };
        size_allowed && url_fits
    }
}

/// WebUSB as the node offers it: request code 1, 64-byte packets, no landing
/// page.
pub fn web_usb_config() -> (config: WebUsbConfig)
    ensures
        config.well_formed(),
        config.max_packet_size == MAX_PACKET_SIZE,
        config.vendor_code == 1,
        config.landing_url is None,
{
    WebUsbConfig { max_packet_size: 64, vendor_code: 1, landing_url: None }
}

/// Oldest version of Windows that a descriptor set applies to.
#[derive(Clone, Copy, PartialEq, Eq, Debug)]
pub enum WindowsVersion {
    /// Windows 8.1
    Win8_1,
    /// Windows 10
    Win10,
}

/// What the MS OS 2.0 descriptor set is built from: a compatible ID, and one
/// registry property that holds a list of interface GUIDs.
#[derive(Clone, Copy, PartialEq, Eq, Debug)]
pub struct MsOsConfig {
    pub windows_version: WindowsVersion,
    /// Request code by which the host asks for the descriptor set.
    pub vendor_code: u8,
    pub compatible_id: &'static str,
    pub sub_compatible_id: &'static str,
    /// Name of the registry property.
    pub property_name: &'static str,
    /// Value of the registry property.
    pub device_interface_guids: [&'static str; 1],
}

impl MsOsConfig {
    /// Longest compatible ID, in bytes.
    pub const COMPATIBLE_ID_LEN: usize = 8;

    /// Both compatible IDs are ASCII and at most 8 bytes long, so that each
    /// fits its field of the feature descriptor.
    pub open spec fn well_formed(&self) -> bool {
        &&& is_ascii(self.compatible_id)
        &&& self.compatible_id@.len() <= MsOsConfig::COMPATIBLE_ID_LEN
        &&& is_ascii(self.sub_compatible_id)
        &&& self.sub_compatible_id@.len() <= MsOsConfig::COMPATIBLE_ID_LEN
    }

    /// Whether the configuration is well formed.
    pub fn is_well_formed(&self) -> (valid: bool)
        ensures
            valid == self.well_formed(),
    {
        self.compatible_id.is_ascii() && self.compatible_id.unicode_len()
            <= MsOsConfig::COMPATIBLE_ID_LEN && self.sub_compatible_id.is_ascii()
            && self.sub_compatible_id.unicode_len() <= MsOsConfig::COMPATIBLE_ID_LEN
    }
}

/// The descriptor set that lets Windows 8.1 and later bind WinUSB to the
/// device without an installed driver.
pub fn msos_config() -> (config: MsOsConfig)
    ensures
        config.well_formed(),
        config.windows_version == WindowsVersion::Win8_1,
        config.vendor_code == 0,
        config.compatible_id@ == "WINUSB"@,
        config.sub_compatible_id@ == ""@,
        config.property_name@ == "DeviceInterfaceGUIDs"@,
        config.device_interface_guids@.len() == 1,
        config.device_interface_guids@[0]@ == "{AFB9A6FB-30BA-44BC-9232-806CFC875321}"@,
{
    proof {
        reveal_strlit("WINUSB");
        reveal_strlit("");
    }
    MsOsConfig {
        windows_version: WindowsVersion::Win8_1,
        vendor_code: 0,
        compatible_id: "WINUSB",
        sub_compatible_id: "",
        property_name: "DeviceInterfaceGUIDs",
        device_interface_guids: ["{AFB9A6FB-30BA-44BC-9232-806CFC875321}"],
    }
}

/// What the interface of the bulk pipe is built from.
#[derive(Clone, Copy, PartialEq, Eq, Debug)]
pub struct InterfaceConfig {
    pub class: u8,
    pub sub_class: u8,
    pub protocol: u8,
    /// Largest packet on the bulk IN endpoint, in bytes.
    pub bulk_in_max_packet_size: u16,
    /// Largest packet on the bulk OUT endpoint, in bytes.
    pub bulk_out_max_packet_size: u16,
}

/// The vendor-specific interface that carries the pipe: one bulk IN and one
/// bulk OUT endpoint, both with the packet size of the WebUSB configuration.
pub fn interface_config(web_usb: &WebUsbConfig) -> (config: InterfaceConfig)
    ensures
        config.class == 0xFF,
        config.sub_class == 0x00,
        config.protocol == 0x00,
        config.bulk_in_max_packet_size == web_usb.max_packet_size,
        config.bulk_out_max_packet_size == web_usb.max_packet_size,
{
    InterfaceConfig {
        class: 0xFF,
        sub_class: 0x00,
        protocol: 0x00,
        bulk_in_max_packet_size: web_usb.max_packet_size,
        bulk_out_max_packet_size: web_usb.max_packet_size,
    }
}

/// One transfer on a bulk endpoint: the first `len` bytes of `data`.
#[derive(Clone, Copy, PartialEq, Eq, Debug)]
pub struct Packet {
    pub data: [u8; 64],
    pub len: usize,
}

impl Packet {
    /// The bytes of the transfer, in order. A transfer of no byte is a
    /// packet like any other: it ends a bulk transfer.
    pub open spec fn payload(&self) -> Seq<u8>
        recommends
            self.len <= MAX_PACKET_SIZE,
    {
        self.data@.subrange(0, self.len as int)
    }
}

/// What the firmware has to do next on behalf of the pipe. Unless it is
/// `Disable`, the event pump of the device stack runs beside it.
#[derive(Clone, Copy, PartialEq, Eq, Debug)]
pub enum PipeAction {
    /// Wait until the host has enabled the OUT endpoint.
    WaitConnected,
    /// Read one packet of up to 64 bytes from the OUT endpoint.
    Receive,
    /// Write this packet to the IN endpoint.
    Send(Packet),
    /// Stop the event pump and disable the device.
    Disable,
}

/// What came of the action that the pipe asked for last.
#[derive(Clone, Copy, PartialEq, Eq, Debug)]
pub enum PipeEvent {
    /// The host has enabled the OUT endpoint.
    Connected,
    /// The read returned this packet.
    Received(Packet),
    /// The write went through.
    Sent,
    /// A transfer on an endpoint failed.
    EndpointError,
    /// The event pump of the device stack returned.
    PumpStopped,
    /// The device is disabled.
    Disabled,
}

/// Where the pipe stands.
#[derive(Clone, Copy, PartialEq, Eq, Debug)]
pub enum PipePhase {
    /// The device enumerates; the endpoints are not enabled yet.
    AwaitingHost,
    /// A read from the OUT endpoint is in flight.
    Receiving,
    /// A write to the IN endpoint is in flight.
    Sending,
    /// The pipe is cut and the device is being disabled.
    Disabling,
}

/// The phase that follows `phase` on `event`, and what the pipe asks for.
///
/// Each packet that arrives is sent back as it is. Whatever else happens
/// while the device is up cuts the pipe: the device is disabled first, and
/// enumerates anew once that is done.
pub open spec fn pipe_after(phase: PipePhase, event: PipeEvent) -> (PipePhase, PipeAction) {
    match (phase, event) {
        (PipePhase::AwaitingHost, PipeEvent::Connected) => (PipePhase::Receiving, PipeAction::Receive),
        (PipePhase::Receiving, PipeEvent::Received(packet)) => if packet.len <= MAX_PACKET_SIZE {
            (PipePhase::Sending, PipeAction::Send(packet))
        } else {
            (PipePhase::Disabling, PipeAction::Disable)
        },
        (PipePhase::Sending, PipeEvent::Sent) => (PipePhase::Receiving, PipeAction::Receive),
        (PipePhase::Disabling, PipeEvent::Disabled) => (
            PipePhase::AwaitingHost,
            PipeAction::WaitConnected,
        ),
        _ => (PipePhase::Disabling, PipeAction::Disable),
    }
}

/// Life cycle of the bulk loopback pipe.
///
/// The pipe makes no transfer itself. `start` returns the first action; the
/// caller performs each action and reports its outcome to `step`, which
/// answers with the next one. The pipe never ends.
#[derive(Clone, Copy, PartialEq, Eq, Debug)]
pub struct UsbPipe {
    phase: PipePhase,
}

impl UsbPipe {
    pub closed spec fn spec_phase(&self) -> PipePhase {
        self.phase
    }

    /// A pipe whose device is about to enumerate.
    pub fn new() -> (pipe: UsbPipe)
        ensures
            pipe.spec_phase() == PipePhase::AwaitingHost,
    {
        UsbPipe { phase: PipePhase::AwaitingHost }
    }

    /// Where the pipe stands.
    #[verifier::when_used_as_spec(spec_phase)]
    pub fn phase(&self) -> (phase: PipePhase)
        ensures
            phase == self.spec_phase(),
    {
        self.phase
    }

    /// Starts the life cycle over: the pipe waits for the host.
    pub fn start(&mut self) -> (action: PipeAction)
        ensures
            action == PipeAction::WaitConnected,
            final(self).spec_phase() == PipePhase::AwaitingHost,
    {
        self.phase = PipePhase::AwaitingHost;
        PipeAction::WaitConnected
    }

    /// Takes the outcome of the action that was asked for last, and answers
    /// with the next action.
    pub fn step(&mut self, event: PipeEvent) -> (action: PipeAction)
        ensures
            (final(self).spec_phase(), action) == pipe_after(old(self).spec_phase(), event),
    {
        let (phase, action) = match (self.phase, event) {
            (PipePhase::AwaitingHost, PipeEvent::Connected) | (PipePhase::Sending, PipeEvent::Sent) => (
                PipePhase::Receiving,
                PipeAction::Receive,
            ),
            (PipePhase::Receiving, PipeEvent::Received(packet)) => {
                if packet.len <= MAX_PACKET_SIZE {
                    (PipePhase::Sending, PipeAction::Send(packet))
                } else {
                    (PipePhase::Disabling, PipeAction::Disable)
                }
            },
            (PipePhase::Disabling, PipeEvent::Disabled) => (
                PipePhase::AwaitingHost,
                PipeAction::WaitConnected,
            ),
            _ => (PipePhase::Disabling, PipeAction::Disable),
        };
        self.phase = phase;
        action
    }
}

/// The answers of a pipe that starts in `phase` to `events`, one per event,
/// and the phase in which the last of them leaves it.
pub open spec fn pipe_run(phase: PipePhase, events: Seq<PipeEvent>) -> (PipePhase, Seq<PipeAction>)
    decreases events.len(),
{
    if events.len() == 0 {
        (phase, Seq::empty())
    } else {
        let first = pipe_after(phase, events[0]);
        let rest = pipe_run(first.0, events.drop_first());
        (rest.0, seq![first.1] + rest.1)
    }
}

/// What the firmware reports while the host sends `packets`: each packet as
/// it was read, and the end of the write that follows it.
pub open spec fn loopback_events(packets: Seq<Packet>) -> Seq<PipeEvent>
    decreases packets.len(),
{
    if packets.len() == 0 {
        Seq::empty()
    } else {
        seq![PipeEvent::Received(packets[0]), PipeEvent::Sent] + loopback_events(
            packets.drop_first(),
        )
    }
}

/// What a pipe asks for that echoes `packets`: the write of each packet,
/// and the next read.
pub open spec fn loopback_actions(packets: Seq<Packet>) -> Seq<PipeAction>
    decreases packets.len(),
{
    if packets.len() == 0 {
        Seq::empty()
    } else {
        seq![PipeAction::Send(packets[0]), PipeAction::Receive] + loopback_actions(
            packets.drop_first(),
        )
    }
}

/// Running over two runs of events in a row is running over the first and
/// going on from where it ended.
proof fn lemma_pipe_run_concat(phase: PipePhase, head: Seq<PipeEvent>, tail: Seq<PipeEvent>)
    ensures
        pipe_run(phase, head + tail) == ({
            let first = pipe_run(phase, head);
            let second = pipe_run(first.0, tail);
            (second.0, first.1 + second.1)
        }),
    decreases head.len(),
{
    if head.len() == 0 {
        assert(head + tail =~= tail);
        let second = pipe_run(phase, tail);
        assert(Seq::<PipeAction>::empty() + second.1 =~= second.1);
    } else {
        let next = pipe_after(phase, head[0]);
        assert((head + tail)[0] == head[0]);
        assert((head + tail).drop_first() =~= head.drop_first() + tail);
        lemma_pipe_run_concat(next.0, head.drop_first(), tail);
        let first = pipe_run(phase, head);
        let second = pipe_run(first.0, tail);
        let inner = pipe_run(next.0, head.drop_first());
        assert(seq![next.1] + (inner.1 + second.1) =~= (seq![next.1] + inner.1) + second.1);
    }
}

/// The pipe is a loopback. While the host is connected, every packet that it
/// sends, a packet of no byte too, is written back to it unchanged, one write
/// per packet and in the order of arrival, and the pipe reads on.
pub proof fn lemma_loopback_round_trip(packets: Seq<Packet>)
    requires
        forall|i: int| 0 <= i < packets.len() ==> (#[trigger] packets[i]).len <= MAX_PACKET_SIZE,
    ensures
        pipe_run(PipePhase::Receiving, loopback_events(packets)) == (
            PipePhase::Receiving,
            loopback_actions(packets),
        ),
    decreases packets.len(),
{
    if packets.len() > 0 {
        let round = seq![PipeEvent::Received(packets[0]), PipeEvent::Sent];
        let rest = packets.drop_first();
        assert(packets[0].len <= MAX_PACKET_SIZE);
        assert forall|i: int| 0 <= i < rest.len() implies (#[trigger] rest[i]).len
            <= MAX_PACKET_SIZE by {
            assert(rest[i] == packets[i + 1]);
        }
        lemma_loopback_round_trip(rest);
        lemma_pipe_run_concat(PipePhase::Receiving, round, loopback_events(rest));
        reveal_with_fuel(pipe_run, 3);
        assert(round.drop_first() =~= seq![PipeEvent::Sent]);
        assert(round.drop_first().drop_first() =~= Seq::<PipeEvent>::empty());
        assert(pipe_run(PipePhase::Receiving, round).1 =~= seq![
            PipeAction::Send(packets[0]),
            PipeAction::Receive,
        ]);
    }
}

/// The endpoints are used only while the host is connected: a transfer is
/// asked for only once the host has enabled the endpoints, or in answer to
/// the transfer before it.
pub proof fn lemma_transfers_need_connection(phase: PipePhase, event: PipeEvent)
    ensures
        pipe_after(phase, event).1 == PipeAction::Receive ==> (phase == PipePhase::AwaitingHost
            && event == PipeEvent::Connected) || (phase == PipePhase::Sending && event
            == PipeEvent::Sent),
        pipe_after(phase, event).1 matches PipeAction::Send(packet) ==> phase
            == PipePhase::Receiving && event == PipeEvent::Received(packet) && packet.len
            <= MAX_PACKET_SIZE,
        pipe_after(phase, event).0 == PipePhase::Receiving || pipe_after(phase, event).0
            == PipePhase::Sending ==> phase != PipePhase::Disabling,
{
}

/// A failed transfer, or the end of the event pump, cuts the pipe in whatever
/// phase it arrives: the device is disabled, and once that is done the pipe
/// waits for the host again.
pub proof fn lemma_failure_leads_to_reconnect(phase: PipePhase, failure: PipeEvent)
    requires
        failure == PipeEvent::EndpointError || failure == PipeEvent::PumpStopped,
    ensures
        pipe_run(phase, seq![failure, PipeEvent::Disabled]) == (
            PipePhase::AwaitingHost,
            seq![PipeAction::Disable, PipeAction::WaitConnected],
        ),
{
    let events = seq![failure, PipeEvent::Disabled];
    reveal_with_fuel(pipe_run, 3);
    assert(events.drop_first() =~= seq![PipeEvent::Disabled]);
    assert(events.drop_first().drop_first() =~= Seq::<PipeEvent>::empty());
    assert(pipe_run(phase, events).1 =~= seq![PipeAction::Disable, PipeAction::WaitConnected]);
}

} // verus!
