//! The Lovense dongle's state machine, as a function from a state and an event to the next state
//! and the actions to carry out; and the framing of the dongle's serial and HID traffic.
use vstd::prelude::*;
use crate::hardware::HardwareEvent;
use crate::messages::Endpoint;
use crate::specifier::{BluetoothLESpecifier, ProtocolCommunicationSpecifier, SpecifierView};
use crate::text::utf8_text;
use crate::dongle_messages::{
    OutgoingMessageView, plain_message, IncomingDataView, IncomingMessageView, LovenseDeviceCommand, LovenseDongleIncomingMessage,
    LovenseDongleMessageFunc, LovenseDongleMessageType, LovenseDongleOutgoingMessage,
    LovenseDongleResultCode, OutgoingLovenseData, OutgoingView,
};

verus! {

/// A state of the dongle's state machine. `WaitForDongle` waits for the dongle to be found,
/// remembering whether scanning was asked for meanwhile; `CheckForAlreadyConnected` waits a moment
/// for the dongle to report a toy it is already connected to; `Idle` and `Scanning` wait for
/// commands and dongle messages; `StopScanningAndConnect` waits for the dongle to stop searching
/// before using the toy it found; `DeviceLoop` relays between a connected toy and the dongle;
/// `Ended` is reached when the communication manager goes away.
#[derive(Debug)]
pub enum LovenseDongleState {
    WaitForDongle { should_scan: bool },
    CheckForAlreadyConnected { should_scan: bool },
    Idle,
    Scanning,
    StopScanningAndConnect { device_id: String },
    DeviceLoop { device_id: String },
    Ended,
}

/// Abstract value of a state.
pub enum DongleStateView {
    WaitForDongle { should_scan: bool },
    CheckForAlreadyConnected { should_scan: bool },
    Idle,
    Scanning,
    StopScanningAndConnect { device_id: Seq<char> },
    DeviceLoop { device_id: Seq<char> },
    Ended,
}

impl View for LovenseDongleState {
    type V = DongleStateView;

    open spec fn view(&self) -> DongleStateView {
        match self {
            LovenseDongleState::WaitForDongle { should_scan } => DongleStateView::WaitForDongle {
                should_scan: *should_scan,
            },
            LovenseDongleState::CheckForAlreadyConnected { should_scan } => {
                DongleStateView::CheckForAlreadyConnected { should_scan: *should_scan }
            },
            LovenseDongleState::Idle => DongleStateView::Idle,
            LovenseDongleState::Scanning => DongleStateView::Scanning,
            LovenseDongleState::StopScanningAndConnect { device_id } => {
                DongleStateView::StopScanningAndConnect { device_id: device_id@ }
            },
            LovenseDongleState::DeviceLoop { device_id } => DongleStateView::DeviceLoop {
                device_id: device_id@,
            },
            LovenseDongleState::Ended => DongleStateView::Ended,
        }
    }
}

/// What the machine waits for: a command from the communication manager, a message from the
/// dongle, data a connected toy sends to the dongle, the closing of a channel it reads, or the end
/// of the wait for an already connected toy.
#[derive(Debug)]
pub enum DongleEvent {
    Command(LovenseDeviceCommand),
    Dongle(LovenseDongleIncomingMessage),
    Device(OutgoingLovenseData),
    Disconnect,
    Timeout,
}

/// Abstract value of an event.
pub enum DongleEventView {
    Command(LovenseDeviceCommand),
    Dongle(IncomingMessageView),
    Device(OutgoingView),
    Disconnect,
    Timeout,
}

impl View for DongleEvent {
    type V = DongleEventView;

    open spec fn view(&self) -> DongleEventView {
        match self {
            DongleEvent::Command(c) => DongleEventView::Command(*c),
            DongleEvent::Dongle(m) => DongleEventView::Dongle(m@),
            DongleEvent::Device(d) => DongleEventView::Device(d@),
            DongleEvent::Disconnect => DongleEventView::Disconnect,
            DongleEvent::Timeout => DongleEventView::Timeout,
        }
    }
}

/// What the machine does: set the scanning flag, send data to the dongle, tell the manager that
/// scanning finished, announce a toy found at an address, or hand a dongle message to the
/// connected toy.
#[derive(Debug)]
pub enum DongleAction {
    SetScanning(bool),
    Send(OutgoingLovenseData),
    ScanningFinished,
    DeviceFound(String),
    Forward(LovenseDongleIncomingMessage),
}

/// Abstract value of an action.
pub enum DongleActionView {
    SetScanning(bool),
    Send(OutgoingView),
    ScanningFinished,
    DeviceFound(Seq<char>),
    Forward(IncomingMessageView),
}

impl View for DongleAction {
    type V = DongleActionView;

    open spec fn view(&self) -> DongleActionView {
        match self {
            DongleAction::SetScanning(b) => DongleActionView::SetScanning(*b),
            DongleAction::Send(d) => DongleActionView::Send(d@),
            DongleAction::ScanningFinished => DongleActionView::ScanningFinished,
            DongleAction::DeviceFound(a) => DongleActionView::DeviceFound(a@),
            DongleAction::Forward(m) => DongleActionView::Forward(m@),
        }
    }
}

/// Abstract values of a list of actions.
pub open spec fn actions_view(s: Seq<DongleAction>) -> Seq<DongleActionView> {
    s.map_values(|a: DongleAction| a@)
}

/// Sending `m` to the dongle.
pub open spec fn send_message(
    message_type: LovenseDongleMessageType,
    func: LovenseDongleMessageFunc,
) -> DongleActionView {
    DongleActionView::Send(OutgoingView::Message(plain_message(message_type, func)))
}

/// Starting a scan: set the scanning flag and ask the dongle to search for toys.
pub open spec fn start_scanning() -> (DongleStateView, Seq<DongleActionView>) {
    (
        DongleStateView::Scanning,
        seq![
            DongleActionView::SetScanning(true),
            send_message(LovenseDongleMessageType::Toy, LovenseDongleMessageFunc::Search),
        ],
    )
}

/// Stopping a scan: ask the dongle to stop searching, clear the scanning flag, and report that
/// scanning finished.
pub open spec fn stop_scanning() -> (DongleStateView, Seq<DongleActionView>) {
    (
        DongleStateView::Idle,
        seq![
            send_message(LovenseDongleMessageType::Usb, LovenseDongleMessageFunc::StopSearch),
            DongleActionView::SetScanning(false),
            DongleActionView::ScanningFinished,
        ],
    )
}

/// Relaying for the toy `id`, once it has been announced.
pub open spec fn device_loop(id: Seq<char>) -> (DongleStateView, Seq<DongleActionView>) {
    (DongleStateView::DeviceLoop { device_id: id }, seq![DongleActionView::DeviceFound(id)])
}

/// Going back to waiting for a dongle, with the scanning flag cleared.
pub open spec fn back_to_wait() -> (DongleStateView, Seq<DongleActionView>) {
    (DongleStateView::WaitForDongle { should_scan: false }, seq![DongleActionView::SetScanning(false)])
}

/// Whether a dongle message reports that a toy is connected.
pub open spec fn reports_connect(m: IncomingMessageView) -> bool {
    m.func == LovenseDongleMessageFunc::IncomingStatus && m.data is Some && m.data->Some_0.status
        == Some(LovenseDongleResultCode::DeviceConnectSuccess)
}

/// The id of the toy a dongle message reports on.
pub open spec fn reported_id(m: IncomingMessageView) -> Option<Seq<char>> {
    match m.data {
        Some(d) => d.id,
        None => None,
    }
}

/// Whether the machine, in state `s`, cannot handle the event `e`: the dongle reports a toy
/// (connected, or found while scanning) without its id.
pub open spec fn step_fails(s: DongleStateView, e: DongleEventView) -> bool {
    match (s, e) {
        (DongleStateView::Idle, DongleEventView::Dongle(m)) => reports_connect(m) && reported_id(m) is None,
        (DongleStateView::Scanning, DongleEventView::Dongle(m)) => (reports_connect(m) || (m.func
            == LovenseDongleMessageFunc::ToyData && m.data is Some)) && reported_id(m) is None,
        _ => false,
    }
}

/// Where the check for an already connected toy goes when it finds none.
pub open spec fn after_check(should_scan: bool) -> (DongleStateView, Seq<DongleActionView>) {
    if should_scan {
        start_scanning()
    } else {
        (DongleStateView::Idle, seq![])
    }
}

/// The next state and the actions for state `s` and event `e`.
pub open spec fn spec_step(s: DongleStateView, e: DongleEventView) -> (DongleStateView, Seq<DongleActionView>) {
    match s {
        DongleStateView::WaitForDongle { should_scan } => match e {
            DongleEventView::Command(LovenseDeviceCommand::DongleFound) => (
                DongleStateView::CheckForAlreadyConnected { should_scan },
                seq![send_message(LovenseDongleMessageType::Toy, LovenseDongleMessageFunc::Statuss)],
            ),
            DongleEventView::Command(LovenseDeviceCommand::StartScanning) => (
                DongleStateView::WaitForDongle { should_scan: true },
                seq![DongleActionView::SetScanning(true)],
            ),
            DongleEventView::Command(LovenseDeviceCommand::StopScanning) => (
                DongleStateView::WaitForDongle { should_scan: false },
                seq![DongleActionView::SetScanning(false), DongleActionView::ScanningFinished],
            ),
            DongleEventView::Disconnect => (DongleStateView::Ended, seq![]),
            _ => (s, seq![]),
        },
        DongleStateView::CheckForAlreadyConnected { should_scan } => match e {
            DongleEventView::Dongle(m) => if reports_connect(m) && reported_id(m) is Some {
                device_loop(reported_id(m)->Some_0)
            } else {
                after_check(should_scan)
            },
            DongleEventView::Disconnect => after_check(should_scan),
            DongleEventView::Timeout => after_check(should_scan),
            _ => (s, seq![]),
        },
        DongleStateView::Idle => match e {
            DongleEventView::Dongle(m) => if reports_connect(m) {
                device_loop(reported_id(m)->Some_0)
            } else {
                (s, seq![])
            },
            DongleEventView::Command(LovenseDeviceCommand::StartScanning) => start_scanning(),
            DongleEventView::Command(LovenseDeviceCommand::StopScanning) => stop_scanning(),
            DongleEventView::Disconnect => back_to_wait(),
            _ => (s, seq![]),
        },
        DongleStateView::Scanning => match e {
            DongleEventView::Command(LovenseDeviceCommand::StopScanning) => stop_scanning(),
            DongleEventView::Dongle(m) => if reports_connect(m) {
                device_loop(reported_id(m)->Some_0)
            } else if m.func == LovenseDongleMessageFunc::Search && m.result == Some(
                LovenseDongleResultCode::SearchStopped,
            ) {
                start_scanning()
            } else if m.func == LovenseDongleMessageFunc::ToyData && m.data is Some {
                (
                    DongleStateView::StopScanningAndConnect { device_id: reported_id(m)->Some_0 },
                    seq![send_message(LovenseDongleMessageType::Usb, LovenseDongleMessageFunc::StopSearch)],
                )
            } else if m.func == LovenseDongleMessageFunc::ToyData && m.result is Some {
                (DongleStateView::Idle, seq![])
            } else {
                (s, seq![])
            },
            DongleEventView::Disconnect => (
                DongleStateView::WaitForDongle { should_scan: false },
                seq![DongleActionView::SetScanning(false), DongleActionView::SetScanning(false)],
            ),
            _ => (s, seq![]),
        },
        DongleStateView::StopScanningAndConnect { device_id } => match e {
            DongleEventView::Dongle(m) => if m.func == LovenseDongleMessageFunc::Search && m.result
                == Some(LovenseDongleResultCode::SearchStopped) {
                (
                    DongleStateView::DeviceLoop { device_id },
                    seq![
                        DongleActionView::SetScanning(false),
                        DongleActionView::ScanningFinished,
                        DongleActionView::DeviceFound(device_id),
                    ],
                )
            } else {
                (s, seq![])
            },
            DongleEventView::Disconnect => back_to_wait(),
            _ => (s, seq![]),
        },
        DongleStateView::DeviceLoop { device_id } => match e {
            DongleEventView::Device(d) => (s, seq![DongleActionView::Send(d)]),
            DongleEventView::Dongle(m) => if m.func == LovenseDongleMessageFunc::IncomingStatus {
                if m.data is Some && m.data->Some_0.status == Some(
                    LovenseDongleResultCode::DeviceDisconnected,
                ) {
                    (DongleStateView::Idle, seq![])
                } else {
                    (s, seq![])
                }
            } else {
                (s, seq![DongleActionView::Forward(m)])
            },
            DongleEventView::Command(LovenseDeviceCommand::DongleFound) => (s, seq![]),
            DongleEventView::Command(_) => (
                s,
                seq![DongleActionView::SetScanning(false), DongleActionView::ScanningFinished],
            ),
            DongleEventView::Disconnect => back_to_wait(),
            DongleEventView::Timeout => (s, seq![]),
        },
        DongleStateView::Ended => (s, seq![]),
    }
}

} // verus!

verus! {

fn plain_send(message_type: LovenseDongleMessageType, func: LovenseDongleMessageFunc) -> (r: DongleAction)
    ensures
        r@ == send_message(message_type, func),
{
    DongleAction::Send(OutgoingLovenseData::Message(LovenseDongleOutgoingMessage::plain(message_type, func)))
}

fn connect_reported(m: &LovenseDongleIncomingMessage) -> (r: bool)
    ensures
        r == reports_connect(m@),
{
    match (&m.func, &m.data) {
        (LovenseDongleMessageFunc::IncomingStatus, Some(d)) => match d.status {
            Some(LovenseDongleResultCode::DeviceConnectSuccess) => true,
            _ => false,
        },
        _ => false,
    }
}

fn id_reported(m: &LovenseDongleIncomingMessage) -> (r: Option<String>)
    ensures
        match (r, reported_id(m@)) {
            (Some(a), Some(b)) => a@ == b,
            (None, None) => true,
            _ => false,
        },
{
    match &m.data {
        Some(d) => match &d.id {
            Some(id) => Some(id.clone()),
            None => None,
        },
        None => None,
    }
}

fn start_scanning_step() -> (r: (LovenseDongleState, Vec<DongleAction>))
    ensures
        (r.0@, actions_view(r.1@)) == start_scanning(),
{
    let mut v: Vec<DongleAction> = Vec::new();
    v.push(DongleAction::SetScanning(true));
    v.push(plain_send(LovenseDongleMessageType::Toy, LovenseDongleMessageFunc::Search));
    assert(actions_view(v@) =~= start_scanning().1);
    (LovenseDongleState::Scanning, v)
}

fn stop_scanning_step() -> (r: (LovenseDongleState, Vec<DongleAction>))
    ensures
        (r.0@, actions_view(r.1@)) == stop_scanning(),
{
    let mut v: Vec<DongleAction> = Vec::new();
    v.push(plain_send(LovenseDongleMessageType::Usb, LovenseDongleMessageFunc::StopSearch));
    v.push(DongleAction::SetScanning(false));
    v.push(DongleAction::ScanningFinished);
    assert(actions_view(v@) =~= stop_scanning().1);
    (LovenseDongleState::Idle, v)
}

fn device_loop_step(id: String) -> (r: (LovenseDongleState, Vec<DongleAction>))
    ensures
        (r.0@, actions_view(r.1@)) == device_loop(id@),
{
    let mut v: Vec<DongleAction> = Vec::new();
    v.push(DongleAction::DeviceFound(id.clone()));
    assert(actions_view(v@) =~= device_loop(id@).1);
    (LovenseDongleState::DeviceLoop { device_id: id }, v)
}

fn back_to_wait_step() -> (r: (LovenseDongleState, Vec<DongleAction>))
    ensures
        (r.0@, actions_view(r.1@)) == back_to_wait(),
{
    let mut v: Vec<DongleAction> = Vec::new();
    v.push(DongleAction::SetScanning(false));
    assert(actions_view(v@) =~= back_to_wait().1);
    (LovenseDongleState::WaitForDongle { should_scan: false }, v)
}

fn after_check_step(should_scan: bool) -> (r: (LovenseDongleState, Vec<DongleAction>))
    ensures
        (r.0@, actions_view(r.1@)) == after_check(should_scan),
{
    if should_scan {
        start_scanning_step()
    } else {
        let v: Vec<DongleAction> = Vec::new();
        assert(actions_view(v@) =~= seq![]);
        (LovenseDongleState::Idle, v)
    }
}

fn stay(s: LovenseDongleState) -> (r: (LovenseDongleState, Vec<DongleAction>))
    ensures
        r.0@ == s@,
        actions_view(r.1@) == Seq::<DongleActionView>::empty(),
{
    let v: Vec<DongleAction> = Vec::new();
    assert(actions_view(v@) =~= Seq::<DongleActionView>::empty());
    (s, v)
}

fn one_action(s: LovenseDongleState, a: DongleAction) -> (r: (LovenseDongleState, Vec<DongleAction>))
    ensures
        r.0@ == s@,
        actions_view(r.1@) == seq![a@],
{
    let ghost av = a@;
    let mut v: Vec<DongleAction> = Vec::new();
    v.push(a);
    assert(actions_view(v@) =~= seq![av]);
    (s, v)
}

/// Whether the machine, in `state`, cannot handle `event` (see `step_fails`).
pub fn step_would_fail(state: &LovenseDongleState, event: &DongleEvent) -> (r: bool)
    ensures
        r == step_fails(state@, event@),
{
    match (state, event) {
        (LovenseDongleState::Idle, DongleEvent::Dongle(m)) => connect_reported(m) && id_reported(m).is_none(),
        (LovenseDongleState::Scanning, DongleEvent::Dongle(m)) => {
            let toy = match (&m.func, &m.data) {
                (LovenseDongleMessageFunc::ToyData, Some(_)) => true,
                _ => false,
            };
            (connect_reported(m) || toy) && id_reported(m).is_none()
        },
        _ => false,
    }
}

/// Runs one step of the machine: the next state, and the actions to carry out in order.
pub fn transition(state: LovenseDongleState, event: DongleEvent) -> (r: (LovenseDongleState, Vec<DongleAction>))
    requires
        !step_fails(state@, event@),
    ensures
        (r.0@, actions_view(r.1@)) == spec_step(state@, event@),
{
    match state {
        LovenseDongleState::WaitForDongle { should_scan } => match event {
            DongleEvent::Command(LovenseDeviceCommand::DongleFound) => one_action(
                LovenseDongleState::CheckForAlreadyConnected { should_scan },
                plain_send(LovenseDongleMessageType::Toy, LovenseDongleMessageFunc::Statuss),
            ),
            DongleEvent::Command(LovenseDeviceCommand::StartScanning) => one_action(
                LovenseDongleState::WaitForDongle { should_scan: true },
                DongleAction::SetScanning(true),
            ),
            DongleEvent::Command(LovenseDeviceCommand::StopScanning) => {
                let mut v: Vec<DongleAction> = Vec::new();
                v.push(DongleAction::SetScanning(false));
                v.push(DongleAction::ScanningFinished);
                assert(actions_view(v@) =~= seq![
                    DongleActionView::SetScanning(false),
                    DongleActionView::ScanningFinished,
                ]);
                (LovenseDongleState::WaitForDongle { should_scan: false }, v)
            },
            DongleEvent::Disconnect => stay(LovenseDongleState::Ended),
            _ => stay(LovenseDongleState::WaitForDongle { should_scan }),
        },
        LovenseDongleState::CheckForAlreadyConnected { should_scan } => match event {
            DongleEvent::Dongle(m) => {
                if connect_reported(&m) {
                    match id_reported(&m) {
                        Some(id) => device_loop_step(id),
                        None => after_check_step(should_scan),
                    }
                } else {
                    after_check_step(should_scan)
                }
            },
            DongleEvent::Disconnect => after_check_step(should_scan),
            DongleEvent::Timeout => after_check_step(should_scan),
            _ => stay(LovenseDongleState::CheckForAlreadyConnected { should_scan }),
        },
        LovenseDongleState::Idle => match event {
            DongleEvent::Dongle(m) => {
                if connect_reported(&m) {
                    match id_reported(&m) {
                        Some(id) => device_loop_step(id),
                        None => stay(LovenseDongleState::Idle),
                    }
                } else {
                    stay(LovenseDongleState::Idle)
                }
            },
            DongleEvent::Command(LovenseDeviceCommand::StartScanning) => start_scanning_step(),
            DongleEvent::Command(LovenseDeviceCommand::StopScanning) => stop_scanning_step(),
            DongleEvent::Disconnect => back_to_wait_step(),
            _ => stay(LovenseDongleState::Idle),
        },
        LovenseDongleState::Scanning => match event {
            DongleEvent::Command(LovenseDeviceCommand::StopScanning) => stop_scanning_step(),
            DongleEvent::Dongle(m) => {
                if connect_reported(&m) {
                    match id_reported(&m) {
                        Some(id) => device_loop_step(id),
                        None => stay(LovenseDongleState::Scanning),
                    }
                } else {
                    match m.func {
                        LovenseDongleMessageFunc::Search => match m.result {
                            Some(LovenseDongleResultCode::SearchStopped) => start_scanning_step(),
                            _ => stay(LovenseDongleState::Scanning),
                        },
                        LovenseDongleMessageFunc::ToyData => {
                            if m.data.is_some() {
                                match id_reported(&m) {
                                    Some(id) => one_action(
                                        LovenseDongleState::StopScanningAndConnect { device_id: id },
                                        plain_send(
                                            LovenseDongleMessageType::Usb,
                                            LovenseDongleMessageFunc::StopSearch,
                                        ),
                                    ),
                                    None => stay(LovenseDongleState::Scanning),
                                }
                            } else if m.result.is_some() {
                                stay(LovenseDongleState::Idle)
                            } else {
                                stay(LovenseDongleState::Scanning)
                            }
                        },
                        _ => stay(LovenseDongleState::Scanning),
                    }
                }
            },
            DongleEvent::Disconnect => {
                let mut v: Vec<DongleAction> = Vec::new();
                v.push(DongleAction::SetScanning(false));
                v.push(DongleAction::SetScanning(false));
                assert(actions_view(v@) =~= seq![
                    DongleActionView::SetScanning(false),
                    DongleActionView::SetScanning(false),
                ]);
                (LovenseDongleState::WaitForDongle { should_scan: false }, v)
            },
            _ => stay(LovenseDongleState::Scanning),
        },
        LovenseDongleState::StopScanningAndConnect { device_id } => match event {
            DongleEvent::Dongle(m) => {
                let stopped = match (&m.func, &m.result) {
                    (LovenseDongleMessageFunc::Search, Some(LovenseDongleResultCode::SearchStopped)) => true,
                    _ => false,
                };
                if stopped {
                    let mut v: Vec<DongleAction> = Vec::new();
                    v.push(DongleAction::SetScanning(false));
                    v.push(DongleAction::ScanningFinished);
                    v.push(DongleAction::DeviceFound(device_id.clone()));
                    assert(actions_view(v@) =~= seq![
                        DongleActionView::SetScanning(false),
                        DongleActionView::ScanningFinished,
                        DongleActionView::DeviceFound(device_id@),
                    ]);
                    (LovenseDongleState::DeviceLoop { device_id }, v)
                } else {
                    stay(LovenseDongleState::StopScanningAndConnect { device_id })
                }
            },
            DongleEvent::Disconnect => back_to_wait_step(),
            _ => stay(LovenseDongleState::StopScanningAndConnect { device_id }),
        },
        LovenseDongleState::DeviceLoop { device_id } => match event {
            DongleEvent::Device(d) => one_action(
                LovenseDongleState::DeviceLoop { device_id },
                DongleAction::Send(d),
            ),
            DongleEvent::Dongle(m) => {
                match m.func {
                    LovenseDongleMessageFunc::IncomingStatus => {
                        let gone = match &m.data {
                            Some(d) => match d.status {
                                Some(LovenseDongleResultCode::DeviceDisconnected) => true,
                                _ => false,
                            },
                            None => false,
                        };
                        if gone {
                            stay(LovenseDongleState::Idle)
                        } else {
                            stay(LovenseDongleState::DeviceLoop { device_id })
                        }
                    },
                    _ => one_action(LovenseDongleState::DeviceLoop { device_id }, DongleAction::Forward(m)),
                }
            },
            DongleEvent::Command(LovenseDeviceCommand::DongleFound) => stay(
                LovenseDongleState::DeviceLoop { device_id },
            ),
            DongleEvent::Command(_) => {
                let mut v: Vec<DongleAction> = Vec::new();
                v.push(DongleAction::SetScanning(false));
                v.push(DongleAction::ScanningFinished);
                assert(actions_view(v@) =~= seq![
                    DongleActionView::SetScanning(false),
                    DongleActionView::ScanningFinished,
                ]);
                (LovenseDongleState::DeviceLoop { device_id }, v)
            },
            DongleEvent::Disconnect => back_to_wait_step(),
            DongleEvent::Timeout => stay(LovenseDongleState::DeviceLoop { device_id }),
        },
        LovenseDongleState::Ended => stay(LovenseDongleState::Ended),
    }
}

} // verus!

verus! {

/// The scanning flag after carrying out `actions`, starting from `before`.
pub open spec fn flag_after(actions: Seq<DongleActionView>, before: bool) -> bool
    decreases actions.len(),
{
    if actions.len() == 0 {
        before
    } else {
        match actions.last() {
            DongleActionView::SetScanning(b) => b,
            _ => flag_after(actions.drop_last(), before),
        }
    }
}

/// Whether the manager is told that scanning finished.
pub open spec fn reports_scanning_finished(actions: Seq<DongleActionView>) -> bool {
    exists|i: int| 0 <= i < actions.len() && actions[i] == DongleActionView::ScanningFinished
}

/// A request to stop scanning, while the machine waits for a dongle, idles, scans or relays for a
/// toy, clears the scanning flag and is answered with the report that scanning finished.
pub proof fn lemma_stop_scanning_answered(s: DongleStateView, before: bool)
    requires
        s is WaitForDongle || s is Idle || s is Scanning || s is DeviceLoop,
    ensures
        !flag_after(spec_step(s, DongleEventView::Command(LovenseDeviceCommand::StopScanning)).1, before),
        reports_scanning_finished(
            spec_step(s, DongleEventView::Command(LovenseDeviceCommand::StopScanning)).1,
        ),
{
    let a = spec_step(s, DongleEventView::Command(LovenseDeviceCommand::StopScanning)).1;
    reveal_with_fuel(flag_after, 3);
    if s is Idle || s is Scanning {
        assert(a[2] == DongleActionView::ScanningFinished);
        assert(a.drop_last().last() == DongleActionView::SetScanning(false));
    } else {
        assert(a[1] == DongleActionView::ScanningFinished);
        assert(a.drop_last().last() == DongleActionView::SetScanning(false));
    }
}

/// When a channel closes while the machine idles, scans, connects or relays, it goes back to
/// waiting for a dongle, with the scanning flag cleared and no scan pending.
pub proof fn lemma_disconnect_returns_to_wait(s: DongleStateView, before: bool)
    requires
        s is Idle || s is Scanning || s is StopScanningAndConnect || s is DeviceLoop,
    ensures
        spec_step(s, DongleEventView::Disconnect).0 == (DongleStateView::WaitForDongle {
            should_scan: false,
        }),
        !flag_after(spec_step(s, DongleEventView::Disconnect).1, before),
{
    reveal_with_fuel(flag_after, 2);
}

/// Once ended, the machine stays ended and does nothing.
pub proof fn lemma_ended_is_final(e: DongleEventView)
    ensures
        spec_step(DongleStateView::Ended, e) == (DongleStateView::Ended, Seq::<DongleActionView>::empty()),
{
    assert(spec_step(DongleStateView::Ended, e).1 =~= Seq::<DongleActionView>::empty());
}

/// Whenever the machine starts (or restarts) scanning, it sets the scanning flag and asks the
/// dongle to search; it stays scanning only by doing nothing.
pub proof fn lemma_scanning_starts_with_search(s: DongleStateView, e: DongleEventView)
    requires
        !step_fails(s, e),
        spec_step(s, e).0 is Scanning,
    ensures
        spec_step(s, e).1 == start_scanning().1 || (s is Scanning && spec_step(s, e).1.len() == 0),
{
}

/// Whenever the machine starts relaying for a toy, it has just announced that toy, by its id.
pub proof fn lemma_device_announced(s: DongleStateView, e: DongleEventView)
    requires
        !step_fails(s, e),
        spec_step(s, e).0 is DeviceLoop,
        !(s is DeviceLoop),
    ensures
        spec_step(s, e).1.len() > 0,
        spec_step(s, e).1.last() == DongleActionView::DeviceFound(spec_step(s, e).0->DeviceLoop_device_id),
{
}

/// When the dongle reports a toy connected with its id, the machine goes to relaying for that
/// toy and announces it by that id: from idling, from scanning, and while checking for an
/// already connected toy.
pub proof fn lemma_reported_connection_enters_device_loop(
    m: IncomingMessageView,
    d: IncomingDataView,
    id: Seq<char>,
    should_scan: bool,
)
    requires
        m.func == LovenseDongleMessageFunc::IncomingStatus,
        m.data == Some(d),
        d.status == Some(LovenseDongleResultCode::DeviceConnectSuccess),
        d.id == Some(id),
    ensures
        spec_step(DongleStateView::Idle, DongleEventView::Dongle(m)) == (
            DongleStateView::DeviceLoop { device_id: id },
            seq![DongleActionView::DeviceFound(id)],
        ),
        spec_step(DongleStateView::Scanning, DongleEventView::Dongle(m)) == (
            DongleStateView::DeviceLoop { device_id: id },
            seq![DongleActionView::DeviceFound(id)],
        ),
        spec_step(DongleStateView::CheckForAlreadyConnected { should_scan }, DongleEventView::Dongle(m)) == (
            DongleStateView::DeviceLoop { device_id: id },
            seq![DongleActionView::DeviceFound(id)],
        ),
{
}

/// While relaying, whatever the toy sends goes to the dongle unchanged.
pub proof fn lemma_device_data_relayed(id: Seq<char>, d: OutgoingView)
    ensures
        spec_step(DongleStateView::DeviceLoop { device_id: id }, DongleEventView::Device(d)) == (
        DongleStateView::DeviceLoop { device_id: id }, seq![DongleActionView::Send(d)]),
{
}

} // verus!

verus! {

/// Vendor id of the Lovense HID dongle.
pub const LOVENSE_HID_DONGLE_VENDOR_ID: u16 = 0x1915;

/// Product id of the Lovense HID dongle.
pub const LOVENSE_HID_DONGLE_PRODUCT_ID: u16 = 0x520a;

/// Vendor id of the USB serial chip of the Lovense serial dongle.
pub const LOVENSE_SERIAL_DONGLE_VENDOR_ID: u16 = 0x1a86;

/// Product id of the USB serial chip of the Lovense serial dongle.
pub const LOVENSE_SERIAL_DONGLE_PRODUCT_ID: u16 = 0x7523;

/// Baud rate of the Lovense serial dongle.
pub const LOVENSE_SERIAL_DONGLE_BAUD_RATE: u32 = 115200;

/// Whether a USB serial port with these ids is a Lovense serial dongle.
pub fn is_lovense_serial_dongle(vendor_id: u16, product_id: u16) -> (r: bool)
    ensures
        r == (vendor_id == LOVENSE_SERIAL_DONGLE_VENDOR_ID && product_id
            == LOVENSE_SERIAL_DONGLE_PRODUCT_ID),
{
    vendor_id == LOVENSE_SERIAL_DONGLE_VENDOR_ID && product_id == LOVENSE_SERIAL_DONGLE_PRODUCT_ID
}

/// A line for the dongle: the text's bytes followed by carriage return and line feed.
pub fn frame_line(text: &[u8]) -> (r: Vec<u8>)
    ensures
        r@ == text@ + seq![13u8, 10u8],
{
    let mut r = crate::specifier::byte_vec(text);
    r.push(13u8);
    r.push(10u8);
    assert(r@ =~= text@ + seq![13u8, 10u8]);
    r
}

/// Number of 63-byte pieces a line of `n` bytes is cut into.
pub open spec fn report_count(n: int) -> int {
    (n + 62) / 63
}

/// The `k`th HID report for `bytes`: a zero report id, the `k`th piece of at most 63 bytes, and
/// zeros up to 65 bytes.
pub open spec fn hid_report(bytes: Seq<u8>, k: int) -> Seq<u8> {
    let start = 63 * k;
    let end = if start + 63 <= bytes.len() {
        start + 63
    } else {
        bytes.len() as int
    };
    seq![0u8] + bytes.subrange(start, end) + Seq::new((64 - (end - start)) as nat, |i: int| 0u8)
}

/// The HID reports that carry `bytes` to the dongle, in order.
pub fn hid_reports(bytes: &[u8]) -> (r: Vec<Vec<u8>>)
    ensures
        r@.len() == report_count(bytes@.len() as int),
        forall|k: int| 0 <= k < r@.len() ==> #[trigger] r@[k]@ == hid_report(bytes@, k),
{
    let n = bytes.len();
    let mut r: Vec<Vec<u8>> = Vec::new();
    let mut start: usize = 0;
    while start < n
        invariant
            n == bytes@.len(),
            start <= n,
            start == n || start == 63 * r@.len(),
            r@.len() == (start + 62) / 63,
            forall|k: int| 0 <= k < r@.len() ==> #[trigger] r@[k]@ == hid_report(bytes@, k),
        decreases n - start,
    {
        let end: usize = if n - start >= 63 {
            start + 63
        } else {
            n
        };
        let mut report: Vec<u8> = Vec::new();
        report.push(0u8);
        let mut i: usize = start;
        while i < end
            invariant
                start <= i <= end,
                end <= n,
                n == bytes@.len(),
                report@ == seq![0u8] + bytes@.subrange(start as int, i as int),
            decreases end - i,
        {
            report.push(bytes[i]);
            assert(report@ =~= seq![0u8] + bytes@.subrange(start as int, i + 1));
            i = i + 1;
        }
        let ghost filled = report@;
        while report.len() < 65
            invariant
                filled.len() <= report@.len() <= 65,
                report@ == filled + Seq::new((report@.len() - filled.len()) as nat, |j: int| 0u8),
            decreases 65 - report@.len(),
        {
            report.push(0u8);
            assert(report@ =~= filled + Seq::new((report@.len() - filled.len()) as nat, |j: int| 0u8));
        }
        proof {
            let k = r@.len() as int;
            assert(63 * k == start);
            assert(report@ =~= hid_report(bytes@, k));
        }
        r.push(report);
        start = end;
    }
    r
}

/// Whether `p` is the position of the first line feed in `s`.
pub open spec fn first_newline_at(s: Seq<u8>, p: int) -> bool {
    0 <= p < s.len() && s[p] == 10u8 && forall|q: int| 0 <= q < p ==> s[q] != 10u8
}

fn find_newline(s: &[u8]) -> (r: Option<usize>)
    ensures
        match r {
            Some(p) => first_newline_at(s@, p as int),
            None => !s@.contains(10u8),
        },
{
    let mut i: usize = 0;
    while i < s.len()
        invariant
            i <= s@.len(),
            forall|q: int| 0 <= q < i ==> s@[q] != 10u8,
        decreases s@.len() - i,
    {
        if s[i] == 10u8 {
            return Some(i);
        }
        i = i + 1;
    }
    None
}

fn append_bytes(buffer: &mut Vec<u8>, bytes: &[u8], len: usize)
    requires
        len <= bytes@.len(),
    ensures
        final(buffer)@ == old(buffer)@ + bytes@.subrange(0, len as int),
{
    let mut i: usize = 0;
    while i < len
        invariant
            i <= len,
            len <= bytes@.len(),
            buffer@ == old(buffer)@ + bytes@.subrange(0, i as int),
        decreases len - i,
    {
        buffer.push(bytes[i]);
        assert(buffer@ =~= old(buffer)@ + bytes@.subrange(0, i + 1));
        i = i + 1;
    }
}

/// What a HID read adds to the buffer: the bytes read but the last, which is the string
/// terminator the dongle sends.
pub open spec fn hid_addition(read: Seq<u8>) -> Seq<u8> {
    if read.len() == 0 {
        read
    } else {
        read.drop_last()
    }
}

/// Adds the bytes of a HID read (all but the last) to the buffer. Once the buffer holds a line
/// feed, returns what precedes the first one and empties the buffer; the rest is dropped.
pub fn hid_accumulate(buffer: &mut Vec<u8>, read: &[u8]) -> (r: Option<Vec<u8>>)
    ensures
        ({
            let b = old(buffer)@ + hid_addition(read@);
            if read@.len() == 0 {
                r is None && final(buffer)@ == old(buffer)@
            } else if b.contains(10u8) {
                r matches Some(line) && exists|p: int| first_newline_at(b, p) && line@ == b.subrange(0, p)
                    && final(buffer)@.len() == 0
            } else {
                r is None && final(buffer)@ == b
            }
        }),
{
    if read.len() == 0 {
        return None;
    }
    append_bytes(buffer, read, read.len() - 1);
    assert(read@.subrange(0, read@.len() - 1) =~= read@.drop_last());
    match find_newline(buffer.as_slice()) {
        Some(p) => {
            let mut line: Vec<u8> = Vec::new();
            append_bytes(&mut line, buffer.as_slice(), p);
            assert(line@ =~= buffer@.subrange(0, p as int));
            buffer.clear();
            Some(line)
        },
        None => None,
    }
}

/// Adds the bytes of a serial read to the buffer. Once the buffer holds a line feed, returns the
/// whole buffer and empties it.
pub fn serial_accumulate(buffer: &mut Vec<u8>, read: &[u8]) -> (r: Option<Vec<u8>>)
    ensures
        ({
            let b = old(buffer)@ + read@;
            if b.contains(10u8) {
                r matches Some(all) && all@ == b && final(buffer)@.len() == 0
            } else {
                r is None && final(buffer)@ == b
            }
        }),
{
    append_bytes(buffer, read, read.len());
    assert(read@.subrange(0, read@.len() as int) =~= read@);
    match find_newline(buffer.as_slice()) {
        Some(_) => {
            let all = crate::specifier::byte_vec(buffer.as_slice());
            buffer.clear();
            Some(all)
        },
        None => None,
    }
}

} // verus!

verus! {

/// The name under which toys behind a dongle are announced.
pub fn dongle_device_name() -> (r: &'static str)
    ensures
        r@ == "Lovense Dongle Device"@,
{
    "Lovense Dongle Device"
}

/// The specifier a toy behind a dongle is matched by: a Bluetooth LE specifier with the one name
/// `LVS-DongleDevice`, which the Lovense protocol's name pattern matches.
pub fn dongle_device_specifier() -> (r: ProtocolCommunicationSpecifier)
    ensures
        r@ matches SpecifierView::BluetoothLE(b) && b.names == seq!["LVS-DongleDevice"@]
            && b.manufacturer_data.len() == 0 && b.advertised_services.len() == 0
            && b.services.len() == 0,
{
    let no_data: Vec<(u16, Vec<u8>)> = Vec::new();
    let no_services: Vec<u128> = Vec::new();
    let s = BluetoothLESpecifier::new_from_device("LVS-DongleDevice", no_data.as_slice(), no_services.as_slice());
    proof {
        assert(s@.advertised_services.to_set() =~= Set::<u128>::empty());
        if s@.advertised_services.len() > 0 {
            assert(s@.advertised_services.to_set().contains(s@.advertised_services[0]));
        }
    }
    ProtocolCommunicationSpecifier::BluetoothLE(s)
}

/// The endpoints of a toy behind a dongle: it reads on `Rx` and writes on `Tx`.
pub fn dongle_device_endpoints() -> (r: Vec<Endpoint>)
    ensures
        r@ == seq![Endpoint::Rx, Endpoint::Tx],
{
    let mut v: Vec<Endpoint> = Vec::new();
    v.push(Endpoint::Rx);
    v.push(Endpoint::Tx);
    assert(v@ =~= seq![Endpoint::Rx, Endpoint::Tx]);
    v
}

/// The message that carries a write to the toy `address` behind a dongle: a toy command whose
/// text is the written bytes.
pub fn dongle_write_message(address: &str, data: &[u8]) -> (r: LovenseDongleOutgoingMessage)
    requires
        vstd::utf8::valid_utf8(data@),
    ensures
        r@ == (OutgoingMessageView {
            message_type: LovenseDongleMessageType::Toy,
            func: LovenseDongleMessageFunc::Command,
            id: Some(address@),
            command: Some(vstd::utf8::decode_utf8(data@)),
            eager: None,
        }),
{
    let command = utf8_text(data);
    let command = match command {
        Some(c) => c,
        None => {
            assert(false);
            String::new()
        },
    };
    LovenseDongleOutgoingMessage {
        message_type: LovenseDongleMessageType::Toy,
        func: LovenseDongleMessageFunc::Command,
        id: Some(address.to_owned()),
        command: Some(command),
        eager: None,
    }
}

/// Whether a message from the dongle cannot be relayed to a toy: it is toy data without its
/// data text.
pub open spec fn notification_fails(m: IncomingMessageView) -> bool {
    m.func == LovenseDongleMessageFunc::ToyData && (m.data is None || m.data->Some_0.data is None)
}

/// The event a toy at `address` behind a dongle raises for a message from the dongle: toy data
/// becomes a notification on `Rx` carrying the data text's UTF-8 bytes; other messages raise none.
pub fn dongle_notification(address: &str, m: &LovenseDongleIncomingMessage) -> (r: Option<HardwareEvent>)
    requires
        !notification_fails(m@),
    ensures
        match r {
            Some(HardwareEvent::Notification(a, e, bytes)) => m@.func == LovenseDongleMessageFunc::ToyData
                && a@ == address@ && e == Endpoint::Rx && bytes@ == vstd::utf8::encode_utf8(
                m@.data->Some_0.data->Some_0,
            ),
            Some(HardwareEvent::Disconnected(_)) => false,
            None => m@.func != LovenseDongleMessageFunc::ToyData,
        },
{
    if m.func != LovenseDongleMessageFunc::ToyData {
        return None;
    }
    match &m.data {
        Some(d) => match &d.data {
            Some(text) => {
                let bytes = crate::specifier::byte_vec(text.as_str().as_bytes());
                Some(HardwareEvent::Notification(address.to_owned(), Endpoint::Rx, bytes))
            },
            None => None,
        },
        None => None,
    }
}

} // verus!

verus! {

/// Builds the manager of the Lovense HID dongle.
#[derive(Debug, Default, Clone, Copy)]
pub struct LovenseHIDDongleCommunicationManagerBuilder {}

/// Builds the manager of the Lovense serial dongle.
#[derive(Debug, Default, Clone, Copy)]
pub struct LovenseSerialDongleCommunicationManagerBuilder {}

/// The flags a Lovense dongle manager shares with its state machine: whether it scans, and
/// whether a dongle was found.
#[derive(Debug)]
pub struct LovenseDongleManagerFlags {
    is_scanning: bool,
    dongle_available: bool,
}

impl LovenseDongleManagerFlags {
    pub fn new() -> (r: Self)
        ensures
            !r.spec_is_scanning(),
            !r.spec_dongle_available(),
    {
        LovenseDongleManagerFlags { is_scanning: false, dongle_available: false }
    }

    pub closed spec fn spec_is_scanning(&self) -> bool {
        self.is_scanning
    }

    pub closed spec fn spec_dongle_available(&self) -> bool {
        self.dongle_available
    }

    /// Starting a scan through the HID dongle's manager sets the flag at once and asks the
    /// machine to scan.
    pub fn start_scanning(&mut self) -> (r: LovenseDeviceCommand)
        ensures
            final(self).spec_is_scanning(),
            final(self).spec_dongle_available() == old(self).spec_dongle_available(),
            r == LovenseDeviceCommand::StartScanning,
    {
        self.is_scanning = true;
        LovenseDeviceCommand::StartScanning
    }

    /// Starting a scan through the serial dongle's manager only asks the machine to scan; the
    /// machine sets the flag when it starts.
    pub fn start_scanning_serial(&self) -> (r: LovenseDeviceCommand)
        ensures
            r == LovenseDeviceCommand::StartScanning,
    {
        LovenseDeviceCommand::StartScanning
    }

    /// Stopping a scan is left to the machine, which clears the flag.
    pub fn stop_scanning(&self) -> (r: LovenseDeviceCommand)
        ensures
            r == LovenseDeviceCommand::StopScanning,
    {
        LovenseDeviceCommand::StopScanning
    }

    /// A dongle was found and opened.
    pub fn dongle_found(&mut self) -> (r: LovenseDeviceCommand)
        ensures
            final(self).spec_dongle_available(),
            final(self).spec_is_scanning() == old(self).spec_is_scanning(),
            r == LovenseDeviceCommand::DongleFound,
    {
        self.dongle_available = true;
        LovenseDeviceCommand::DongleFound
    }

    /// Applies an action of the machine to the flags; other actions leave them as they are.
    pub fn apply(&mut self, action: &DongleAction)
        ensures
            match action@ {
                DongleActionView::SetScanning(b) => final(self).spec_is_scanning() == b,
                _ => final(self).spec_is_scanning() == old(self).spec_is_scanning(),
            },
            final(self).spec_dongle_available() == old(self).spec_dongle_available(),
    {
        match action {
            DongleAction::SetScanning(b) => {
                self.is_scanning = *b;
            },
            _ => {},
        }
    }

    pub fn scanning_status(&self) -> (r: bool)
        ensures
            r == self.spec_is_scanning(),
    {
        self.is_scanning
    }

    /// The manager can scan once a dongle is available.
    pub fn can_scan(&self) -> (r: bool)
        ensures
            r == self.spec_dongle_available(),
    {
        self.dongle_available
    }
}

} // verus!
