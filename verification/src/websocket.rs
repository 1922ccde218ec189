//! Devices that connect over a websocket: the keepalive and relay decisions of a connection,
//! and the subscription state of such a device.
use vstd::prelude::*;
use crate::errors::ButtplugDeviceError;
use crate::messages::Endpoint;
use crate::specifier::{ProtocolCommunicationSpecifier, SpecifierView, WebsocketSpecifier};

verus! {

/// A websocket message, as the websocket layer delivers it.
#[derive(Debug)]
pub enum WebsocketMessage {
    Text(String),
    Binary(Vec<u8>),
    Close,
    Ping,
    Pong,
    Frame,
}

/// What a connection's loop waits for: the keepalive timer, data to send to the device (or the
/// end of it), a message from the device, or the failure of the connection.
#[derive(Debug)]
pub enum WebsocketLoopEvent {
    Tick,
    Outgoing(Vec<u8>),
    OutgoingClosed,
    Incoming(WebsocketMessage),
    ReceiveError,
    StreamEnded,
    SendFailed,
}

/// Abstract value of a loop event.
pub enum LoopEventView {
    Tick,
    Outgoing(Seq<u8>),
    OutgoingClosed,
    Text(Seq<char>),
    Binary(Seq<u8>),
    Close,
    Ping,
    Pong,
    Frame,
    ReceiveError,
    StreamEnded,
    SendFailed,
}

impl View for WebsocketLoopEvent {
    type V = LoopEventView;

    open spec fn view(&self) -> LoopEventView {
        match self {
            WebsocketLoopEvent::Tick => LoopEventView::Tick,
            WebsocketLoopEvent::Outgoing(b) => LoopEventView::Outgoing(b@),
            WebsocketLoopEvent::OutgoingClosed => LoopEventView::OutgoingClosed,
            WebsocketLoopEvent::Incoming(WebsocketMessage::Text(t)) => LoopEventView::Text(t@),
            WebsocketLoopEvent::Incoming(WebsocketMessage::Binary(b)) => LoopEventView::Binary(b@),
            WebsocketLoopEvent::Incoming(WebsocketMessage::Close) => LoopEventView::Close,
            WebsocketLoopEvent::Incoming(WebsocketMessage::Ping) => LoopEventView::Ping,
            WebsocketLoopEvent::Incoming(WebsocketMessage::Pong) => LoopEventView::Pong,
            WebsocketLoopEvent::Incoming(WebsocketMessage::Frame) => LoopEventView::Frame,
            WebsocketLoopEvent::ReceiveError => LoopEventView::ReceiveError,
            WebsocketLoopEvent::StreamEnded => LoopEventView::StreamEnded,
            WebsocketLoopEvent::SendFailed => LoopEventView::SendFailed,
        }
    }
}

/// What the loop does: ping the device, send it data, hand data it sent to whoever listens, or
/// report the device at an address disconnected.
#[derive(Debug)]
pub enum WebsocketLoopAction {
    SendPing(Vec<u8>),
    SendBinary(Vec<u8>),
    Respond(Vec<u8>),
    Disconnected(String),
}

/// Abstract value of a loop action.
pub enum LoopActionView {
    SendPing(Seq<u8>),
    SendBinary(Seq<u8>),
    Respond(Seq<u8>),
    Disconnected(Seq<char>),
}

impl View for WebsocketLoopAction {
    type V = LoopActionView;

    open spec fn view(&self) -> LoopActionView {
        match self {
            WebsocketLoopAction::SendPing(b) => LoopActionView::SendPing(b@),
            WebsocketLoopAction::SendBinary(b) => LoopActionView::SendBinary(b@),
            WebsocketLoopAction::Respond(b) => LoopActionView::Respond(b@),
            WebsocketLoopAction::Disconnected(a) => LoopActionView::Disconnected(a@),
        }
    }
}

/// The result of one step of the loop: the pongs counted since the last ping, what to do, and
/// whether the loop ends (after which the websocket is closed).
pub struct LoopStepView {
    pub pong_count: u32,
    pub action: Option<LoopActionView>,
    pub stop: bool,
}

/// One step of a connection's loop, from the count of pongs since the last ping. The timer pings
/// the device, unless no pong came since the last ping, which ends the connection. Data to send
/// goes to the device as binary; text or binary from the device goes to the listeners as bytes;
/// a close message reports the device disconnected; pings and frames are ignored; a pong is
/// counted; the end of either side, and any failure, ends the loop.
pub open spec fn spec_loop_step(pong_count: u32, address: Seq<char>, e: LoopEventView) -> LoopStepView {
    match e {
        LoopEventView::Tick => if pong_count == 0 {
            LoopStepView { pong_count, action: None, stop: true }
        } else {
            LoopStepView { pong_count: 0, action: Some(LoopActionView::SendPing(seq![0u8])), stop: false }
        },
        LoopEventView::Outgoing(b) => LoopStepView {
            pong_count,
            action: Some(LoopActionView::SendBinary(b)),
            stop: false,
        },
        LoopEventView::Text(t) => LoopStepView {
            pong_count,
            action: Some(LoopActionView::Respond(vstd::utf8::encode_utf8(t))),
            stop: false,
        },
        LoopEventView::Binary(b) => LoopStepView {
            pong_count,
            action: Some(LoopActionView::Respond(b)),
            stop: false,
        },
        LoopEventView::Close => LoopStepView {
            pong_count,
            action: Some(LoopActionView::Disconnected(address)),
            stop: true,
        },
        LoopEventView::Ping => LoopStepView { pong_count, action: None, stop: false },
        LoopEventView::Frame => LoopStepView { pong_count, action: None, stop: false },
        LoopEventView::Pong => LoopStepView { pong_count: (pong_count + 1) as u32, action: None, stop: false },
        _ => LoopStepView { pong_count, action: None, stop: true },
    }
}

/// The keepalive state of a websocket connection: the pongs counted since the last ping.
#[derive(Debug)]
pub struct WebsocketKeepalive {
    pong_count: u32,
}

impl WebsocketKeepalive {
    /// A new connection counts one pong, so that the first ping goes out.
    pub fn new() -> (r: Self)
        ensures
            r.spec_pong_count() == 1,
    {
        WebsocketKeepalive { pong_count: 1 }
    }

    pub closed spec fn spec_pong_count(&self) -> u32 {
        self.pong_count
    }

    /// One step of the loop (see `spec_loop_step`): the action to carry out, if any, and whether
    /// the loop ends.
    pub fn step(&mut self, address: &str, event: WebsocketLoopEvent) -> (r: (Option<WebsocketLoopAction>, bool))
        requires
            event@ is Pong ==> old(self).spec_pong_count() < u32::MAX,
        ensures
            ({
                let s = spec_loop_step(old(self).spec_pong_count(), address@, event@);
                &&& final(self).spec_pong_count() == s.pong_count
                &&& r.1 == s.stop
                &&& match (r.0, s.action) {
                    (Some(a), Some(v)) => a@ == v,
                    (None, None) => true,
                    _ => false,
                }
            }),
    {
        match event {
            WebsocketLoopEvent::Tick => {
                if self.pong_count == 0 {
                    (None, true)
                } else {
                    self.pong_count = 0;
                    let mut ping: Vec<u8> = Vec::new();
                    ping.push(0u8);
                    assert(ping@ =~= seq![0u8]);
                    (Some(WebsocketLoopAction::SendPing(ping)), false)
                }
            },
            WebsocketLoopEvent::Outgoing(b) => (Some(WebsocketLoopAction::SendBinary(b)), false),
            WebsocketLoopEvent::Incoming(WebsocketMessage::Text(t)) => {
                let bytes = crate::specifier::byte_vec(t.as_str().as_bytes());
                (Some(WebsocketLoopAction::Respond(bytes)), false)
            },
            WebsocketLoopEvent::Incoming(WebsocketMessage::Binary(b)) => (
                Some(WebsocketLoopAction::Respond(b)),
                false,
            ),
            WebsocketLoopEvent::Incoming(WebsocketMessage::Close) => (
                Some(WebsocketLoopAction::Disconnected(address.to_owned())),
                true,
            ),
            WebsocketLoopEvent::Incoming(WebsocketMessage::Ping) => (None, false),
            WebsocketLoopEvent::Incoming(WebsocketMessage::Frame) => (None, false),
            WebsocketLoopEvent::Incoming(WebsocketMessage::Pong) => {
                self.pong_count = self.pong_count + 1;
                (None, false)
            },
            _ => (None, true),
        }
    }
}

/// A connection that has pinged and heard no pong since ends at the next tick; a pong in between
/// keeps it open.
pub proof fn lemma_silent_connection_ends(pong_count: u32, address: Seq<char>)
    requires
        !spec_loop_step(pong_count, address, LoopEventView::Tick).stop,
    ensures
        spec_loop_step(
            spec_loop_step(pong_count, address, LoopEventView::Tick).pong_count,
            address,
            LoopEventView::Tick,
        ).stop,
        !spec_loop_step(
            spec_loop_step(
                spec_loop_step(pong_count, address, LoopEventView::Tick).pong_count,
                address,
                LoopEventView::Pong,
            ).pong_count,
            address,
            LoopEventView::Tick,
        ).stop,
{
}

/// Whether a websocket device's data is being relayed as notifications.
#[derive(Debug)]
pub struct WebsocketSubscription {
    subscribed: bool,
}

impl WebsocketSubscription {
    pub fn new() -> (r: Self)
        ensures
            !r.spec_subscribed(),
    {
        WebsocketSubscription { subscribed: false }
    }

    pub closed spec fn spec_subscribed(&self) -> bool {
        self.subscribed
    }

    /// Subscribes; says whether relaying has to start (it does not when already subscribed).
    pub fn subscribe(&mut self) -> (r: bool)
        ensures
            final(self).spec_subscribed(),
            r == !old(self).spec_subscribed(),
    {
        if self.subscribed {
            false
        } else {
            self.subscribed = true;
            true
        }
    }

    /// Unsubscribes; a device that is not subscribed cannot be.
    pub fn unsubscribe(&mut self) -> (r: Result<(), ButtplugDeviceError>)
        ensures
            !final(self).spec_subscribed(),
            old(self).spec_subscribed() ==> r is Ok,
            !old(self).spec_subscribed() ==> (r matches Err(ButtplugDeviceError::DeviceCommunicationError(m))
                && m@ == "Device not subscribed."@),
    {
        if self.subscribed {
            self.subscribed = false;
            Ok(())
        } else {
            Err(ButtplugDeviceError::DeviceCommunicationError("Device not subscribed.".to_owned()))
        }
    }
}

/// The specifier a websocket device is matched by: the one name it announced itself by.
pub fn websocket_device_specifier(identifier: &str) -> (r: ProtocolCommunicationSpecifier)
    ensures
        r@ == SpecifierView::Websocket(set![identifier@]),
{
    let mut names: Vec<String> = Vec::new();
    names.push(identifier.to_owned());
    let s = WebsocketSpecifier::new(&names);
    proof {
        assert(crate::text::strings_view(names@) =~= seq![identifier@]);
        assert(seq![identifier@].to_set() =~= set![identifier@]) by {
            assert(seq![identifier@][0] == identifier@);
        }
    }
    ProtocolCommunicationSpecifier::Websocket(s)
}

/// Endpoints of a websocket device: it reads on `Rx` and writes on `Tx`.
pub fn websocket_endpoints() -> (r: Vec<Endpoint>)
    ensures
        r@ == seq![Endpoint::Rx, Endpoint::Tx],
{
    let mut v: Vec<Endpoint> = Vec::new();
    v.push(Endpoint::Rx);
    v.push(Endpoint::Tx);
    assert(v@ =~= seq![Endpoint::Rx, Endpoint::Tx]);
    v
}

} // verus!
