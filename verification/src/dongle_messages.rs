//! Messages exchanged with a Lovense dongle.
use vstd::prelude::*;
use crate::message_attributes::{clone_opt_string, opt_string_view};

verus! {

/// Result codes a Lovense dongle reports.
#[derive(Debug, Clone, Copy, PartialEq, Eq, Structural)]
pub enum LovenseDongleResultCode {
    DongleInitialized,
    CommandSuccess,
    DeviceConnectInProgress,
    DeviceConnectSuccess,
    SearchStarted,
    SearchStopped,
    MalformedMessage,
    DeviceConnectionFailed,
    DeviceDisconnected,
    DeviceNotFound,
    DongleScanningInterruption,
}

/// The number the dongle uses for each result code.
pub open spec fn spec_result_code_number(c: LovenseDongleResultCode) -> u16 {
    match c {
        LovenseDongleResultCode::DongleInitialized => 100,
        LovenseDongleResultCode::CommandSuccess => 200,
        LovenseDongleResultCode::DeviceConnectInProgress => 201,
        LovenseDongleResultCode::DeviceConnectSuccess => 202,
        LovenseDongleResultCode::SearchStarted => 205,
        LovenseDongleResultCode::SearchStopped => 206,
        LovenseDongleResultCode::MalformedMessage => 400,
        LovenseDongleResultCode::DeviceConnectionFailed => 402,
        LovenseDongleResultCode::DeviceDisconnected => 403,
        LovenseDongleResultCode::DeviceNotFound => 404,
        LovenseDongleResultCode::DongleScanningInterruption => 501,
    }
}

impl LovenseDongleResultCode {
    /// The number the dongle uses for this code.
    pub fn code(&self) -> (r: u16)
        ensures
            r == spec_result_code_number(*self),
    {
        match self {
            LovenseDongleResultCode::DongleInitialized => 100,
            LovenseDongleResultCode::CommandSuccess => 200,
            LovenseDongleResultCode::DeviceConnectInProgress => 201,
            LovenseDongleResultCode::DeviceConnectSuccess => 202,
            LovenseDongleResultCode::SearchStarted => 205,
            LovenseDongleResultCode::SearchStopped => 206,
            LovenseDongleResultCode::MalformedMessage => 400,
            LovenseDongleResultCode::DeviceConnectionFailed => 402,
            LovenseDongleResultCode::DeviceDisconnected => 403,
            LovenseDongleResultCode::DeviceNotFound => 404,
            LovenseDongleResultCode::DongleScanningInterruption => 501,
        }
    }

    /// The result code the dongle means by `n`, if it means one.
    pub fn from_code(n: u16) -> (r: Option<Self>)
        ensures
            match r {
                Some(c) => spec_result_code_number(c) == n,
                None => forall|c: LovenseDongleResultCode| spec_result_code_number(c) != n,
            },
    {
        match n {
            100 => Some(LovenseDongleResultCode::DongleInitialized),
            200 => Some(LovenseDongleResultCode::CommandSuccess),
            201 => Some(LovenseDongleResultCode::DeviceConnectInProgress),
            202 => Some(LovenseDongleResultCode::DeviceConnectSuccess),
            205 => Some(LovenseDongleResultCode::SearchStarted),
            206 => Some(LovenseDongleResultCode::SearchStopped),
            400 => Some(LovenseDongleResultCode::MalformedMessage),
            402 => Some(LovenseDongleResultCode::DeviceConnectionFailed),
            403 => Some(LovenseDongleResultCode::DeviceDisconnected),
            404 => Some(LovenseDongleResultCode::DeviceNotFound),
            501 => Some(LovenseDongleResultCode::DongleScanningInterruption),
            _ => None,
        }
    }
}

/// Distinct result codes have distinct numbers, so a code read back from its number is itself.
pub proof fn lemma_result_code_numbers_distinct(a: LovenseDongleResultCode, b: LovenseDongleResultCode)
    ensures
        spec_result_code_number(a) == spec_result_code_number(b) ==> a == b,
{
}

/// Whom a dongle message concerns: the dongle itself or a toy.
#[derive(Debug, Clone, Copy, PartialEq, Eq, Structural)]
pub enum LovenseDongleMessageType {
    Usb,
    Toy,
}

/// What a dongle message asks or reports.
#[derive(Debug, Clone, Copy, PartialEq, Eq, Structural)]
pub enum LovenseDongleMessageFunc {
    Reset,
    Init,
    Search,
    StopSearch,
    IncomingStatus,
    Command,
    ToyData,
    Connect,
    Error,
    Statuss,
}

/// Abstract value of a message to the dongle.
pub struct OutgoingMessageView {
    pub message_type: LovenseDongleMessageType,
    pub func: LovenseDongleMessageFunc,
    pub id: Option<Seq<char>>,
    pub command: Option<Seq<char>>,
    pub eager: Option<u32>,
}

/// A message to the dongle.
#[derive(Debug)]
pub struct LovenseDongleOutgoingMessage {
    pub message_type: LovenseDongleMessageType,
    pub func: LovenseDongleMessageFunc,
    pub id: Option<String>,
    pub command: Option<String>,
    pub eager: Option<u32>,
}

impl View for LovenseDongleOutgoingMessage {
    type V = OutgoingMessageView;

    open spec fn view(&self) -> OutgoingMessageView {
        OutgoingMessageView {
            message_type: self.message_type,
            func: self.func,
            id: opt_string_view(self.id),
            command: opt_string_view(self.command),
            eager: self.eager,
        }
    }
}

impl Clone for LovenseDongleOutgoingMessage {
    fn clone(&self) -> (r: Self)
        ensures
            r@ == self@,
    {
        LovenseDongleOutgoingMessage {
            message_type: self.message_type,
            func: self.func,
            id: clone_opt_string(&self.id),
            command: clone_opt_string(&self.command),
            eager: self.eager,
        }
    }
}

/// The message that has no id, command or eagerness, of the given type and function.
pub open spec fn plain_message(
    message_type: LovenseDongleMessageType,
    func: LovenseDongleMessageFunc,
) -> OutgoingMessageView {
    OutgoingMessageView { message_type, func, id: None, command: None, eager: None }
}

impl LovenseDongleOutgoingMessage {
    /// The message that has no id, command or eagerness, of the given type and function.
    pub fn plain(message_type: LovenseDongleMessageType, func: LovenseDongleMessageFunc) -> (r: Self)
        ensures
            r@ == plain_message(message_type, func),
    {
        LovenseDongleOutgoingMessage { message_type, func, id: None, command: None, eager: None }
    }
}

/// Abstract value of the data part of a message from the dongle.
pub struct IncomingDataView {
    pub id: Option<Seq<char>>,
    pub data: Option<Seq<char>>,
    pub status: Option<LovenseDongleResultCode>,
}

/// The data part of a message from the dongle.
#[derive(Debug)]
pub struct LovenseDongleIncomingData {
    pub id: Option<String>,
    pub data: Option<String>,
    pub status: Option<LovenseDongleResultCode>,
}

impl View for LovenseDongleIncomingData {
    type V = IncomingDataView;

    open spec fn view(&self) -> IncomingDataView {
        IncomingDataView { id: opt_string_view(self.id), data: opt_string_view(self.data), status: self.status }
    }
}

impl Clone for LovenseDongleIncomingData {
    fn clone(&self) -> (r: Self)
        ensures
            r@ == self@,
    {
        LovenseDongleIncomingData {
            id: clone_opt_string(&self.id),
            data: clone_opt_string(&self.data),
            status: self.status,
        }
    }
}

/// Abstract value of a message from the dongle.
pub struct IncomingMessageView {
    pub message_type: LovenseDongleMessageType,
    pub func: LovenseDongleMessageFunc,
    pub id: Option<Seq<char>>,
    pub command: Option<Seq<char>>,
    pub eager: Option<u32>,
    pub result: Option<LovenseDongleResultCode>,
    pub data: Option<IncomingDataView>,
    pub message: Option<Seq<char>>,
}

/// A message from the dongle.
#[derive(Debug)]
pub struct LovenseDongleIncomingMessage {
    pub message_type: LovenseDongleMessageType,
    pub func: LovenseDongleMessageFunc,
    pub id: Option<String>,
    pub command: Option<String>,
    pub eager: Option<u32>,
    pub result: Option<LovenseDongleResultCode>,
    pub data: Option<LovenseDongleIncomingData>,
    pub message: Option<String>,
}

impl View for LovenseDongleIncomingMessage {
    type V = IncomingMessageView;

    open spec fn view(&self) -> IncomingMessageView {
        IncomingMessageView {
            message_type: self.message_type,
            func: self.func,
            id: opt_string_view(self.id),
            command: opt_string_view(self.command),
            eager: self.eager,
            result: self.result,
            data: match self.data {
                Some(d) => Some(d@),
                None => None,
            },
            message: opt_string_view(self.message),
        }
    }
}

impl Clone for LovenseDongleIncomingMessage {
    fn clone(&self) -> (r: Self)
        ensures
            r@ == self@,
    {
        LovenseDongleIncomingMessage {
            message_type: self.message_type,
            func: self.func,
            id: clone_opt_string(&self.id),
            command: clone_opt_string(&self.command),
            eager: self.eager,
            result: self.result,
            data: match &self.data {
                Some(d) => Some(d.clone()),
                None => None,
            },
            message: clone_opt_string(&self.message),
        }
    }
}

/// Abstract value of data for the dongle.
pub enum OutgoingView {
    Raw(Seq<char>),
    Message(OutgoingMessageView),
}

/// Data for the dongle: a raw line, or a message.
#[derive(Debug)]
pub enum OutgoingLovenseData {
    Raw(String),
    Message(LovenseDongleOutgoingMessage),
}

impl View for OutgoingLovenseData {
    type V = OutgoingView;

    open spec fn view(&self) -> OutgoingView {
        match self {
            OutgoingLovenseData::Raw(s) => OutgoingView::Raw(s@),
            OutgoingLovenseData::Message(m) => OutgoingView::Message(m@),
        }
    }
}

impl Clone for OutgoingLovenseData {
    fn clone(&self) -> (r: Self)
        ensures
            r@ == self@,
    {
        match self {
            OutgoingLovenseData::Raw(s) => OutgoingLovenseData::Raw(s.clone()),
            OutgoingLovenseData::Message(m) => OutgoingLovenseData::Message(m.clone()),
        }
    }
}

/// What the communication manager tells the dongle's state machine. The dongle's channels, which
/// come with `DongleFound`, stay with the task that runs the machine.
#[derive(Debug, Clone, Copy, PartialEq, Eq, Structural)]
pub enum LovenseDeviceCommand {
    DongleFound,
    StartScanning,
    StopScanning,
}

} // verus!
