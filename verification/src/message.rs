//! The messages that come in, the outcomes that go out, and the signals that
//! the dispatcher raises for whoever keeps the server's log.

use lsp_server::{Message, RequestId};
use serde_json::Value;
use vstd::prelude::*;

verus! {

/// Trusted: `lsp_server::RequestId`, the id of a request. Verified code
/// carries it from the request to the outcome and never looks inside.
#[verifier::external_type_specification]
#[verifier::external_body]
pub struct ExRequestId(lsp_server::RequestId);

/// Trusted: `lsp_server::Message`, a message as the transport decoded it.
/// Verified code carries it into a signal and never looks inside.
#[verifier::external_type_specification]
#[verifier::external_body]
pub struct ExMessage(lsp_server::Message);

/// A request: a method name, an untyped payload and the id that the response
/// has to carry.
#[derive(Debug)]
pub struct Request {
    pub id: RequestId,
    pub method: String,
    pub params: Value,
}

/// A notification: a method name and an untyped payload. Nothing is ever sent
/// back for one.
#[derive(Debug)]
pub struct Notification {
    pub method: String,
    pub params: Value,
}

/// One completion item, as the completion engine hands it out.
#[derive(Debug, Clone, PartialEq, Eq)]
pub struct HxAttribute {
    pub name: String,
    pub desc: String,
}

/// The items found for a completion request, with the id of that request.
#[derive(Debug)]
pub struct HtmxAttributeCompletion {
    pub items: Vec<HxAttribute>,
    pub id: RequestId,
}

/// What a handled message gives back to the transport. A handler that returns
/// no `HtmxResult` asks for no response to be sent.
#[derive(Debug)]
pub enum HtmxResult {
    AttributeCompletion(HtmxAttributeCompletion),
}

/// An `HtmxResult` with its items as a sequence.
pub enum HtmxResultView {
    AttributeCompletion { items: Seq<HxAttribute>, id: RequestId },
}

impl View for HtmxResult {
    type V = HtmxResultView;

    open spec fn view(&self) -> HtmxResultView {
        match *self {
            HtmxResult::AttributeCompletion(completion) => HtmxResultView::AttributeCompletion {
                items: completion.items@,
                id: completion.id,
            },
        }
    }
}

/// How loudly a signal is to be logged.
#[derive(Debug, Clone, Copy, PartialEq, Eq, Structural)]
pub enum Severity {
    Debug,
    Warning,
}

impl Severity {
    /// The place of a severity in the order from quiet to loud.
    pub open spec fn rank(self) -> nat {
        match self {
            Severity::Debug => 0,
            Severity::Warning => 1,
        }
    }
}

/// Something the dispatcher met that an operator should be able to see.
#[derive(Debug)]
pub enum Signal {
    /// A request whose method has no handler.
    UnhandledRequest(Request),
    /// A notification whose method, held here, has no handler.
    UnhandledNotification(String),
    /// A message that is neither a request nor a notification to handle.
    UnhandledMessage(Message),
    /// A document change that carried `count` entries, more than the one
    /// that was applied to the document at `uri`.
    ExcessContentChanges { uri: String, count: usize },
}

/// A `Signal` with its strings as sequences of characters.
pub enum SignalView {
    UnhandledRequest(Request),
    UnhandledNotification(Seq<char>),
    UnhandledMessage(Message),
    ExcessContentChanges { uri: Seq<char>, count: nat },
}

impl View for Signal {
    type V = SignalView;

    open spec fn view(&self) -> SignalView {
        match *self {
            Signal::UnhandledRequest(request) => SignalView::UnhandledRequest(request),
            Signal::UnhandledNotification(method) => SignalView::UnhandledNotification(method@),
            Signal::UnhandledMessage(message) => SignalView::UnhandledMessage(message),
            Signal::ExcessContentChanges { uri, count } => SignalView::ExcessContentChanges {
                uri: uri@,
                count: count as nat,
            },
        }
    }
}

impl SignalView {
    /// The severity that each kind of signal carries: an unknown notification
    /// is routine, everything else is a warning.
    pub open spec fn severity(self) -> Severity {
        match self {
            SignalView::UnhandledNotification(_) => Severity::Debug,
            _ => Severity::Warning,
        }
    }
}

impl Signal {
    /// The severity at which this signal is to be logged.
    pub fn severity(&self) -> (level: Severity)
        ensures
            level == self@.severity(),
    {
        match self {
            Signal::UnhandledNotification(_) => Severity::Debug,
            _ => Severity::Warning,
        }
    }
}

/// The views of the signals in `signals`, in order.
pub open spec fn raised(signals: Seq<Signal>) -> Seq<SignalView> {
    signals.map_values(|signal: Signal| signal@)
}

} // verus!
