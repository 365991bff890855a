//! Classification of inbound messages: a lookup by message kind and method
//! name, after which the payload is decoded. A payload that does not decode is
//! an ordinary outcome of classification, never a failure.

use crate::completion::{completion_params, decode_completion, CompletionQuery, CompletionQueryView};
use crate::message::{Notification, Request};
use crate::sync::{decode_change, document_change};
use lsp_server::RequestId;
use vstd::prelude::*;

verus! {

/// The method name of the notification that carries a document's new text.
pub open spec fn did_change_method() -> Seq<char> {
    "textDocument/didChange"@
}

/// The method name of the request that asks for completion items.
pub open spec fn completion_method() -> Seq<char> {
    "textDocument/completion"@
}

/// What a notification turned out to be.
#[derive(Debug, PartialEq, Eq)]
pub enum NotificationClass {
    /// A document change: `text` is the new full text of the document at
    /// `uri`, taken from the first of the `entries` content changes.
    SyncEvent { uri: String, text: String, entries: usize },
    /// A known method with a payload that cannot be applied: it does not
    /// decode, or it carries no content change.
    Rejected,
    /// A method, held here, that has no handler.
    Unknown(String),
}

/// A `NotificationClass` with its strings as sequences of characters.
pub enum NotificationKind {
    SyncEvent { uri: Seq<char>, text: Seq<char>, entries: nat },
    Rejected,
    Unknown(Seq<char>),
}

impl View for NotificationClass {
    type V = NotificationKind;

    open spec fn view(&self) -> NotificationKind {
        match *self {
            NotificationClass::SyncEvent { uri, text, entries } => NotificationKind::SyncEvent {
                uri: uri@,
                text: text@,
                entries: entries as nat,
            },
            NotificationClass::Rejected => NotificationKind::Rejected,
            NotificationClass::Unknown(method) => NotificationKind::Unknown(method@),
        }
    }
}

/// What a request turned out to be.
#[derive(Debug)]
pub enum RequestClass {
    /// A completion request with its decoded payload and its id.
    CompletionRequest { query: CompletionQuery, id: RequestId },
    /// A known method with a payload that does not decode.
    Rejected,
    /// A request, handed back whole, whose method has no handler.
    Unknown(Request),
}

/// A `RequestClass` with its query by view.
pub enum RequestKind {
    CompletionRequest { query: CompletionQueryView, id: RequestId },
    Rejected,
    Unknown(Request),
}

impl View for RequestClass {
    type V = RequestKind;

    open spec fn view(&self) -> RequestKind {
        match *self {
            RequestClass::CompletionRequest { query, id } => RequestKind::CompletionRequest {
                query: query@,
                id,
            },
            RequestClass::Rejected => RequestKind::Rejected,
            RequestClass::Unknown(request) => RequestKind::Unknown(request),
        }
    }
}

/// The class of a notification. Only the first content change of a document
/// change is kept; how many there were is recorded beside it.
pub open spec fn notification_kind(notification: Notification) -> NotificationKind {
    if notification.method@ == did_change_method() {
        match document_change(notification.params) {
            Some(change) => if change.texts.len() > 0 {
                NotificationKind::SyncEvent {
                    uri: change.uri,
                    text: change.texts[0],
                    entries: change.texts.len(),
                }
            } else {
                NotificationKind::Rejected
            },
            None => NotificationKind::Rejected,
        }
    } else {
        NotificationKind::Unknown(notification.method@)
    }
}

/// The class of a request.
pub open spec fn request_kind(request: Request) -> RequestKind {
    if request.method@ == completion_method() {
        match completion_params(request.params) {
            Some(query) => RequestKind::CompletionRequest { query, id: request.id },
            None => RequestKind::Rejected,
        }
    } else {
        RequestKind::Unknown(request)
    }
}

/// Whether `method` is the method called `name`, character for character.
pub fn is_method(method: &String, name: &str) -> (same: bool)
    ensures
        same == (method@ == name@),
{
    let wanted = name.to_owned();
    *method == wanted
}

/// Classifies a notification by its method name and, where the name is
/// known, by its payload.
pub fn classify_notification(notification: &Notification) -> (class: NotificationClass)
    ensures
        class@ == notification_kind(*notification),
{
    if !is_method(&notification.method, "textDocument/didChange") {
        return NotificationClass::Unknown(notification.method.clone());
    }
    match decode_change(&notification.params) {
        Some(change) => {
            let entries = change.texts.len();
            if entries > 0 {
                let text = change.texts[0].clone();
                NotificationClass::SyncEvent { uri: change.uri, text, entries }
            } else {
                NotificationClass::Rejected
            }
        },
        None => NotificationClass::Rejected,
    }
}

/// Classifies a request by its method name and, where the name is known, by
/// its payload.
pub fn classify_request(request: Request) -> (class: RequestClass)
    ensures
        class@ == request_kind(request),
{
    if !is_method(&request.method, "textDocument/completion") {
        return RequestClass::Unknown(request);
    }
    let Request { id, method: _, params } = request;
    match decode_completion(params) {
        Some(query) => RequestClass::CompletionRequest { query, id },
        None => RequestClass::Rejected,
    }
}

} // verus!
