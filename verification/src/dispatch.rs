//! The dispatcher: one entry point for each kind of inbound message. Each
//! returns the outcome to send back, if any, and appends to `signals` what an
//! operator should see. Nothing here fails: a message that cannot be handled
//! gives no outcome.

use crate::classify::{
    classify_notification, classify_request, notification_kind, request_kind, NotificationClass,
    NotificationKind, RequestClass, RequestKind,
};
use crate::completion::{
    completion_outcome, items_of, policy, trigger_policy, TextDocumentPosition, TriggerDecision,
};
use crate::message::{
    raised, HtmxResult, HtmxResultView, HxAttribute, Notification, Request, Signal, SignalView,
};
use crate::store::DocumentStore;
use lsp_server::Message;
use vstd::prelude::*;

verus! {

/// The store's contents once a notification of class `kind` has been
/// handled: a document change replaces the text of its document, every other
/// notification leaves the store as it was.
pub open spec fn store_after(
    texts: Map<Seq<char>, Seq<char>>,
    kind: NotificationKind,
) -> Map<Seq<char>, Seq<char>> {
    match kind {
        NotificationKind::SyncEvent { uri, text, entries } => texts.insert(uri, text),
        _ => texts,
    }
}

/// The signals that a notification of class `kind` raises: a warning for a
/// document change that carried more than the one entry applied, a note for
/// a method without a handler.
pub open spec fn notification_signals(kind: NotificationKind) -> Seq<SignalView> {
    match kind {
        NotificationKind::SyncEvent { uri, text, entries } => if entries > 1 {
            seq![SignalView::ExcessContentChanges { uri, count: entries }]
        } else {
            Seq::empty()
        },
        NotificationKind::Rejected => Seq::empty(),
        NotificationKind::Unknown(method) => seq![SignalView::UnhandledNotification(method)],
    }
}

/// The signals that a request of class `kind` raises: a warning for a method
/// without a handler.
pub open spec fn request_signals(kind: RequestKind) -> Seq<SignalView> {
    match kind {
        RequestKind::Unknown(request) => seq![SignalView::UnhandledRequest(request)],
        _ => Seq::empty(),
    }
}

/// Whether the completion engine is asked for a request of class `kind`: the
/// request is a completion request and its trigger lets completion proceed.
pub open spec fn completion_sought(kind: RequestKind) -> bool {
    kind matches RequestKind::CompletionRequest { query, id } && policy(query.trigger)
        == TriggerDecision::Proceed
}

/// Handles a request. For a completion request whose trigger lets completion
/// proceed, `engine` is asked once, for the position of the request and with
/// the store to read from, and what it finds is the outcome, under the id of
/// the request. Every other request gives no outcome; one with an unknown
/// method raises a signal.
///
/// The engine has to accept every position with this store; nothing else is
/// asked of it, and nothing is assumed of what it answers.
pub fn handle_request<F>(
    req: Request,
    store: &DocumentStore,
    engine: F,
    signals: &mut Vec<Signal>,
) -> (outcome: Option<HtmxResult>) where
    F: Fn(&TextDocumentPosition, &DocumentStore) -> Option<Vec<HxAttribute>>,

    requires
        forall|place: TextDocumentPosition| call_requires(engine, (&place, store)),
    ensures
        outcome is Some <==> completion_sought(request_kind(req)),
        completion_sought(request_kind(req)) ==> exists|
            place: TextDocumentPosition,
            found: Option<Vec<HxAttribute>>,
        |
            {
                &&& place@ == request_kind(req)->CompletionRequest_query.position
                &&& call_ensures(engine, (&place, store), found)
                &&& outcome matches Some(result)
                &&& result@ == (HtmxResultView::AttributeCompletion {
                    items: items_of(found),
                    id: req.id,
                })
            },
        raised(final(signals)@) == raised(old(signals)@) + request_signals(request_kind(req)),
{
    match classify_request(req) {
        RequestClass::CompletionRequest { query, id } => {
            assert(raised(signals@) + Seq::<SignalView>::empty() =~= raised(signals@));
            match trigger_policy(query.trigger) {
                TriggerDecision::Proceed => {
                    let found = engine(&query.position, store);
                    let ghost answer = found;
                    let result = completion_outcome(id, found);
                    assert(call_ensures(engine, (&query.position, store), answer));
                    Some(result)
                },
                TriggerDecision::Suppress => None,
            }
        },
        RequestClass::Rejected => {
            assert(raised(signals@) + Seq::<SignalView>::empty() =~= raised(signals@));
            None
        },
        RequestClass::Unknown(request) => {
            let signal = Signal::UnhandledRequest(request);
            signals.push(signal);
            assert(raised(signals@) =~= raised(old(signals)@) + seq![signal@]);
            None
        },
    }
}

/// Handles a notification. A document change replaces the text of its
/// document by the text of its first content change, and raises a warning if
/// it carried more than one; a notification with an unknown method raises a
/// note. No notification ever gives an outcome.
pub fn handle_notification(
    noti: Notification,
    store: &mut DocumentStore,
    signals: &mut Vec<Signal>,
) -> (outcome: Option<HtmxResult>)
    ensures
        outcome is None,
        final(store)@ == store_after(old(store)@, notification_kind(noti)),
        raised(final(signals)@) == raised(old(signals)@) + notification_signals(
            notification_kind(noti),
        ),
{
    match classify_notification(&noti) {
        NotificationClass::SyncEvent { uri, text, entries } => {
            if entries > 1 {
                let signal = Signal::ExcessContentChanges { uri: uri.clone(), count: entries };
                signals.push(signal);
                assert(raised(signals@) =~= raised(old(signals)@) + seq![signal@]);
            } else {
                assert(raised(signals@) + Seq::<SignalView>::empty() =~= raised(signals@));
            }
            store.upsert(uri, text);
        },
        NotificationClass::Rejected => {
            assert(raised(signals@) + Seq::<SignalView>::empty() =~= raised(signals@));
        },
        NotificationClass::Unknown(method) => {
            let signal = Signal::UnhandledNotification(method);
            signals.push(signal);
            assert(raised(signals@) =~= raised(old(signals)@) + seq![signal@]);
        },
    }
    None
}

/// Handles a message that is neither a request nor a notification to act on:
/// it raises a signal that holds the message, and gives no outcome.
pub fn handle_other(msg: Message, signals: &mut Vec<Signal>) -> (outcome: Option<HtmxResult>)
    ensures
        outcome is None,
        raised(final(signals)@) == raised(old(signals)@).push(SignalView::UnhandledMessage(msg)),
{
    let signal = Signal::UnhandledMessage(msg);
    signals.push(signal);
    assert(raised(signals@) =~= raised(old(signals)@).push(signal@));
    None
}

} // verus!
