//! What holds of the dispatcher across calls, proved from the contracts of
//! its entry points.

use crate::classify::{
    completion_method, did_change_method, notification_kind, request_kind, NotificationKind,
    RequestKind,
};
use crate::completion::{completion_params, CompletionTrigger};
use crate::dispatch::{completion_sought, notification_signals, request_signals, store_after};
use crate::json::{member_of, text_member_of};
use crate::message::{Notification, Request, SignalView};
use crate::store::lookup;
use crate::sync::document_change;
use vstd::prelude::*;

verus! {

/// The store's contents once the notifications `notes` have been handled one
/// after the other, starting from `texts`.
pub open spec fn replay(texts: Map<Seq<char>, Seq<char>>, notes: Seq<Notification>) -> Map<
    Seq<char>,
    Seq<char>,
>
    decreases notes.len(),
{
    if notes.len() == 0 {
        texts
    } else {
        store_after(replay(texts, notes.drop_last()), notification_kind(notes.last()))
    }
}

/// The text that the last document change for `uri` among `notes` carries in
/// its first content change, if any of `notes` is a document change for `uri`.
pub open spec fn last_change(notes: Seq<Notification>, uri: Seq<char>) -> Option<Seq<char>>
    decreases notes.len(),
{
    if notes.len() == 0 {
        None
    } else {
        match notification_kind(notes.last()) {
            NotificationKind::SyncEvent { uri: changed, text, entries } => if changed == uri {
                Some(text)
            } else {
                last_change(notes.drop_last(), uri)
            },
            _ => last_change(notes.drop_last(), uri),
        }
    }
}

/// After any sequence of notifications, the store holds for each document the
/// text of the first content change of the last document change for it; a
/// document that none of them changed is as it was before.
pub proof fn lemma_last_change_wins(
    texts: Map<Seq<char>, Seq<char>>,
    notes: Seq<Notification>,
    uri: Seq<char>,
)
    ensures
        lookup(replay(texts, notes), uri) == match last_change(notes, uri) {
            Some(text) => Some(text),
            None => lookup(texts, uri),
        },
    decreases notes.len(),
{
    if notes.len() > 0 {
        lemma_last_change_wins(texts, notes.drop_last(), uri);
    }
}

/// A document change that carries no content change is rejected: the store
/// stays as it was and no signal is raised.
pub proof fn lemma_change_without_entries_is_rejected(
    texts: Map<Seq<char>, Seq<char>>,
    noti: Notification,
)
    requires
        noti.method@ == did_change_method(),
        document_change(noti.params) matches Some(change) && change.texts.len() == 0,
    ensures
        notification_kind(noti) == NotificationKind::Rejected,
        store_after(texts, notification_kind(noti)) == texts,
        notification_signals(notification_kind(noti)) == Seq::<SignalView>::empty(),
{
}

/// A document change whose payload names no document (it has no member
/// `textDocument`, or that member has no string member `uri`) is rejected: the
/// store stays as it was and no signal is raised.
pub proof fn lemma_change_without_uri_is_rejected(
    texts: Map<Seq<char>, Seq<char>>,
    noti: Notification,
)
    requires
        noti.method@ == did_change_method(),
        match member_of(noti.params, "textDocument"@) {
            Some(document) => text_member_of(document, "uri"@) is None,
            None => true,
        },
    ensures
        notification_kind(noti) == NotificationKind::Rejected,
        store_after(texts, notification_kind(noti)) == texts,
        notification_signals(notification_kind(noti)) == Seq::<SignalView>::empty(),
{
}

/// Two document changes for different documents can be handled in either
/// order: the store ends up the same, and holds the text of each.
pub proof fn lemma_changes_to_different_documents_commute(
    texts: Map<Seq<char>, Seq<char>>,
    first: Notification,
    second: Notification,
)
    requires
        notification_kind(first) is SyncEvent,
        notification_kind(second) is SyncEvent,
        notification_kind(first)->uri != notification_kind(second)->uri,
    ensures
        store_after(store_after(texts, notification_kind(first)), notification_kind(second))
            == store_after(
            store_after(texts, notification_kind(second)),
            notification_kind(first),
        ),
        lookup(
            store_after(store_after(texts, notification_kind(first)), notification_kind(second)),
            notification_kind(first)->uri,
        ) == Some(notification_kind(first)->text),
        lookup(
            store_after(store_after(texts, notification_kind(first)), notification_kind(second)),
            notification_kind(second)->uri,
        ) == Some(notification_kind(second)->text),
{
    let one = notification_kind(first);
    let other = notification_kind(second);
    assert(store_after(store_after(texts, one), other) =~= store_after(
        store_after(texts, other),
        one,
    ));
}

/// A completion request that says it re-filters an incomplete list has no
/// completion attempted, whatever the documents hold.
pub proof fn lemma_incomplete_trigger_is_suppressed(req: Request)
    requires
        req.method@ == completion_method(),
        completion_params(req.params) matches Some(query) && query.trigger == Some(
            CompletionTrigger::TriggerForIncompleteCompletions,
        ),
    ensures
        !completion_sought(request_kind(req)),
        request_signals(request_kind(req)) == Seq::<SignalView>::empty(),
{
}

/// A completion request without a trigger context has no completion
/// attempted.
pub proof fn lemma_missing_context_is_suppressed(req: Request)
    requires
        req.method@ == completion_method(),
        completion_params(req.params) matches Some(query) && query.trigger is None,
    ensures
        !completion_sought(request_kind(req)),
        request_signals(request_kind(req)) == Seq::<SignalView>::empty(),
{
}

/// A request with any method but the completion method has no completion
/// attempted, and raises exactly one signal, which holds the request.
pub proof fn lemma_unknown_request_is_signalled(req: Request)
    requires
        req.method@ != completion_method(),
    ensures
        !completion_sought(request_kind(req)),
        request_signals(request_kind(req)) == seq![SignalView::UnhandledRequest(req)],
{
}

/// A notification with an unknown method is signalled more quietly than a
/// request with an unknown method.
pub proof fn lemma_unknown_notification_is_quieter(method: Seq<char>, req: Request)
    ensures
        SignalView::UnhandledNotification(method).severity().rank() < SignalView::UnhandledRequest(
            req,
        ).severity().rank(),
{
}

} // verus!
