//! Completion requests: their decoded payload, the policy that decides from
//! the trigger whether completion is attempted, and the outcome that wraps
//! what the completion engine found.

use crate::message::{HtmxAttributeCompletion, HtmxResult, HtmxResultView, HxAttribute};
use lsp_server::RequestId;
use lsp_types::{CompletionParams, CompletionTriggerKind};
use serde_json::Value;
use vstd::prelude::*;

verus! {

/// What caused a completion request.
#[derive(Debug, Clone, Copy, PartialEq, Eq, Structural)]
pub enum CompletionTrigger {
    /// The user asked for completion.
    Invoked,
    /// A configured trigger character was typed.
    TriggerCharacter,
    /// A list that was handed out incomplete is being filtered again.
    TriggerForIncompleteCompletions,
    /// A kind that the protocol does not define.
    Unrecognized,
}

/// Whether completion is attempted for a request.
#[derive(Debug, Clone, Copy, PartialEq, Eq, Structural)]
pub enum TriggerDecision {
    Proceed,
    Suppress,
}

/// A place in a document: the document's URI and a zero-based line and
/// character offset.
#[derive(Debug, PartialEq, Eq)]
pub struct TextDocumentPosition {
    pub uri: String,
    pub line: u32,
    pub character: u32,
}

/// A `TextDocumentPosition` with its URI as a sequence of characters.
pub struct TextDocumentPositionView {
    pub uri: Seq<char>,
    pub line: u32,
    pub character: u32,
}

impl View for TextDocumentPosition {
    type V = TextDocumentPositionView;

    open spec fn view(&self) -> TextDocumentPositionView {
        TextDocumentPositionView { uri: self.uri@, line: self.line, character: self.character }
    }
}

/// The decoded payload of a completion request: where completion is asked
/// for, and the trigger if the request carries a trigger context.
#[derive(Debug, PartialEq, Eq)]
pub struct CompletionQuery {
    pub position: TextDocumentPosition,
    pub trigger: Option<CompletionTrigger>,
}

/// A `CompletionQuery` with its position by view.
pub struct CompletionQueryView {
    pub position: TextDocumentPositionView,
    pub trigger: Option<CompletionTrigger>,
}

impl View for CompletionQuery {
    type V = CompletionQueryView;

    open spec fn view(&self) -> CompletionQueryView {
        CompletionQueryView { position: self.position@, trigger: self.trigger }
    }
}

/// What decoding `params` as completion parameters gives: the query, or
/// `None` where the payload does not have that shape.
pub uninterp spec fn completion_params(params: Value) -> Option<CompletionQueryView>;

/// Trusted: `serde_json::from_value` at `lsp_types::CompletionParams`, then the
/// fields of the result moved into a `CompletionQuery` (the URI as text, the
/// trigger kind by its named constant). The contract claims only that the
/// result is a function of the payload; a failure to decode is `None`.
#[verifier::external_body]
pub(crate) fn decode_completion(params: Value) -> (query: Option<CompletionQuery>)
    ensures
        match query {
            Some(decoded) => completion_params(params) == Some(decoded@),
            None => completion_params(params) is None,
        },
{
    let decoded = serde_json::from_value::<CompletionParams>(params).ok()?;
    let place = decoded.text_document_position;
    let trigger = match decoded.context {
        Some(context) => Some(match context.trigger_kind {
            CompletionTriggerKind::INVOKED => CompletionTrigger::Invoked,
            CompletionTriggerKind::TRIGGER_CHARACTER => CompletionTrigger::TriggerCharacter,
            CompletionTriggerKind::TRIGGER_FOR_INCOMPLETE_COMPLETIONS =>
                CompletionTrigger::TriggerForIncompleteCompletions,
            _ => CompletionTrigger::Unrecognized,
        }),
        None => None,
    };
    let uri = place.text_document.uri.to_string();
    let position = TextDocumentPosition { uri, line: place.position.line, character: place.position.character };
    Some(CompletionQuery { position, trigger })
}

/// The decision for a trigger: completion proceeds when the request says
/// that the user invoked it or typed a trigger character, and is suppressed
/// for every other kind and for a request without a trigger context.
pub open spec fn policy(trigger: Option<CompletionTrigger>) -> TriggerDecision {
    if trigger == Some(CompletionTrigger::Invoked) || trigger == Some(
        CompletionTrigger::TriggerCharacter,
    ) {
        TriggerDecision::Proceed
    } else {
        TriggerDecision::Suppress
    }
}

/// Decides from the trigger of a completion request whether completion is
/// attempted.
pub fn trigger_policy(trigger: Option<CompletionTrigger>) -> (decision: TriggerDecision)
    ensures
        decision == policy(trigger),
{
    match trigger {
        Some(CompletionTrigger::Invoked) => TriggerDecision::Proceed,
        Some(CompletionTrigger::TriggerCharacter) => TriggerDecision::Proceed,
        _ => TriggerDecision::Suppress,
    }
}

/// The items that a completion engine's answer amounts to: what it found, or
/// none where it failed.
pub open spec fn items_of(found: Option<Vec<HxAttribute>>) -> Seq<HxAttribute> {
    match found {
        Some(items) => items@,
        None => Seq::empty(),
    }
}

/// Wraps the answer of the completion engine for the request with id `id`. A
/// failed engine gives an outcome without items, never an error.
pub fn completion_outcome(id: RequestId, found: Option<Vec<HxAttribute>>) -> (outcome: HtmxResult)
    ensures
        outcome@ == (HtmxResultView::AttributeCompletion { items: items_of(found), id }),
{
    let items = match found {
        Some(items) => items,
        None => Vec::new(),
    };
    HtmxResult::AttributeCompletion(HtmxAttributeCompletion { items, id })
}

} // verus!
