//! The payload of a document change: the document's URI and the new full
//! texts, one per content-change entry.
//!
//! The payload is a JSON object with a member `textDocument`, an object whose
//! member `uri` is a string, and a member `contentChanges`, an array of
//! objects whose member `text` is a string. Other members are ignored.

use crate::json::{as_items, json_array, member, member_of, text_member, text_member_of};
use serde_json::Value;
use vstd::prelude::*;

verus! {

/// A decoded document change.
#[derive(Debug, PartialEq, Eq)]
pub struct DocumentChange {
    pub uri: String,
    pub texts: Vec<String>,
}

/// A `DocumentChange` with its strings as sequences of characters.
pub struct DocumentChangeView {
    pub uri: Seq<char>,
    pub texts: Seq<Seq<char>>,
}

/// The characters of each string of `texts`, in order.
pub open spec fn texts_of(texts: Seq<String>) -> Seq<Seq<char>> {
    texts.map_values(|text: String| text@)
}

impl View for DocumentChange {
    type V = DocumentChangeView;

    open spec fn view(&self) -> DocumentChangeView {
        DocumentChangeView { uri: self.uri@, texts: texts_of(self.texts@) }
    }
}

/// The new text that one content-change entry carries, if it is well formed.
pub open spec fn entry_text(entry: Value) -> Option<Seq<char>> {
    text_member_of(entry, "text"@)
}

/// The texts of all of `entries` in order, if every entry is well formed.
pub open spec fn entry_texts(entries: Seq<Value>) -> Option<Seq<Seq<char>>> {
    if forall|i: int| 0 <= i < entries.len() ==> (#[trigger] entry_text(entries[i])) is Some {
        Some(Seq::new(entries.len(), |i: int| entry_text(entries[i]).unwrap()))
    } else {
        None
    }
}

/// The document change that `params` encodes, if it encodes one.
pub open spec fn document_change(params: Value) -> Option<DocumentChangeView> {
    match member_of(params, "textDocument"@) {
        Some(document) => match text_member_of(document, "uri"@) {
            Some(uri) => match member_of(params, "contentChanges"@) {
                Some(list) => match json_array(list) {
                    Some(entries) => match entry_texts(entries) {
                        Some(texts) => Some(DocumentChangeView { uri, texts }),
                        None => None,
                    },
                    None => None,
                },
                None => None,
            },
            None => None,
        },
        None => None,
    }
}

/// Reads the text out of every content-change entry. One entry that is not
/// well formed spoils the whole list.
pub fn decode_entries(entries: &Vec<Value>) -> (texts: Option<Vec<String>>)
    ensures
        match texts {
            Some(found) => entry_texts(entries@) == Some(texts_of(found@)),
            None => entry_texts(entries@) is None,
        },
{
    let mut found: Vec<String> = Vec::new();
    let mut at: usize = 0;
    while at < entries.len()
        invariant
            at <= entries.len(),
            found.len() == at,
            forall|i: int| 0 <= i < at ==> entry_text(entries[i]) == Some(#[trigger] found[i]@),
        decreases entries.len() - at,
    {
        match text_member(&entries[at], "text") {
            Some(text) => {
                found.push(text);
            },
            None => {
                assert(entry_text(entries@[at as int]) is None);
                return None;
            },
        }
        at += 1;
    }
    assert forall|i: int| 0 <= i < entries@.len() implies (#[trigger] entry_text(entries@[i]))
        == Some(found@[i]@) by {}
    assert(texts_of(found@) =~= Seq::new(
        entries@.len(),
        |i: int| entry_text(entries@[i]).unwrap(),
    ));
    Some(found)
}

/// Decodes the payload of a document change.
pub fn decode_change(params: &Value) -> (change: Option<DocumentChange>)
    ensures
        match change {
            Some(decoded) => document_change(*params) == Some(decoded@),
            None => document_change(*params) is None,
        },
{
    let document = match member(params, "textDocument") {
        Some(document) => document,
        None => {
            return None;
        },
    };
    let uri = match text_member(document, "uri") {
        Some(uri) => uri,
        None => {
            return None;
        },
    };
    let list = match member(params, "contentChanges") {
        Some(list) => list,
        None => {
            return None;
        },
    };
    let entries = match as_items(list) {
        Some(entries) => entries,
        None => {
            return None;
        },
    };
    match decode_entries(entries) {
        Some(texts) => Some(DocumentChange { uri, texts }),
        None => None,
    }
}

} // verus!
