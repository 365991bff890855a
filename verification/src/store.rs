//! The document store: the latest full text of every open document, by URI.

use vstd::hash_map::StringHashMap;
use vstd::prelude::*;

verus! {

/// The text held for `uri` in `texts`, if any.
pub open spec fn lookup(texts: Map<Seq<char>, Seq<char>>, uri: Seq<char>) -> Option<Seq<char>> {
    if texts.contains_key(uri) {
        Some(texts[uri])
    } else {
        None
    }
}

/// Maps a document URI to the document's current text. URIs are compared
/// character by character; nothing is normalised.
pub struct DocumentStore {
    texts: StringHashMap<String>,
}

impl View for DocumentStore {
    type V = Map<Seq<char>, Seq<char>>;

    closed spec fn view(&self) -> Map<Seq<char>, Seq<char>> {
        self.texts@.map_values(|text: String| text@)
    }
}

impl DocumentStore {
    /// A store that holds no document.
    pub fn new() -> (store: Self)
        ensures
            store@ == Map::<Seq<char>, Seq<char>>::empty(),
    {
        let store = DocumentStore { texts: StringHashMap::new() };
        assert(store@ =~= Map::<Seq<char>, Seq<char>>::empty());
        store
    }

    /// Replaces the text held for `uri` by `text`, whole; every other
    /// document is left as it was.
    pub fn upsert(&mut self, uri: String, text: String)
        ensures
            final(self)@ == old(self)@.insert(uri@, text@),
    {
        self.texts.insert(uri, text);
        assert(self@ =~= old(self)@.insert(uri@, text@));
    }

    /// The text currently held for `uri`, or `None` for a URI that was never
    /// stored.
    pub fn get(&self, uri: &str) -> (text: Option<&str>)
        ensures
            match text {
                Some(chars) => lookup(self@, uri@) == Some(chars@),
                None => lookup(self@, uri@) is None,
            },
    {
        match self.texts.get(uri) {
            Some(held) => Some(held.as_str()),
            None => None,
        }
    }
}

} // verus!
