//! Loading the page list from the configuration text: a JSON object with one
//! key `pages`, an array of objects each holding string `name` and `url`
//! fields. A text of any other shape is malformed, and a well-formed text
//! with no pages at all is rejected too, since the selection assumes a
//! non-empty list.
//!
//! The parsed document is opaque, so what the text describes is captured by
//! names: `config_pages_of` gives the (name, url) pairs a text describes, or
//! `None` where it parses to no such shape, and the trusted accessors relate
//! the document's parts to those names. `parse_entries` is then exact: the
//! described pairs come back as pages when there is at least one, an empty
//! list is `Empty`, and everything else is `Malformed`.

use vstd::prelude::*;
use crate::app::Page;

verus! {

/// Why the page list could not be loaded.
#[derive(Debug, Clone, Copy, PartialEq, Eq, Structural)]
pub enum ConfigError {
    /// The configuration source could not be read at all.
    Unreadable,
    /// The text is not a JSON object of the expected shape.
    Malformed,
    /// The text is well-formed but lists no pages.
    Empty,
}

impl ConfigError {
    /// A short description of the failure, for the caller to report.
    pub fn message(&self) -> (r: &'static str)
        ensures
            *self == ConfigError::Unreadable ==> r@ == "Failed to read configuration content"@,
            *self == ConfigError::Malformed ==> r@ == "Failed to parse configuration content"@,
            *self == ConfigError::Empty ==> r@ == "Configuration lists no pages"@,
    {
        match self {
            ConfigError::Unreadable => "Failed to read configuration content",
            ConfigError::Malformed => "Failed to parse configuration content",
            ConfigError::Empty => "Configuration lists no pages",
        }
    }
}

#[verifier::external_type_specification]
#[verifier::external_body]
pub struct ExJsonValue(serde_json::Value);

#[verifier::external_type_specification]
#[verifier::external_body]
pub struct ExJsonError(serde_json::Error);

/// The text a JSON value holds when it is a JSON string, `None` otherwise:
/// the result of `serde_json::Value::as_str`, a function of the value alone.
pub uninterp spec fn string_of(v: serde_json::Value) -> Option<Seq<char>>;

/// The text under a value's `name` key when the value is an object whose
/// `name` entry is a string, `None` otherwise.
pub uninterp spec fn name_string_of(v: serde_json::Value) -> Option<Seq<char>>;

/// The text under a value's `url` key when the value is an object whose
/// `url` entry is a string, `None` otherwise.
pub uninterp spec fn url_string_of(v: serde_json::Value) -> Option<Seq<char>>;

/// The (name, url) pairs a JSON value describes when it is an array whose
/// every element yields both strings, `None` otherwise.
pub uninterp spec fn pages_list_of(v: serde_json::Value) -> Option<Seq<(Seq<char>, Seq<char>)>>;

/// The (name, url) pairs a whole document describes under its `pages` key,
/// `None` where the key is missing or its value is not such an array.
pub uninterp spec fn doc_pages_of(v: serde_json::Value) -> Option<Seq<(Seq<char>, Seq<char>)>>;

/// The (name, url) pairs a configuration text describes: those of its parsed
/// document, or `None` where the text does not parse as JSON at all.
/// `serde_json::from_str` yields the same document for the same text, so this
/// is a function of the text alone.
pub uninterp spec fn config_pages_of(s: Seq<char>) -> Option<Seq<(Seq<char>, Seq<char>)>>;

/// The pairs of a sequence of array elements, element by element: `Some` of
/// all the pairs when every element yields both strings, `None` otherwise.
pub open spec fn pairs_of_items(items: Seq<serde_json::Value>) -> Option<
    Seq<(Seq<char>, Seq<char>)>,
>
    decreases items.len(),
{
    if items.len() == 0 {
        Some(Seq::empty())
    } else if name_string_of(items[0]) is Some && url_string_of(items[0]) is Some {
        match pairs_of_items(items.drop_first()) {
            Some(rest) => Some(
                seq![(name_string_of(items[0])->Some_0, url_string_of(items[0])->Some_0)] + rest,
            ),
            None => None,
        }
    } else {
        None
    }
}

/// Relies on `serde_json::from_str`: parses the text as one JSON document,
/// deterministically. A parsed document's pages are the text's pages; a text
/// that does not parse describes none.
#[verifier::external_body]
fn parse_json(text: &str) -> (r: Result<serde_json::Value, serde_json::Error>)
    ensures
        r matches Ok(v) ==> config_pages_of(text@) == doc_pages_of(v),
        r is Err ==> config_pages_of(text@) is None,
{
    serde_json::from_str(text)
}

/// Relies on `serde_json::Value::get`: the value under the key when this
/// value is an object that holds it, `None` otherwise. Stated for the three
/// keys the configuration shape uses, over the names for their contents.
#[verifier::external_body]
fn value_get<'a>(v: &'a serde_json::Value, key: &str) -> (r: Option<&'a serde_json::Value>)
    ensures
        key@ == "pages"@ ==> (match r {
            Some(p) => doc_pages_of(*v) == pages_list_of(*p),
            None => doc_pages_of(*v) is None,
        }),
        key@ == "name"@ ==> (match r {
            Some(p) => name_string_of(*v) == string_of(*p),
            None => name_string_of(*v) is None,
        }),
        key@ == "url"@ ==> (match r {
            Some(p) => url_string_of(*v) == string_of(*p),
            None => url_string_of(*v) is None,
        }),
{
    v.get(key)
}

/// Relies on `serde_json::Value::as_array`: the elements when this value is
/// an array, `None` otherwise; an array's pairs are its elements' pairs.
#[verifier::external_body]
fn value_as_array(v: &serde_json::Value) -> (r: Option<&Vec<serde_json::Value>>)
    ensures
        match r {
            Some(items) => pages_list_of(*v) == pairs_of_items(items@),
            None => pages_list_of(*v) is None,
        },
{
    v.as_array()
}

/// Relies on `serde_json::Value::as_str`: the text when this value is a JSON
/// string, `None` otherwise.
#[verifier::external_body]
fn value_as_str(v: &serde_json::Value) -> (r: Option<&str>)
    ensures
        match r {
            Some(s) => string_of(*v) == Some(s@),
            None => string_of(*v) is None,
        },
{
    v.as_str()
}

/// One page from one element of the `pages` array: its `name` and `url`
/// string fields, or `None` where either is missing or not a string.
fn page_from_value(v: &serde_json::Value) -> (r: Option<Page>)
    ensures
        match r {
            Some(p) => name_string_of(*v) == Some(p.name@) && url_string_of(*v) == Some(p.url@),
            None => name_string_of(*v) is None || url_string_of(*v) is None,
        },
{
    let name = match value_get(v, "name") {
        Some(inner) => match value_as_str(inner) {
            Some(s) => s,
            None => {
                return None;
            },
        },
        None => {
            return None;
        },
    };
    let url = match value_get(v, "url") {
        Some(inner) => match value_as_str(inner) {
            Some(s) => s,
            None => {
                return None;
            },
        },
        None => {
            return None;
        },
    };
    Some(Page { name: name.to_owned(), url: url.to_owned() })
}

proof fn lemma_pairs_of_items_some(items: Seq<serde_json::Value>)
    requires
        pairs_of_items(items) is Some,
    ensures
        pairs_of_items(items)->Some_0.len() == items.len(),
        forall|j: int|
            0 <= j < items.len() ==> name_string_of(#[trigger] items[j]) is Some && url_string_of(
                items[j],
            ) is Some && pairs_of_items(items)->Some_0[j] == (
                name_string_of(items[j])->Some_0,
                url_string_of(items[j])->Some_0,
            ),
    decreases items.len(),
{
    if items.len() > 0 {
        let rest = items.drop_first();
        lemma_pairs_of_items_some(rest);
        let ps = pairs_of_items(items)->Some_0;
        let qs = pairs_of_items(rest)->Some_0;
        assert forall|j: int|
            0 <= j < items.len() implies name_string_of(#[trigger] items[j]) is Some
            && url_string_of(items[j]) is Some && ps[j] == (
            name_string_of(items[j])->Some_0,
            url_string_of(items[j])->Some_0,
        ) by {
            if j > 0 {
                assert(items[j] == rest[j - 1]);
                assert(ps[j] == qs[j - 1]);
            }
        }
    }
}

proof fn lemma_pairs_of_items_all_some(items: Seq<serde_json::Value>)
    requires
        forall|j: int|
            0 <= j < items.len() ==> name_string_of(#[trigger] items[j]) is Some && url_string_of(
                items[j],
            ) is Some,
    ensures
        pairs_of_items(items) is Some,
    decreases items.len(),
{
    if items.len() > 0 {
        let rest = items.drop_first();
        assert forall|j: int|
            0 <= j < rest.len() implies name_string_of(#[trigger] rest[j]) is Some && url_string_of(
            rest[j],
        ) is Some by {
            assert(rest[j] == items[j + 1]);
        }
        lemma_pairs_of_items_all_some(rest);
    }
}

/// The page list of a parsed document: exactly the pairs the document
/// describes, in order; `Malformed` where it describes none.
fn pages_from_document(doc: &serde_json::Value) -> (r: Result<Vec<Page>, ConfigError>)
    ensures
        doc_pages_of(*doc) matches Some(ps) ==> (r matches Ok(pages) && pages@.len() == ps.len()
            && forall|i: int|
            0 <= i < ps.len() ==> (#[trigger] pages@[i]).name@ == ps[i].0 && pages@[i].url@
                == ps[i].1),
        doc_pages_of(*doc) is None ==> r == Err::<Vec<Page>, ConfigError>(ConfigError::Malformed),
{
    let list = match value_get(doc, "pages") {
        Some(v) => v,
        None => {
            return Err(ConfigError::Malformed);
        },
    };
    let items = match value_as_array(list) {
        Some(a) => a,
        None => {
            return Err(ConfigError::Malformed);
        },
    };
    let mut pages: Vec<Page> = Vec::new();
    let mut i: usize = 0;
    while i < items.len()
        invariant
            i <= items@.len(),
            pages@.len() == i,
            doc_pages_of(*doc) == pairs_of_items(items@),
            forall|j: int|
                0 <= j < i ==> name_string_of(#[trigger] items@[j]) is Some && url_string_of(
                    items@[j],
                ) is Some && pages@[j].name@ == name_string_of(items@[j])->Some_0 && pages@[j].url@
                    == url_string_of(items@[j])->Some_0,
        decreases items@.len() - i,
    {
        match page_from_value(&items[i]) {
            Some(p) => pages.push(p),
            None => {
                proof {
                    if pairs_of_items(items@) is Some {
                        lemma_pairs_of_items_some(items@);
                    }
                }
                return Err(ConfigError::Malformed);
            },
        }
        i = i + 1;
    }
    proof {
        lemma_pairs_of_items_all_some(items@);
        lemma_pairs_of_items_some(items@);
        let ps = pairs_of_items(items@)->Some_0;
        assert forall|j: int|
            0 <= j < ps.len() implies (#[trigger] pages@[j]).name@ == ps[j].0 && pages@[j].url@
            == ps[j].1 by {
            assert(name_string_of(items@[j]) is Some);
        }
    }
    Ok(pages)
}

/// Accept a page list only when it is non-empty: the selection invariant
/// needs at least one page. The list itself is handed back unchanged.
pub fn validate_entries(pages: Vec<Page>) -> (r: Result<Vec<Page>, ConfigError>)
    ensures
        pages@.len() > 0 ==> (r matches Ok(p) && p == pages),
        pages@.len() == 0 ==> (r matches Err(e) && e == ConfigError::Empty),
{
    if pages.len() == 0 {
        Err(ConfigError::Empty)
    } else {
        Ok(pages)
    }
}

/// Load the page list from the configuration text. The text's described
/// pairs come back as pages, in order, when there is at least one; a text
/// that describes an empty list is `Empty`; a text that parses to no list of
/// pages at all — broken JSON, a missing or non-array `pages` key, an
/// element without string `name` and `url` fields — is `Malformed`.
pub fn parse_entries(text: &str) -> (r: Result<Vec<Page>, ConfigError>)
    ensures
        config_pages_of(text@) matches Some(ps) ==> ((ps.len() > 0 ==> (r matches Ok(pages)
            && pages@.len() == ps.len() && forall|i: int|
            0 <= i < ps.len() ==> (#[trigger] pages@[i]).name@ == ps[i].0 && pages@[i].url@
                == ps[i].1)) && (ps.len() == 0 ==> r == Err::<Vec<Page>, ConfigError>(
            ConfigError::Empty,
        ))),
        config_pages_of(text@) is None ==> r == Err::<Vec<Page>, ConfigError>(
            ConfigError::Malformed,
        ),
        r matches Ok(pages) ==> pages@.len() > 0,
{
    let doc = match parse_json(text) {
        Ok(v) => v,
        Err(_) => {
            return Err(ConfigError::Malformed);
        },
    };
    let pages = match pages_from_document(&doc) {
        Ok(p) => p,
        Err(e) => {
            return Err(e);
        },
    };
    validate_entries(pages)
}

} // verus!
