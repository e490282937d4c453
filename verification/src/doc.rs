//! A typed key-value document model for the project's declared metadata.
//!
//! The resolver reads a parsed manifest through this model: a tree of
//! tables, lists, text, booleans and integers.  The caller parses the
//! manifest text with whatever parser it likes and hands the tree over as
//! plain values; resolution itself then never touches a parser.

use vstd::prelude::*;
use crate::strutil::str_eq;

verus! {

/// One value of the document tree.
#[derive(Debug, PartialEq, Eq)]
pub enum Doc {
    /// A table of key-value pairs, in document order; the first binding of a
    /// key wins on lookup.
    Table(Vec<(String, Doc)>),
    /// An ordered list of values.
    List(Vec<Doc>),
    /// A text value.
    Text(String),
    /// A boolean value.
    Boolean(bool),
    /// An integer value.
    Integer(i64),
}

/// The first value bound to a key among a table's entries.
pub open spec fn lookup(entries: Seq<(String, Doc)>, key: Seq<char>) -> Option<Doc>
    decreases entries.len(),
{
    if entries.len() == 0 {
        None
    } else if entries[0].0@ == key {
        Some(entries[0].1)
    } else {
        lookup(entries.drop_first(), key)
    }
}

impl Doc {
    /// The value bound to a key, when this document is a table that binds it.
    pub open spec fn get_spec(self, key: Seq<char>) -> Option<Doc> {
        match self {
            Doc::Table(entries) => lookup(entries@, key),
            _ => None,
        }
    }

    /// The text this document holds, when it is text.
    pub open spec fn as_text_spec(self) -> Option<String> {
        match self {
            Doc::Text(s) => Some(s),
            _ => None,
        }
    }

    /// The boolean this document holds, when it is a boolean.
    pub open spec fn as_bool_spec(self) -> Option<bool> {
        match self {
            Doc::Boolean(b) => Some(b),
            _ => None,
        }
    }

    /// Looks a key up in this document, when it is a table.
    pub fn get<'a>(&'a self, key: &str) -> (r: Option<&'a Doc>)
        ensures
            match r {
                Some(d) => self.get_spec(key@) == Some(*d),
                None => self.get_spec(key@) is None,
            },
    {
        match self {
            Doc::Table(entries) => {
                let n = entries.len();
                let mut i: usize = 0;
                proof {
                    assert(entries@.skip(0) =~= entries@);
                }
                while i < n
                    invariant
                        i <= n,
                        n == entries@.len(),
                        self.get_spec(key@) == lookup(entries@, key@),
                        lookup(entries@, key@) == lookup(entries@.skip(i as int), key@),
                    decreases n - i,
                {
                    let pair = &entries[i];
                    if str_eq(pair.0.as_str(), key) {
                        proof {
                            let es = entries@.skip(i as int);
                            assert(es[0] == entries@[i as int]);
                            assert(es[0].0@ == key@);
                            assert(lookup(es, key@) == Some(es[0].1));
                        }
                        return Some(&entries[i].1);
                    }
                    proof {
                        assert(entries@.skip(i as int).drop_first() =~= entries@.skip(i + 1));
                    }
                    i += 1;
                }
                proof {
                    assert(entries@.skip(i as int).len() == 0);
                }
                None
            },
            _ => None,
        }
    }

    /// The text this document holds, when it is text.
    pub fn as_text<'a>(&'a self) -> (r: Option<&'a String>)
        ensures
            match r {
                Some(s) => self.as_text_spec() == Some(*s),
                None => self.as_text_spec() is None,
            },
    {
        match self {
            Doc::Text(s) => Some(s),
            _ => None,
        }
    }

    /// The boolean this document holds, when it is a boolean.
    pub fn as_bool(&self) -> (r: Option<bool>)
        ensures
            r == self.as_bool_spec(),
    {
        match self {
            Doc::Boolean(b) => Some(*b),
            _ => None,
        }
    }
}

/// The text a document holds, empty when it is not text.
pub open spec fn text_of(d: Doc) -> Seq<char> {
    match d {
        Doc::Text(s) => s@,
        _ => Seq::empty(),
    }
}

/// Whether every item of a sequence of documents is text.
pub open spec fn all_text(items: Seq<Doc>) -> bool {
    forall|i: int| 0 <= i < items.len() ==> items[i] is Text
}

/// The texts of a list document; a document that is not a list, or a list
/// with an item that is not text, has none.
pub open spec fn text_items(d: Doc) -> Option<Seq<Seq<char>>> {
    match d {
        Doc::List(items) => if all_text(items@) {
            Some(items@.map_values(|x: Doc| text_of(x)))
        } else {
            None
        },
        _ => None,
    }
}

/// The texts of a list document, as owned strings.
pub fn text_items_of(d: &Doc) -> (r: Option<Vec<String>>)
    ensures
        match r {
            Some(v) => text_items(*d) == Some(v.deep_view()),
            None => text_items(*d) is None,
        },
{
    match d {
        Doc::List(items) => {
            let n = items.len();
            let mut out: Vec<String> = Vec::new();
            let mut i: usize = 0;
            while i < n
                invariant
                    i <= n,
                    n == items@.len(),
                    text_items(*d) == (if all_text(items@) {
                        Some(items@.map_values(|x: Doc| text_of(x)))
                    } else {
                        None::<Seq<Seq<char>>>
                    }),
                    forall|j: int| 0 <= j < i ==> items@[j] is Text,
                    out.deep_view() =~= items@.take(i as int).map_values(|x: Doc| text_of(x)),
                decreases n - i,
            {
                match &items[i] {
                    Doc::Text(s) => {
                        let ghost pre = out.deep_view();
                        out.push(s.clone());
                        proof {
                            assert(out.deep_view() =~= pre.push(s@));
                            assert(items@.take(i + 1).map_values(|x: Doc| text_of(x)) =~= items@.take(
                                i as int,
                            ).map_values(|x: Doc| text_of(x)).push(text_of(items@[i as int])));
                        }
                    },
                    _ => {
                        proof {
                            assert(!(items@[i as int] is Text));
                        }
                        return None;
                    },
                }
                i += 1;
            }
            proof {
                assert(items@.take(n as int) =~= items@);
            }
            Some(out)
        },
        _ => None,
    }
}

/// The value bound to a key of the top-level `package` table.
pub open spec fn package_get(m: Doc, key: Seq<char>) -> Option<Doc> {
    match m.get_spec("package"@) {
        Some(p) => p.get_spec(key),
        None => None,
    }
}

/// The value bound to a key of the nested packaging-metadata table
/// (`package.metadata.wix`).
pub open spec fn wix_meta(m: Doc, key: Seq<char>) -> Option<Doc> {
    match m.get_spec("package"@) {
        Some(p) => match p.get_spec("metadata"@) {
            Some(t) => match t.get_spec("wix"@) {
                Some(w) => w.get_spec(key),
                None => None,
            },
            None => None,
        },
        None => None,
    }
}

/// The text bound to a key of the packaging-metadata table.
pub open spec fn wix_meta_text(m: Doc, key: Seq<char>) -> Option<String> {
    match wix_meta(m, key) {
        Some(d) => d.as_text_spec(),
        None => None,
    }
}

/// The boolean bound to a key of the packaging-metadata table.
pub open spec fn wix_meta_flag(m: Doc, key: Seq<char>) -> Option<bool> {
    match wix_meta(m, key) {
        Some(d) => d.as_bool_spec(),
        None => None,
    }
}

/// The text bound to a key of the top-level `package` table.
pub open spec fn package_text(m: Doc, key: Seq<char>) -> Option<String> {
    match package_get(m, key) {
        Some(d) => d.as_text_spec(),
        None => None,
    }
}

/// Looks a key up in the nested packaging-metadata table.
pub fn wix_meta_get<'a>(m: &'a Doc, key: &str) -> (r: Option<&'a Doc>)
    ensures
        match r {
            Some(d) => wix_meta(*m, key@) == Some(*d),
            None => wix_meta(*m, key@) is None,
        },
{
    match m.get("package") {
        Some(p) => match p.get("metadata") {
            Some(t) => match t.get("wix") {
                Some(w) => w.get(key),
                None => None,
            },
            None => None,
        },
        None => None,
    }
}

/// The text bound to a key of the packaging-metadata table, as an owned
/// string.
pub fn wix_meta_string(m: &Doc, key: &str) -> (r: Option<String>)
    ensures
        r == wix_meta_text(*m, key@),
{
    match wix_meta_get(m, key) {
        Some(d) => match d.as_text() {
            Some(s) => Some(s.clone()),
            None => None,
        },
        None => None,
    }
}

/// The boolean bound to a key of the packaging-metadata table.
pub fn wix_meta_bool(m: &Doc, key: &str) -> (r: Option<bool>)
    ensures
        r == wix_meta_flag(*m, key@),
{
    match wix_meta_get(m, key) {
        Some(d) => d.as_bool(),
        None => None,
    }
}

/// Looks a key up in the top-level `package` table.
pub fn package_get_doc<'a>(m: &'a Doc, key: &str) -> (r: Option<&'a Doc>)
    ensures
        match r {
            Some(d) => package_get(*m, key@) == Some(*d),
            None => package_get(*m, key@) is None,
        },
{
    match m.get("package") {
        Some(p) => p.get(key),
        None => None,
    }
}

/// The text bound to a key of the top-level `package` table, as an owned
/// string.
pub fn package_string(m: &Doc, key: &str) -> (r: Option<String>)
    ensures
        r == package_text(*m, key@),
{
    match package_get_doc(m, key) {
        Some(d) => match d.as_text() {
            Some(s) => Some(s.clone()),
            None => None,
        },
        None => None,
    }
}

} // verus!
