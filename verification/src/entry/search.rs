//! Searching the entries: the index of their titles, user names and URLs,
//! all in lower case, and what a user asks for.

use vstd::prelude::*;
use vstd::utf8::encode_utf8;
use crate::entry::sensitive_data::text_view;
use crate::ids::insert_id;
use crate::ids::lemma_with;
use crate::ids::remove_id;
use crate::ids::with;
use crate::ids::without;
use crate::text::contains_text;
use crate::text::lowercase;
use crate::text::occurs_in;
use crate::text::to_lowercase;

verus! {

/// One line of an index: a text in lower case and the entries that carry
/// it.
pub struct IndexLine {
    key: String,
    ids: Vec<u128>,
}

/// What a line holds, as plain values.
pub struct LineView {
    pub key: Seq<char>,
    pub ids: Seq<u128>,
}

impl View for IndexLine {
    type V = LineView;

    closed spec fn view(&self) -> LineView {
        LineView { key: self.key@, ids: self.ids@ }
    }
}

/// The view of a list of lines.
pub closed spec fn lines_view(lines: Vec<IndexLine>) -> Seq<LineView> {
    Seq::new(lines@.len(), |i: int| lines@[i]@)
}

/// Whether place `at` holds the first line with the key.
pub open spec fn is_first_with_key(lines: Seq<LineView>, key: Seq<char>, at: int) -> bool {
    &&& 0 <= at < lines.len()
    &&& lines[at].key == key
    &&& forall|j: int| 0 <= j < at ==> (#[trigger] lines[j]).key != key
}

/// Whether some line has the key.
pub open spec fn has_key(lines: Seq<LineView>, key: Seq<char>) -> bool {
    exists|at: int| 0 <= at < lines.len() && (#[trigger] lines[at]).key == key
}

/// The first place with the key. Meaningful where some line has the key.
pub open spec fn place_of(lines: Seq<LineView>, key: Seq<char>) -> int {
    choose|at: int| is_first_with_key(lines, key, at)
}

/// The index after an entry is entered under a text: nothing changes for an
/// empty text; else the entry joins the line of the text in lower case, or
/// a new line at the end.
pub open spec fn entered(lines: Seq<LineView>, text: Seq<char>, id: u128) -> Seq<LineView> {
    let key = lowercase(text);
    if text.len() == 0 {
        lines
    } else if has_key(lines, key) {
        let at = place_of(lines, key);
        lines.update(at, LineView { key, ids: with(lines[at].ids, id) })
    } else {
        lines.push(LineView { key, ids: seq![id] })
    }
}

/// The index after an entry is struck from under a text: nothing changes
/// for an empty text or where the text has no line; else the entry leaves
/// the line, and a line left empty is dropped.
pub open spec fn struck(lines: Seq<LineView>, text: Seq<char>, id: u128) -> Seq<LineView> {
    let key = lowercase(text);
    if text.len() == 0 || !has_key(lines, key) {
        lines
    } else {
        let at = place_of(lines, key);
        let left = without(lines[at].ids, id);
        if left.len() == 0 {
            lines.remove(at)
        } else {
            lines.update(at, LineView { key, ids: left })
        }
    }
}

/// The same for a text that may be absent.
pub open spec fn entered_if(lines: Seq<LineView>, text: Option<Seq<char>>, id: u128) -> Seq<
    LineView,
> {
    match text {
        Some(t) => entered(lines, t, id),
        None => lines,
    }
}

/// The same for a text that may be absent.
pub open spec fn struck_if(lines: Seq<LineView>, text: Option<Seq<char>>, id: u128) -> Seq<
    LineView,
> {
    match text {
        Some(t) => struck(lines, t, id),
        None => lines,
    }
}

/// Whether the index finds the entry for a text: some line whose key holds
/// the text in lower case lists the entry.
pub open spec fn finds(lines: Seq<LineView>, text: Seq<char>, id: u128) -> bool {
    exists|at: int|
        0 <= at < lines.len() && occurs_in(
            encode_utf8((#[trigger] lines[at]).key),
            encode_utf8(lowercase(text)),
        ) && lines[at].ids.contains(id)
}

/// The first place with the key is the only first place with the key.
proof fn lemma_place_of(lines: Seq<LineView>, key: Seq<char>, at: int)
    requires
        is_first_with_key(lines, key, at),
    ensures
        has_key(lines, key),
        place_of(lines, key) == at,
{
    let chosen = place_of(lines, key);
    if chosen < at {
        assert(lines[chosen].key != key);
    }
    if at < chosen {
        assert(lines[at].key != key);
    }
}

/// The place of the first line with the key.
fn find_line(lines: &Vec<IndexLine>, key: &String) -> (found: Option<usize>)
    ensures
        match found {
            Some(at) => is_first_with_key(lines_view(*lines), key@, at as int),
            None => !has_key(lines_view(*lines), key@),
        },
{
    let mut at: usize = 0;
    while at < lines.len()
        invariant
            at <= lines.len(),
            forall|j: int| 0 <= j < at ==> (#[trigger] lines_view(*lines)[j]).key != key@,
        decreases lines.len() - at,
    {
        if lines[at].key == *key {
            return Some(at);
        }
        at = at + 1;
    }
    None
}

/// Enters an entry under a text.
fn enter(lines: &mut Vec<IndexLine>, text: &str, id: u128)
    ensures
        lines_view(*final(lines)) == entered(lines_view(*old(lines)), text@, id),
{
    if !text.is_empty() {
        let key = to_lowercase(text);
        match find_line(lines, &key) {
            Some(at) => {
                proof {
                    lemma_place_of(lines_view(*lines), key@, at as int);
                }
                insert_id(&mut lines[at].ids, id);
                assert(lines_view(*lines) =~= entered(lines_view(*old(lines)), text@, id));
            },
            None => {
                let mut ids: Vec<u128> = Vec::new();
                ids.push(id);
                assert(ids@ =~= seq![id]);
                lines.push(IndexLine { key, ids });
                assert(lines_view(*lines) =~= entered(lines_view(*old(lines)), text@, id));
            },
        }
    }
}

/// Strikes an entry from under a text.
fn strike(lines: &mut Vec<IndexLine>, text: &str, id: u128)
    ensures
        lines_view(*final(lines)) == struck(lines_view(*old(lines)), text@, id),
{
    if !text.is_empty() {
        let key = to_lowercase(text);
        match find_line(lines, &key) {
            Some(at) => {
                proof {
                    lemma_place_of(lines_view(*lines), key@, at as int);
                }
                remove_id(&mut lines[at].ids, id);
                if lines[at].ids.len() == 0 {
                    lines.remove(at);
                    assert(lines_view(*lines) =~= struck(lines_view(*old(lines)), text@, id));
                } else {
                    assert(lines_view(*lines) =~= struck(lines_view(*old(lines)), text@, id));
                }
            },
            None => {},
        }
    }
}

/// Gathers into `matched` the entries that the lines list under keys that
/// hold the text.
fn gather(lines: &Vec<IndexLine>, lowered: &String, matched: &mut Vec<u128>)
    ensures
        forall|id: u128|
            #[trigger] final(matched)@.contains(id) <==> old(matched)@.contains(id) || exists|
                at: int,
            |
                0 <= at < lines_view(*lines).len() && occurs_in(
                    encode_utf8((#[trigger] lines_view(*lines)[at]).key),
                    encode_utf8(lowered@),
                ) && lines_view(*lines)[at].ids.contains(id),
        old(matched)@.no_duplicates() ==> final(matched)@.no_duplicates(),
{
    let ghost all = lines_view(*lines);
    let mut at: usize = 0;
    while at < lines.len()
        invariant
            at <= lines.len(),
            all == lines_view(*lines),
            forall|id: u128|
                #[trigger] matched@.contains(id) <==> old(matched)@.contains(id) || exists|j: int|
                    0 <= j < at && occurs_in(
                        encode_utf8((#[trigger] all[j]).key),
                        encode_utf8(lowered@),
                    ) && all[j].ids.contains(id),
            old(matched)@.no_duplicates() ==> matched@.no_duplicates(),
        decreases lines.len() - at,
    {
        if contains_text(lines[at].key.as_str(), lowered.as_str()) {
            let ids = &lines[at].ids;
            let ghost start = matched@;
            let mut k: usize = 0;
            while k < ids.len()
                invariant
                    k <= ids.len(),
                    at < lines.len(),
                    all == lines_view(*lines),
                    ids@ == all[at as int].ids,
                    forall|id: u128|
                        #[trigger] matched@.contains(id) <==> start.contains(id) || exists|j: int|
                            0 <= j < k && ids@[j] == id,
                    start.no_duplicates() ==> matched@.no_duplicates(),
                decreases ids.len() - k,
            {
                let ghost before = matched@;
                insert_id(matched, ids[k]);
                proof {
                    lemma_with(before, ids@[k as int]);
                    assert forall|id: u128| #[trigger]
                        matched@.contains(id) <==> start.contains(id) || exists|j: int|
                            0 <= j < k + 1 && ids@[j] == id by {
                        if id == ids@[k as int] {
                            assert(matched@.contains(id));
                        } else {
                            assert(matched@.contains(id) <==> before.contains(id));
                            if exists|j: int| 0 <= j < k + 1 && ids@[j] == id {
                                let j = choose|j: int| 0 <= j < k + 1 && ids@[j] == id;
                                assert(j < k);
                            }
                        }
                    }
                }
                k = k + 1;
            }
            proof {
                assert forall|id: u128| #[trigger]
                    matched@.contains(id) <==> old(matched)@.contains(id) || exists|j: int|
                        0 <= j < at + 1 && occurs_in(
                            encode_utf8((#[trigger] all[j]).key),
                            encode_utf8(lowered@),
                        ) && all[j].ids.contains(id) by {
                    if matched@.contains(id) && !start.contains(id) {
                        let j = choose|j: int| 0 <= j < ids@.len() && ids@[j] == id;
                        assert(all[at as int].ids.contains(id));
                    }
                    if exists|j: int|
                        0 <= j < at + 1 && occurs_in(
                            encode_utf8((#[trigger] all[j]).key),
                            encode_utf8(lowered@),
                        ) && all[j].ids.contains(id) {
                        let j = choose|j: int|
                            0 <= j < at + 1 && occurs_in(
                                encode_utf8((#[trigger] all[j]).key),
                                encode_utf8(lowered@),
                            ) && all[j].ids.contains(id);
                        if j == at {
                            let i = choose|i: int| 0 <= i < ids@.len() && ids@[i] == id;
                            assert(matched@.contains(id));
                        }
                    }
                }
            }
        } else {
            proof {
                assert forall|id: u128| #[trigger]
                    matched@.contains(id) <==> old(matched)@.contains(id) || exists|j: int|
                        0 <= j < at + 1 && occurs_in(
                            encode_utf8((#[trigger] all[j]).key),
                            encode_utf8(lowered@),
                        ) && all[j].ids.contains(id) by {
                    if exists|j: int|
                        0 <= j < at + 1 && occurs_in(
                            encode_utf8((#[trigger] all[j]).key),
                            encode_utf8(lowered@),
                        ) && all[j].ids.contains(id) {
                        let j = choose|j: int|
                            0 <= j < at + 1 && occurs_in(
                                encode_utf8((#[trigger] all[j]).key),
                                encode_utf8(lowered@),
                            ) && all[j].ids.contains(id);
                        assert(j < at);
                    }
                }
            }
        }
        at = at + 1;
    }
}

/// What a [`SearchIndex`] holds, as plain values.
pub struct SearchIndexView {
    pub title_index: Seq<LineView>,
    pub username_index: Seq<LineView>,
    pub url_index: Seq<LineView>,
}

/// The three indexes of a vault.
pub struct SearchIndex {
    title_index: Vec<IndexLine>,
    username_index: Vec<IndexLine>,
    url_index: Vec<IndexLine>,
}

impl View for SearchIndex {
    type V = SearchIndexView;

    closed spec fn view(&self) -> SearchIndexView {
        SearchIndexView {
            title_index: lines_view(self.title_index),
            username_index: lines_view(self.username_index),
            url_index: lines_view(self.url_index),
        }
    }
}

impl SearchIndexView {
    /// Whether one of the three indexes finds the entry for the text.
    pub open spec fn finds(self, text: Seq<char>, id: u128) -> bool {
        finds(self.title_index, text, id) || finds(self.username_index, text, id) || finds(
            self.url_index,
            text,
            id,
        )
    }
}

impl SearchIndex {
    /// Three empty indexes.
    pub fn new() -> (index: Self)
        ensures
            index@ == (SearchIndexView {
                title_index: Seq::empty(),
                username_index: Seq::empty(),
                url_index: Seq::empty(),
            }),
    {
        let index = Self {
            title_index: Vec::new(),
            username_index: Vec::new(),
            url_index: Vec::new(),
        };
        assert(index@.title_index =~= Seq::<LineView>::empty());
        assert(index@.username_index =~= Seq::<LineView>::empty());
        assert(index@.url_index =~= Seq::<LineView>::empty());
        index
    }

    /// Enters an entry under its title, its user name and its URL.
    pub fn add_entry(&mut self, id: u128, title: &str, username: &Option<String>, url: &Option<String>)
        ensures
            final(self)@.title_index == entered(old(self)@.title_index, title@, id),
            final(self)@.username_index == entered_if(
                old(self)@.username_index,
                text_view(*username),
                id,
            ),
            final(self)@.url_index == entered_if(old(self)@.url_index, text_view(*url), id),
    {
        enter(&mut self.title_index, title, id);
        if let Some(username) = username {
            enter(&mut self.username_index, username.as_str(), id);
        }
        if let Some(url) = url {
            enter(&mut self.url_index, url.as_str(), id);
        }
    }

    /// Strikes an entry from under its title, its user name and its URL.
    pub fn remove_entry(
        &mut self,
        id: u128,
        title: &str,
        username: &Option<String>,
        url: &Option<String>,
    )
        ensures
            final(self)@.title_index == struck(old(self)@.title_index, title@, id),
            final(self)@.username_index == struck_if(
                old(self)@.username_index,
                text_view(*username),
                id,
            ),
            final(self)@.url_index == struck_if(old(self)@.url_index, text_view(*url), id),
    {
        strike(&mut self.title_index, title, id);
        if let Some(username) = username {
            strike(&mut self.username_index, username.as_str(), id);
        }
        if let Some(url) = url {
            strike(&mut self.url_index, url.as_str(), id);
        }
    }

    /// The entries whose title, user name or URL holds the text, without
    /// regard to case; each entry once.
    pub fn search_text(&self, text: &str) -> (matched_ids: Vec<u128>)
        ensures
            forall|id: u128| #[trigger] matched_ids@.contains(id) <==> self@.finds(text@, id),
            matched_ids@.no_duplicates(),
    {
        let text_lower = to_lowercase(text);
        let mut matched_ids: Vec<u128> = Vec::new();
        gather(&self.title_index, &text_lower, &mut matched_ids);
        gather(&self.username_index, &text_lower, &mut matched_ids);
        gather(&self.url_index, &text_lower, &mut matched_ids);
        matched_ids
    }

    /// The number of lines of each of the three indexes.
    pub fn line_counts(&self) -> (counts: (usize, usize, usize))
        ensures
            counts.0 == self@.title_index.len(),
            counts.1 == self@.username_index.len(),
            counts.2 == self@.url_index.len(),
    {
        (self.title_index.len(), self.username_index.len(), self.url_index.len())
    }
}

/// A search over the entries: a text to look for, a category to stay in,
/// and whether to look among the favourites only.
#[derive(Debug)]
pub struct SearchQuery {
    pub text: Option<String>,
    pub category_name: Option<String>,
    pub favorites_only: bool,
}

impl SearchQuery {
    /// A query of the three parts given.
    pub fn new(text: Option<String>, category_name: Option<String>, favorites_only: bool) -> (query:
        Self)
        ensures
            query.text == text,
            query.category_name == category_name,
            query.favorites_only == favorites_only,
    {
        Self { text, category_name, favorites_only }
    }
}

} // verus!
