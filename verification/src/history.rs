//! The bounded browsing history: an ordered list of addresses, most recent
//! last, that never outgrows its cap.

use vstd::prelude::*;

use crate::fs_helpers::{FileText, Loaded};

verus! {

/// The largest number of entries the history holds.
pub const HISTORY_CAP: usize = 200;

/// The last `cap` items of `items`, or all of them where there are fewer.
pub open spec fn keep_last<A>(items: Seq<A>, cap: nat) -> Seq<A> {
    if items.len() <= cap {
        items
    } else {
        items.subrange(items.len() - cap, items.len() as int)
    }
}

/// The history after `url` has been visited: the new entry goes to the end,
/// and whatever is left over the cap falls off the front.
pub open spec fn appended(list: Seq<Seq<char>>, url: Seq<char>) -> Seq<Seq<char>> {
    keep_last(list.push(url), HISTORY_CAP as nat)
}

/// The history after every address of `urls` has been visited in turn.
pub open spec fn appended_all(list: Seq<Seq<char>>, urls: Seq<Seq<char>>) -> Seq<Seq<char>>
    decreases urls.len(),
{
    if urls.len() == 0 {
        list
    } else {
        appended(appended_all(list, urls.drop_last()), urls.last())
    }
}

/// Appends `url` to `list` and trims the list to its most recent
/// `HISTORY_CAP` entries.
pub fn push_capped(list: Vec<String>, url: String) -> (out: Vec<String>)
    ensures
        out.deep_view() == appended(list.deep_view(), url@),
        out.len() <= HISTORY_CAP,
{
    let mut list = list;
    let ghost before = list.deep_view();
    list.push(url);
    assert(list.deep_view() =~= before.push(url@));
    let out = if list.len() > HISTORY_CAP {
        let start: usize = list.len() - HISTORY_CAP;
        let ghost full = list.deep_view();
        let kept = list.split_off(start);
        assert(kept.deep_view() =~= full.subrange(start as int, full.len() as int));
        kept
    } else {
        list
    };
    assert(out.len() == out.deep_view().len());
    out
}

/// The history never outgrows its cap: one more visit leaves at most
/// `HISTORY_CAP` entries, whatever the list held before.
pub proof fn lemma_appended_is_capped(list: Seq<Seq<char>>, url: Seq<char>)
    ensures
        appended(list, url).len() <= HISTORY_CAP,
        appended(list, url).len() == if list.len() < HISTORY_CAP {
            list.len() + 1
        } else {
            HISTORY_CAP as nat
        },
        appended(list, url).last() == url,
{
}

/// Visiting `urls` in turn, starting from a history within its cap, leaves
/// the most recent `HISTORY_CAP` entries of the old history followed by
/// `urls`, in that order.
pub proof fn lemma_appended_all_keeps_last(list: Seq<Seq<char>>, urls: Seq<Seq<char>>)
    requires
        list.len() <= HISTORY_CAP,
    ensures
        appended_all(list, urls) == keep_last(list + urls, HISTORY_CAP as nat),
    decreases urls.len(),
{
    if urls.len() == 0 {
        assert(list + urls =~= list);
    } else {
        let front = urls.drop_last();
        lemma_appended_all_keeps_last(list, front);
        assert((list + front).push(urls.last()) =~= list + urls);
        assert(appended_all(list, urls) =~= keep_last(list + urls, HISTORY_CAP as nat));
    }
}

/// After any number of visits from an empty history, the history is the
/// last `HISTORY_CAP` addresses visited, or all of them where there were
/// fewer, in the order of the visits.
pub proof fn lemma_history_after_visits(urls: Seq<Seq<char>>)
    ensures
        appended_all(Seq::empty(), urls) == keep_last(urls, HISTORY_CAP as nat),
        appended_all(Seq::empty(), urls).len() == if urls.len() <= HISTORY_CAP {
            urls.len()
        } else {
            HISTORY_CAP as nat
        },
        forall|i: int|
            0 <= i < appended_all(Seq::empty(), urls).len() ==> appended_all(
                Seq::empty(),
                urls,
            )[i] == urls[urls.len() - appended_all(Seq::empty(), urls).len() + i],
{
    lemma_appended_all_keeps_last(Seq::empty(), urls);
    assert(Seq::<Seq<char>>::empty() + urls =~= urls);
}

/// What `serde_json::from_str` makes of `text` when asked for a list of
/// strings: the list, or nothing where it reports an error.
pub uninterp spec fn parsed_list(text: Seq<char>) -> Option<Seq<Seq<char>>>;

/// What `serde_json::to_string_pretty` prints a list of strings as, or
/// nothing where it reports an error.
pub uninterp spec fn printed_list(list: Seq<Seq<char>>) -> Option<Seq<char>>;

/// Calls `serde_json::from_str` for a `Vec<String>`. The outcome depends on
/// `text` alone and is named `parsed_list`: the list comes back where the
/// name holds one, the parser's error where it holds none.
#[verifier::external_body]
pub(crate) fn parse_list(text: &str) -> (out: Result<Vec<String>, serde_json::Error>)
    ensures
        match out {
            Ok(list) => parsed_list(text@) == Some(list.deep_view()),
            Err(_) => parsed_list(text@) is None,
        },
{
    serde_json::from_str::<Vec<String>>(text)
}

/// Calls `serde_json::to_string_pretty` on a `Vec<String>`. The outcome
/// depends on the list alone and is named `printed_list`: the text comes
/// back where the name holds one, the printer's error where it holds none.
#[verifier::external_body]
pub(crate) fn print_list(list: &Vec<String>) -> (out: Result<String, serde_json::Error>)
    ensures
        match out {
            Ok(text) => printed_list(list.deep_view()) == Some(text@),
            Err(_) => printed_list(list.deep_view()) is None,
        },
{
    serde_json::to_string_pretty::<Vec<String>>(list)
}

/// The stored history as a look at its file found it: the file's text is
/// parsed as a list of strings, and text that is no such list is reported
/// as malformed.
pub fn load_history(file: FileText) -> (loaded: Loaded<Vec<String>>)
    ensures
        match file {
            FileText::Missing => loaded is Missing,
            FileText::Unreadable(e) => loaded == Loaded::<Vec<String>>::Unreadable(e),
            FileText::Text(text) => match parsed_list(text@) {
                Some(list) => loaded matches Loaded::Parsed(found) && found.deep_view() == list,
                None => loaded is Malformed,
            },
        },
{
    match file {
        FileText::Missing => Loaded::Missing,
        FileText::Unreadable(e) => Loaded::Unreadable(e),
        FileText::Text(text) => match parse_list(text.as_str()) {
            Ok(list) => Loaded::Parsed(list),
            Err(e) => Loaded::Malformed(e),
        },
    }
}

} // verus!
