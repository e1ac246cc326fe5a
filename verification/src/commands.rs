//! The operations the host offers to the user interface. Each one takes
//! what the host found on disk, answers with what the caller gets back or
//! what is to be written, and flattens a failure to its message.

use vstd::prelude::*;

use crate::fs_helpers::{read_json, write_json, FileText, FsErr, Loaded};
use crate::history::{
    appended, load_history, parsed_list, print_list, printed_list, push_capped,
};
use crate::layout::{cache_dir, profile_dir, profile_dir_names};
use crate::opacity::{next_index, opacity_levels, AppState, OPACITY_STEPS};
use crate::settings::{default_settings, Settings};

verus! {

/// Whether `out` is `result` as the user interface sees it: a value
/// unchanged, a failure as its message.
pub open spec fn shown<T>(result: Result<T, FsErr>, out: Result<T, String>) -> bool {
    match result {
        Ok(value) => out == Ok::<T, String>(value),
        Err(e) => out matches Err(message) && e.reads_as(message@),
    }
}

/// Flattens a failure to its message and leaves a value as it is.
pub fn flatten<T>(result: Result<T, FsErr>) -> (out: Result<T, String>)
    ensures
        shown(result, out),
{
    match result {
        Ok(value) => Ok(value),
        Err(e) => Err(e.message()),
    }
}

/// What a write to the file system came to, as the user interface sees it.
pub fn written(outcome: Result<(), std::io::Error>) -> (out: Result<(), String>)
    ensures
        match outcome {
            Ok(_) => out is Ok,
            Err(e) => out matches Err(message) && FsErr::Io(e).reads_as(message@),
        },
{
    match outcome {
        Ok(_) => Ok(()),
        Err(e) => flatten(Err(FsErr::from(e))),
    }
}

/// The settings in force: the stored record where the settings file holds
/// one, the first-run defaults where there is no file. A file that cannot
/// be read or does not parse is a failure, never a silent reset.
pub fn read_settings(loaded: Loaded<Settings>) -> (out: Result<Settings, String>)
    ensures
        match loaded {
            Loaded::Missing => out matches Ok(settings) && settings@ == default_settings(),
            Loaded::Parsed(stored) => out == Ok::<Settings, String>(stored),
            Loaded::Unreadable(e) => out matches Err(message) && FsErr::Io(e).reads_as(
                message@,
            ),
            Loaded::Malformed(e) => out matches Err(message) && FsErr::Json(e).reads_as(
                message@,
            ),
        },
{
    flatten(read_json(loaded, Settings::default()))
}

/// The text that replaces the settings file: the whole record as it was
/// printed, once the data directory is ready.
pub fn write_settings(
    parent_ready: Result<(), FsErr>,
    encoded: Result<String, serde_json::Error>,
) -> (out: Result<String, String>)
    ensures
        match (parent_ready, encoded) {
            (Err(e), _) => out matches Err(message) && e.reads_as(message@),
            (Ok(_), Err(e)) => out matches Err(message) && FsErr::Json(e).reads_as(message@),
            (Ok(_), Ok(text)) => out == Ok::<String, String>(text),
        },
{
    flatten(write_json(parent_ready, encoded))
}

/// The history to store after a visit to `url`: the stored list, or an
/// empty one where there is no history file, with `url` at its end and cut
/// to its most recent entries. A history file that cannot be read or does
/// not parse is a failure.
pub fn append_history(file: FileText, url: String) -> (out: Result<Vec<String>, String>)
    ensures
        match file {
            FileText::Missing => out matches Ok(list) && list.deep_view() == appended(
                Seq::empty(),
                url@,
            ),
            FileText::Unreadable(e) => out matches Err(message) && FsErr::Io(e).reads_as(
                message@,
            ),
            FileText::Text(text) => match parsed_list(text@) {
                Some(stored) => out matches Ok(list) && list.deep_view() == appended(
                    stored,
                    url@,
                ),
                None => out matches Err(message) && exists|e: serde_json::Error|
                    #[trigger] FsErr::Json(e).reads_as(message@),
            },
        },
{
    let ghost seen = file;
    let loaded = load_history(file);
    let empty: Vec<String> = Vec::new();
    assert(empty.deep_view() =~= Seq::empty());
    let out = match read_json(loaded, empty) {
        Ok(list) => Ok(push_capped(list, url)),
        Err(e) => Err(e.message()),
    };
    proof {
        if let FileText::Text(text) = seen {
            if parsed_list(text@) is None {
                assert(FsErr::Json(loaded->Malformed_0).reads_as(out->Err_0@));
            }
        }
    }
    out
}

/// The text that replaces the history file: `list` as it is printed, once
/// the data directory is ready.
pub fn save_history(parent_ready: Result<(), FsErr>, list: &Vec<String>) -> (out: Result<
    String,
    String,
>)
    ensures
        match parent_ready {
            Err(e) => out matches Err(message) && e.reads_as(message@),
            Ok(_) => match printed_list(list.deep_view()) {
                Some(text) => out matches Ok(printed) && printed@ == text,
                None => out matches Err(message) && exists|e: serde_json::Error|
                    #[trigger] FsErr::Json(e).reads_as(message@),
            },
        },
{
    match parent_ready {
        Err(e) => flatten(Err(e)),
        Ok(ready) => {
            let encoded = print_list(list);
            let out = flatten(write_json(Ok(ready), encoded));
            proof {
                if encoded is Err {
                    assert(FsErr::Json(encoded->Err_0).reads_as(out->Err_0@));
                }
            }
            out
        },
    }
}

/// The text that replaces the history file to forget every visit: the
/// empty list as it is printed. What the file held before plays no part.
pub fn clear_history(parent_ready: Result<(), FsErr>) -> (out: Result<String, String>)
    ensures
        match parent_ready {
            Err(e) => out matches Err(message) && e.reads_as(message@),
            Ok(_) => match printed_list(Seq::empty()) {
                Some(text) => out matches Ok(printed) && printed@ == text,
                None => out matches Err(message) && exists|e: serde_json::Error|
                    #[trigger] FsErr::Json(e).reads_as(message@),
            },
        },
{
    let list: Vec<String> = Vec::new();
    assert(list.deep_view() =~= Seq::empty());
    save_history(parent_ready, &list)
}

/// The address visited last: the content of its file, or the empty string
/// where the file is missing or cannot be read. Never a failure.
pub fn last_url(read: Result<String, std::io::Error>) -> (out: Result<String, String>)
    ensures
        match read {
            Ok(url) => out == Ok::<String, String>(url),
            Err(_) => out matches Ok(url) && url@ == Seq::<char>::empty(),
        },
{
    match read {
        Ok(url) => Ok(url),
        Err(_) => Ok(String::new()),
    }
}

/// Steps the session's opacity to the next level and returns it, in per
/// cent of full opacity.
pub fn cycle_opacity(state: &mut AppState) -> (percent: u8)
    ensures
        final(state).index() == next_index(old(state).index()),
        0 <= final(state).index() < OPACITY_STEPS,
        percent == opacity_levels()[final(state).index()],
{
    state.advance()
}

/// The directories to delete, each with its subtree and only if it is
/// there, in this order: the profile's cache, and after it, for a hard
/// clear, the profile's root. A plain clear leaves the rest of the profile
/// alone. The host stops at the first deletion that fails.
pub fn clear_cache(hard: bool) -> (doomed: Vec<Vec<&'static str>>)
    ensures
        doomed.deep_view() == if hard {
            seq![profile_dir_names().push("Cache"@), profile_dir_names()]
        } else {
            seq![profile_dir_names().push("Cache"@)]
        },
{
    let mut doomed: Vec<Vec<&'static str>> = Vec::new();
    doomed.push(cache_dir());
    if hard {
        doomed.push(profile_dir());
        assert(doomed.deep_view() =~= seq![
            profile_dir_names().push("Cache"@),
            profile_dir_names(),
        ]);
    } else {
        assert(doomed.deep_view() =~= seq![profile_dir_names().push("Cache"@)]);
    }
    doomed
}

} // verus!
