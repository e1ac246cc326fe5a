//! Where the store keeps its files: each place as the names to follow, in
//! order, from the directory that holds the running program.

use vstd::prelude::*;

verus! {

/// The data directory.
pub open spec fn data_dir_names() -> Seq<Seq<char>> {
    seq!["data"@]
}

/// The browser profile's root.
pub open spec fn profile_dir_names() -> Seq<Seq<char>> {
    seq!["profile"@]
}

/// The data directory, which holds every stored file.
pub fn data_dir() -> (path: Vec<&'static str>)
    ensures
        path.deep_view() == data_dir_names(),
{
    let mut path: Vec<&'static str> = Vec::new();
    path.push("data");
    assert(path.deep_view() =~= data_dir_names());
    path
}

/// `name` directly below `dir`.
pub fn child(dir: Vec<&'static str>, name: &'static str) -> (path: Vec<&'static str>)
    ensures
        path.deep_view() == dir.deep_view().push(name@),
{
    let ghost before = dir.deep_view();
    let mut path = dir;
    path.push(name);
    assert(path.deep_view() =~= before.push(name@));
    path
}

/// The settings file: `settings.json` in the data directory.
pub fn settings_path() -> (path: Vec<&'static str>)
    ensures
        path.deep_view() == data_dir_names().push("settings.json"@),
{
    child(data_dir(), "settings.json")
}

/// The history file: `history.json` in the data directory.
pub fn history_path() -> (path: Vec<&'static str>)
    ensures
        path.deep_view() == data_dir_names().push("history.json"@),
{
    child(data_dir(), "history.json")
}

/// The file of the last visited address: `last_url.txt` in the data
/// directory.
pub fn last_url_path() -> (path: Vec<&'static str>)
    ensures
        path.deep_view() == data_dir_names().push("last_url.txt"@),
{
    child(data_dir(), "last_url.txt")
}

/// The root of the browser profile.
pub fn profile_dir() -> (path: Vec<&'static str>)
    ensures
        path.deep_view() == profile_dir_names(),
{
    let mut path: Vec<&'static str> = Vec::new();
    path.push("profile");
    assert(path.deep_view() =~= profile_dir_names());
    path
}

/// The cache of the browser profile: `Cache` below the profile's root.
pub fn cache_dir() -> (path: Vec<&'static str>)
    ensures
        path.deep_view() == profile_dir_names().push("Cache"@),
{
    child(profile_dir(), "Cache")
}

} // verus!
