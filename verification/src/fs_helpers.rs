//! The durable JSON store: what a read or a write of one file comes to, as
//! decisions on what the host found on disk.

use vstd::prelude::*;
use vstd::std_specs::convert::FromSpecImpl;
use vstd::string::to_string_from_display_ensures;

verus! {

/// `std::io::Error`, carried through as the host reported it.
#[verifier::external_type_specification]
#[verifier::external_body]
pub struct ExIoError(std::io::Error);

/// `serde_json::Error`, carried through as the parser or printer reported it.
#[verifier::external_type_specification]
#[verifier::external_body]
pub struct ExJsonError(serde_json::Error);

/// Why a store operation failed.
#[derive(Debug)]
pub enum FsErr {
    /// The file system refused the operation.
    Io(std::io::Error),
    /// Stored text is not JSON of the expected shape, or a value could not
    /// be written as JSON.
    Json(serde_json::Error),
}

impl From<std::io::Error> for FsErr {
    fn from(e: std::io::Error) -> (err: FsErr) {
        FsErr::Io(e)
    }
}

impl FromSpecImpl<std::io::Error> for FsErr {
    open spec fn obeys_from_spec() -> bool {
        true
    }

    open spec fn from_spec(e: std::io::Error) -> FsErr {
        FsErr::Io(e)
    }
}

impl From<serde_json::Error> for FsErr {
    fn from(e: serde_json::Error) -> (err: FsErr) {
        FsErr::Json(e)
    }
}

impl FromSpecImpl<serde_json::Error> for FsErr {
    open spec fn obeys_from_spec() -> bool {
        true
    }

    open spec fn from_spec(e: serde_json::Error) -> FsErr {
        FsErr::Json(e)
    }
}

/// `label` followed by `detail`.
pub fn labelled(label: &str, detail: &str) -> (text: String)
    ensures
        text@ == label@ + detail@,
{
    let mut text = String::from_str(label);
    text.append(detail);
    text
}

impl FsErr {
    /// The words that open the message of an error of this kind.
    pub open spec fn label(&self) -> Seq<char> {
        match self {
            FsErr::Io(_) => "io: "@,
            FsErr::Json(_) => "json: "@,
        }
    }

    /// Whether `text` is what this error reads as: its label, then the
    /// words in which the underlying error displays itself.
    pub open spec fn reads_as(&self, text: Seq<char>) -> bool {
        match self {
            FsErr::Io(e) => exists|detail: String|
                #[trigger] to_string_from_display_ensures::<std::io::Error>(e, detail)
                    && text == self.label() + detail@,
            FsErr::Json(e) => exists|detail: String|
                #[trigger] to_string_from_display_ensures::<serde_json::Error>(e, detail)
                    && text == self.label() + detail@,
        }
    }

    /// The message shown for this error: `io: ` or `json: `, then the
    /// underlying error's own words.
    pub fn message(&self) -> (text: String)
        ensures
            self.reads_as(text@),
            self.label().is_prefix_of(text@),
    {
        match self {
            FsErr::Io(e) => {
                let detail = e.to_string();
                labelled("io: ", detail.as_str())
            },
            FsErr::Json(e) => {
                let detail = e.to_string();
                labelled("json: ", detail.as_str())
            },
        }
    }
}

/// What the host is to do with a directory.
#[derive(Clone, Copy, Debug, PartialEq, Eq)]
pub enum DirAction {
    /// Leave the file system as it is.
    Keep,
    /// Create the directory and every missing ancestor.
    CreateAll,
    /// Delete the directory with all that is below it.
    RemoveAll,
}

/// Makes sure a directory is there: one that `exists` is left alone, a
/// missing one is created with its ancestors.
pub fn ensure_dir(exists: bool) -> (action: DirAction)
    ensures
        action == (if exists { DirAction::Keep } else { DirAction::CreateAll }),
{
    if !exists {
        DirAction::CreateAll
    } else {
        DirAction::Keep
    }
}

/// Makes sure a directory is gone: one that `exists` is deleted with its
/// subtree, a missing one is left alone.
pub fn remove_dir_if_exists(exists: bool) -> (action: DirAction)
    ensures
        action == (if exists { DirAction::RemoveAll } else { DirAction::Keep }),
{
    if exists {
        DirAction::RemoveAll
    } else {
        DirAction::Keep
    }
}

/// What a look at one file found, before any parsing.
#[derive(Debug)]
pub enum FileText {
    /// No file is there.
    Missing,
    /// A file is there and could not be read.
    Unreadable(std::io::Error),
    /// The file's whole content.
    Text(String),
}

/// What a look at one JSON file found.
#[derive(Debug)]
pub enum Loaded<T> {
    /// No file is there.
    Missing,
    /// A file is there and could not be read.
    Unreadable(std::io::Error),
    /// The file's content is not JSON of the expected shape.
    Malformed(serde_json::Error),
    /// The value that the file's content stands for.
    Parsed(T),
}

/// The value to go on with after a look at a JSON file: `def` where there
/// is no file, the stored value where there is one that parses, and the
/// failure otherwise. A file with bad content never falls back to `def`.
pub fn read_json<T>(loaded: Loaded<T>, def: T) -> (out: Result<T, FsErr>)
    ensures
        out == (match loaded {
            Loaded::Missing => Ok::<T, FsErr>(def),
            Loaded::Unreadable(e) => Err(FsErr::Io(e)),
            Loaded::Malformed(e) => Err(FsErr::Json(e)),
            Loaded::Parsed(value) => Ok(value),
        }),
{
    match loaded {
        Loaded::Missing => Ok(def),
        Loaded::Unreadable(e) => Err(FsErr::from(e)),
        Loaded::Malformed(e) => Err(FsErr::from(e)),
        Loaded::Parsed(value) => Ok(value),
    }
}

/// The text to put in a file, replacing whatever it held: what the value
/// was printed as, given that the parent directory is ready to take it. A
/// directory that could not be made ready comes first among the failures.
pub fn write_json(
    parent_ready: Result<(), FsErr>,
    encoded: Result<String, serde_json::Error>,
) -> (out: Result<String, FsErr>)
    ensures
        out == (match (parent_ready, encoded) {
            (Err(e), _) => Err::<String, FsErr>(e),
            (Ok(_), Err(e)) => Err(FsErr::Json(e)),
            (Ok(_), Ok(text)) => Ok(text),
        }),
{
    match parent_ready {
        Err(e) => Err(e),
        Ok(_) => match encoded {
            Err(e) => Err(FsErr::from(e)),
            Ok(text) => Ok(text),
        },
    }
}

} // verus!
