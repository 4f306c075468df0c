use crate::errors::{ReadError, WriteError};
use vstd::prelude::*;
use vstd::string::*;

verus! {

/// The path that a relative path stands for under `parent`: the two joined
/// by one separator, with no normalisation.
pub open spec fn resolved(parent: Seq<char>, path: Seq<char>) -> Seq<char> {
    parent + seq!['/'] + path
}

/// What `std::path::Path::parent` returns for a path, as text.
pub uninterp spec fn parent_component(path: Seq<char>) -> Option<Seq<char>>;

/// Relies on `std::path::Path::parent`: the path without its final
/// component, or nothing where the path ends in a root or prefix. The parent
/// of a path built from text is a slice of that text, so it converts to a
/// `String` unchanged.
#[verifier::external_body]
fn parent_of(path: &str) -> (r: Option<String>)
    ensures
        match r {
            Some(d) => parent_component(path@) == Some(d@),
            None => parent_component(path@) is None,
        },
{
    std::path::Path::new(path).parent().map(|d| d.to_string_lossy().into_owned())
}

/// Relies on `std::io::Error::new`: the error that stands for a resolved path
/// that has no parent directory.
#[verifier::external_body]
fn missing_parent_error() -> std::io::Error {
    std::io::Error::new(std::io::ErrorKind::Other, "Could not get parent directory")
}

/// Where a write goes: the directory to create first, then the file.
#[derive(Debug)]
pub struct WriteTarget {
    pub dir: String,
    pub file: String,
}

/// A file store rooted at `parent`: every path it is given is taken relative
/// to that directory. The directory need not exist when the store is made.
#[derive(Clone)]
pub struct ParentDirectory {
    pub parent: String,
}

impl ParentDirectory {
    #[must_use]
    pub fn new(root: String) -> (r: Self)
        ensures
            r.parent@ == root@,
    {
        Self { parent: root }
    }

    /// The path under the parent directory that `path` stands for.
    pub fn with_parent(&self, path: &str) -> (r: String)
        ensures
            r@ == resolved(self.parent@, path@),
    {
        let mut r = self.parent.clone();
        r.append("/");
        r.append(path);
        proof {
            reveal_strlit("/");
        }
        r
    }

    /// The file that a write of `path` creates or truncates, and the directory
    /// that is created (with its ancestors) before it. Fails, naming `path`,
    /// exactly where the resolved path has no parent component.
    pub fn write_target(&self, path: &str) -> (r: Result<WriteTarget, WriteError>)
        ensures
            match r {
                Ok(t) => {
                    &&& t.file@ == resolved(self.parent@, path@)
                    &&& parent_component(t.file@) == Some(t.dir@)
                },
                Err(e) => {
                    &&& e.path@ == path@
                    &&& parent_component(resolved(self.parent@, path@)) is None
                },
            },
    {
        let file = self.with_parent(path);
        match parent_of(file.as_str()) {
            Some(dir) => Ok(WriteTarget { dir, file }),
            None => Err(WriteError { path: String::from_str(path), source: missing_parent_error() }),
        }
    }

    /// The result of reading `path`, given what opening and reading the
    /// resolved file gave: the content unchanged, or the cause with `path`
    /// as its context.
    pub fn finish_read(path: &str, outcome: Result<String, std::io::Error>) -> (r: Result<
        String,
        ReadError,
    >)
        ensures
            match outcome {
                Ok(c) => r matches Ok(d) && d@ == c@,
                Err(cause) => r matches Err(e) && e.path@ == path@ && e.source == cause,
            },
    {
        match outcome {
            Ok(c) => Ok(c),
            Err(source) => Err(ReadError { path: String::from_str(path), source }),
        }
    }

    /// The result of writing `path`, given what creating the directory and
    /// writing the resolved file gave: success, or the cause with `path` as
    /// its context.
    pub fn finish_write(path: &str, outcome: Result<(), std::io::Error>) -> (r: Result<
        (),
        WriteError,
    >)
        ensures
            match outcome {
                Ok(_) => r is Ok,
                Err(cause) => r matches Err(e) && e.path@ == path@ && e.source == cause,
            },
    {
        match outcome {
            Ok(_) => Ok(()),
            Err(source) => Err(WriteError { path: String::from_str(path), source }),
        }
    }
}

} // verus!
