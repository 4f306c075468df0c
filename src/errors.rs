use vstd::prelude::*;
use vstd::string::*;

verus! {

#[verifier::external_type_specification]
#[verifier::external_body]
pub struct ExIoError(std::io::Error);

#[verifier::external_type_specification]
#[verifier::external_body]
pub struct ExPatternError(glob::PatternError);

#[verifier::external_type_specification]
#[verifier::external_body]
pub struct ExGlobError(glob::GlobError);

/// The text `prefix` followed by the subject in backquotes.
pub open spec fn quoted(prefix: Seq<char>, subject: Seq<char>) -> Seq<char> {
    prefix + seq!['`'] + subject + seq!['`']
}

/// Builds `prefix` followed by `subject` in backquotes.
fn quote(prefix: &str, subject: &str) -> (r: String)
    ensures
        r@ == quoted(prefix@, subject@),
{
    let mut m = String::from_str(prefix);
    m.append("`");
    m.append(subject);
    m.append("`");
    proof {
        reveal_strlit("`");
    }
    m
}

/// A file could not be opened or read; `source` is the underlying cause.
#[derive(Debug)]
pub struct ReadError {
    pub path: String,
    pub source: std::io::Error,
}

impl ReadError {
    /// The stable message for `path`: "error reading `<path>`".
    pub fn message_for(path: &str) -> (r: String)
        ensures
            r@ == quoted("error reading "@, path@),
    {
        quote("error reading ", path)
    }

    /// The stable message of this error.
    pub fn message(&self) -> (r: String)
        ensures
            r@ == quoted("error reading "@, self.path@),
    {
        Self::message_for(self.path.as_str())
    }
}

/// A file could not be written, or its directory not created.
#[derive(Debug)]
pub struct WriteError {
    pub path: String,
    pub source: std::io::Error,
}

impl WriteError {
    /// The stable message for `path`: "error writing `<path>`".
    pub fn message_for(path: &str) -> (r: String)
        ensures
            r@ == quoted("error writing "@, path@),
    {
        quote("error writing ", path)
    }

    /// The stable message of this error.
    pub fn message(&self) -> (r: String)
        ensures
            r@ == quoted("error writing "@, self.path@),
    {
        Self::message_for(self.path.as_str())
    }
}

/// Why a listing failed: the expression was not a valid glob, or a matched
/// path could not be read while the matches were enumerated.
#[derive(Debug)]
pub enum ListErrorKind {
    ParseGlob(glob::PatternError),
    ReadPath(glob::GlobError),
}

/// A listing failed; `kind` holds the cause.
#[derive(Debug)]
pub struct ListError {
    pub expression: String,
    pub kind: ListErrorKind,
}

impl ListError {
    /// The stable message for `expression`: "error listing `<expression>`".
    pub fn message_for(expression: &str) -> (r: String)
        ensures
            r@ == quoted("error listing "@, expression@),
    {
        quote("error listing ", expression)
    }

    /// The stable message of this error.
    pub fn message(&self) -> (r: String)
        ensures
            r@ == quoted("error listing "@, self.expression@),
    {
        Self::message_for(self.expression.as_str())
    }
}

} // verus!
