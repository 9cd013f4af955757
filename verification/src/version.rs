//! Version strings as `brew` reports them.

use std::str::FromStr;
use vstd::prelude::*;

verus! {

/// Represents a string which might be a version number for Homebrew.
/// Homebrew has requirements for version strings, so it is not possible
/// to definitively parse it.
#[derive(Clone, Debug)]
pub struct Version {
    original: String,
}

/// The three numbers of a version of the form "N.N.N".  Versions are
/// ordered by their major number, then the minor one, then the revision.
#[derive(Clone, Copy, Debug, PartialEq, Eq, PartialOrd, Ord, Structural)]
pub struct VersionNumber {
    pub major: u32,
    pub minor: u32,
    pub revision: u32,
}

/// What `version_rs` reads out of a text: the major, minor and revision
/// numbers, or nothing where it rejects the text.
pub uninterp spec fn version_numbers(text: Seq<char>) -> Option<(u32, u32, u32)>;

/// Calls `<version_rs::Version as FromStr>::from_str`.  The contract claims
/// only that the answer depends on the characters of `text` alone; the
/// parse error is dropped.
#[verifier::external_body]
fn parse_numbers(text: &str) -> (numbers: Option<(u32, u32, u32)>)
    ensures
        numbers == version_numbers(text@),
{
    match version_rs::Version::from_str(text) {
        Ok(v) => Some((v.major, v.minor, v.revision)),
        Err(_) => None,
    }
}

impl VersionNumber {
    /// The version `major.minor.revision`.
    pub fn new(major: u32, minor: u32, revision: u32) -> (number: Self)
        ensures
            number == (VersionNumber { major, minor, revision }),
    {
        VersionNumber { major, minor, revision }
    }

    /// The version that a triple of numbers stands for, if there is one.
    pub open spec fn of(numbers: Option<(u32, u32, u32)>) -> Option<VersionNumber> {
        match numbers {
            Some((major, minor, revision)) => Some(VersionNumber { major, minor, revision }),
            None => None,
        }
    }
}

impl View for Version {
    type V = Seq<char>;

    closed spec fn view(&self) -> Seq<char> {
        self.original@
    }
}

impl Version {
    /// Keeps `original` as a version string, whatever it holds.
    pub fn new(original: String) -> (version: Self)
        ensures
            version@ == original@,
    {
        Version { original }
    }

    /// Attempts to return a version of the form "N.N.N".
    pub fn parse(&self) -> (parsed: Option<VersionNumber>)
        ensures
            parsed == VersionNumber::of(version_numbers(self@)),
    {
        match parse_numbers(self.original.as_str()) {
            Some((major, minor, revision)) => Some(VersionNumber::new(major, minor, revision)),
            None => None,
        }
    }

    /// Returns the original version string.
    pub fn original(&self) -> (text: &str)
        ensures
            text@ == self@,
    {
        self.original.as_str()
    }
}

} // verus!
