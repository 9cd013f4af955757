//! The ways in which talking to `brew` can fail.

use vstd::prelude::*;
use vstd::std_specs::convert::FromSpecImpl;

verus! {

/// The error that the operating system reports when a program cannot be run.
#[verifier::external_type_specification]
#[verifier::external_body]
pub struct ExIoError(std::io::Error);

/// The error that `serde_json` reports for a text that is not the JSON it
/// was asked to read.
#[verifier::external_type_specification]
#[verifier::external_body]
pub struct ExJsonError(serde_json::Error);

pub type Result<T> = std::result::Result<T, BrewError>;

#[derive(Debug)]
pub enum BrewError {
    /// `brew` itself could not be found or did not answer.
    NotInstalled,
    /// `brew` knows no package of that name.
    PackageNotFound,
    /// A program could not be started or waited for.
    IOError(std::io::Error),
    /// What `brew` printed is not the description of packages.
    ParseError(serde_json::Error),
    /// An installation did not go through; holds what `brew` said.
    InstallFailed(String),
    /// `brew` refused for a reason of its own; holds what it said.
    UnknownError(String),
}

/// An error with its text, where it holds one, read as a sequence of
/// characters.
pub enum ErrorView {
    NotInstalled,
    PackageNotFound,
    IOError(std::io::Error),
    ParseError(serde_json::Error),
    InstallFailed(Seq<char>),
    UnknownError(Seq<char>),
}

impl View for BrewError {
    type V = ErrorView;

    open spec fn view(&self) -> ErrorView {
        match self {
            BrewError::NotInstalled => ErrorView::NotInstalled,
            BrewError::PackageNotFound => ErrorView::PackageNotFound,
            BrewError::IOError(e) => ErrorView::IOError(*e),
            BrewError::ParseError(e) => ErrorView::ParseError(*e),
            BrewError::InstallFailed(text) => ErrorView::InstallFailed(text@),
            BrewError::UnknownError(text) => ErrorView::UnknownError(text@),
        }
    }
}

impl From<std::io::Error> for BrewError {
    fn from(e: std::io::Error) -> (error: Self) {
        BrewError::IOError(e)
    }
}

impl FromSpecImpl<std::io::Error> for BrewError {
    open spec fn obeys_from_spec() -> bool {
        true
    }

    open spec fn from_spec(e: std::io::Error) -> Self {
        BrewError::IOError(e)
    }
}

impl From<serde_json::Error> for BrewError {
    fn from(e: serde_json::Error) -> (error: Self) {
        BrewError::ParseError(e)
    }
}

impl FromSpecImpl<serde_json::Error> for BrewError {
    open spec fn obeys_from_spec() -> bool {
        true
    }

    open spec fn from_spec(e: serde_json::Error) -> Self {
        BrewError::ParseError(e)
    }
}

} // verus!
