//! The ways in which fetching an image or driving the desktop can fail.

use crate::text::{decimal, decimal_string};
use vstd::prelude::*;

verus! {

/// Why a URL cannot name a download.
#[derive(Clone, Copy, Debug, PartialEq, Eq)]
pub enum UrlDefect {
    /// The text is not an absolute URL.
    Syntax,
    /// The URL has no hierarchical path, as in `data:` or `mailto:`.
    NoPathSegments,
    /// The list of path segments is empty.
    NoFileName,
}

/// A failure, with what is needed to tell the user what went wrong.
#[derive(Debug, PartialEq, Eq)]
pub enum Error {
    /// The platform names no cache directory and there is no fallback.
    NoCacheDirectory,
    /// The URL cannot be used to name the downloaded file.
    MalformedUrl { url: String, defect: UrlDefect },
    /// The request did not go through, or the server answered with a status
    /// outside 200 to 299. `status` is `None` when no answer arrived.
    NetworkError { url: String, status: Option<u16>, detail: String },
    /// A directory or file at `path` could not be prepared or written.
    FilesystemError { path: String, detail: String },
    /// A desktop command failed. `exit_code` is the code with which it
    /// reported failure; without one, `detail` says what happened.
    BackendError { command: String, exit_code: Option<i32>, detail: String },
}

/// What an [`Error`] holds, as mathematical values.
pub enum ErrorView {
    NoCacheDirectory,
    MalformedUrl { url: Seq<char>, defect: UrlDefect },
    NetworkError { url: Seq<char>, status: Option<u16>, detail: Seq<char> },
    FilesystemError { path: Seq<char>, detail: Seq<char> },
    BackendError { command: Seq<char>, exit_code: Option<i32>, detail: Seq<char> },
}

impl View for Error {
    type V = ErrorView;

    open spec fn view(&self) -> ErrorView {
        match *self {
            Error::NoCacheDirectory => ErrorView::NoCacheDirectory,
            Error::MalformedUrl { url, defect } => ErrorView::MalformedUrl { url: url@, defect },
            Error::NetworkError { url, status, detail } => ErrorView::NetworkError {
                url: url@,
                status,
                detail: detail@,
            },
            Error::FilesystemError { path, detail } => ErrorView::FilesystemError {
                path: path@,
                detail: detail@,
            },
            Error::BackendError { command, exit_code, detail } => ErrorView::BackendError {
                command: command@,
                exit_code,
                detail: detail@,
            },
        }
    }
}

impl ErrorView {
    /// The text shown to a person.
    pub open spec fn message(self) -> Seq<char> {
        match self {
            ErrorView::NoCacheDirectory => "no cache dir"@,
            ErrorView::MalformedUrl { defect, .. } => match defect {
                UrlDefect::Syntax => "invalid URL"@,
                UrlDefect::NoPathSegments => "no path segments"@,
                UrlDefect::NoFileName => "no file name"@,
            },
            ErrorView::NetworkError { url, status, detail } => match status {
                Some(code) => url + " answered with status code "@ + decimal(code as int),
                None => detail,
            },
            ErrorView::FilesystemError { path, detail } => path + " "@ + detail,
            ErrorView::BackendError { command, exit_code, detail } => match exit_code {
                Some(code) => command + " exited with status code "@ + decimal(code as int),
                None => detail,
            },
        }
    }
}

impl Error {
    /// The text shown to a person.
    pub fn message(&self) -> (r: String)
        ensures
            r@ == self@.message(),
    {
        match self {
            Error::NoCacheDirectory => "no cache dir".to_owned(),
            Error::MalformedUrl { defect, .. } => match defect {
                UrlDefect::Syntax => "invalid URL".to_owned(),
                UrlDefect::NoPathSegments => "no path segments".to_owned(),
                UrlDefect::NoFileName => "no file name".to_owned(),
            },
            Error::NetworkError { url, status, detail } => match status {
                Some(code) => {
                    let mut text = url.clone();
                    text.append(" answered with status code ");
                    text.append(decimal_string(*code as i32).as_str());
                    text
                },
                None => detail.clone(),
            },
            Error::FilesystemError { path, detail } => {
                let mut text = path.clone();
                text.append(" ");
                text.append(detail.as_str());
                text
            },
            Error::BackendError { command, exit_code, detail } => match exit_code {
                Some(code) => {
                    let mut text = command.clone();
                    text.append(" exited with status code ");
                    text.append(decimal_string(*code).as_str());
                    text
                },
                None => detail.clone(),
            },
        }
    }
}

} // verus!
