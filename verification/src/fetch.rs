//! The download of one image, as a sequence of actions.
//!
//! A [`Download`] says which action comes next. The caller performs it and
//! reports the outcome with [`Download::advance`], until the next action is
//! [`Action::Finish`] or a failure ends the download.
//!
//! The directory is seen to before anything is requested, and the file is
//! created only once the server has answered with success: a request that
//! the server refuses leaves no file behind. A transfer that breaks off
//! after that leaves the part that was written.

use crate::directory::{create_dir, created_notice, notice, occupied, PathKind};
use crate::error::{Error, ErrorView};
use crate::image_url::{ImageUrl, ImageUrlView};
use crate::location::{base_directory, cache_dir, join, Platform};
use vstd::prelude::*;

verus! {

/// What the caller is asked to do next.
#[derive(Clone, Copy, Debug, PartialEq, Eq)]
pub enum Action {
    /// Look at what is at the directory's path.
    ProbeDirectory,
    /// Create the directory, with its parents.
    CreateDirectory,
    /// Send a GET request for the URL and wait for the status of the answer.
    Request,
    /// Create the file, replacing what was there, and write the body of the
    /// answer into it.
    Store,
    /// Nothing: the image is in the file.
    Finish,
}

/// How an action ended.
#[derive(Debug, PartialEq, Eq)]
pub enum Reply {
    /// The directory's path was looked at.
    Probed(PathKind),
    /// The directory now exists.
    Created,
    /// The server answered with this status code.
    Responded(u16),
    /// The body of the answer is in the file.
    Stored,
    /// The file system refused the action.
    DiskFailed(String),
    /// The request or the transfer of the body failed.
    NetworkFailed(String),
}

/// What a [`Reply`] holds, as mathematical values.
pub enum ReplyView {
    Probed(PathKind),
    Created,
    Responded(u16),
    Stored,
    DiskFailed(Seq<char>),
    NetworkFailed(Seq<char>),
}

impl View for Reply {
    type V = ReplyView;

    open spec fn view(&self) -> ReplyView {
        match *self {
            Reply::Probed(kind) => ReplyView::Probed(kind),
            Reply::Created => ReplyView::Created,
            Reply::Responded(status) => ReplyView::Responded(status),
            Reply::Stored => ReplyView::Stored,
            Reply::DiskFailed(detail) => ReplyView::DiskFailed(detail@),
            Reply::NetworkFailed(detail) => ReplyView::NetworkFailed(detail@),
        }
    }
}

/// A download in progress.
#[derive(Debug, PartialEq, Eq)]
pub struct Download {
    url: String,
    directory: String,
    path: String,
    next: Action,
    created: bool,
}

/// The state of a [`Download`], as mathematical values.
pub struct DownloadView {
    /// The text of the URL that is requested.
    pub url: Seq<char>,
    /// The directory that holds the file.
    pub directory: Seq<char>,
    /// The file that the image is written to.
    pub path: Seq<char>,
    /// What the caller is asked to do next.
    pub next: Action,
    /// Whether this download has created the directory.
    pub created: bool,
}

impl View for Download {
    type V = DownloadView;

    closed spec fn view(&self) -> DownloadView {
        DownloadView {
            url: self.url@,
            directory: self.directory@,
            path: self.path@,
            next: self.next,
            created: self.created,
        }
    }
}

/// The status codes that stand for success.
pub open spec fn is_success(status: u16) -> bool {
    200 <= status <= 299
}

/// The failure for an answer with a status that is no success.
pub open spec fn refused(url: Seq<char>, status: u16) -> ErrorView {
    ErrorView::NetworkError { url, status: Some(status), detail: Seq::empty() }
}

impl DownloadView {
    /// The download of `url` before anything has been done.
    pub open spec fn begin(platform: Platform, cache_dir: Option<Seq<char>>, url: ImageUrlView)
        -> Result<DownloadView, ErrorView> {
        match platform.base_directory(cache_dir) {
            Err(e) => Err(e),
            Ok(directory) => match url.file_name() {
                Err(e) => Err(e),
                Ok(name) => Ok(
                    DownloadView {
                        url: url.text,
                        directory,
                        path: platform.joined(directory, name),
                        next: Action::ProbeDirectory,
                        created: false,
                    },
                ),
            },
        }
    }

    /// This download with another action next.
    pub open spec fn asking(self, next: Action) -> DownloadView {
        DownloadView { next, ..self }
    }

    /// The download after `reply`. A reply that does not answer the action
    /// that was asked for changes nothing.
    pub open spec fn step(self, reply: ReplyView) -> Result<DownloadView, ErrorView> {
        match self.next {
            Action::ProbeDirectory => match reply {
                ReplyView::Probed(PathKind::Directory) => Ok(self.asking(Action::Request)),
                ReplyView::Probed(PathKind::Missing) => Ok(self.asking(Action::CreateDirectory)),
                ReplyView::Probed(PathKind::Other) => Err(occupied(self.directory)),
                ReplyView::DiskFailed(detail) => Err(
                    ErrorView::FilesystemError { path: self.directory, detail },
                ),
                _ => Ok(self),
            },
            Action::CreateDirectory => match reply {
                ReplyView::Created => Ok(
                    DownloadView { next: Action::Request, created: true, ..self },
                ),
                ReplyView::DiskFailed(detail) => Err(
                    ErrorView::FilesystemError { path: self.directory, detail },
                ),
                _ => Ok(self),
            },
            Action::Request => match reply {
                ReplyView::Responded(status) => if is_success(status) {
                    Ok(self.asking(Action::Store))
                } else {
                    Err(refused(self.url, status))
                },
                ReplyView::NetworkFailed(detail) => Err(
                    ErrorView::NetworkError { url: self.url, status: None, detail },
                ),
                _ => Ok(self),
            },
            Action::Store => match reply {
                ReplyView::Stored => Ok(self.asking(Action::Finish)),
                ReplyView::DiskFailed(detail) => Err(
                    ErrorView::FilesystemError { path: self.path, detail },
                ),
                ReplyView::NetworkFailed(detail) => Err(
                    ErrorView::NetworkError { url: self.url, status: None, detail },
                ),
                _ => Ok(self),
            },
            Action::Finish => Ok(self),
        }
    }

    /// The download after each of `replies` in turn. A failure ends it:
    /// replies that follow one are not looked at.
    pub open spec fn after(self, replies: Seq<ReplyView>) -> Result<DownloadView, ErrorView>
        decreases replies.len(),
    {
        if replies.len() == 0 {
            Ok(self)
        } else {
            match self.after(replies.drop_last()) {
                Ok(reached) => reached.step(replies.last()),
                Err(e) => Err(e),
            }
        }
    }

    /// Whether the directory is known to exist.
    pub open spec fn directory_ready(self) -> bool {
        self.next is Request || self.next is Store || self.next is Finish
    }
}

impl Download {
    /// Starts the download of `url` into the directory that `platform` and
    /// `cache_dir` give. Nothing has been done yet: the first action is to
    /// look at the directory.
    pub fn begin(platform: Platform, cache_dir: Option<String>, url: &ImageUrl) -> (r: Result<
        Download,
        Error,
    >)
        ensures
            match r {
                Ok(download) => DownloadView::begin(platform, cache_dir.deep_view(), url@) == Ok::<
                    DownloadView,
                    ErrorView,
                >(download@),
                Err(e) => DownloadView::begin(platform, cache_dir.deep_view(), url@) == Err::<
                    DownloadView,
                    ErrorView,
                >(e@),
            },
    {
        let directory = base_directory(platform, cache_dir)?;
        let name = url.file_name()?;
        let path = join(platform, directory.as_str(), name.as_str());
        Ok(
            Download {
                url: url.as_str().to_owned(),
                directory,
                path,
                next: Action::ProbeDirectory,
                created: false,
            },
        )
    }

    /// What the caller is asked to do next.
    pub fn action(&self) -> (r: Action)
        ensures
            r == self@.next,
    {
        self.next
    }

    /// The text of the URL that is requested.
    pub fn url(&self) -> (r: &str)
        ensures
            r@ == self@.url,
    {
        self.url.as_str()
    }

    /// The directory that holds the file.
    pub fn directory(&self) -> (r: &str)
        ensures
            r@ == self@.directory,
    {
        self.directory.as_str()
    }

    /// The file that the image is written to.
    pub fn path(&self) -> (r: &str)
        ensures
            r@ == self@.path,
    {
        self.path.as_str()
    }

    /// The file that holds the image, once nothing is left to do.
    pub fn finished(&self) -> (r: Option<&str>)
        ensures
            match r {
                Some(path) => self@.next is Finish && path@ == self@.path,
                None => !(self@.next is Finish),
            },
    {
        match self.next {
            Action::Finish => Some(self.path.as_str()),
            _ => None,
        }
    }

    /// The notice to show where this download has created the directory.
    pub fn notice(&self) -> (r: Option<String>)
        ensures
            r.deep_view() == if self@.created {
                Some(notice(self@.directory))
            } else {
                None
            },
    {
        if self.created {
            Some(created_notice(self.directory.as_str()))
        } else {
            None
        }
    }

    /// Takes note of how the action that was asked for ended, and moves on
    /// to the next action or fails.
    pub fn advance(self, reply: Reply) -> (r: Result<Download, Error>)
        ensures
            match r {
                Ok(download) => self@.step(reply@) == Ok::<DownloadView, ErrorView>(download@),
                Err(e) => self@.step(reply@) == Err::<DownloadView, ErrorView>(e@),
            },
    {
        let mut download = self;
        match download.next {
            Action::ProbeDirectory => match reply {
                Reply::Probed(found) => {
                    if create_dir(download.directory.as_str(), found)? {
                        download.next = Action::CreateDirectory;
                    } else {
                        download.next = Action::Request;
                    }
                    Ok(download)
                },
                Reply::DiskFailed(detail) => Err(
                    Error::FilesystemError { path: download.directory, detail },
                ),
                _ => Ok(download),
            },
            Action::CreateDirectory => match reply {
                Reply::Created => {
                    download.next = Action::Request;
                    download.created = true;
                    Ok(download)
                },
                Reply::DiskFailed(detail) => Err(
                    Error::FilesystemError { path: download.directory, detail },
                ),
                _ => Ok(download),
            },
            Action::Request => match reply {
                Reply::Responded(status) => {
                    if 200 <= status && status <= 299 {
                        download.next = Action::Store;
                        Ok(download)
                    } else {
                        Err(
                            Error::NetworkError {
                                url: download.url,
                                status: Some(status),
                                detail: String::new(),
                            },
                        )
                    }
                },
                Reply::NetworkFailed(detail) => Err(
                    Error::NetworkError { url: download.url, status: None, detail },
                ),
                _ => Ok(download),
            },
            Action::Store => match reply {
                Reply::Stored => {
                    download.next = Action::Finish;
                    Ok(download)
                },
                Reply::DiskFailed(detail) => Err(
                    Error::FilesystemError { path: download.path, detail },
                ),
                Reply::NetworkFailed(detail) => Err(
                    Error::NetworkError { url: download.url, status: None, detail },
                ),
                _ => Ok(download),
            },
            Action::Finish => Ok(download),
        }
    }
}

/// Starts the download of `url` into the user's cache directory, or into
/// the platform's fallback where there is none.
///
/// The cache directory is whatever the system names at the time of the
/// call; the download is the one that [`Download::begin`] gives for it.
pub fn download_image(platform: Platform, url: &ImageUrl) -> (r: Result<Download, Error>)
    ensures
        exists|dir: Option<Seq<char>>|
            match r {
                Ok(download) => #[trigger] DownloadView::begin(platform, dir, url@) == Ok::<
                    DownloadView,
                    ErrorView,
                >(download@),
                Err(e) => DownloadView::begin(platform, dir, url@) == Err::<
                    DownloadView,
                    ErrorView,
                >(e@),
            },
{
    let dir = cache_dir();
    Download::begin(platform, dir, url)
}

} // verus!
