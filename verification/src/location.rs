//! Where a downloaded image is kept.

use crate::error::{Error, ErrorView};
use crate::image_url::{ImageUrl, ImageUrlView};
use vstd::prelude::*;

verus! {

/// A path of the standard library. It is handed on and never looked into.
#[verifier::external_type_specification]
#[verifier::external_body]
pub struct ExPathBuf(std::path::PathBuf);

/// Calls `dirs::cache_dir`, which asks the system where the user keeps
/// cached files. The answer can differ from call to call, and nothing is
/// claimed of it.
#[verifier::external_body]
fn user_cache_dir() -> (r: Option<std::path::PathBuf>) {
    dirs::cache_dir()
}

/// Calls `std::path::Path::to_str`, which gives the path as text where it is
/// valid Unicode. Nothing is claimed of the text.
#[verifier::external_body]
fn path_text(path: &std::path::PathBuf) -> (r: Option<String>) {
    path.to_str().map(|s| s.to_owned())
}

/// The family of systems that the process runs on.
#[derive(Clone, Copy, Debug, PartialEq, Eq)]
pub enum Platform {
    Unix,
    Windows,
}

impl Platform {
    /// The character between a directory and a name in it.
    pub open spec fn separator(self) -> char {
        match self {
            Platform::Unix => '/',
            Platform::Windows => '\\',
        }
    }

    /// The directory used where the platform names no cache directory.
    pub open spec fn fallback(self) -> Option<Seq<char>> {
        match self {
            Platform::Unix => None,
            Platform::Windows => Some("C:\\wallpapers"@),
        }
    }

    /// The directory that holds the downloads.
    pub open spec fn base_directory(self, cache_dir: Option<Seq<char>>) -> Result<
        Seq<char>,
        ErrorView,
    > {
        match cache_dir {
            Some(dir) => Ok(dir),
            None => match self.fallback() {
                Some(dir) => Ok(dir),
                None => Err(ErrorView::NoCacheDirectory),
            },
        }
    }

    /// The path of `name` in `dir`.
    pub open spec fn joined(self, dir: Seq<char>, name: Seq<char>) -> Seq<char> {
        if dir.len() == 0 || dir.last() == self.separator() {
            dir + name
        } else {
            dir.push(self.separator()) + name
        }
    }

    /// The file that the image at `url` is stored in.
    pub open spec fn destination(self, cache_dir: Option<Seq<char>>, url: ImageUrlView) -> Result<
        Seq<char>,
        ErrorView,
    > {
        match self.base_directory(cache_dir) {
            Err(e) => Err(e),
            Ok(dir) => match url.file_name() {
                Err(e) => Err(e),
                Ok(name) => Ok(self.joined(dir, name)),
            },
        }
    }
}

/// The user's cache directory, where the system names one whose path is
/// valid Unicode. The system is asked anew at each call.
pub(crate) fn cache_dir() -> Option<String> {
    match user_cache_dir() {
        Some(path) => path_text(&path),
        None => None,
    }
}

/// The directory that holds the downloads: `cache_dir` where there is one,
/// else the platform's fallback.
pub fn base_directory(platform: Platform, cache_dir: Option<String>) -> (r: Result<String, Error>)
    ensures
        match r {
            Ok(dir) => platform.base_directory(cache_dir.deep_view()) == Ok::<
                Seq<char>,
                ErrorView,
            >(dir@),
            Err(e) => platform.base_directory(cache_dir.deep_view()) == Err::<
                Seq<char>,
                ErrorView,
            >(e@),
        },
{
    match cache_dir {
        Some(dir) => Ok(dir),
        None => match platform {
            Platform::Unix => Err(Error::NoCacheDirectory),
            Platform::Windows => Ok("C:\\wallpapers".to_owned()),
        },
    }
}

/// The path of `name` in `dir`: the two with one separator between them.
pub fn join(platform: Platform, dir: &str, name: &str) -> (r: String)
    ensures
        r@ == platform.joined(dir@, name@),
{
    let mut path = dir.to_owned();
    let n = dir.unicode_len();
    let (mark, between) = match platform {
        Platform::Unix => ('/', "/"),
        Platform::Windows => ('\\', "\\"),
    };
    proof {
        reveal_strlit("/");
        reveal_strlit("\\");
    }
    if n > 0 && dir.get_char(n - 1) != mark {
        path.append(between);
    }
    path.append(name);
    path
}

/// The file that the image at `url` is stored in.
pub fn destination(platform: Platform, cache_dir: Option<String>, url: &ImageUrl) -> (r: Result<
    String,
    Error,
>)
    ensures
        match r {
            Ok(path) => platform.destination(cache_dir.deep_view(), url@) == Ok::<
                Seq<char>,
                ErrorView,
            >(path@),
            Err(e) => platform.destination(cache_dir.deep_view(), url@) == Err::<
                Seq<char>,
                ErrorView,
            >(e@),
        },
{
    let dir = base_directory(platform, cache_dir)?;
    let name = url.file_name()?;
    Ok(join(platform, dir.as_str(), name.as_str()))
}

} // verus!
