//! The address of an image, reduced to what a download reads from it.

use crate::error::{Error, ErrorView, UrlDefect};
use vstd::prelude::*;

verus! {

/// The error of the URL parser. It is taken note of and never looked into.
#[verifier::external_type_specification]
#[verifier::external_body]
pub struct ExParseError(url::ParseError);

/// True when `c` does not occur in `s`.
pub open spec fn free_of(s: Seq<char>, c: char) -> bool {
    forall|i: int| 0 <= i < s.len() ==> s[i] != c
}

/// What a parser hands out for a hierarchical path: at least one segment,
/// and no segment with a `/` in it.
pub open spec fn well_split(segments: Seq<Seq<char>>) -> bool {
    &&& segments.len() >= 1
    &&& forall|i: int| 0 <= i < segments.len() ==> free_of(#[trigger] segments[i], '/')
}

/// What the URL parser makes of a text: `None` where the text is no absolute
/// URL, else the serialization and the path segments of the URL.
pub uninterp spec fn parsed_url(text: Seq<char>) -> Option<ImageUrlView>;

/// Calls `url::Url::parse` and copies out of the URL what `Url::as_str` and
/// `Url::path_segments` give.
///
/// The parser decides by the text alone, so its outcome is `parsed_url` of the
/// text. `path_segments` strips the leading `/` of the path and splits the
/// rest at every `/`, and gives `None` for a path without a leading slash:
/// a list that is handed out has at least one segment, and no segment holds
/// a `/`.
#[verifier::external_body]
fn parse_url(text: &str) -> (r: Result<ImageUrl, url::ParseError>)
    ensures
        match r {
            Ok(url) => parsed_url(text@) == Some(url@) && (url@.segments matches Some(list)
                ==> well_split(list)),
            Err(_) => parsed_url(text@) is None,
        },
{
    let url = url::Url::parse(text)?;
    let segments = url.path_segments().map(|list| list.map(|s| s.to_owned()).collect());
    Ok(ImageUrl { text: url.as_str().to_owned(), segments })
}

/// A URL as the downloader sees it: its text, which is what is requested,
/// and its path segments, which name the file.
#[derive(Debug, PartialEq, Eq)]
pub struct ImageUrl {
    text: String,
    segments: Option<Vec<String>>,
}

/// The mathematical content of an [`ImageUrl`].
pub struct ImageUrlView {
    pub text: Seq<char>,
    /// `None` for a URL without a hierarchical path.
    pub segments: Option<Seq<Seq<char>>>,
}

impl View for ImageUrl {
    type V = ImageUrlView;

    closed spec fn view(&self) -> ImageUrlView {
        ImageUrlView { text: self.text@, segments: self.segments.deep_view() }
    }
}

impl ImageUrlView {
    /// The name under which the image is stored: the last path segment, or
    /// `wallpaper` where that segment is empty. A URL without path segments
    /// names nothing.
    pub open spec fn file_name(self) -> Result<Seq<char>, ErrorView> {
        match self.segments {
            None => Err(
                ErrorView::MalformedUrl { url: self.text, defect: UrlDefect::NoPathSegments },
            ),
            Some(list) => if list.len() == 0 {
                Err(ErrorView::MalformedUrl { url: self.text, defect: UrlDefect::NoFileName })
            } else if list.last().len() == 0 {
                Ok("wallpaper"@)
            } else {
                Ok(list.last())
            },
        }
    }
}

impl ImageUrl {
    /// A URL with the given text and path segments.
    pub fn new(text: String, segments: Option<Vec<String>>) -> (r: ImageUrl)
        ensures
            r@.text == text@,
            r@.segments == segments.deep_view(),
    {
        ImageUrl { text, segments }
    }

    /// Parses `text` as an absolute URL. A text that is none is a syntax
    /// defect. The text of the outcome is the parser's serialization of the
    /// URL, which may differ from `text`; its path segments, where it has
    /// any, are well split.
    pub fn parse(text: &str) -> (r: Result<ImageUrl, Error>)
        ensures
            match r {
                Ok(url) => parsed_url(text@) == Some(url@) && (url@.segments matches Some(list)
                    ==> well_split(list)),
                Err(e) => parsed_url(text@) is None && e@ == (ErrorView::MalformedUrl {
                    url: text@,
                    defect: UrlDefect::Syntax,
                }),
            },
    {
        match parse_url(text) {
            Ok(url) => Ok(url),
            Err(_) => Err(Error::MalformedUrl { url: text.to_owned(), defect: UrlDefect::Syntax }),
        }
    }

    /// The text of the URL.
    pub fn as_str(&self) -> (r: &str)
        ensures
            r@ == self@.text,
    {
        self.text.as_str()
    }

    /// The name under which the image is stored.
    pub fn file_name(&self) -> (r: Result<String, Error>)
        ensures
            match r {
                Ok(name) => self@.file_name() == Ok::<Seq<char>, ErrorView>(name@),
                Err(e) => self@.file_name() == Err::<Seq<char>, ErrorView>(e@),
            },
    {
        match &self.segments {
            None => Err(
                Error::MalformedUrl { url: self.text.clone(), defect: UrlDefect::NoPathSegments },
            ),
            Some(list) => {
                if list.len() == 0 {
                    Err(
                        Error::MalformedUrl {
                            url: self.text.clone(),
                            defect: UrlDefect::NoFileName,
                        },
                    )
                } else {
                    let last = &list[list.len() - 1];
                    if last.as_str().is_empty() {
                        Ok("wallpaper".to_owned())
                    } else {
                        Ok(last.clone())
                    }
                }
            },
        }
    }
}

} // verus!
