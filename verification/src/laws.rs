//! What holds of every download, whatever the URL and whatever the caller
//! reports.

use crate::directory::PathKind;
use crate::error::ErrorView;
use crate::fetch::{is_success, refused, Action, DownloadView, ReplyView};
use crate::image_url::{free_of, well_split, ImageUrlView};
use crate::location::Platform;
use vstd::prelude::*;

verus! {

/// Whether `reply` is the one that settles the directory for a download in
/// `state`: the directory was looked for and found, or was to be created and
/// has been.
pub open spec fn settles_directory(state: DownloadView, reply: ReplyView) -> bool {
    ||| state.next is ProbeDirectory && reply == ReplyView::Probed(PathKind::Directory)
    ||| state.next is CreateDirectory && reply == ReplyView::Created
}

/// Whether `reply` is the one that lets a download in `state` write the
/// file: the request was out and the server has answered with success.
pub open spec fn grants_store(state: DownloadView, reply: ReplyView) -> bool {
    &&& state.next is Request
    &&& reply matches ReplyView::Responded(status)
    &&& is_success(status)
}

/// Whether the reply at `i` settles the directory for the download that
/// `start` has become by then.
pub open spec fn settled_at(start: DownloadView, replies: Seq<ReplyView>, i: int) -> bool {
    &&& 0 <= i < replies.len()
    &&& start.after(replies.take(i)) matches Ok(state)
    &&& settles_directory(state, replies[i])
}

/// Whether the reply at `i` says that the directory has been created, to a
/// download that had asked for it.
pub open spec fn created_at(start: DownloadView, replies: Seq<ReplyView>, i: int) -> bool {
    &&& 0 < i < replies.len()
    &&& start.after(replies.take(i)) matches Ok(state)
    &&& state.next is CreateDirectory
    &&& replies[i] == ReplyView::Created
}

/// Whether the reply at `i` lets the download that `start` has become by
/// then write the file.
pub open spec fn granted_at(start: DownloadView, replies: Seq<ReplyView>, i: int) -> bool {
    &&& 0 <= i < replies.len()
    &&& start.after(replies.take(i)) matches Ok(state)
    &&& grants_store(state, replies[i])
}

/// A joined path begins with the directory and ends with the name, with at
/// most one character between them.
pub proof fn law_joined_shape(platform: Platform, dir: Seq<char>, name: Seq<char>)
    ensures
        dir.is_prefix_of(platform.joined(dir, name)),
        name.is_suffix_of(platform.joined(dir, name)),
        platform.joined(dir, name).len() <= dir.len() + 1 + name.len(),
{
    let path = platform.joined(dir, name);
    assert(path.subrange(0, dir.len() as int) =~= dir);
    assert(path.subrange(path.len() - name.len(), path.len() as int) =~= name);
}

/// A download never changes what it requests nor where it stores it.
pub proof fn law_target_is_fixed(start: DownloadView, replies: Seq<ReplyView>)
    ensures
        start.after(replies) matches Ok(reached) ==> {
            &&& reached.url == start.url
            &&& reached.directory == start.directory
            &&& reached.path == start.path
        },
    decreases replies.len(),
{
    if replies.len() > 0 {
        law_target_is_fixed(start, replies.drop_last());
    }
}

/// A URL whose last path segment is not empty is stored under exactly that
/// name, in the download directory, and no reply moves it elsewhere. The
/// name of a well split path holds no `/`.
pub proof fn law_named_by_last_segment(
    platform: Platform,
    cache_dir: Option<Seq<char>>,
    url: ImageUrlView,
    replies: Seq<ReplyView>,
)
    requires
        platform.base_directory(cache_dir) is Ok,
        url.segments matches Some(list) && list.len() > 0 && list.last().len() > 0,
    ensures
        DownloadView::begin(platform, cache_dir, url) matches Ok(start) && {
            let dir = platform.base_directory(cache_dir)->Ok_0;
            let name = url.segments->0.last();
            &&& start.directory == dir
            &&& start.path == platform.joined(dir, name)
            &&& dir.is_prefix_of(start.path)
            &&& name.is_suffix_of(start.path)
            &&& start.after(replies) matches Ok(reached) ==> reached.path == start.path
            &&& well_split(url.segments->0) ==> free_of(name, '/')
        },
{
    let dir = platform.base_directory(cache_dir)->Ok_0;
    law_joined_shape(platform, dir, url.segments->0.last());
    law_target_is_fixed(DownloadView::begin(platform, cache_dir, url)->Ok_0, replies);
}

/// A URL whose last path segment is empty, as when it ends in `/`, is
/// stored under the name `wallpaper`.
pub proof fn law_empty_segment_is_wallpaper(
    platform: Platform,
    cache_dir: Option<Seq<char>>,
    url: ImageUrlView,
    replies: Seq<ReplyView>,
)
    requires
        platform.base_directory(cache_dir) is Ok,
        url.segments matches Some(list) && list.len() > 0 && list.last().len() == 0,
    ensures
        url.file_name() == Ok::<Seq<char>, ErrorView>("wallpaper"@),
        DownloadView::begin(platform, cache_dir, url) matches Ok(start) && {
            let dir = platform.base_directory(cache_dir)->Ok_0;
            &&& start.path == platform.joined(dir, "wallpaper"@)
            &&& "wallpaper"@.is_suffix_of(start.path)
            &&& start.after(replies) matches Ok(reached) ==> reached.path == start.path
        },
{
    let dir = platform.base_directory(cache_dir)->Ok_0;
    law_joined_shape(platform, dir, "wallpaper"@);
    law_target_is_fixed(DownloadView::begin(platform, cache_dir, url)->Ok_0, replies);
}

/// Where there is a directory to download into, a URL without path segments
/// fails as malformed before any download exists, so that no action is ever
/// asked for on its behalf.
pub proof fn law_no_segments_no_download(
    platform: Platform,
    cache_dir: Option<Seq<char>>,
    url: ImageUrlView,
)
    requires
        platform.base_directory(cache_dir) is Ok,
        url.segments matches Some(list) ==> list.len() == 0,
    ensures
        DownloadView::begin(platform, cache_dir, url) matches Err(e) && e is MalformedUrl,
        url.file_name() is Err,
{
}

/// Two downloads of one URL into one cache directory write to the same
/// file, whatever happens on the way: the second replaces what the first
/// wrote.
pub proof fn law_same_url_same_file(
    platform: Platform,
    cache_dir: Option<Seq<char>>,
    url: ImageUrlView,
    first: Seq<ReplyView>,
    second: Seq<ReplyView>,
)
    requires
        DownloadView::begin(platform, cache_dir, url) matches Ok(start) && start.after(first) is Ok
            && start.after(second) is Ok,
    ensures
        ({
            let start = DownloadView::begin(platform, cache_dir, url)->Ok_0;
            start.after(first)->Ok_0.path == start.after(second)->Ok_0.path
        }),
{
    let start = DownloadView::begin(platform, cache_dir, url)->Ok_0;
    law_target_is_fixed(start, first);
    law_target_is_fixed(start, second);
}

/// Once the directory is known to exist, no reply makes the download doubt
/// it again.
pub proof fn law_ready_stays(reached: DownloadView, reply: ReplyView)
    requires
        reached.directory_ready(),
    ensures
        reached.step(reply) matches Ok(next) ==> next.directory_ready() && next.created
            == reached.created,
{
}

/// The request and the file come after the directory: a download that
/// does not yet know of the directory asks for the request, for the file or
/// for nothing more only after a reply that settled the directory.
pub proof fn law_directory_before_store(start: DownloadView, replies: Seq<ReplyView>)
    requires
        !start.directory_ready(),
        start.after(replies) matches Ok(reached) && reached.directory_ready(),
    ensures
        exists|i: int| settled_at(start, replies, i),
    decreases replies.len(),
{
    let last = replies.len() - 1;
    let earlier = replies.drop_last();
    assert(earlier == replies.take(last));
    let before = start.after(earlier)->Ok_0;
    if before.directory_ready() {
        law_directory_before_store(start, earlier);
        let i = choose|i: int| settled_at(start, earlier, i);
        assert(earlier.take(i) == replies.take(i));
        assert(settled_at(start, replies, i));
    } else {
        assert(settled_at(start, replies, last));
    }
}

/// A directory that is missing is created before anything is requested or
/// written: after a first reply that found nothing in its place, the
/// download gets further only through a reply that the directory has been
/// created, and remembers that it was.
pub proof fn law_missing_directory_is_created(start: DownloadView, replies: Seq<ReplyView>)
    requires
        start.next == Action::ProbeDirectory,
        replies.len() > 0,
        replies[0] == ReplyView::Probed(PathKind::Missing),
        start.after(replies) matches Ok(reached) && reached.directory_ready(),
    ensures
        start.after(replies)->Ok_0.created,
        exists|i: int| created_at(start, replies, i),
{
    lemma_missing_then_created(start, replies);
    law_directory_before_store(start, replies);
    let i = choose|i: int| settled_at(start, replies, i);
    if i == 0 {
        assert(replies.take(0) == Seq::<ReplyView>::empty());
    } else {
        assert(replies.take(i)[0] == replies[0]);
        lemma_missing_then_created(start, replies.take(i));
        assert(created_at(start, replies, i));
    }
}

proof fn lemma_missing_then_created(start: DownloadView, replies: Seq<ReplyView>)
    requires
        start.next == Action::ProbeDirectory,
        replies.len() > 0,
        replies[0] == ReplyView::Probed(PathKind::Missing),
    ensures
        start.after(replies) matches Ok(reached) ==> !(reached.next is ProbeDirectory) && (
        reached.directory_ready() ==> reached.created),
    decreases replies.len(),
{
    let earlier = replies.drop_last();
    if earlier.len() == 0 {
        assert(start.after(earlier) == Ok::<DownloadView, ErrorView>(start));
    } else {
        lemma_missing_then_created(start, earlier);
    }
}

/// A directory that is found in place is not created again: after that
/// reply the download never asks for it, whatever follows.
pub proof fn law_existing_directory_is_kept(start: DownloadView, replies: Seq<ReplyView>)
    requires
        start.next == Action::ProbeDirectory,
        !start.created,
        replies.len() > 0,
        replies[0] == ReplyView::Probed(PathKind::Directory),
    ensures
        start.after(replies) matches Ok(reached) ==> reached.directory_ready() && !reached.created,
    decreases replies.len(),
{
    let earlier = replies.drop_last();
    if earlier.len() == 0 {
        assert(start.after(earlier) == Ok::<DownloadView, ErrorView>(start));
    } else {
        law_existing_directory_is_kept(start, earlier);
    }
}

/// The file comes after the answer: a download asks for the file to be
/// written, or for nothing more, only after the server has answered its
/// request with a status of success. An answer such as 404 therefore leaves
/// no file behind.
pub proof fn law_success_before_store(start: DownloadView, replies: Seq<ReplyView>)
    requires
        !(start.next is Store || start.next is Finish),
        start.after(replies) matches Ok(reached) && (reached.next is Store || reached.next
            is Finish),
    ensures
        exists|i: int| granted_at(start, replies, i),
    decreases replies.len(),
{
    let last = replies.len() - 1;
    let earlier = replies.drop_last();
    assert(earlier == replies.take(last));
    let before = start.after(earlier)->Ok_0;
    if before.next is Store || before.next is Finish {
        law_success_before_store(start, earlier);
        let i = choose|i: int| granted_at(start, earlier, i);
        assert(earlier.take(i) == replies.take(i));
        assert(granted_at(start, replies, i));
    } else {
        assert(granted_at(start, replies, last));
    }
}

/// An answer with a status that is no success ends the download with a
/// network failure that carries the URL and the status.
pub proof fn law_refusal_fails(reached: DownloadView, status: u16)
    requires
        reached.next == Action::Request,
        !is_success(status),
    ensures
        reached.step(ReplyView::Responded(status)) == Err::<DownloadView, ErrorView>(
            refused(reached.url, status),
        ),
{
}

} // verus!
