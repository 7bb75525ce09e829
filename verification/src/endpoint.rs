//! From the URL of a version-control remote to the API endpoint that takes
//! the release.
//!
//! The rule is positional and knows no URL scheme: the URL is cut at every
//! `/` and `:`, the last piece that is not empty names the repository, the
//! one before it the owner. The host of the remote plays no part: the
//! endpoint is always on `api.github.com`.

use vstd::prelude::*;
use crate::error::{view_of, PublishError, PublishErrorView};
use crate::text::chars_of;

verus! {

/// Where the release is posted.
#[derive(Debug, PartialEq, Eq)]
pub struct ResolvedEndpoint {
    /// The fully qualified URL of the releases of one repository.
    pub api_url: String,
}

impl View for ResolvedEndpoint {
    type V = Seq<char>;

    open spec fn view(&self) -> Seq<char> {
        self.api_url@
    }
}

/// The characters at which a remote URL is cut.
pub open spec fn is_separator(c: char) -> bool {
    c == '/' || c == ':'
}

/// Where the run of characters without a separator that ends `text` begins.
pub open spec fn run_start(text: Seq<char>) -> int
    decreases text.len(),
{
    if text.len() == 0 || is_separator(text.last()) {
        text.len() as int
    } else {
        run_start(text.drop_last())
    }
}

/// The pieces of `text` between separators that are not empty, in order.
pub open spec fn segments(text: Seq<char>) -> Seq<Seq<char>>
    decreases text.len(),
    via segments_terminates
{
    if text.len() == 0 {
        Seq::empty()
    } else if is_separator(text.last()) {
        segments(text.drop_last())
    } else {
        segments(text.take(run_start(text))).push(text.skip(run_start(text)))
    }
}

#[via_fn]
proof fn segments_terminates(text: Seq<char>) {
    if text.len() > 0 && !is_separator(text.last()) {
        lemma_run_start_bounds(text);
    }
}

/// Whether a repository segment ends in `.git`.
pub open spec fn has_git_suffix(name: Seq<char>) -> bool {
    name.len() >= 4 && name.skip(name.len() - 4) =~= seq!['.', 'g', 'i', 't']
}

/// A repository segment without the `.git` that may end it.
pub open spec fn strip_git_suffix(name: Seq<char>) -> Seq<char> {
    if has_git_suffix(name) {
        name.take(name.len() - 4)
    } else {
        name
    }
}

/// Where the repositories of the one provider are found, whatever the host
/// of the remote.
pub const API_ROOT: &'static str = "https://api.github.com/repos/";

/// What follows a repository in the address of its releases.
pub const RELEASES_PATH: &'static str = "/releases";

/// The releases endpoint of the repository `repo` of `owner`.
pub open spec fn endpoint_text(owner: Seq<char>, repo: Seq<char>) -> Seq<char> {
    API_ROOT@ + owner + "/"@ + repo + RELEASES_PATH@
}

/// What a remote URL resolves to: its last segment names the repository, the
/// one before it the owner; a URL with fewer than two segments is malformed.
pub open spec fn remote_endpoint(url: Seq<char>) -> Result<Seq<char>, PublishErrorView> {
    let segs = segments(url);
    if segs.len() < 2 {
        Err(PublishErrorView::MalformedRemoteUrl(url))
    } else {
        Ok(endpoint_text(segs[segs.len() - 2], strip_git_suffix(segs.last())))
    }
}

/// What the resolver answers: an explicit endpoint as it is given; else the
/// endpoint of the remote's URL; and an error where the remote is absent.
pub open spec fn resolution(
    explicit: Option<Seq<char>>,
    remote_name: Seq<char>,
    remote_url: Option<Seq<char>>,
) -> Result<Seq<char>, PublishErrorView> {
    match explicit {
        Some(url) => Ok(url),
        None => match remote_url {
            Some(url) => remote_endpoint(url),
            None => Err(PublishErrorView::RemoteNotConfigured(remote_name)),
        },
    }
}

fn cuts(c: char) -> (r: bool)
    ensures
        r == is_separator(c),
{
    c == '/' || c == ':'
}

/// Steps back from `end` over the separators that stand before it.
fn skip_separators(chars: &Vec<char>, end: usize) -> (r: usize)
    requires
        end <= chars.len(),
    ensures
        r <= end,
        r > 0 ==> !is_separator(chars@[r - 1]),
        segments(chars@.take(r as int)) == segments(chars@.take(end as int)),
{
    let mut i: usize = end;
    while i > 0 && cuts(chars[i - 1])
        invariant
            i <= end <= chars.len(),
            segments(chars@.take(i as int)) == segments(chars@.take(end as int)),
        decreases i,
    {
        proof {
            assert(chars@.take(i as int).drop_last() =~= chars@.take(i - 1));
        }
        i = i - 1;
    }
    i
}

/// Steps back from `end` to where the run that ends there begins.
fn run_begin(chars: &Vec<char>, end: usize) -> (r: usize)
    requires
        end <= chars.len(),
    ensures
        r == run_start(chars@.take(end as int)),
{
    let mut i: usize = end;
    while i > 0 && !cuts(chars[i - 1])
        invariant
            i <= end <= chars.len(),
            run_start(chars@.take(i as int)) == run_start(chars@.take(end as int)),
        decreases i,
    {
        proof {
            assert(chars@.take(i as int).drop_last() =~= chars@.take(i - 1));
        }
        i = i - 1;
    }
    i
}

/// Whether the run of `chars` from `start` to `end` ends in `.git`.
fn ends_in_git(chars: &Vec<char>, start: usize, end: usize) -> (r: bool)
    requires
        start <= end <= chars.len(),
    ensures
        r == has_git_suffix(chars@.subrange(start as int, end as int)),
{
    let found = end - start >= 4 && chars[end - 4] == '.' && chars[end - 3] == 'g' && chars[end
        - 2] == 'i' && chars[end - 1] == 't';
    proof {
        let name = chars@.subrange(start as int, end as int);
        if name.len() >= 4 {
            let tail = name.skip(name.len() - 4);
            assert(tail[0] == chars@[end - 4]);
            assert(tail[1] == chars@[end - 3]);
            assert(tail[2] == chars@[end - 2]);
            assert(tail[3] == chars@[end - 1]);
        }
    }
    found
}

/// The endpoint of the repository that a remote URL names.
///
/// The URL is cut at every `/` and `:`. Its last segment, without a closing
/// `.git`, is the repository; the segment before it is the owner. With fewer
/// than two segments the URL is returned in `MalformedRemoteUrl`.
pub fn endpoint_from_remote(remote_url: &str) -> (r: Result<ResolvedEndpoint, PublishError>)
    ensures
        view_of(r) == remote_endpoint(remote_url@),
{
    let chars = chars_of(remote_url);
    let repo_end: usize = skip_separators(&chars, chars.len());
    proof {
        assert(chars@.take(chars.len() as int) =~= chars@);
    }
    if repo_end == 0 {
        return Err(PublishError::MalformedRemoteUrl(remote_url.to_owned()));
    }
    let repo_start: usize = run_begin(&chars, repo_end);
    proof {
        lemma_run_start_bounds(chars@.take(repo_end as int));
        assert(chars@.take(repo_end as int).take(repo_start as int) =~= chars@.take(
            repo_start as int,
        ));
        assert(chars@.take(repo_end as int).skip(repo_start as int) =~= chars@.subrange(
            repo_start as int,
            repo_end as int,
        ));
    }
    let owner_end: usize = skip_separators(&chars, repo_start);
    if owner_end == 0 {
        return Err(PublishError::MalformedRemoteUrl(remote_url.to_owned()));
    }
    let owner_start: usize = run_begin(&chars, owner_end);
    proof {
        lemma_run_start_bounds(chars@.take(owner_end as int));
        assert(chars@.take(owner_end as int).take(owner_start as int) =~= chars@.take(
            owner_start as int,
        ));
        assert(chars@.take(owner_end as int).skip(owner_start as int) =~= chars@.subrange(
            owner_start as int,
            owner_end as int,
        ));
    }
    let name_end: usize = if ends_in_git(&chars, repo_start, repo_end) {
        repo_end - 4
    } else {
        repo_end
    };
    proof {
        let repo = chars@.subrange(repo_start as int, repo_end as int);
        assert(strip_git_suffix(repo) =~= chars@.subrange(repo_start as int, name_end as int));
    }
    let mut api_url = String::from_str(API_ROOT);
    api_url.append(remote_url.substring_char(owner_start, owner_end));
    api_url.append("/");
    api_url.append(remote_url.substring_char(repo_start, name_end));
    api_url.append(RELEASES_PATH);
    Ok(ResolvedEndpoint { api_url })
}

/// The endpoint to post to.
///
/// An explicit endpoint is returned as it is given, unread. Without one the
/// endpoint is that of the remote's URL; where the repository has no remote
/// of the name asked for, `remote_url` is `None` and the name comes back in
/// `RemoteNotConfigured`.
pub fn resolve_endpoint(
    explicit: Option<String>,
    remote_name: &str,
    remote_url: Option<String>,
) -> (r: Result<ResolvedEndpoint, PublishError>)
    ensures
        view_of(r) == resolution(explicit.deep_view(), remote_name@, remote_url.deep_view()),
{
    match explicit {
        Some(api_url) => Ok(ResolvedEndpoint { api_url }),
        None => match remote_url {
            Some(url) => endpoint_from_remote(url.as_str()),
            None => Err(PublishError::RemoteNotConfigured(remote_name.to_owned())),
        },
    }
}

/// Whether `run` is a segment by itself: not empty, and without a separator.
pub open spec fn is_run(run: Seq<char>) -> bool {
    run.len() > 0 && forall|i: int| 0 <= i < run.len() ==> !is_separator(#[trigger] run[i])
}

/// Whether a segment can begin right after `prefix`: at the start of the
/// text or behind a separator.
pub open spec fn ends_at_cut(prefix: Seq<char>) -> bool {
    prefix.len() == 0 || is_separator(prefix.last())
}

/// A run begins inside its text, and before the end where the text ends in
/// a character that is no separator.
pub proof fn lemma_run_start_bounds(text: Seq<char>)
    ensures
        0 <= run_start(text) <= text.len(),
        text.len() > 0 && !is_separator(text.last()) ==> run_start(text) < text.len(),
        forall|i: int| run_start(text) <= i < text.len() ==> !is_separator(#[trigger] text[i]),
        run_start(text) > 0 ==> is_separator(text[run_start(text) - 1]),
    decreases text.len(),
{
    if text.len() > 0 && !is_separator(text.last()) {
        let head = text.drop_last();
        lemma_run_start_bounds(head);
        assert forall|i: int| run_start(text) <= i < text.len() implies !is_separator(
            #[trigger] text[i],
        ) by {
            if i < head.len() {
                assert(text[i] == head[i]);
            }
        }
    }
}

proof fn lemma_run_start_of_append(prefix: Seq<char>, run: Seq<char>)
    requires
        ends_at_cut(prefix),
        forall|i: int| 0 <= i < run.len() ==> !is_separator(#[trigger] run[i]),
    ensures
        run_start(prefix + run) == prefix.len(),
    decreases run.len(),
{
    let text = prefix + run;
    if run.len() == 0 {
        assert(text =~= prefix);
    } else {
        assert(text.last() == run[run.len() - 1]);
        assert(text.drop_last() =~= prefix + run.drop_last());
        lemma_run_start_of_append(prefix, run.drop_last());
    }
}

/// A separator at the end of a text adds no segment to it.
pub proof fn lemma_segments_skip_separator(text: Seq<char>, cut: char)
    requires
        is_separator(cut),
    ensures
        segments(text.push(cut)) == segments(text),
{
    assert(text.push(cut).drop_last() =~= text);
}

/// A run that begins at the start of the text or behind a separator, and
/// ends the text, is the last segment; the segments before it are those of
/// what precedes it.
pub proof fn lemma_segments_append_run(prefix: Seq<char>, run: Seq<char>)
    requires
        ends_at_cut(prefix),
        is_run(run),
    ensures
        segments(prefix + run) == segments(prefix).push(run),
{
    let text = prefix + run;
    lemma_run_start_of_append(prefix, run);
    assert(text.last() == run[run.len() - 1]);
    assert(text.take(prefix.len() as int) =~= prefix);
    assert(text.skip(prefix.len() as int) =~= run);
}

/// Every segment is a run: it is not empty and holds no separator.
pub proof fn lemma_segments_are_runs(text: Seq<char>)
    ensures
        forall|k: int| 0 <= k < segments(text).len() ==> is_run(#[trigger] segments(text)[k]),
    decreases text.len(),
{
    if text.len() == 0 {
        assert(segments(text).len() == 0);
    } else if is_separator(text.last()) {
        lemma_segments_are_runs(text.drop_last());
        assert(segments(text) == segments(text.drop_last()));
    } else {
        let start: int = run_start(text);
        let before = segments(text.take(start));
        let run = text.skip(start);
        lemma_run_start_bounds(text);
        lemma_segments_are_runs(text.take(start));
        assert forall|i: int| 0 <= i < run.len() implies !is_separator(#[trigger] run[i]) by {
            assert(run[i] == text[start + i]);
        }
        assert forall|k: int| 0 <= k < segments(text).len() implies is_run(
            #[trigger] segments(text)[k],
        ) by {
            if k < before.len() {
                assert(segments(text)[k] == before[k]);
            } else {
                assert(segments(text)[k] == run);
            }
        }
    }
}

/// The resolver is positional: a URL that ends in an owner, a separator and
/// a repository resolves to the endpoint of that owner and that repository,
/// whatever stands before them. Scheme, user and host of the remote, and the
/// choice between `/` and `:`, play no part.
pub proof fn lemma_resolution_is_positional(
    prefix: Seq<char>,
    owner: Seq<char>,
    cut: char,
    repo: Seq<char>,
)
    requires
        ends_at_cut(prefix),
        is_run(owner),
        is_separator(cut),
        is_run(repo),
    ensures
        remote_endpoint(prefix + owner + seq![cut] + repo) == Ok::<Seq<char>, PublishErrorView>(
            endpoint_text(owner, strip_git_suffix(repo)),
        ),
{
    let head = prefix + owner;
    lemma_segments_append_run(prefix, owner);
    assert(head + seq![cut] =~= head.push(cut));
    lemma_segments_skip_separator(head, cut);
    lemma_segments_append_run(head.push(cut), repo);
}

/// A URL without a separator has one segment at most, and is malformed.
pub proof fn lemma_single_segment_is_malformed(url: Seq<char>)
    requires
        forall|i: int| 0 <= i < url.len() ==> !is_separator(#[trigger] url[i]),
    ensures
        remote_endpoint(url) == Err::<Seq<char>, PublishErrorView>(
            PublishErrorView::MalformedRemoteUrl(url),
        ),
{
    if url.len() > 0 {
        let nothing = Seq::<char>::empty();
        assert(nothing + url =~= url);
        lemma_segments_append_run(nothing, url);
    }
}

} // verus!
