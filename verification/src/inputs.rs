//! Gathering a release from what the caller asks for and what the manifest
//! tells: the defaults for its name, its tag, its target and its
//! description.

use vstd::prelude::*;
use crate::error::{view_of, PublishError, PublishErrorView};
use crate::release::{Release, ReleaseView, DEFAULT_TARGET};
use crate::text::chars_of;

verus! {

/// What the manifest tells of the package.
#[derive(Debug, PartialEq, Eq)]
pub struct PackageInfo {
    pub name: String,
    pub version: String,
}

/// The name of the release: the one asked for, else the package's name,
/// `" v"` and its version.
pub open spec fn chosen_name(
    explicit: Option<Seq<char>>,
    package_name: Seq<char>,
    package_version: Seq<char>,
) -> Seq<char> {
    match explicit {
        Some(name) => name,
        None => package_name + " v"@ + package_version,
    }
}

/// The tag of the release: the one asked for, else the package's version.
pub open spec fn chosen_tag(explicit: Option<Seq<char>>, package_version: Seq<char>) -> Seq<char> {
    match explicit {
        Some(tag) => tag,
        None => package_version,
    }
}

/// The commit that the tag points to: the one asked for, else `master`.
pub open spec fn chosen_target(explicit: Option<Seq<char>>) -> Seq<char> {
    match explicit {
        Some(commit) => commit,
        None => DEFAULT_TARGET@,
    }
}

/// The remote whose URL names the repository, where the caller names none.
pub const DEFAULT_REMOTE: &'static str = "origin";

/// The remote to look up: the one asked for, else `origin`.
pub open spec fn chosen_remote(explicit: Option<Seq<char>>) -> Seq<char> {
    match explicit {
        Some(remote) => remote,
        None => DEFAULT_REMOTE@,
    }
}

/// The descriptor that the caller's wishes and the manifest give: each wish
/// stands where it was made, the package fills in name and tag, and without
/// a package there is no release.
pub open spec fn described(
    package: Option<PackageInfo>,
    name: Option<Seq<char>>,
    tag: Option<Seq<char>>,
    commit: Option<Seq<char>>,
    body: Seq<char>,
    draft: bool,
    prerelease: bool,
) -> Result<ReleaseView, PublishErrorView> {
    match package {
        Some(found) => Ok(
            ReleaseView {
                tag_name: chosen_tag(tag, found.version@),
                target_commitsh: chosen_target(commit),
                name: chosen_name(name, found.name@, found.version@),
                body,
                draft,
                prerelease,
            },
        ),
        None => Err(PublishErrorView::ManifestNotFound),
    }
}

/// The name of the release: the one asked for, else the package's name and
/// version.
pub fn release_name(explicit: Option<String>, package_name: &str, package_version: &str) -> (r:
    String)
    ensures
        r@ == chosen_name(explicit.deep_view(), package_name@, package_version@),
{
    match explicit {
        Some(name) => name,
        None => {
            let mut name = String::from_str(package_name);
            name.append(" v");
            name.append(package_version);
            name
        },
    }
}

/// The tag of the release: the one asked for, else the package's version.
pub fn tag_name(explicit: Option<String>, package_version: &str) -> (r: String)
    ensures
        r@ == chosen_tag(explicit.deep_view(), package_version@),
{
    match explicit {
        Some(tag) => tag,
        None => String::from_str(package_version),
    }
}

/// The commit that the tag points to: the one asked for, else `master`.
pub fn target_commit(explicit: Option<String>) -> (r: String)
    ensures
        r@ == chosen_target(explicit.deep_view()),
{
    match explicit {
        Some(commit) => commit,
        None => String::from_str(DEFAULT_TARGET),
    }
}

/// The remote to look up: the one asked for, else `origin`.
pub fn remote_name(explicit: Option<String>) -> (r: String)
    ensures
        r@ == chosen_remote(explicit.deep_view()),
{
    match explicit {
        Some(remote) => remote,
        None => String::from_str(DEFAULT_REMOTE),
    }
}

/// Gathers the descriptor of the release from what the caller asked for and
/// what the manifest tells. `package` is `None` where no manifest was found,
/// and the result is then `ManifestNotFound`.
pub fn describe_release(
    package: Option<PackageInfo>,
    name: Option<String>,
    tag: Option<String>,
    commit: Option<String>,
    body: String,
    draft: bool,
    prerelease: bool,
) -> (r: Result<Release, PublishError>)
    ensures
        view_of(r) == described(
            package,
            name.deep_view(),
            tag.deep_view(),
            commit.deep_view(),
            body@,
            draft,
            prerelease,
        ),
{
    match package {
        Some(found) => Ok(
            Release::new()
                .name(release_name(name, found.name.as_str(), found.version.as_str()))
                .tag_name(tag_name(tag, found.version.as_str()))
                .body(body)
                .target_commitsh(target_commit(commit))
                .prerelease(prerelease)
                .draft(draft),
        ),
        None => Err(PublishError::ManifestNotFound),
    }
}

/// Where the description of a release comes from.
#[derive(Debug, PartialEq, Eq)]
pub enum BodySource {
    /// The text itself.
    Message(String),
    /// The path of a file that holds the text.
    File(String),
    /// Nowhere: the description is empty.
    Empty,
}

/// A `BodySource` with its texts as sequences of characters.
pub enum BodySourceView {
    Message(Seq<char>),
    File(Seq<char>),
    Empty,
}

impl View for BodySource {
    type V = BodySourceView;

    open spec fn view(&self) -> BodySourceView {
        match self {
            BodySource::Message(text) => BodySourceView::Message(text@),
            BodySource::File(path) => BodySourceView::File(path@),
            BodySource::Empty => BodySourceView::Empty,
        }
    }
}

/// Where the description comes from: a message wins over a file, and with
/// neither the description is empty.
pub fn body(message: Option<String>, file: Option<String>) -> (r: BodySource)
    ensures
        r@ == match (message, file) {
            (Some(text), _) => BodySourceView::Message(text@),
            (None, Some(path)) => BodySourceView::File(path@),
            (None, None) => BodySourceView::Empty,
        },
{
    match message {
        Some(text) => BodySource::Message(text),
        None => match file {
            Some(path) => BodySource::File(path),
            None => BodySource::Empty,
        },
    }
}

/// The characters that end a line.
pub open spec fn is_line_end(c: char) -> bool {
    c == '\n' || c == '\r'
}

/// A line without the line ends that close it.
pub open spec fn without_line_end(line: Seq<char>) -> Seq<char>
    decreases line.len(),
{
    if line.len() > 0 && is_line_end(line.last()) {
        without_line_end(line.drop_last())
    } else {
        line
    }
}

/// What was entered on a line that was read from the terminal: the line
/// without the line ends that close it. Nothing else is cut, neither spaces
/// nor a line end inside the line.
pub fn entered(line: &str) -> (r: String)
    ensures
        r@ == without_line_end(line@),
{
    let chars = chars_of(line);
    let mut end: usize = chars.len();
    proof {
        assert(chars@.take(end as int) =~= chars@);
    }
    while end > 0 && (chars[end - 1] == '\n' || chars[end - 1] == '\r')
        invariant
            end <= chars.len(),
            without_line_end(chars@.take(end as int)) == without_line_end(chars@),
        decreases end,
    {
        proof {
            assert(chars@.take(end as int).drop_last() =~= chars@.take(end - 1));
        }
        end = end - 1;
    }
    String::from_str(line.substring_char(0, end))
}

/// Whether an answer to "Is this correct?" calls the release off: it does
/// where it begins with `n` or `N`.
pub fn declines(answer: &str) -> (r: bool)
    ensures
        r == (answer@.len() > 0 && (answer@[0] == 'n' || answer@[0] == 'N')),
{
    if answer.is_empty() {
        false
    } else {
        let first = answer.get_char(0);
        first == 'n' || first == 'N'
    }
}

} // verus!
