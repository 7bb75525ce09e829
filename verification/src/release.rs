//! The release descriptor, its wire form, and the provider's account of a
//! release that it created.

use vstd::prelude::*;
use crate::json::{
    json_document, json_string_literal, parse, quote, string_member, MAX_DOCUMENT_CHARS,
};

verus! {

/// A release before it is sent: a value that owns its fields and is built
/// step by step, each step handing back a new value.
///
/// A descriptor is fit to be published once `name` and `tag_name` are not
/// empty; seeing to that is the caller's part.
#[derive(Debug, PartialEq, Eq)]
pub struct Release {
    /// The tag to create or to use; one per repository.
    pub tag_name: String,
    /// The commit or branch that the tag points to.
    pub target_commitsh: String,
    /// The title of the release.
    pub name: String,
    /// The description; may be empty.
    pub body: String,
    pub draft: bool,
    pub prerelease: bool,
}

/// A `Release` with its texts as sequences of characters.
pub struct ReleaseView {
    pub tag_name: Seq<char>,
    pub target_commitsh: Seq<char>,
    pub name: Seq<char>,
    pub body: Seq<char>,
    pub draft: bool,
    pub prerelease: bool,
}

impl View for Release {
    type V = ReleaseView;

    open spec fn view(&self) -> ReleaseView {
        ReleaseView {
            tag_name: self.tag_name@,
            target_commitsh: self.target_commitsh@,
            name: self.name@,
            body: self.body@,
            draft: self.draft,
            prerelease: self.prerelease,
        }
    }
}

/// The target of a release that names none.
pub const DEFAULT_TARGET: &'static str = "master";

/// How JSON writes a truth value.
pub open spec fn json_bool_literal(b: bool) -> Seq<char> {
    if b {
        "true"@
    } else {
        "false"@
    }
}

/// The wire form of a release, given the JSON literals of its four texts:
/// one object, indented by two spaces, whose keys are always these six, in
/// this order. The texts are JSON strings, the flags JSON truth values.
pub open spec fn wire_text(
    tag_name: Seq<char>,
    target_commitsh: Seq<char>,
    name: Seq<char>,
    body: Seq<char>,
    draft: bool,
    prerelease: bool,
) -> Seq<char> {
    "{\n  \"tag_name\": "@ + tag_name + ",\n  \"target_commitsh\": "@ + target_commitsh
        + ",\n  \"name\": "@ + name + ",\n  \"body\": "@ + body + ",\n  \"draft\": "@
        + json_bool_literal(draft) + ",\n  \"prerelease\": "@ + json_bool_literal(prerelease)
        + "\n}"@
}

impl ReleaseView {
    /// The descriptor that every build starts from: nothing set, the target
    /// `master`.
    pub open spec fn initial() -> ReleaseView {
        ReleaseView {
            tag_name: Seq::empty(),
            target_commitsh: DEFAULT_TARGET@,
            name: Seq::empty(),
            body: Seq::empty(),
            draft: false,
            prerelease: false,
        }
    }

    /// Whether the descriptor may be published: it has a name and a tag.
    pub open spec fn is_valid(self) -> bool {
        self.name.len() > 0 && self.tag_name.len() > 0
    }

    /// The JSON text that stands for the descriptor on the wire.
    pub open spec fn wire_json(self) -> Seq<char> {
        wire_text(
            json_string_literal(self.tag_name),
            json_string_literal(self.target_commitsh),
            json_string_literal(self.name),
            json_string_literal(self.body),
            self.draft,
            self.prerelease,
        )
    }
}

/// Writes the wire form of a release from the JSON literals of its texts.
pub fn render_wire_json(
    tag_name: &str,
    target_commitsh: &str,
    name: &str,
    body: &str,
    draft: bool,
    prerelease: bool,
) -> (text: String)
    ensures
        text@ == wire_text(tag_name@, target_commitsh@, name@, body@, draft, prerelease),
{
    let mut text = String::from_str("{\n  \"tag_name\": ");
    text.append(tag_name);
    text.append(",\n  \"target_commitsh\": ");
    text.append(target_commitsh);
    text.append(",\n  \"name\": ");
    text.append(name);
    text.append(",\n  \"body\": ");
    text.append(body);
    text.append(",\n  \"draft\": ");
    text.append(if draft { "true" } else { "false" });
    text.append(",\n  \"prerelease\": ");
    text.append(if prerelease { "true" } else { "false" });
    text.append("\n}");
    text
}

impl Release {
    /// A descriptor with nothing set: empty texts, the target `master`,
    /// neither draft nor prerelease.
    pub fn new() -> (r: Release)
        ensures
            r@ == ReleaseView::initial(),
    {
        Release {
            body: String::new(),
            name: String::new(),
            tag_name: String::new(),
            target_commitsh: String::from_str(DEFAULT_TARGET),
            draft: false,
            prerelease: false,
        }
    }

    /// A descriptor of the six values given. Any strings are taken.
    pub fn build(
        name: String,
        tag_name: String,
        target_commit: String,
        body: String,
        draft: bool,
        prerelease: bool,
    ) -> (r: Release)
        ensures
            r@ == (ReleaseView {
                tag_name: tag_name@,
                target_commitsh: target_commit@,
                name: name@,
                body: body@,
                draft,
                prerelease,
            }),
    {
        Release { tag_name, target_commitsh: target_commit, name, body, draft, prerelease }
    }

    /// The same descriptor under another name.
    pub fn name(self, name: String) -> (r: Release)
        ensures
            r@ == (ReleaseView { name: name@, ..self@ }),
    {
        Release { name, ..self }
    }

    /// The same descriptor with another description.
    pub fn body(self, body: String) -> (r: Release)
        ensures
            r@ == (ReleaseView { body: body@, ..self@ }),
    {
        Release { body, ..self }
    }

    /// The same descriptor for another tag.
    pub fn tag_name(self, tag_name: String) -> (r: Release)
        ensures
            r@ == (ReleaseView { tag_name: tag_name@, ..self@ }),
    {
        Release { tag_name, ..self }
    }

    /// The same descriptor with the tag on another commit.
    pub fn target_commitsh(self, target_commitsh: String) -> (r: Release)
        ensures
            r@ == (ReleaseView { target_commitsh: target_commitsh@, ..self@ }),
    {
        Release { target_commitsh, ..self }
    }

    /// The same descriptor, marked as a prerelease or not.
    pub fn prerelease(self, prerelease: bool) -> (r: Release)
        ensures
            r@ == (ReleaseView { prerelease, ..self@ }),
    {
        Release { prerelease, ..self }
    }

    /// The same descriptor, marked as a draft or not.
    pub fn draft(self, draft: bool) -> (r: Release)
        ensures
            r@ == (ReleaseView { draft, ..self@ }),
    {
        Release { draft, ..self }
    }

    /// Whether the descriptor has a name and a tag.
    pub fn is_valid(&self) -> (r: bool)
        ensures
            r == self@.is_valid(),
    {
        !self.name.as_str().is_empty() && !self.tag_name.as_str().is_empty()
    }

    /// The descriptor as JSON text for the wire. The text depends on the
    /// fields alone, so equal descriptors give equal texts, and the call
    /// never fails.
    pub fn to_json(&self) -> (r: Result<String, serde_json::Error>)
        ensures
            r is Ok,
            r->Ok_0@ == self@.wire_json(),
    {
        let tag_name = match quote(self.tag_name.as_str()) {
            Ok(literal) => literal,
            Err(e) => { return Err(e); },
        };
        let target_commitsh = match quote(self.target_commitsh.as_str()) {
            Ok(literal) => literal,
            Err(e) => { return Err(e); },
        };
        let name = match quote(self.name.as_str()) {
            Ok(literal) => literal,
            Err(e) => { return Err(e); },
        };
        let body = match quote(self.body.as_str()) {
            Ok(literal) => literal,
            Err(e) => { return Err(e); },
        };
        Ok(
            render_wire_json(
                tag_name.as_str(),
                target_commitsh.as_str(),
                name.as_str(),
                body.as_str(),
                self.draft,
                self.prerelease,
            ),
        )
    }
}

impl Default for Release {
    fn default() -> (r: Release)
        ensures
            r@ == ReleaseView::initial(),
    {
        Release::new()
    }
}

/// What the provider tells of a release that it created. Only the address of
/// the release's page is required of an answer; the other two are kept where
/// the answer has them.
#[derive(Debug, PartialEq, Eq)]
pub struct ReleaseResponse {
    /// The address of the release in the API.
    pub url: Option<String>,
    /// The address of the release's page.
    pub html_url: String,
    /// The address that takes the release's assets.
    pub upload_url: Option<String>,
}

/// A `ReleaseResponse` with its texts as sequences of characters.
pub struct ReleaseResponseView {
    pub url: Option<Seq<char>>,
    pub html_url: Seq<char>,
    pub upload_url: Option<Seq<char>>,
}

impl View for ReleaseResponse {
    type V = ReleaseResponseView;

    open spec fn view(&self) -> ReleaseResponseView {
        ReleaseResponseView {
            url: self.url.deep_view(),
            html_url: self.html_url@,
            upload_url: self.upload_url.deep_view(),
        }
    }
}

/// The view of a release response that may be absent.
pub open spec fn response_view(response: Option<ReleaseResponse>) -> Option<ReleaseResponseView> {
    match response {
        Some(found) => Some(found@),
        None => None,
    }
}

/// The value under `key`, where the members have one.
pub open spec fn member(members: Map<Seq<char>, Seq<char>>, key: Seq<char>) -> Option<Seq<char>> {
    if members.contains_key(key) {
        Some(members[key])
    } else {
        None
    }
}

/// The release that three members of an answer describe: there is one
/// exactly where `html_url` is present.
pub open spec fn response_of_members(
    url: Option<Seq<char>>,
    html_url: Option<Seq<char>>,
    upload_url: Option<Seq<char>>,
) -> Option<ReleaseResponseView> {
    match html_url {
        Some(page) => Some(ReleaseResponseView { url, html_url: page, upload_url }),
        None => None,
    }
}

/// The release that a body describes: the body is no longer than the limit
/// for JSON texts, it is a JSON document, and it has a string under
/// `html_url`.
pub open spec fn release_response_in(body: Seq<char>) -> Option<ReleaseResponseView> {
    if body.len() > MAX_DOCUMENT_CHARS {
        None
    } else {
        match json_document(body) {
            Some(members) => response_of_members(
                member(members, "url"@),
                member(members, "html_url"@),
                member(members, "upload_url"@),
            ),
            None => None,
        }
    }
}

impl ReleaseResponse {
    /// The release that three members of an answer describe, if `html_url`
    /// is among them.
    pub fn from_members(
        url: Option<String>,
        html_url: Option<String>,
        upload_url: Option<String>,
    ) -> (r: Option<ReleaseResponse>)
        ensures
            response_view(r) == response_of_members(
                url.deep_view(),
                html_url.deep_view(),
                upload_url.deep_view(),
            ),
    {
        match html_url {
            Some(page) => Some(ReleaseResponse { url, html_url: page, upload_url }),
            None => None,
        }
    }

    /// Reads a release out of the body of an answer. There is none where the
    /// body is longer than the limit for JSON texts, none where it is not
    /// well-formed JSON, and none where it is not an object with a string
    /// under `html_url`.
    pub fn from_json(body: &str) -> (r: Option<ReleaseResponse>)
        ensures
            response_view(r) == release_response_in(body@),
    {
        if body.unicode_len() > MAX_DOCUMENT_CHARS {
            return None;
        }
        match parse(body) {
            Ok(document) => {
                let url = string_member(&document, "url");
                let html_url = string_member(&document, "html_url");
                let upload_url = string_member(&document, "upload_url");
                ReleaseResponse::from_members(url, html_url, upload_url)
            },
            Err(_) => None,
        }
    }
}

/// Two descriptors with the same fields have the same wire form: the text
/// that `to_json` gives is the same every time, key for key.
pub proof fn lemma_wire_json_is_deterministic(a: Release, b: Release)
    requires
        a@ == b@,
    ensures
        a@.wire_json() == b@.wire_json(),
{
}

/// The flags can be read off the wire form: two descriptors with the same
/// texts and the same wire form have the same flags.
pub proof fn lemma_wire_json_keeps_flags(a: ReleaseView, b: ReleaseView)
    requires
        a.tag_name == b.tag_name,
        a.target_commitsh == b.target_commitsh,
        a.name == b.name,
        a.body == b.body,
        a.wire_json() == b.wire_json(),
    ensures
        a.draft == b.draft,
        a.prerelease == b.prerelease,
{
    reveal_strlit("true");
    reveal_strlit("false");
    let texts = "{\n  \"tag_name\": "@ + json_string_literal(a.tag_name)
        + ",\n  \"target_commitsh\": "@ + json_string_literal(a.target_commitsh)
        + ",\n  \"name\": "@ + json_string_literal(a.name) + ",\n  \"body\": "@
        + json_string_literal(a.body) + ",\n  \"draft\": "@;
    let between = ",\n  \"prerelease\": "@;
    let close = "\n}"@;
    let x = a.wire_json();
    let y = b.wire_json();
    assert(x == texts + json_bool_literal(a.draft) + between + json_bool_literal(a.prerelease)
        + close);
    assert(y == texts + json_bool_literal(b.draft) + between + json_bool_literal(b.prerelease)
        + close);
    let n: int = texts.len() as int;
    assert(x[n] == json_bool_literal(a.draft)[0]);
    assert(y[n] == json_bool_literal(b.draft)[0]);
    assert(a.draft == b.draft);
    let m: int = n + json_bool_literal(a.draft).len() + between.len();
    assert(x[m] == json_bool_literal(a.prerelease)[0]);
    assert(y[m] == json_bool_literal(b.prerelease)[0]);
}

} // verus!
