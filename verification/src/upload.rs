//! Uploading to a repository's host: from the repository URL to the `ssh` command line.

use vstd::prelude::*;

use crate::text::{decimal, owned, push_decimal, text_eq};

verus! {

/// The parts of a repository URL that the upload reads.
#[derive(Debug, PartialEq, Eq)]
pub struct RepoUrl {
    pub scheme: String,
    pub username: String,
    pub host: Option<String>,
    pub port: Option<u16>,
    pub path: String,
}

/// The parts of a repository URL, in terms of plain values.
pub struct RepoUrlView {
    pub scheme: Seq<char>,
    pub username: Seq<char>,
    pub host: Option<Seq<char>>,
    pub port: Option<u16>,
    pub path: Seq<char>,
}

impl View for RepoUrl {
    type V = RepoUrlView;

    open spec fn view(&self) -> RepoUrlView {
        RepoUrlView {
            scheme: self.scheme@,
            username: self.username@,
            host: match self.host {
                Some(h) => Some(h@),
                None => None,
            },
            port: self.port,
            path: self.path@,
        }
    }
}

/// What `url::Url::parse` makes of a text: the parts of the URL, or the error's text.
pub uninterp spec fn url_parse_result(text: Seq<char>) -> Result<RepoUrlView, Seq<char>>;

/// Parses a URL with `url::Url::parse`, and reads its scheme, user name, host, port and
/// path.
///
/// Trusted: the result is what `Url::parse` and the accessors of `Url` give for `text`,
/// converted to plain values; a failure carries the error's displayed text.
#[verifier::external_body]
fn parse_repo_url(text: &str) -> (r: Result<RepoUrl, String>)
    ensures
        match r {
            Ok(u) => url_parse_result(text@) == Ok::<RepoUrlView, Seq<char>>(u@),
            Err(e) => url_parse_result(text@) == Err::<RepoUrlView, Seq<char>>(e@),
        },
{
    match url::Url::parse(text) {
        Ok(u) => Ok(RepoUrl {
            scheme: u.scheme().to_string(),
            username: u.username().to_string(),
            host: u.host_str().map(String::from),
            port: u.port(),
            path: u.path().to_string(),
        }),
        Err(e) => Err(e.to_string()),
    }
}

/// Why an upload cannot start.
#[derive(Debug, PartialEq, Eq)]
pub enum UploadError {
    /// The repository URL does not parse; with the error's text.
    UnparsableUrl(String),
    /// The repository URL is not an `ssh://` URL.
    NotSsh,
    /// The repository URL names no host.
    NoHost,
}

/// An upload failure, in terms of plain values.
pub enum UploadErrorView {
    UnparsableUrl(Seq<char>),
    NotSsh,
    NoHost,
}

impl View for UploadError {
    type V = UploadErrorView;

    open spec fn view(&self) -> UploadErrorView {
        match self {
            UploadError::UnparsableUrl(e) => UploadErrorView::UnparsableUrl(e@),
            UploadError::NotSsh => UploadErrorView::NotSsh,
            UploadError::NoHost => UploadErrorView::NoHost,
        }
    }
}

/// Where `ssh` connects: the host, after the user name and `@` when there is one.
pub open spec fn ssh_destination(username: Seq<char>, host: Seq<char>) -> Seq<char> {
    if username.len() == 0 {
        host
    } else {
        username + "@"@ + host
    }
}

/// The `ssh` command line that runs `boi-upload` on the repository's host, in a terminal.
pub open spec fn upload_words(u: RepoUrlView) -> Result<Seq<Seq<char>>, UploadErrorView> {
    if u.scheme != "ssh"@ {
        Err(UploadErrorView::NotSsh)
    } else {
        match u.host {
            None => Err(UploadErrorView::NoHost),
            Some(h) => Ok(seq!["ssh"@, "-t"@] + match u.port {
                Some(p) => seq!["-p"@, decimal(p as nat)],
                None => Seq::empty(),
            } + seq![ssh_destination(u.username, h), "boi-upload"@, u.path]),
        }
    }
}

/// The text views of a command line.
pub open spec fn words_of(v: Seq<String>) -> Seq<Seq<char>> {
    v.map_values(|w: String| w@)
}

/// The `ssh` command line for a parsed repository URL.
pub fn upload_cmdline(u: &RepoUrl) -> (r: Result<Vec<String>, UploadError>)
    ensures
        match r {
            Ok(v) => upload_words(u@) == Ok::<Seq<Seq<char>>, UploadErrorView>(words_of(v@)),
            Err(e) => upload_words(u@) == Err::<Seq<Seq<char>>, UploadErrorView>(e@),
        },
{
    if !text_eq(u.scheme.as_str(), "ssh") {
        return Err(UploadError::NotSsh);
    }
    let host = match &u.host {
        None => {
            return Err(UploadError::NoHost);
        },
        Some(h) => h,
    };
    let mut v: Vec<String> = Vec::new();
    v.push(owned("ssh"));
    v.push(owned("-t"));
    match u.port {
        Some(p) => {
            v.push(owned("-p"));
            let mut ps = String::new();
            push_decimal(&mut ps, p as u64);
            v.push(ps);
        },
        None => {},
    }
    let dest = if u.username.as_str().is_empty() {
        host.clone()
    } else {
        let mut d = u.username.clone();
        d.append("@");
        d.append(host.as_str());
        d
    };
    v.push(dest);
    v.push(owned("boi-upload"));
    v.push(u.path.clone());
    assert(words_of(v@) =~= seq!["ssh"@, "-t"@] + match u@.port {
        Some(p) => seq!["-p"@, decimal(p as nat)],
        None => Seq::empty(),
    } + seq![ssh_destination(u@.username, host@), "boi-upload"@, u@.path]);
    Ok(v)
}

/// What the upload makes of a configured repository URL.
pub open spec fn upload_plan(repo_url: Seq<char>) -> Result<Seq<Seq<char>>, UploadErrorView> {
    match url_parse_result(repo_url) {
        Err(e) => Err(UploadErrorView::UnparsableUrl(e)),
        Ok(u) => upload_words(u),
    }
}

/// The `ssh` command line for a configured repository URL.
pub fn plan_upload(repo_url: &str) -> (r: Result<Vec<String>, UploadError>)
    ensures
        match r {
            Ok(v) => upload_plan(repo_url@) == Ok::<Seq<Seq<char>>, UploadErrorView>(words_of(v@)),
            Err(e) => upload_plan(repo_url@) == Err::<Seq<Seq<char>>, UploadErrorView>(e@),
        },
{
    match parse_repo_url(repo_url) {
        Err(e) => Err(UploadError::UnparsableUrl(e)),
        Ok(u) => upload_cmdline(&u),
    }
}

impl UploadError {
    /// The message with which boi gives up.
    pub fn message(&self) -> (m: String)
        ensures
            m@ == match self@ {
                UploadErrorView::UnparsableUrl(e) => "Can't parse configured repo_url ("@ + e
                    + "); what do I upload?"@,
                UploadErrorView::NotSsh => "Configured repo_url isn't an ssh:// URL; where do I connect?"@,
                UploadErrorView::NoHost => "Can't find SSH hostname of borg repo; where do I connect?"@,
            },
    {
        match self {
            UploadError::UnparsableUrl(e) => {
                let mut m = owned("Can't parse configured repo_url (");
                m.append(e.as_str());
                m.append("); what do I upload?");
                m
            },
            UploadError::NotSsh => owned("Configured repo_url isn't an ssh:// URL; where do I connect?"),
            UploadError::NoHost => owned("Can't find SSH hostname of borg repo; where do I connect?"),
        }
    }
}


/// The upload runs `ssh -t`, with `-p` and the port when the URL has one, then the
/// destination, `boi-upload` and the repository's path. The destination is the host, after
/// the user name and `@` whenever the URL has a non-empty user name, port or no port. Only an
/// `ssh://` URL with a host makes a command line.
pub proof fn law_upload_destination(u: RepoUrlView)
    ensures
        u.scheme != "ssh"@ ==> upload_words(u) == Err::<Seq<Seq<char>>, UploadErrorView>(
            UploadErrorView::NotSsh,
        ),
        u.scheme == "ssh"@ && u.host is None ==> upload_words(u) == Err::<Seq<Seq<char>>, UploadErrorView>(
            UploadErrorView::NoHost,
        ),
        u.scheme == "ssh"@ && u.host is Some ==> (upload_words(u) matches Ok(w) && {
            let h = u.host.unwrap();
            &&& w.len() == if u.port is Some { 7int } else { 5int }
            &&& w[0] == "ssh"@ && w[1] == "-t"@
            &&& (u.port matches Some(p) ==> w[2] == "-p"@ && w[3] == decimal(p as nat))
            &&& (u.username.len() > 0 ==> w[w.len() - 3] == u.username + "@"@ + h)
            &&& (u.username.len() == 0 ==> w[w.len() - 3] == h)
            &&& w[w.len() - 2] == "boi-upload"@
            &&& w[w.len() - 1] == u.path
        }),
{
}

} // verus!
