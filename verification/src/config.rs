//! The boi configuration: global settings and the Borg repositories to work with.

use indexmap::IndexMap;
use vstd::prelude::*;

use crate::text::{chars_of, find_char, owned};

verus! {

#[verifier::external_type_specification]
#[verifier::external_body]
#[verifier::reject_recursive_types(K)]
#[verifier::reject_recursive_types(V)]
#[verifier::reject_recursive_types(S)]
pub struct ExIndexMap<K, V, S>(indexmap::IndexMap<K, V, S>);

/// Settings that may apply to any subcommand.
#[derive(Debug, PartialEq, Eq)]
pub struct GlobalConfig {
    /// A timezone for all timezone-sensitive commands, whatever the system-wide setting.
    /// Borg's `prune` depends on it to compute which archives to delete.
    timezone: String,
}

/// Settings for one Borg repository.
#[derive(Debug, PartialEq, Eq)]
pub struct RepoConfig {
    /// The repository URL, `$BORG_REPO`.
    repo_url: String,
    /// A command that prints the repository's passphrase, `$BORG_PASSCOMMAND`.
    password_command: String,
    /// The path to the borg binary on the remote host, `$BORG_REMOTE_PATH`.
    remote_path: Option<String>,
}

/// The whole configuration.
pub struct Config {
    global: GlobalConfig,
    /// The repositories by name, in the order of the configuration file.
    repos: IndexMap<String, RepoConfig>,
}

/// The repositories that an `IndexMap` holds, in its order: each name with its settings.
pub uninterp spec fn repo_entries(m: IndexMap<String, RepoConfig>) -> Seq<(Seq<char>, RepoConfig)>;

/// The number of repositories, through `IndexMap::len`.
///
/// Trusted: `len` counts the entries of the map.
#[verifier::external_body]
fn repo_count(m: &IndexMap<String, RepoConfig>) -> (n: usize)
    ensures
        n == repo_entries(*m).len(),
{
    m.len()
}

/// The repository at a position, through `IndexMap::get_index`.
///
/// Trusted: `get_index` gives the entry at that position in the map's order, and nothing
/// past its end.
#[verifier::external_body]
fn repo_at(m: &IndexMap<String, RepoConfig>, i: usize) -> (r: Option<(&String, &RepoConfig)>)
    ensures
        i < repo_entries(*m).len() ==> r is Some && r.unwrap().0@ == repo_entries(*m)[i as int].0
            && *r.unwrap().1 == repo_entries(*m)[i as int].1,
        i >= repo_entries(*m).len() ==> r is None,
{
    m.get_index(i)
}

/// The position of the repository with a name, through `IndexMap::get_index_of`.
///
/// Trusted: `get_index_of` gives the position of the entry whose key equals `name`, and
/// nothing when no key does.
#[verifier::external_body]
fn repo_position(m: &IndexMap<String, RepoConfig>, name: &str) -> (r: Option<usize>)
    ensures
        r is None <==> forall|i: int|
            0 <= i < repo_entries(*m).len() ==> (#[trigger] repo_entries(*m)[i]).0 != name@,
        r is Some ==> r.unwrap() < repo_entries(*m).len() && repo_entries(*m)[r.unwrap() as int].0
            == name@,
{
    m.get_index_of(name)
}

impl Clone for RepoConfig {
    fn clone(&self) -> (r: RepoConfig)
        ensures
            r == *self,
    {
        RepoConfig {
            repo_url: self.repo_url.clone(),
            password_command: self.password_command.clone(),
            remote_path: match &self.remote_path {
                Some(p) => Some(p.clone()),
                None => None,
            },
        }
    }
}

impl GlobalConfig {
    pub fn new(timezone: String) -> (g: GlobalConfig)
        ensures
            g.spec_timezone() == timezone@,
    {
        GlobalConfig { timezone }
    }

    pub closed spec fn spec_timezone(&self) -> Seq<char> {
        self.timezone@
    }

    /// The configured timezone.
    pub fn timezone(&self) -> (tz: &str)
        ensures
            tz@ == self.spec_timezone(),
    {
        self.timezone.as_str()
    }
}

/// The environment that points Borg at a repository, in the order it is set.
pub open spec fn repo_env(url: Seq<char>, pass_cmd: Seq<char>, remote: Option<Seq<char>>) -> Seq<(Seq<char>, Seq<char>)> {
    seq![("BORG_REPO"@, url), ("BORG_PASSCOMMAND"@, pass_cmd)] + match remote {
        Some(p) => seq![("BORG_REMOTE_PATH"@, p)],
        None => Seq::empty(),
    }
}

/// The text views of environment settings.
pub open spec fn env_view(env: Seq<(&'static str, String)>) -> Seq<(Seq<char>, Seq<char>)> {
    env.map_values(|e: (&'static str, String)| (e.0@, e.1@))
}

impl RepoConfig {
    pub fn new(repo_url: String, password_command: String, remote_path: Option<String>) -> (r: RepoConfig)
        ensures
            r.spec_repo_url() == repo_url@,
            r.spec_password_command() == password_command@,
            r.spec_remote_path() == match remote_path {
                Some(p) => Some(p@),
                None => None,
            },
    {
        RepoConfig { repo_url, password_command, remote_path }
    }

    pub closed spec fn spec_repo_url(&self) -> Seq<char> {
        self.repo_url@
    }

    pub closed spec fn spec_password_command(&self) -> Seq<char> {
        self.password_command@
    }

    pub closed spec fn spec_remote_path(&self) -> Option<Seq<char>> {
        match self.remote_path {
            Some(p) => Some(p@),
            None => None,
        }
    }

    /// The environment variables that point Borg at this repository.
    pub fn env(&self) -> (env: Vec<(&'static str, String)>)
        ensures
            env_view(env@) == repo_env(
                self.spec_repo_url(),
                self.spec_password_command(),
                self.spec_remote_path(),
            ),
    {
        let mut env: Vec<(&'static str, String)> = Vec::new();
        env.push(("BORG_REPO", self.repo_url.clone()));
        env.push(("BORG_PASSCOMMAND", self.password_command.clone()));
        match &self.remote_path {
            Some(p) => env.push(("BORG_REMOTE_PATH", p.clone())),
            None => {},
        }
        assert(env_view(env@) =~= repo_env(
            self.spec_repo_url(),
            self.spec_password_command(),
            self.spec_remote_path(),
        ));
        env
    }

    /// The repository URL.
    pub fn repo_url(&self) -> (u: &str)
        ensures
            u@ == self.spec_repo_url(),
    {
        self.repo_url.as_str()
    }
}

} // verus!

verus! {

/// Why no single repository could be chosen from the configuration.
#[derive(Debug, PartialEq, Eq)]
pub enum RepoChoiceError {
    /// Several repositories are configured and none was named.
    MoreThanOne,
    /// No repository is configured.
    NoRepos,
    /// No repository has the given name.
    Unknown(String),
}

/// What `{:?}` displays for a string: the string quoted, with special characters escaped.
pub uninterp spec fn debug_quoted_text(s: Seq<char>) -> Seq<char>;

/// Quotes a string as its `Debug` implementation does, through `format!("{:?}")`.
///
/// Trusted: the text is what `<str as Debug>` writes for `s`.
#[verifier::external_body]
fn debug_quoted(s: &str) -> (r: String)
    ensures
        r@ == debug_quoted_text(s@),
{
    format!("{:?}", s)
}

impl RepoChoiceError {
    /// The message with which boi gives up.
    pub fn message(&self) -> (m: String)
        ensures
            m@ == match self {
                RepoChoiceError::MoreThanOne => "Found more than one repo in your config; you'll need to pick one."@,
                RepoChoiceError::NoRepos => "Can't find any repos in your config; what do I operate on?"@,
                RepoChoiceError::Unknown(name) => "Can't find any "@ + debug_quoted_text(name@)
                    + " repo in your config; what do I operate on?"@,
            },
    {
        match self {
            RepoChoiceError::MoreThanOne => owned(
                "Found more than one repo in your config; you'll need to pick one.",
            ),
            RepoChoiceError::NoRepos => owned(
                "Can't find any repos in your config; what do I operate on?",
            ),
            RepoChoiceError::Unknown(name) => {
                let mut m = owned("Can't find any ");
                m.append(debug_quoted(name.as_str()).as_str());
                m.append(" repo in your config; what do I operate on?");
                m
            },
        }
    }
}

impl Config {
    /// A configuration made of global settings and repositories by name.
    pub fn new(global: GlobalConfig, repos: IndexMap<String, RepoConfig>) -> (c: Config)
        ensures
            c.spec_global() == global,
            c.spec_repos() == repo_entries(repos),
    {
        Config { global, repos }
    }

    pub closed spec fn spec_global(&self) -> GlobalConfig {
        self.global
    }

    /// The configured repositories, in order, each by name.
    pub closed spec fn spec_repos(&self) -> Seq<(Seq<char>, RepoConfig)> {
        repo_entries(self.repos)
    }

    /// The global settings.
    pub fn global(&self) -> (g: &GlobalConfig)
        ensures
            *g == self.spec_global(),
    {
        &self.global
    }

    /// All configured repositories, in the order of the configuration.
    pub fn repos(&self) -> (r: Vec<(&str, &RepoConfig)>)
        ensures
            r@.len() == self.spec_repos().len(),
            forall|i: int|
                0 <= i < r@.len() ==> (#[trigger] r@[i]).0@ == self.spec_repos()[i].0 && *r@[i].1
                    == self.spec_repos()[i].1,
    {
        let n = repo_count(&self.repos);
        let mut r: Vec<(&str, &RepoConfig)> = Vec::new();
        let mut i: usize = 0;
        while i < n
            invariant
                n == self.spec_repos().len(),
                i <= n,
                r@.len() == i,
                forall|j: int|
                    0 <= j < i ==> (#[trigger] r@[j]).0@ == self.spec_repos()[j].0 && *r@[j].1
                        == self.spec_repos()[j].1,
            decreases n - i,
        {
            let e = repo_at(&self.repos, i).unwrap();
            r.push((e.0.as_str(), e.1));
            i = i + 1;
        }
        r
    }

    /// The only configured repository; failing when there is none or more than one.
    pub fn one(&self) -> (r: Result<(&str, &RepoConfig), RepoChoiceError>)
        ensures
            self.spec_repos().len() == 1 ==> (r matches Ok(p) && p.0@ == self.spec_repos()[0].0
                && *p.1 == self.spec_repos()[0].1),
            self.spec_repos().len() > 1 ==> r matches Err(RepoChoiceError::MoreThanOne),
            self.spec_repos().len() == 0 ==> r matches Err(RepoChoiceError::NoRepos),
    {
        match repo_at(&self.repos, 0) {
            Some(e) => {
                if repo_count(&self.repos) == 1 {
                    Ok((e.0.as_str(), e.1))
                } else {
                    Err(RepoChoiceError::MoreThanOne)
                }
            },
            None => Err(RepoChoiceError::NoRepos),
        }
    }

    /// The repository with the given name; failing when none has it.
    pub fn get(&self, name: &str) -> (r: Result<&RepoConfig, RepoChoiceError>)
        ensures
            (r is Ok) <==> exists|i: int|
                0 <= i < self.spec_repos().len() && (#[trigger] self.spec_repos()[i]).0 == name@,
            r matches Ok(c) ==> exists|i: int|
                0 <= i < self.spec_repos().len() && (#[trigger] self.spec_repos()[i]).0 == name@
                    && self.spec_repos()[i].1 == *c,
            r matches Err(e) ==> e matches RepoChoiceError::Unknown(n) && n@ == name@,
    {
        match repo_position(&self.repos, name) {
            Some(i) => {
                let e = repo_at(&self.repos, i).unwrap();
                assert(self.spec_repos()[i as int].0 == name@);
                Ok(e.1)
            },
            None => Err(RepoChoiceError::Unknown(owned(name))),
        }
    }
}

/// Why the configuration could not be loaded.
#[derive(Debug, PartialEq, Eq)]
pub enum LoadError {
    /// The file is missing or cannot be read; with the error's text.
    Open(String),
    /// The file is not valid TOML: the parser's short message, and its full report.
    Parse { message: String, detail: String },
}

impl LoadError {
    /// The error as a short text.
    pub fn describe(&self) -> (s: String)
        ensures
            s@ == match self {
                LoadError::Open(e) => e@,
                LoadError::Parse { message, .. } => message@,
            },
    {
        match self {
            LoadError::Open(e) => e.clone(),
            LoadError::Parse { message, .. } => message.clone(),
        }
    }

    /// The message with which boi gives up.
    pub fn die_message(&self) -> (s: String)
        ensures
            s@ == match self {
                LoadError::Open(e) => "Can't load the boi config ("@ + e@ + "); I can't do anything!"@,
                LoadError::Parse { detail, .. } => "Can't load the boi config; I can't do anything!\n\n"@
                    + detail@,
            },
    {
        match self {
            LoadError::Open(e) => {
                let mut s = owned("Can't load the boi config (");
                s.append(e.as_str());
                s.append("); I can't do anything!");
                s
            },
            LoadError::Parse { detail, .. } => {
                let mut s = owned("Can't load the boi config; I can't do anything!\n\n");
                s.append(detail.as_str());
                s
            },
        }
    }
}

/// `path` with the relative component `rel` pushed onto it, as `PathBuf::push` does on Unix:
/// a separator goes between them unless `path` is empty or already ends with one.
pub open spec fn path_join(path: Seq<char>, rel: Seq<char>) -> Seq<char> {
    if path.len() == 0 || path.last() == '/' {
        path + rel
    } else {
        path + "/"@ + rel
    }
}

/// Pushes a relative component onto a path.
pub fn join_path(path: &str, rel: &str) -> (r: String)
    ensures
        r@ == path_join(path@, rel@),
{
    let p = chars_of(path);
    let mut r = owned(path);
    if p.len() > 0 && p[p.len() - 1] != '/' {
        r.append("/");
    }
    r.append(rel);
    r
}

/// The entries of a colon-separated path list, as `std::env::split_paths` reads it on Unix:
/// every colon separates two entries, so an empty list is one empty entry.
pub open spec fn split_paths(s: Seq<char>) -> Seq<Seq<char>>
    decreases s.len(),
{
    if find_char(s, ':') < s.len() {
        seq![s.take(find_char(s, ':') as int)] + split_paths(s.skip(find_char(s, ':') + 1int))
    } else {
        seq![s]
    }
}

/// Where to look for the configuration file.
#[derive(Debug, PartialEq, Eq)]
pub enum ConfigSearch {
    /// Only this file, which must exist.
    Exactly(String),
    /// The first of these files that exists.
    FirstExisting(Vec<String>),
}

/// The configuration file inside a configuration directory.
pub open spec fn boi_file_in(dir: Seq<char>) -> Seq<char> {
    path_join(path_join(dir, "boi"@), "boi.toml"@)
}

/// The configuration files to look for, in order, given `$BOI_CONFIG_DIR_PATH`,
/// `$XDG_CONFIG_HOME`, the home directory and `$XDG_CONFIG_DIRS`.
pub open spec fn config_candidates(
    xdg_home: Option<Seq<char>>,
    home: Option<Seq<char>>,
    xdg_dirs: Option<Seq<char>>,
) -> Seq<Seq<char>> {
    let home_dir: Seq<Seq<char>> = match xdg_home {
        Some(h) => seq![h],
        None => match home {
            Some(h) => seq![path_join(h, ".config"@)],
            None => Seq::empty(),
        },
    };
    let dirs = home_dir + split_paths(
        match xdg_dirs {
            Some(d) => d,
            None => "/etc/xdg"@,
        },
    );
    dirs.map_values(|d: Seq<char>| boi_file_in(d))
}

/// The text views of some strings.
pub open spec fn texts(v: Seq<String>) -> Seq<Seq<char>> {
    v.map_values(|s: String| s@)
}

/// The text view of an optional string.
pub open spec fn opt_text(o: Option<String>) -> Option<Seq<char>> {
    match o {
        Some(s) => Some(s@),
        None => None,
    }
}

/// Splits a colon-separated list of paths.
pub fn split_path_list(s: &str) -> (v: Vec<String>)
    ensures
        texts(v@) == split_paths(s@),
{
    let c = chars_of(s);
    let n = c.len();
    let mut v: Vec<String> = Vec::new();
    let mut cur = String::new();
    let mut start: usize = 0;
    let mut i: usize = 0;
    let ghost t = s@;
    assert(t.skip(0) =~= t);
    while i < n
        invariant
            c@ == t,
            n == t.len(),
            start <= i <= n,
            cur@ == t.subrange(start as int, i as int),
            forall|j: int| start <= j < i ==> t[j] != ':',
            split_paths(t) == texts(v@) + split_paths(t.skip(start as int)),
        decreases n - i,
    {
        if c[i] == ':' {
            let ghost rest = t.skip(start as int);
            proof {
                crate::text::lemma_find_char_at(rest, ':', i - start);
                assert(rest.take(i - start) =~= cur@);
                assert(rest.skip(i - start + 1) =~= t.skip(i + 1));
            }
            let ghost old_v = v@;
            v.push(cur);
            assert(texts(v@) =~= texts(old_v).push(t.subrange(start as int, i as int)));
            assert(split_paths(t) =~= texts(v@) + split_paths(t.skip(i + 1)));
            cur = String::new();
            start = i + 1;
        } else {
            crate::text::push_char(&mut cur, c[i]);
            assert(cur@ =~= t.subrange(start as int, i + 1));
        }
        i = i + 1;
    }
    let ghost rest = t.skip(start as int);
    proof {
        crate::text::lemma_find_char_at(rest, ':', rest.len() as int);
        assert(rest =~= cur@);
    }
    let ghost old_v = v@;
    v.push(cur);
    assert(texts(v@) =~= texts(old_v).push(rest));
    assert(split_paths(t) =~= texts(v@));
    v
}

} // verus!

verus! {

/// Where to look for the configuration file. An explicit directory (`$BOI_CONFIG_DIR_PATH`)
/// must hold `boi.toml`; otherwise the XDG configuration home (`$XDG_CONFIG_HOME`, or
/// `.config` in the home directory) and then each of the XDG configuration directories
/// (`$XDG_CONFIG_DIRS`, or `/etc/xdg`) may hold `boi/boi.toml`.
pub fn config_search(
    explicit_dir: Option<String>,
    xdg_home: Option<String>,
    home: Option<String>,
    xdg_dirs: Option<String>,
) -> (r: ConfigSearch)
    ensures
        explicit_dir matches Some(d) ==> (r matches ConfigSearch::Exactly(p) && p@ == path_join(
            d@,
            "boi.toml"@,
        )),
        explicit_dir is None ==> (r matches ConfigSearch::FirstExisting(v) && texts(v@)
            == config_candidates(opt_text(xdg_home), opt_text(home), opt_text(xdg_dirs))),
{
    if let Some(d) = explicit_dir {
        return ConfigSearch::Exactly(join_path(d.as_str(), "boi.toml"));
    }
    let mut dirs: Vec<String> = Vec::new();
    match xdg_home {
        Some(h) => dirs.push(h),
        None => match home {
            Some(h) => dirs.push(join_path(h.as_str(), ".config")),
            None => {},
        },
    }
    let ghost first = texts(dirs@);
    let listed = match xdg_dirs {
        Some(d) => split_path_list(d.as_str()),
        None => split_path_list("/etc/xdg"),
    };
    let ghost all_dirs = first + texts(listed@);
    let mut k: usize = 0;
    while k < listed.len()
        invariant
            k <= listed@.len(),
            texts(dirs@) == first + texts(listed@).take(k as int),
        decreases listed@.len() - k,
    {
        let ghost before = texts(dirs@);
        let item = listed[k].clone();
        assert(item@ == listed@[k as int]@);
        dirs.push(item);
        assert(texts(dirs@) =~= before.push(listed@[k as int]@));
        assert(texts(listed@).take(k + 1) =~= texts(listed@).take(k as int).push(listed@[k as int]@));
        assert(texts(dirs@) =~= first + texts(listed@).take(k + 1));
        k = k + 1;
    }
    assert(texts(listed@).take(listed@.len() as int) =~= texts(listed@));
    let mut files: Vec<String> = Vec::new();
    let mut j: usize = 0;
    while j < dirs.len()
        invariant
            j <= dirs@.len(),
            files@.len() == j,
            forall|m: int| 0 <= m < j ==> (#[trigger] files@[m])@ == boi_file_in(dirs@[m]@),
        decreases dirs@.len() - j,
    {
        let inner = join_path(dirs[j].as_str(), "boi");
        files.push(join_path(inner.as_str(), "boi.toml"));
        j = j + 1;
    }
    let ghost spec_dirs = (match opt_text(xdg_home) {
        Some(h) => seq![h],
        None => match opt_text(home) {
            Some(h) => seq![path_join(h, ".config"@)],
            None => Seq::<Seq<char>>::empty(),
        },
    }) + split_paths(
        match opt_text(xdg_dirs) {
            Some(d) => d,
            None => "/etc/xdg"@,
        },
    );
    assert(texts(dirs@) =~= spec_dirs);
    assert(texts(files@) =~= spec_dirs.map_values(|d: Seq<char>| boi_file_in(d)));
    ConfigSearch::FirstExisting(files)
}

} // verus!

verus! {

/// The entries of a path list joined back with colons.
pub open spec fn join_paths(parts: Seq<Seq<char>>) -> Seq<char>
    decreases parts.len(),
{
    if parts.len() == 0 {
        Seq::empty()
    } else if parts.len() == 1 {
        parts[0]
    } else {
        parts[0] + ":"@ + join_paths(parts.drop_first())
    }
}

/// Splitting a path list gives at least one entry, no entry holds a colon, and joining
/// the entries with colons gives the list back.
pub proof fn law_split_paths_round_trip(s: Seq<char>)
    ensures
        split_paths(s).len() >= 1,
        forall|i: int|
            0 <= i < split_paths(s).len() ==> !(#[trigger] split_paths(s)[i]).contains(':'),
        join_paths(split_paths(s)) == s,
    decreases s.len(),
{
    crate::text::lemma_find_char_bounds(s, ':');
    let k = find_char(s, ':');
    if k < s.len() {
        let rest = s.skip(k + 1int);
        law_split_paths_round_trip(rest);
        let parts = split_paths(s);
        assert(parts == seq![s.take(k as int)] + split_paths(rest));
        assert(parts.drop_first() =~= split_paths(rest));
        assert(!s.take(k as int).contains(':')) by {
            if s.take(k as int).contains(':') {
                let j = choose|j: int| 0 <= j < s.take(k as int).len() && s.take(k as int)[j] == ':';
                assert(s[j] == ':');
            }
        }
        assert forall|i: int| 0 <= i < parts.len() implies !(#[trigger] parts[i]).contains(':') by {
            if i > 0 {
                assert(parts[i] == split_paths(rest)[i - 1]);
            }
        }
        reveal_strlit(":");
        assert(s.take(k as int) + ":"@ + rest =~= s);
    } else {
        assert(!s.contains(':')) by {
            if s.contains(':') {
                let j = choose|j: int| 0 <= j < s.len() && s[j] == ':';
            }
        }
    }
}

} // verus!
