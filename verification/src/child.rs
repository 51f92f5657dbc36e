//! Child commands: how they are set up, and what their outcome means.

use vstd::prelude::*;

use crate::config::{env_view, repo_env, RepoConfig};
use crate::text::{owned, signed_decimal, signed_decimal_string};

verus! {

/// An error while executing a child command.
#[derive(Debug, PartialEq, Eq)]
pub enum Error {
    /// The child could not be started or waited for; with the error's text.
    Launch(String),
    /// The child exited with a non-zero code.
    ExitCode(i32),
    /// The child ended without an exit code, as on a signal.
    Killed,
}

/// How waiting for a child ended.
#[derive(Debug, PartialEq, Eq)]
pub enum WaitOutcome {
    /// The wait itself failed, with the error's text.
    Failed(String),
    /// The child exited, with its exit code if it has one: none when a signal ended it.
    /// The child succeeded exactly when its code is 0.
    Exited(Option<i32>),
}

/// The result of a wait, in terms of `Error`.
pub open spec fn wait_outcome(o: WaitOutcome) -> Result<(), Error> {
    match o {
        WaitOutcome::Failed(e) => Err(Error::Launch(e)),
        WaitOutcome::Exited(Some(c)) => if c == 0 {
            Ok(())
        } else {
            Err(Error::ExitCode(c))
        },
        WaitOutcome::Exited(None) => Err(Error::Killed),
    }
}

/// Reads how waiting for a child ended: success, a non-zero code, or no code at all.
pub fn wait_result(o: WaitOutcome) -> (r: Result<(), Error>)
    ensures
        r == wait_outcome(o),
{
    match o {
        WaitOutcome::Failed(e) => Err(Error::Launch(e)),
        WaitOutcome::Exited(Some(c)) => {
            if c == 0 {
                Ok(())
            } else {
                Err(Error::ExitCode(c))
            }
        },
        WaitOutcome::Exited(None) => Err(Error::Killed),
    }
}

/// How an error is displayed.
pub open spec fn error_text(e: Error) -> Seq<char> {
    match e {
        Error::Launch(m) => "failed to launch child: "@ + m@,
        Error::ExitCode(c) => "child exited with code "@ + signed_decimal(c as int),
        Error::Killed => "child terminated abnormally"@,
    }
}

/// The exit code with which boi gives up on an error: the child's own code when it exited
/// with one, otherwise 1.
pub open spec fn exit_code_of(e: Error) -> i32 {
    match e {
        Error::ExitCode(c) => c,
        _ => 1,
    }
}

/// A wait succeeds exactly when the child exited with code 0. A child that exits with a
/// non-zero code makes boi exit with that same code, and an exit-code error never carries
/// 0; one that ends without a code, or cannot be waited for, makes boi exit with 1.
pub proof fn law_exit_code_passes_through(o: WaitOutcome)
    ensures
        wait_outcome(o) is Ok <==> o == WaitOutcome::Exited(Some(0)),
        wait_outcome(o) matches Err(Error::ExitCode(c)) ==> c != 0 && o == WaitOutcome::Exited(
            Some(c),
        ),
        o matches WaitOutcome::Exited(Some(c)) ==> (c != 0 ==> (wait_outcome(o) matches Err(e)
            && exit_code_of(e) == c)),
        o matches WaitOutcome::Exited(None) ==> wait_outcome(o) matches Err(e) && exit_code_of(e)
            == 1,
        o matches WaitOutcome::Failed(_) ==> wait_outcome(o) matches Err(e) && exit_code_of(e) == 1,
{
}

impl Error {
    /// The error as it is displayed.
    pub fn describe(&self) -> (s: String)
        ensures
            s@ == error_text(*self),
    {
        match self {
            Error::Launch(m) => {
                let mut s = owned("failed to launch child: ");
                s.append(m.as_str());
                s
            },
            Error::ExitCode(c) => {
                let mut s = owned("child exited with code ");
                s.append(signed_decimal_string(*c).as_str());
                s
            },
            Error::Killed => owned("child terminated abnormally"),
        }
    }

    /// The exit code with which boi gives up on this error: the child's own code when it
    /// exited with one, otherwise 1.
    pub fn exit_code(&self) -> (code: i32)
        ensures
            code == exit_code_of(*self),
    {
        match self {
            Error::ExitCode(c) => *c,
            _ => 1,
        }
    }

    /// The message with which boi gives up on this error.
    pub fn die_message(&self) -> (s: String)
        ensures
            s@ == "Something went wrong ("@ + error_text(*self)
                + "); you might need do something about that."@,
    {
        let mut s = owned("Something went wrong (");
        s.append(self.describe().as_str());
        s.append("); you might need do something about that.");
        s
    }
}

/// A setting of a child's environment.
#[derive(Debug, PartialEq, Eq)]
pub enum EnvChange {
    Assign(String, String),
    Remove(String),
}

/// A child command and how it is to be run. The child inherits the parent's environment
/// and standard streams unless told otherwise. Its `TZ` is the configured timezone unless
/// `null_timezone` removes it.
pub struct Child {
    program: String,
    args: Vec<String>,
    env: Vec<(String, String)>,
    null_output: bool,
    null_input: bool,
    timezone_nulled: bool,
}

/// A child command, in terms of plain values.
pub struct ChildView {
    pub program: Seq<char>,
    pub args: Seq<Seq<char>>,
    pub env: Seq<(Seq<char>, Seq<char>)>,
    pub null_output: bool,
    pub null_input: bool,
    pub timezone_nulled: bool,
}

/// The text views of a list of words.
pub open spec fn word_views(v: Seq<&str>) -> Seq<Seq<char>> {
    v.map_values(|w: &str| w@)
}

/// The text views of a list of strings.
pub open spec fn string_views(v: Seq<String>) -> Seq<Seq<char>> {
    v.map_values(|w: String| w@)
}

impl View for Child {
    type V = ChildView;

    closed spec fn view(&self) -> ChildView {
        ChildView {
            program: self.program@,
            args: string_views(self.args@),
            env: self.env@.map_values(|e: (String, String)| (e.0@, e.1@)),
            null_output: self.null_output,
            null_input: self.null_input,
            timezone_nulled: self.timezone_nulled,
        }
    }
}

/// The command line of a child, its program first, as it is displayed.
pub open spec fn joined_words(words: Seq<Seq<char>>) -> Seq<char>
    decreases words.len(),
{
    if words.len() == 0 {
        Seq::empty()
    } else if words.len() == 1 {
        words[0]
    } else {
        joined_words(words.drop_last()) + " "@ + words.last()
    }
}

/// How a child's environment is changed just before it runs: its repository settings in
/// order, then `TZ` set to `timezone` or removed.
pub open spec fn env_changes(c: ChildView, timezone: Seq<char>) -> Seq<(bool, Seq<char>, Seq<char>)> {
    c.env.map_values(|e: (Seq<char>, Seq<char>)| (true, e.0, e.1)).push(
        if c.timezone_nulled {
            (false, "TZ"@, Seq::empty())
        } else {
            (true, "TZ"@, timezone)
        },
    )
}

/// The plain view of an environment change: whether it sets, the name, the value set.
pub open spec fn env_change_view(e: EnvChange) -> (bool, Seq<char>, Seq<char>) {
    match e {
        EnvChange::Assign(k, v) => (true, k@, v@),
        EnvChange::Remove(k) => (false, k@, Seq::empty()),
    }
}

impl Child {
    /// A child from a command name followed by its arguments.
    pub fn from_cmdline(cmdline: &[&str]) -> (c: Child)
        requires
            cmdline@.len() > 0,
        ensures
            c@.program == cmdline@[0]@,
            c@.args == word_views(cmdline@.drop_first()),
            c@.env.len() == 0,
            !c@.null_output,
            !c@.null_input,
            !c@.timezone_nulled,
    {
        let program = owned(cmdline[0]);
        let mut args: Vec<String> = Vec::new();
        let mut i: usize = 1;
        while i < cmdline.len()
            invariant
                1 <= i <= cmdline@.len(),
                string_views(args@) == word_views(cmdline@.drop_first()).take(i - 1),
            decreases cmdline@.len() - i,
        {
            let ghost before = string_views(args@);
            args.push(owned(cmdline[i]));
            assert(string_views(args@) =~= before.push(cmdline@[i as int]@));
            assert(word_views(cmdline@.drop_first()).take(i as int) =~= word_views(
                cmdline@.drop_first(),
            ).take(i - 1).push(cmdline@[i as int]@));
            i = i + 1;
        }
        assert(word_views(cmdline@.drop_first()).take(i - 1) =~= word_views(cmdline@.drop_first()));
        Child {
            program,
            args,
            env: Vec::new(),
            null_output: false,
            null_input: false,
            timezone_nulled: false,
        }
    }

    /// Sets the child's environment to work with a single Borg repository.
    pub fn for_borg_repo(self, config: &RepoConfig) -> (c: Child)
        ensures
            c@ == (ChildView {
                env: self@.env + repo_env(
                    config.spec_repo_url(),
                    config.spec_password_command(),
                    config.spec_remote_path(),
                ),
                ..self@
            }),
    {
        let mut me = self;
        let vars = config.env();
        let ghost start = me@.env;
        let mut i: usize = 0;
        while i < vars.len()
            invariant
                i <= vars@.len(),
                me@ == (ChildView { env: start + env_view(vars@).take(i as int), ..self@ }),
            decreases vars@.len() - i,
        {
            let ghost before = me@.env;
            me.env.push((owned(vars[i].0), vars[i].1.clone()));
            assert(me@.env =~= before.push((vars@[i as int].0@, vars@[i as int].1@)));
            assert(env_view(vars@).take(i + 1) =~= env_view(vars@).take(i as int).push(
                (vars@[i as int].0@, vars@[i as int].1@),
            ));
            assert(me@.env =~= start + env_view(vars@).take(i + 1));
            i = i + 1;
        }
        assert(env_view(vars@).take(vars@.len() as int) =~= env_view(vars@));
        me
    }

    /// Directs the child's standard output and error to a null device.
    pub fn null_output(self) -> (c: Child)
        ensures
            c@ == (ChildView { null_output: true, ..self@ }),
    {
        let mut me = self;
        me.null_output = true;
        me
    }

    /// Directs the child's standard input from a null device.
    pub fn null_input(self) -> (c: Child)
        ensures
            c@ == (ChildView { null_input: true, ..self@ }),
    {
        let mut me = self;
        me.null_input = true;
        me
    }

    /// Removes any `TZ` from the child's environment, the configured one and an inherited one.
    pub fn null_timezone(self) -> (c: Child)
        ensures
            c@ == (ChildView { timezone_nulled: true, ..self@ }),
    {
        let mut me = self;
        me.timezone_nulled = true;
        me
    }

    /// The program to run.
    pub fn program(&self) -> (p: &str)
        ensures
            p@ == self@.program,
    {
        self.program.as_str()
    }

    /// The arguments to pass.
    pub fn args(&self) -> (a: &Vec<String>)
        ensures
            string_views(a@) == self@.args,
    {
        &self.args
    }

    /// Whether the child's standard output and error go to a null device.
    pub fn is_output_nulled(&self) -> (b: bool)
        ensures
            b == self@.null_output,
    {
        self.null_output
    }

    /// Whether the child's standard input comes from a null device.
    pub fn is_input_nulled(&self) -> (b: bool)
        ensures
            b == self@.null_input,
    {
        self.null_input
    }

    /// The changes to make to the inherited environment, in order, given the configured
    /// timezone.
    pub fn env_changes(&self, timezone: &str) -> (v: Vec<EnvChange>)
        ensures
            v@.map_values(|e: EnvChange| env_change_view(e)) == env_changes(self@, timezone@),
    {
        let mut v: Vec<EnvChange> = Vec::new();
        let mut i: usize = 0;
        let ghost target = env_changes(self@, timezone@);
        while i < self.env.len()
            invariant
                target == env_changes(self@, timezone@),
                i <= self.env@.len(),
                v@.len() == i,
                forall|j: int| 0 <= j < i ==> env_change_view(#[trigger] v@[j]) == target[j],
            decreases self.env@.len() - i,
        {
            v.push(EnvChange::Assign(self.env[i].0.clone(), self.env[i].1.clone()));
            i = i + 1;
        }
        if self.timezone_nulled {
            v.push(EnvChange::Remove(owned("TZ")));
        } else {
            v.push(EnvChange::Assign(owned("TZ"), owned(timezone)));
        }
        assert(v@.map_values(|e: EnvChange| env_change_view(e)) =~= target);
        v
    }

    /// The command line as it is displayed: the program and its arguments, separated by spaces.
    pub fn render(&self) -> (s: String)
        ensures
            s@ == joined_words(seq![self@.program] + self@.args),
    {
        let mut s = self.program.clone();
        let ghost words = seq![self@.program] + self@.args;
        assert(words.take(1) =~= seq![self@.program]);
        let mut i: usize = 0;
        while i < self.args.len()
            invariant
                i <= self.args@.len(),
                words == seq![self@.program] + self@.args,
                s@ == joined_words(words.take(i + 1)),
            decreases self.args@.len() - i,
        {
            s.append(" ");
            s.append(self.args[i].as_str());
            assert(words.take(i + 2).drop_last() =~= words.take(i + 1));
            i = i + 1;
        }
        assert(words.take(self.args@.len() + 1int) =~= words);
        s
    }
}

} // verus!

verus! {

/// Unless a child's timezone is nulled, its `TZ` is the configured timezone, set after any
/// other setting so that nothing overrides it; when it is nulled, `TZ` is removed last.
pub proof fn law_timezone_set_last(c: ChildView, timezone: Seq<char>)
    ensures
        env_changes(c, timezone).len() == c.env.len() + 1,
        !c.timezone_nulled ==> env_changes(c, timezone).last() == (true, "TZ"@, timezone),
        c.timezone_nulled ==> env_changes(c, timezone).last() == (false, "TZ"@, Seq::<char>::empty()),
        forall|i: int|
            0 <= i < c.env.len() ==> #[trigger] env_changes(c, timezone)[i] == (true, c.env[i].0, c.env[i].1),
{
}

} // verus!
