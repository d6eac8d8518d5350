use vstd::prelude::*;
use vstd::string::*;

use crate::command::{lemma_split_spaces_nonempty, split_command, split_spaces};
use crate::error::Error;
use crate::log::lines_view;

verus! {

/// The name and value of the variable that marks a process launched by this
/// library.
pub const MARKER_NAME: &'static str = "SHELL_CANDY";

pub const MARKER_VALUE: &'static str = "true";

/// The views of a list of environment bindings.
pub open spec fn pairs_view(pairs: Seq<(String, String)>) -> Seq<(Seq<char>, Seq<char>)> {
    pairs.map_values(|p: (String, String)| (p.0@, p.1@))
}

/// The environment a list of bindings describes: a later binding of a name
/// overrides an earlier one.
pub open spec fn env_map(pairs: Seq<(Seq<char>, Seq<char>)>) -> Map<Seq<char>, Seq<char>>
    decreases pairs.len(),
{
    if pairs.len() == 0 {
        Map::empty()
    } else {
        env_map(pairs.drop_last()).insert(pairs.last().0, pairs.last().1)
    }
}

/// The abstract configuration of a task.
pub struct ShellTaskView {
    /// The command text it was built from.
    pub command: Seq<char>,
    /// The executable: the first piece of the command.
    pub program: Seq<char>,
    /// The arguments: the other pieces of the command.
    pub args: Seq<Seq<char>>,
    /// The directory the command runs in.
    pub dir: Seq<char>,
    /// The variables set for the command over the inherited environment.
    pub envs: Map<Seq<char>, Seq<char>>,
}

/// Why an empty command is refused.
pub const EMPTY_REASON: &'static str = "an empty string is not a command";

/// Why a command whose executable cannot be found is refused.
pub open spec fn not_installed_reason(program: Seq<char>) -> Seq<char> {
    "'"@ + program + "' is not installed on this machine"@
}

/// Relies on which::which: whether `name` resolves to an executable file,
/// searched along `PATH` (or taken as a path when it holds a separator). The
/// answer depends on the environment and the file system.
#[verifier::external_body]
fn resolves_to_executable(name: &str) -> (r: bool) {
    which::which(name).is_ok()
}

/// A command to run, with its executable, arguments, working directory and
/// environment overrides.
pub struct ShellTask {
    bin: String,
    args: Vec<String>,
    current_dir: String,
    envs: Vec<(String, String)>,
    full_command: String,
}

impl View for ShellTask {
    type V = ShellTaskView;

    closed spec fn view(&self) -> ShellTaskView {
        ShellTaskView {
            command: self.full_command@,
            program: self.bin@,
            args: lines_view(self.args@),
            dir: self.current_dir@,
            envs: env_map(pairs_view(self.envs@)),
        }
    }
}

/// The configuration of a task built from `command`, run in `dir`.
pub open spec fn configured(t: ShellTaskView, command: Seq<char>, dir: Seq<char>) -> bool {
    &&& t.command == command
    &&& t.program == split_spaces(command)[0]
    &&& t.args == split_spaces(command).drop_first()
    &&& t.dir == dir
    &&& t.envs == Map::<Seq<char>, Seq<char>>::empty()
}

impl ShellTask {
    /// The executable and arguments are the pieces of the command text.
    pub open spec fn wf(&self) -> bool {
        &&& split_spaces(self@.command).len() >= 1
        &&& self@.program == split_spaces(self@.command)[0]
        &&& self@.args == split_spaces(self@.command).drop_first()
    }

    /// Builds a task from `command`, to run in `current_dir`, given whether
    /// its first piece names an executable.
    ///
    /// An empty command is refused first; then a command whose executable is
    /// not found.
    pub fn checked(command: &str, current_dir: String, bin_found: bool) -> (r: Result<
        ShellTask,
        Error,
    >)
        ensures
            command@.len() == 0 ==> match r {
                Err(Error::InvalidTask { task, reason }) => task@ == command@ && reason@
                    == EMPTY_REASON@,
                _ => false,
            },
            command@.len() > 0 && !bin_found ==> match r {
                Err(Error::InvalidTask { task, reason }) => task@ == command@ && reason@
                    == not_installed_reason(split_spaces(command@)[0]),
                _ => false,
            },
            command@.len() > 0 && bin_found ==> match r {
                Ok(t) => t.wf() && configured(t@, command@, current_dir@),
                _ => false,
            },
    {
        if command.unicode_len() == 0 {
            return Err(
                Error::InvalidTask {
                    task: command.to_owned(),
                    reason: String::from_str(EMPTY_REASON),
                },
            );
        }
        let mut pieces = split_command(command);
        proof {
            lemma_split_spaces_nonempty(command@);
        }
        let ghost all = pieces@;
        let bin = pieces.remove(0);
        if !bin_found {
            let mut reason = String::from_str("'");
            reason.append(bin.as_str());
            reason.append("' is not installed on this machine");
            return Err(Error::InvalidTask { task: command.to_owned(), reason });
        }
        proof {
            assert(lines_view(pieces@) =~= lines_view(all).drop_first());
        }
        let t = ShellTask {
            bin,
            args: pieces,
            current_dir,
            envs: Vec::new(),
            full_command: command.to_owned(),
        };
        proof {
            assert(pairs_view(t.envs@) =~= seq![]);
        }
        Ok(t)
    }

    /// Builds a task from `command`, to run in `current_dir`.
    ///
    /// The command is split on single spaces; it is refused with
    /// `InvalidTask` when it is empty or when its first piece does not name an
    /// executable on the search path. Nothing is run.
    pub fn new(command: &str, current_dir: String) -> (r: Result<ShellTask, Error>)
        ensures
            command@.len() == 0 ==> match r {
                Err(Error::InvalidTask { task, reason }) => task@ == command@ && reason@
                    == EMPTY_REASON@,
                _ => false,
            },
            command@.len() > 0 ==> match r {
                Ok(t) => t.wf() && configured(t@, command@, current_dir@),
                Err(Error::InvalidTask { task, reason }) => task@ == command@ && reason@
                    == not_installed_reason(split_spaces(command@)[0]),
                _ => false,
            },
    {
        if command.unicode_len() == 0 {
            return ShellTask::checked(command, current_dir, false);
        }
        let pieces = split_command(command);
        proof {
            lemma_split_spaces_nonempty(command@);
        }
        let found = resolves_to_executable(pieces[0].as_str());
        ShellTask::checked(command, current_dir, found)
    }

    /// Sets the variable `key` to `value` for the command, over the inherited
    /// environment.
    pub fn env(&mut self, key: &str, value: &str) -> (r: &mut ShellTask)
        ensures
            r@ == (ShellTaskView { envs: old(self)@.envs.insert(key@, value@), ..old(self)@ }),
            r.wf() == old(self).wf(),
            *final(self) == *final(r),
    {
        let ghost before = self.envs@;
        self.envs.push((key.to_owned(), value.to_owned()));
        proof {
            assert(pairs_view(self.envs@).drop_last() =~= pairs_view(before));
        }
        self
    }

    /// Sets the directory the command runs in.
    pub fn current_dir(&mut self, path: String)
        ensures
            final(self)@ == (ShellTaskView { dir: path@, ..old(self)@ }),
            final(self).wf() == old(self).wf(),
    {
        self.current_dir = path;
    }

    /// The command, as the caller typed it.
    pub fn descriptor(&self) -> (r: String)
        ensures
            r@ == self@.command,
    {
        self.full_command.clone()
    }

    /// The command text with the shell prompt `$ ` before it.
    pub fn bash_descriptor(&self) -> (r: String)
        ensures
            r@ == "$ "@ + self@.command,
    {
        let mut r = String::from_str("$ ");
        r.append(self.full_command.as_str());
        r
    }

    /// The executable to run.
    pub fn program(&self) -> (r: &String)
        ensures
            r@ == self@.program,
    {
        &self.bin
    }

    /// The arguments handed to the executable.
    pub fn args(&self) -> (r: &Vec<String>)
        ensures
            lines_view(r@) == self@.args,
    {
        &self.args
    }

    /// The directory the command runs in.
    pub fn working_dir(&self) -> (r: &String)
        ensures
            r@ == self@.dir,
    {
        &self.current_dir
    }

    /// The bindings to set when launching the command: the task's own
    /// variables, then the marker variable, which therefore wins.
    pub fn launch_env(&self) -> (r: Vec<(String, String)>)
        ensures
            env_map(pairs_view(r@)) == self@.envs.insert(MARKER_NAME@, MARKER_VALUE@),
    {
        let mut out: Vec<(String, String)> = Vec::new();
        let mut i: usize = 0;
        while i < self.envs.len()
            invariant
                i <= self.envs@.len(),
                pairs_view(out@) == pairs_view(self.envs@).take(i as int),
            decreases self.envs@.len() - i,
        {
            let ghost before = out@;
            let pair = &self.envs[i];
            let key = pair.0.clone();
            let value = pair.1.clone();
            out.push((key, value));
            proof {
                assert(pairs_view(out@).drop_last() =~= pairs_view(before));
                assert(pairs_view(out@).last() == pairs_view(self.envs@)[i as int]);
                assert(pairs_view(out@) =~= pairs_view(self.envs@).take(i as int + 1));
            }
            i = i + 1;
        }
        let ghost before = out@;
        out.push((String::from_str(MARKER_NAME), String::from_str(MARKER_VALUE)));
        proof {
            assert(pairs_view(self.envs@).take(self.envs@.len() as int) =~= pairs_view(self.envs@));
            assert(pairs_view(out@).drop_last() =~= pairs_view(before));
        }
        out
    }
}

} // verus!
