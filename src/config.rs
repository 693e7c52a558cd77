//! The registered applications, as the configuration supplies them, and the
//! checks made on them before any script runs.

use vstd::prelude::*;

use crate::text::str_eq;
use crate::version::CompareMode;

verus! {

/// Where a script comes from: an executable file, or an inline shell command.
#[derive(Debug)]
pub enum ScriptConfig {
    File { file: String },
    Inline { inline: String },
}

impl ScriptConfig {
    /// The shell command that the script stands for.
    pub open spec fn command(&self) -> Seq<char> {
        match self {
            ScriptConfig::File { file } => file@,
            ScriptConfig::Inline { inline } => inline@,
        }
    }

    /// The command to hand to the shell: the path of a file script, or the
    /// inline command itself.
    pub fn as_command(&self) -> (r: &str)
        ensures
            r@ == self.command(),
    {
        match self {
            ScriptConfig::File { file } => file.as_str(),
            ScriptConfig::Inline { inline } => inline.as_str(),
        }
    }

    /// The path of a file script; `None` for an inline command.
    pub fn file_path(&self) -> (r: Option<&str>)
        ensures
            match self {
                ScriptConfig::File { file } => r matches Some(p) && p@ == file@,
                ScriptConfig::Inline { .. } => r is None,
            },
    {
        match self {
            ScriptConfig::File { file } => Some(file.as_str()),
            ScriptConfig::Inline { .. } => None,
        }
    }
}

/// One registered application.
#[derive(Debug)]
pub struct App {
    pub name: String,
    pub description: Option<String>,
    pub local: ScriptConfig,
    pub remote: ScriptConfig,
    pub update: ScriptConfig,
    pub compare_mode: CompareMode,
}

/// The registered applications, in configured order.
#[derive(Debug)]
pub struct Config {
    pub apps: Vec<App>,
}

/// What is wrong with a script file.
#[derive(Clone, Copy, Debug, PartialEq, Eq, Structural)]
pub enum ScriptProblem {
    /// The file could not be inspected.
    Unreadable,
    /// The path names something other than a regular file.
    NotAFile,
    /// The file has no execute permission bit set.
    NotExecutable,
}

/// What is wrong with a configuration.
#[derive(Debug)]
pub enum ConfigError {
    /// The application at this position has an empty name.
    EmptyName { index: usize },
    /// The application at this position has the name of an earlier one.
    DuplicateName { index: usize },
    /// A script file of the application at this position cannot be run.
    Script { index: usize, path: String, problem: ScriptProblem },
}

/// What the file system reports of a script file.
#[derive(Clone, Copy, Debug)]
pub struct FileFacts {
    pub is_file: bool,
    /// Unix permission bits.
    pub mode: u32,
}

/// What the file system reports of the script files of one application,
/// one entry per script (`None` where a file could not be inspected; the
/// entry of an inline script is not read).
#[derive(Clone, Copy, Debug)]
pub struct AppFileFacts {
    pub local: Option<FileFacts>,
    pub remote: Option<FileFacts>,
    pub update: Option<FileFacts>,
}

/// What keeps a script file with these facts from being run, if anything.
pub open spec fn file_problem(facts: Option<FileFacts>) -> Option<ScriptProblem> {
    match facts {
        None => Some(ScriptProblem::Unreadable),
        Some(f) => if !f.is_file {
            Some(ScriptProblem::NotAFile)
        } else if f.mode & 0o111u32 == 0 {
            Some(ScriptProblem::NotExecutable)
        } else {
            None
        },
    }
}

/// What keeps a script from being run, if anything; inline scripts are
/// only tried when run.
pub open spec fn script_problem(s: ScriptConfig, facts: Option<FileFacts>) -> Option<
    ScriptProblem,
> {
    match s {
        ScriptConfig::File { .. } => file_problem(facts),
        ScriptConfig::Inline { .. } => None,
    }
}

/// Whether the application at `i` has the name of an earlier one.
pub open spec fn name_taken(apps: Seq<App>, i: int) -> bool {
    exists|j: int| 0 <= j < i && #[trigger] apps[j].name@ == apps[i].name@
}

/// Whether the application at `i` passes every check.
pub open spec fn app_valid(apps: Seq<App>, facts: Seq<AppFileFacts>, i: int) -> bool {
    &&& apps[i].name@.len() > 0
    &&& !name_taken(apps, i)
    &&& script_problem(apps[i].local, facts[i].local) is None
    &&& script_problem(apps[i].remote, facts[i].remote) is None
    &&& script_problem(apps[i].update, facts[i].update) is None
}

/// Whether `e` is the first failed check of the application at `i`, its
/// checks taken in order: name, then local, remote and update scripts.
pub open spec fn first_failure(apps: Seq<App>, facts: Seq<AppFileFacts>, i: int, e: ConfigError) -> bool {
    let a = apps[i];
    let f = facts[i];
    match e {
        ConfigError::EmptyName { index } => index == i && a.name@.len() == 0,
        ConfigError::DuplicateName { index } => index == i && a.name@.len() > 0 && name_taken(
            apps,
            i,
        ),
        ConfigError::Script { index, path, problem } => index == i && a.name@.len() > 0
            && !name_taken(apps, i) && if script_problem(a.local, f.local) is Some {
            script_problem(a.local, f.local) == Some(problem) && path@ == a.local.command()
        } else if script_problem(a.remote, f.remote) is Some {
            script_problem(a.remote, f.remote) == Some(problem) && path@ == a.remote.command()
        } else {
            script_problem(a.update, f.update) == Some(problem) && path@ == a.update.command()
        },
    }
}

/// Whether a script file with these facts may be run: it must have been
/// inspected, be a regular file, and carry at least one execute bit.
pub fn check_script_file(facts: Option<FileFacts>) -> (r: Result<(), ScriptProblem>)
    ensures
        match r {
            Ok(()) => file_problem(facts) is None,
            Err(p) => file_problem(facts) == Some(p),
        },
{
    match facts {
        None => Err(ScriptProblem::Unreadable),
        Some(f) => {
            if !f.is_file {
                Err(ScriptProblem::NotAFile)
            } else if f.mode & 0o111u32 == 0 {
                Err(ScriptProblem::NotExecutable)
            } else {
                Ok(())
            }
        },
    }
}

fn check_script(index: usize, s: &ScriptConfig, facts: Option<FileFacts>) -> (r: Result<
    (),
    ConfigError,
>)
    ensures
        match r {
            Ok(()) => script_problem(*s, facts) is None,
            Err(ConfigError::Script { index: k, path, problem }) => k == index && script_problem(
                *s,
                facts,
            ) == Some(problem) && path@ == s.command(),
            Err(_) => false,
        },
{
    match s {
        ScriptConfig::File { file } => match check_script_file(facts) {
            Ok(()) => Ok(()),
            Err(problem) => Err(ConfigError::Script { index, path: file.clone(), problem }),
        },
        ScriptConfig::Inline { .. } => Ok(()),
    }
}

impl Config {
    /// Checks the applications in order, each one's name and then its
    /// local, remote and update scripts, and reports the first failure:
    /// a name must be non-empty and differ from every earlier one, and a
    /// script file must pass `check_script_file` on what `facts` reports of
    /// it (one entry per application).
    pub fn validate(&self, facts: &Vec<AppFileFacts>) -> (r: Result<(), ConfigError>)
        requires
            facts@.len() == self.apps@.len(),
        ensures
            match r {
                Ok(()) => forall|i: int|
                    0 <= i < self.apps@.len() ==> #[trigger] app_valid(self.apps@, facts@, i),
                Err(e) => exists|i: int|
                    0 <= i < self.apps@.len() && (forall|k: int|
                        0 <= k < i ==> #[trigger] app_valid(self.apps@, facts@, k)) && first_failure(
                        self.apps@,
                        facts@,
                        i,
                        e,
                    ),
            },
    {
        let mut i: usize = 0;
        while i < self.apps.len()
            invariant
                i <= self.apps@.len(),
                facts@.len() == self.apps@.len(),
                forall|k: int| 0 <= k < i ==> #[trigger] app_valid(self.apps@, facts@, k),
            decreases self.apps@.len() - i,
        {
            let app = &self.apps[i];
            let name = app.name.as_str();
            if name.unicode_len() == 0 {
                let e = ConfigError::EmptyName { index: i };
                assert(first_failure(self.apps@, facts@, i as int, e));
                return Err(e);
            }
            let mut j: usize = 0;
            while j < i
                invariant
                    i < self.apps@.len(),
                    j <= i,
                    name@ == self.apps@[i as int].name@,
                    name@.len() > 0,
                    facts@.len() == self.apps@.len(),
                    forall|k: int| 0 <= k < i ==> #[trigger] app_valid(self.apps@, facts@, k),
                    forall|k: int| 0 <= k < j ==> #[trigger] self.apps@[k].name@ != name@,
                decreases i - j,
            {
                if str_eq(self.apps[j].name.as_str(), name) {
                    assert(self.apps@[j as int].name@ == self.apps@[i as int].name@);
                    assert(name_taken(self.apps@, i as int));
                    let e = ConfigError::DuplicateName { index: i };
                    assert(first_failure(self.apps@, facts@, i as int, e));
                    return Err(e);
                }
                j = j + 1;
            }
            assert(!name_taken(self.apps@, i as int));
            let f = facts[i];
            match check_script(i, &app.local, f.local) {
                Ok(()) => {},
                Err(e) => {
                    assert(first_failure(self.apps@, facts@, i as int, e));
                    return Err(e);
                },
            }
            match check_script(i, &app.remote, f.remote) {
                Ok(()) => {},
                Err(e) => {
                    assert(first_failure(self.apps@, facts@, i as int, e));
                    return Err(e);
                },
            }
            match check_script(i, &app.update, f.update) {
                Ok(()) => {},
                Err(e) => {
                    assert(first_failure(self.apps@, facts@, i as int, e));
                    return Err(e);
                },
            }
            i = i + 1;
        }
        Ok(())
    }
}

} // verus!
