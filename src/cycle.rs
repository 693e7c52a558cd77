//! The update cycle of one application, as a state machine: the caller runs
//! the script that each phase asks for and hands back what came of it.

use vstd::prelude::*;

use crate::text::{normalized, str_eq};
use crate::config::Config;
use crate::trim_version;
use crate::version::{needs_update, update_due, CompareError, CompareMode};

verus! {

/// What a script printed on standard output and how it exited (`1` where
/// the process reported no code).
#[derive(Debug)]
pub struct ScriptResult {
    pub stdout: String,
    pub exit_code: i32,
}

/// Whether a script ran and exited with code zero; `None` stands for a
/// script whose shell could not be started.
pub open spec fn succeeded(result: Option<ScriptResult>) -> bool {
    result matches Some(res) && res.exit_code == 0
}

/// Why the cycle of an application failed.
#[derive(Debug)]
pub enum Failure {
    /// The local version script could not start or exited non-zero.
    LocalScript,
    /// The remote version script could not start or exited non-zero.
    RemoteScript,
    /// The two versions could not be compared.
    Comparison(CompareError),
    /// The update script could not start or exited non-zero.
    UpdateScript,
}

/// How the cycle of an application ended.
#[derive(Debug)]
pub enum Outcome {
    /// The application was not selected.
    Skipped,
    /// No update was due; the normalised local version.
    UpToDate { version: String },
    /// The update script ran and exited with code zero.
    Updated,
    Failed(Failure),
}

/// Where the cycle of an application stands.
#[derive(Debug)]
pub enum Phase {
    /// The local version script is to run.
    RunLocal,
    /// The remote version script is to run; the normalised local version.
    RunRemote { local: String },
    /// The update script is to run; the normalised local and remote
    /// versions that called for it, `None` under `force`.
    RunUpdate { versions: Option<(String, String)> },
    Done(Outcome),
}

/// Whether an application named `name` is selected by `filter`.
pub open spec fn selected(name: Seq<char>, filter: Option<&str>) -> bool {
    match filter {
        Some(f) => f@ == name,
        None => true,
    }
}

/// The first phase for an application named `name`.
pub open spec fn start_phase(name: Seq<char>, filter: Option<&str>, force: bool) -> Phase {
    if !selected(name, filter) {
        Phase::Done(Outcome::Skipped)
    } else if force {
        Phase::RunUpdate { versions: None }
    } else {
        Phase::RunLocal
    }
}

/// The first phase for an application named `app_name`: skipped where a
/// filter names another application, straight to the update script under
/// `force`, else the local version script.
pub fn start(app_name: &str, filter: Option<&str>, force: bool) -> (r: Phase)
    ensures
        r == start_phase(app_name@, filter, force),
{
    match filter {
        Some(f) => {
            if !str_eq(f, app_name) {
                return Phase::Done(Outcome::Skipped);
            }
        },
        None => {},
    }
    if force {
        Phase::RunUpdate { versions: None }
    } else {
        Phase::RunLocal
    }
}

/// Whether `next` is the phase after `phase` once its script has given
/// `result`.
pub open spec fn advances_to(phase: Phase, mode: CompareMode, result: Option<ScriptResult>, next: Phase) -> bool {
    match phase {
        Phase::RunLocal => if succeeded(result) {
            next matches Phase::RunRemote { local } && local@ == normalized(
                result->0.stdout@,
            )
        } else {
            next == Phase::Done(Outcome::Failed(Failure::LocalScript))
        },
        Phase::RunRemote { local } => if succeeded(result) {
            match update_due(mode, local@, normalized(result->0.stdout@)) {
                Some(true) => next matches Phase::RunUpdate { versions: Some(p) } && p.0@ == local@
                    && p.1@ == normalized(result->0.stdout@),
                Some(false) => next matches Phase::Done(Outcome::UpToDate { version })
                    && version@ == local@,
                None => next matches Phase::Done(Outcome::Failed(Failure::Comparison(e)))
                    && e.local@ == local@ && e.remote@ == normalized(result->0.stdout@),
            }
        } else {
            next == Phase::Done(Outcome::Failed(Failure::RemoteScript))
        },
        Phase::RunUpdate { .. } => if succeeded(result) {
            next == Phase::Done(Outcome::Updated)
        } else {
            next == Phase::Done(Outcome::Failed(Failure::UpdateScript))
        },
        Phase::Done(_) => false,
    }
}

/// The phase after the script that `phase` asked for has given `result`
/// (`None` where its shell could not be started). A failure of the local
/// script ends the cycle before the remote script runs; the two versions
/// are compared normalised.
pub fn advance(phase: Phase, mode: CompareMode, result: Option<ScriptResult>) -> (r: Phase)
    requires
        !(phase is Done),
    ensures
        advances_to(phase, mode, result, r),
{
    let ok = match &result {
        Some(res) => res.exit_code == 0,
        None => false,
    };
    match phase {
        Phase::RunLocal => {
            if ok {
                let res = result.unwrap();
                let v = trim_version(res.stdout.as_str());
                Phase::RunRemote { local: v.to_owned() }
            } else {
                Phase::Done(Outcome::Failed(Failure::LocalScript))
            }
        },
        Phase::RunRemote { local } => {
            if ok {
                let res = result.unwrap();
                let remote = trim_version(res.stdout.as_str());
                match needs_update(mode, local.as_str(), remote) {
                    Ok(true) => Phase::RunUpdate { versions: Some((local, remote.to_owned())) },
                    Ok(false) => Phase::Done(Outcome::UpToDate { version: local }),
                    Err(e) => Phase::Done(Outcome::Failed(Failure::Comparison(e))),
                }
            } else {
                Phase::Done(Outcome::Failed(Failure::RemoteScript))
            }
        },
        Phase::RunUpdate { .. } => {
            if ok {
                Phase::Done(Outcome::Updated)
            } else {
                Phase::Done(Outcome::Failed(Failure::UpdateScript))
            }
        },
        Phase::Done(o) => Phase::Done(o),
    }
}

/// A run over all configured applications, in order: the outcomes of the
/// applications done so far, and the phase of the next one.
#[derive(Debug)]
pub struct Batch {
    pub outcomes: Vec<Outcome>,
    pub phase: Phase,
}

impl Batch {
    /// Whether every application has its outcome.
    pub open spec fn finished(&self, config: &Config) -> bool {
        self.outcomes@.len() >= config.apps@.len()
    }

    /// A run that has not yet started any application; the first one
    /// starts at its first phase.
    pub fn begin(config: &Config, filter: Option<&str>, force: bool) -> (r: Batch)
        ensures
            r.outcomes@.len() == 0,
            config.apps@.len() > 0 ==> r.phase == start_phase(config.apps@[0].name@, filter, force),
    {
        let phase = if config.apps.len() > 0 {
            start(config.apps[0].name.as_str(), filter, force)
        } else {
            Phase::Done(Outcome::Skipped)
        };
        Batch { outcomes: Vec::new(), phase }
    }

    /// Hands the result of the script that the current phase asked for to
    /// the current application.
    pub fn run_result(self, config: &Config, result: Option<ScriptResult>) -> (r: Batch)
        requires
            !self.finished(config),
            !(self.phase is Done),
        ensures
            r.outcomes == self.outcomes,
            advances_to(
                self.phase,
                config.apps@[self.outcomes@.len() as int].compare_mode,
                result,
                r.phase,
            ),
    {
        let mode = config.apps[self.outcomes.len()].compare_mode;
        let phase = advance(self.phase, mode, result);
        Batch { outcomes: self.outcomes, phase }
    }

    /// Records the outcome of the current application, whatever it is, and
    /// starts the next one at its first phase: a failure of one application
    /// never keeps the next from running.
    pub fn next_app(self, config: &Config, filter: Option<&str>, force: bool) -> (r: Batch)
        requires
            !self.finished(config),
            self.phase is Done,
        ensures
            r.outcomes@ == self.outcomes@.push(self.phase->Done_0),
            !r.finished(config) ==> r.phase == start_phase(
                config.apps@[r.outcomes@.len() as int].name@,
                filter,
                force,
            ),
    {
        let mut outcomes = self.outcomes;
        match self.phase {
            Phase::Done(o) => outcomes.push(o),
            _ => {},
        }
        let i = outcomes.len();
        let phase = if i < config.apps.len() {
            start(config.apps[i].name.as_str(), filter, force)
        } else {
            Phase::Done(Outcome::Skipped)
        };
        Batch { outcomes, phase }
    }
}

} // verus!
