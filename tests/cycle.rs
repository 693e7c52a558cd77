use uppies::cycle::{advance, start, Batch, Failure, Outcome, Phase, ScriptResult};
use uppies::version::CompareMode;

fn ran(stdout: &str, exit_code: i32) -> Option<ScriptResult> {
    Some(ScriptResult { stdout: stdout.to_string(), exit_code })
}

/// Drives one cycle to its end, handing out the canned results of the
/// local, remote and update scripts; a script that is run without a result
/// prepared fails the test.
fn drive(
    name: &str,
    filter: Option<&str>,
    force: bool,
    mode: CompareMode,
    local: Option<Option<ScriptResult>>,
    remote: Option<Option<ScriptResult>>,
    update: Option<Option<ScriptResult>>,
) -> (Outcome, Vec<&'static str>) {
    let (mut local, mut remote, mut update) = (local, remote, update);
    let mut ran_scripts = Vec::new();
    let mut phase = start(name, filter, force);
    loop {
        let result = match &phase {
            Phase::RunLocal => {
                ran_scripts.push("local");
                local.take().expect("local script run")
            }
            Phase::RunRemote { .. } => {
                ran_scripts.push("remote");
                remote.take().expect("remote script run")
            }
            Phase::RunUpdate { .. } => {
                ran_scripts.push("update");
                update.take().expect("update script run")
            }
            Phase::Done(_) => break,
        };
        phase = advance(phase, mode, result);
    }
    match phase {
        Phase::Done(o) => (o, ran_scripts),
        _ => unreachable!(),
    }
}

#[test]
fn loop_continues_after_failed_app() {
    let mut outcomes = Vec::new();
    // first app: up to date
    outcomes.push(drive(
        "one",
        None,
        false,
        CompareMode::String,
        Some(ran("1.0.0\n", 0)),
        Some(ran("v1.0.0\n", 0)),
        None,
    ));
    // second app: its local script exits with code 1
    outcomes.push(drive("two", None, false, CompareMode::String, Some(ran("", 1)), None, None));
    // third app: an update is due and succeeds
    outcomes.push(drive(
        "three",
        None,
        false,
        CompareMode::Semver,
        Some(ran("1.0.0", 0)),
        Some(ran("1.1.0", 0)),
        Some(ran("", 0)),
    ));
    assert!(matches!(&outcomes[0].0, Outcome::UpToDate { version } if version == "1.0.0"));
    assert!(matches!(outcomes[1].0, Outcome::Failed(Failure::LocalScript)));
    assert_eq!(outcomes[1].1, vec!["local"]);
    assert!(matches!(outcomes[2].0, Outcome::Updated));
    assert_eq!(outcomes.len(), 3);
    assert_eq!(outcomes[2].1, vec!["local", "remote", "update"]);
}

#[test]
fn force_runs_update_without_version_scripts() {
    let (o, scripts) = drive("app", None, true, CompareMode::Semver, None, None, Some(ran("", 0)));
    assert!(matches!(o, Outcome::Updated));
    assert_eq!(scripts, vec!["update"]);
}

#[test]
fn force_with_failing_update_fails() {
    let (o, _) = drive("app", None, true, CompareMode::String, None, None, Some(ran("", 2)));
    assert!(matches!(o, Outcome::Failed(Failure::UpdateScript)));
}

#[test]
fn filter_skips_other_apps() {
    let (o, scripts) = drive("one", Some("two"), false, CompareMode::String, None, None, None);
    assert!(matches!(o, Outcome::Skipped));
    assert!(scripts.is_empty());
    let (o, _) = drive(
        "two",
        Some("two"),
        false,
        CompareMode::String,
        Some(ran("a", 0)),
        Some(ran("b", 0)),
        Some(ran("", 0)),
    );
    assert!(matches!(o, Outcome::Updated));
}

#[test]
fn launch_failure_counts_as_script_failure() {
    let (o, _) = drive("app", None, false, CompareMode::String, Some(None), None, None);
    assert!(matches!(o, Outcome::Failed(Failure::LocalScript)));
    let (o, _) =
        drive("app", None, false, CompareMode::String, Some(ran("1", 0)), Some(None), None);
    assert!(matches!(o, Outcome::Failed(Failure::RemoteScript)));
}

#[test]
fn remote_failure_stops_before_update() {
    let (o, scripts) =
        drive("app", None, false, CompareMode::String, Some(ran("1", 0)), Some(ran("2", 7)), None);
    assert!(matches!(o, Outcome::Failed(Failure::RemoteScript)));
    assert_eq!(scripts, vec!["local", "remote"]);
}

#[test]
fn comparison_error_fails_only_this_app() {
    let (o, _) = drive(
        "app",
        None,
        false,
        CompareMode::Semver,
        Some(ran("v1.0\n", 0)),
        Some(ran("1.0.0\n", 0)),
        None,
    );
    match o {
        Outcome::Failed(Failure::Comparison(e)) => {
            assert_eq!(e.local, "1.0");
            assert_eq!(e.remote, "1.0.0");
        }
        other => panic!("unexpected {:?}", other),
    }
}

#[test]
fn semver_local_ahead_is_up_to_date() {
    let (o, scripts) = drive(
        "app",
        None,
        false,
        CompareMode::Semver,
        Some(ran("2.0.0", 0)),
        Some(ran("1.9.9", 0)),
        None,
    );
    assert!(matches!(&o, Outcome::UpToDate { version } if version == "2.0.0"));
    assert_eq!(scripts, vec!["local", "remote"]);
}

#[test]
fn update_phase_carries_both_versions() {
    let p = advance(Phase::RunLocal, CompareMode::String, ran("v1.0\n", 0));
    let p = advance(p, CompareMode::String, ran(" 1.1 \n", 0));
    match p {
        Phase::RunUpdate { versions: Some((l, r)) } => {
            assert_eq!(l, "1.0");
            assert_eq!(r, "1.1");
        }
        other => panic!("unexpected {:?}", other),
    }
    assert!(matches!(start("a", None, true), Phase::RunUpdate { versions: None }));
}

fn app(name: &str, mode: CompareMode) -> uppies::config::App {
    uppies::config::App {
        name: name.to_string(),
        description: None,
        local: uppies::config::ScriptConfig::Inline { inline: format!("{} local", name) },
        remote: uppies::config::ScriptConfig::Inline { inline: format!("{} remote", name) },
        update: uppies::config::ScriptConfig::Inline { inline: format!("{} update", name) },
        compare_mode: mode,
    }
}

/// Runs a whole batch, answering each script from `answer`, and returns the
/// outcomes and the commands run, in order.
fn run_batch(
    config: &uppies::config::Config,
    filter: Option<&str>,
    force: bool,
    answer: &dyn Fn(&str) -> Option<ScriptResult>,
) -> (Vec<Outcome>, Vec<String>) {
    let mut commands = Vec::new();
    let mut batch = Batch::begin(config, filter, force);
    while batch.outcomes.len() < config.apps.len() {
        let app = &config.apps[batch.outcomes.len()];
        let script = match &batch.phase {
            Phase::RunLocal => &app.local,
            Phase::RunRemote { .. } => &app.remote,
            Phase::RunUpdate { .. } => &app.update,
            Phase::Done(_) => {
                batch = batch.next_app(config, filter, force);
                continue;
            }
        };
        commands.push(script.as_command().to_string());
        let result = answer(script.as_command());
        batch = batch.run_result(config, result);
    }
    (batch.outcomes, commands)
}

#[test]
fn batch_continues_after_failed_app() {
    let config = uppies::config::Config {
        apps: vec![
            app("one", CompareMode::String),
            app("two", CompareMode::String),
            app("three", CompareMode::Semver),
        ],
    };
    let answer = |cmd: &str| match cmd {
        "one local" | "one remote" => ran("1.0.0\n", 0),
        "two local" => ran("", 1),
        "three local" => ran("1.0.0", 0),
        "three remote" => ran("1.1.0", 0),
        "three update" => ran("", 0),
        other => panic!("unexpected script {}", other),
    };
    let (outcomes, commands) = run_batch(&config, None, false, &answer);
    assert_eq!(outcomes.len(), 3);
    assert!(matches!(&outcomes[0], Outcome::UpToDate { version } if version == "1.0.0"));
    assert!(matches!(outcomes[1], Outcome::Failed(Failure::LocalScript)));
    assert!(matches!(outcomes[2], Outcome::Updated));
    assert_eq!(
        commands,
        vec!["one local", "one remote", "two local", "three local", "three remote", "three update"]
    );
}

#[test]
fn batch_force_and_filter() {
    let config = uppies::config::Config {
        apps: vec![app("one", CompareMode::String), app("two", CompareMode::String)],
    };
    let answer = |cmd: &str| match cmd {
        "two update" => ran("", 0),
        other => panic!("unexpected script {}", other),
    };
    let (outcomes, commands) = run_batch(&config, Some("two"), true, &answer);
    assert!(matches!(outcomes[0], Outcome::Skipped));
    assert!(matches!(outcomes[1], Outcome::Updated));
    assert_eq!(commands, vec!["two update"]);
    let empty = uppies::config::Config { apps: vec![] };
    let (outcomes, commands) = run_batch(&empty, None, false, &answer);
    assert!(outcomes.is_empty() && commands.is_empty());
}
