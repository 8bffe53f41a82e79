use node_rs::bootstrap::{handle_project_init, Bootstrap, Step};
use node_rs::command::Command;
use node_rs::effect::Action;
use node_rs::messages::{BootstrapRequest, Code};

fn request(url: &str, rev: &str) -> BootstrapRequest {
    BootstrapRequest { url: url.to_string(), rev: rev.to_string() }
}

fn command(args: &[&str], dir: Option<&str>) -> Command {
    Command {
        program: "/usr/bin/env".to_string(),
        args: args.iter().map(|a| a.to_string()).collect(),
        dir: dir.map(|d| d.to_string()),
    }
}

fn pending(step: Step) -> (Bootstrap, Action) {
    match step {
        Step::Pending(bootstrap, action) => (bootstrap, action),
        Step::Done(code) => panic!("bootstrap is over with {:?}", code),
    }
}

fn done(step: Step) -> Code {
    match step {
        Step::Done(code) => code,
        Step::Pending(_, action) => panic!("bootstrap goes on with {:?}", action),
    }
}

/// Runs a bootstrap to its end, answering each action from `answers`, and
/// returns the actions it asked for and its code.
fn run(url: &str, rev: &str, answers: &[bool]) -> (Vec<Action>, Code) {
    let mut actions = Vec::new();
    let mut step = handle_project_init(&request(url, rev));
    let mut next = 0;
    loop {
        match step {
            Step::Done(code) => {
                assert_eq!(next, answers.len());
                return (actions, code);
            }
            Step::Pending(bootstrap, action) => {
                actions.push(action);
                step = bootstrap.advance(answers[next]);
                next += 1;
            }
        }
    }
}

#[test]
fn fresh_directory_is_cloned_checked_out_and_configured() {
    let url = "https://example.com/proj.git";
    let (bootstrap, action) = pending(handle_project_init(&request(url, "abc123")));
    assert_eq!(action, Action::ProbeDir("proj/abc123".to_string()));
    let (bootstrap, action) = pending(bootstrap.advance(false));
    assert_eq!(action, Action::Run(command(&["git", "clone", url, "proj/abc123"], None)));
    let (bootstrap, action) = pending(bootstrap.advance(true));
    assert_eq!(action, Action::Run(command(&["git", "checkout", "abc123"], Some("proj/abc123"))));
    let (bootstrap, action) = pending(bootstrap.advance(true));
    assert_eq!(action, Action::CreateDir("proj/abc123/build".to_string()));
    let (bootstrap, action) = pending(bootstrap.advance(true));
    assert_eq!(
        action,
        Action::Run(command(
            &["cmake", "..", "-DCMAKE_BUILD_TYPE=RELEASE"],
            Some("proj/abc123/build")
        ))
    );
    assert_eq!(done(bootstrap.advance(true)), Code::OK);
}

#[test]
fn url_without_slash_is_refused_before_any_action() {
    let (actions, code) = run("proj.git", "abc123", &[]);
    assert!(actions.is_empty());
    assert_eq!(code, Code::EURL);
}

#[test]
fn failed_clone_is_eurl() {
    let (actions, code) = run("h/p.git", "r", &[false, false]);
    assert_eq!(actions.len(), 2);
    assert_eq!(code, Code::EURL);
}

#[test]
fn failed_checkout_is_erev() {
    let (actions, code) = run("h/p.git", "r", &[false, true, false]);
    assert_eq!(actions.len(), 3);
    assert_eq!(code, Code::EREV);
}

#[test]
fn failed_build_dir_is_ecfg() {
    let (actions, code) = run("h/p.git", "r", &[false, true, true, false]);
    assert_eq!(actions.len(), 4);
    assert_eq!(code, Code::ECFG);
}

#[test]
fn failed_configuration_is_ecfg() {
    let (actions, code) = run("h/p.git", "r", &[false, true, true, true, false]);
    assert_eq!(actions.len(), 5);
    assert_eq!(code, Code::ECFG);
}

#[test]
fn existing_checkout_is_not_cloned_again() {
    let (actions, code) = run("https://example.com/proj.git", "abc123", &[true, true, true]);
    assert_eq!(code, Code::OK);
    assert_eq!(
        actions,
        vec![
            Action::ProbeDir("proj/abc123".to_string()),
            Action::CreateDir("proj/abc123/build".to_string()),
            Action::Run(command(
                &["cmake", "..", "-DCMAKE_BUILD_TYPE=RELEASE"],
                Some("proj/abc123/build")
            )),
        ]
    );
}

#[test]
fn second_bootstrap_after_a_successful_one_only_configures() {
    let (first, code) = run("h/p.git", "v2", &[false, true, true, true, true]);
    assert_eq!(code, Code::OK);
    assert_eq!(first.len(), 5);
    let (second, code) = run("h/p.git", "v2", &[true, true, true]);
    assert_eq!(code, Code::OK);
    assert!(second.iter().all(|action| match action {
        Action::Run(command) => command.args[0] != "git",
        _ => true,
    }));
}

#[test]
fn existing_checkout_with_failed_configuration_is_ecfg() {
    assert_eq!(run("h/p", "r", &[true, true, false]).1, Code::ECFG);
    assert_eq!(run("h/p", "r", &[true, false]).1, Code::ECFG);
}

#[test]
fn url_without_suffix_uses_the_whole_last_segment() {
    let (_, action) = pending(handle_project_init(&request("git@host:group/tool", "main")));
    assert_eq!(action, Action::ProbeDir("tool/main".to_string()));
}
