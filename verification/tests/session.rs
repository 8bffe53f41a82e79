use node_rs::command::Command;
use node_rs::effect::{Action, Artifact, BuildOutcome, Event, Fault};
use node_rs::messages::{
    BootstrapRequest, BootstrapResponse, Code, CompileRequest, CompileResponse, Incoming,
    MessageKind, Outgoing, RegisterNodeRequest, RegisterNodeResponse,
};
use node_rs::session::Session;

fn registered(code: i32) -> Event {
    Event::Decoded(Incoming::Registered(RegisterNodeResponse { code }))
}

fn bootstrap(url: &str, rev: &str) -> Event {
    Event::Decoded(Incoming::Bootstrap(BootstrapRequest {
        url: url.to_string(),
        rev: rev.to_string(),
    }))
}

fn compile(files: &str) -> Event {
    Event::Decoded(Incoming::Compile(CompileRequest { files: files.to_string() }))
}

/// Feeds the events to a new session and returns the session and the
/// actions it asked for, the first being that of `start`.
fn drive(events: Vec<Event>) -> (Session, Vec<Action>) {
    let (mut session, first) = Session::start();
    let mut actions = vec![first];
    for event in events {
        let (next, action) = session.step(event);
        session = next;
        actions.push(action);
    }
    (session, actions)
}

/// The events up to the point where the bootstrap request is awaited.
fn until_registered() -> Vec<Event> {
    vec![Event::Sent, Event::Frame(vec![8, 0]), registered(0)]
}

/// The events up to the point where the compile request is awaited, for
/// a bootstrap that finds its checkout and configures it.
fn until_bootstrapped() -> Vec<Event> {
    let mut events = until_registered();
    events.extend(vec![
        Event::Frame(vec![1]),
        bootstrap("h/p.git", "r"),
        Event::Status(true),
        Event::Status(true),
        Event::Status(true),
        Event::Sent,
    ]);
    events
}

#[test]
fn session_starts_by_registering_version_one() {
    let (session, action) = Session::start();
    assert!(matches!(session, Session::Registering));
    assert_eq!(action, Action::Send(Outgoing::Register(RegisterNodeRequest { version: 1 })));
}

#[test]
fn whole_job_from_registration_to_artifact() {
    let url = "https://example.com/proj.git";
    let events = vec![
        Event::Sent,
        Event::Frame(Vec::new()),
        Event::Frame(vec![8, 0]),
        registered(0),
        Event::Frame(vec![10, 3]),
        bootstrap(url, "abc123"),
        Event::Status(false),
        Event::Status(true),
        Event::Status(true),
        Event::Status(true),
        Event::Status(true),
        Event::Sent,
        Event::Frame(vec![10, 1]),
        compile("main.o"),
        Event::Built(BuildOutcome::Succeeded(b"cc -c main.c -o obj/main.o\n".to_vec())),
        Event::Loaded(Artifact::Loaded(vec![0x7f, b'E', b'L', b'F'])),
        Event::Sent,
    ];
    let env = |args: &[&str], dir: Option<&str>| Command {
        program: "/usr/bin/env".to_string(),
        args: args.iter().map(|a| a.to_string()).collect(),
        dir: dir.map(|d| d.to_string()),
    };
    let (session, actions) = drive(events);
    assert!(matches!(session, Session::Finished));
    assert_eq!(
        actions,
        vec![
            Action::Send(Outgoing::Register(RegisterNodeRequest { version: 1 })),
            Action::Receive,
            Action::Receive,
            Action::Decode(MessageKind::RegisterNodeResponse, vec![8, 0]),
            Action::Receive,
            Action::Decode(MessageKind::BootstrapRequest, vec![10, 3]),
            Action::ProbeDir("proj/abc123".to_string()),
            Action::Run(env(&["git", "clone", url, "proj/abc123"], None)),
            Action::Run(env(&["git", "checkout", "abc123"], Some("proj/abc123"))),
            Action::CreateDir("proj/abc123/build".to_string()),
            Action::Run(env(
                &["cmake", "..", "-DCMAKE_BUILD_TYPE=RELEASE"],
                Some("proj/abc123/build")
            )),
            Action::Send(Outgoing::Bootstrapped(BootstrapResponse { code: Code::OK })),
            Action::Receive,
            Action::Decode(MessageKind::CompileRequest, vec![10, 1]),
            Action::Build(env(&["make", "VERBOSE=1", "main.o"], None)),
            Action::ReadFile("obj/main.o".to_string()),
            Action::Send(Outgoing::Compiled(CompileResponse {
                file: "main.o".to_string(),
                data: vec![0x7f, b'E', b'L', b'F'],
                error: String::new(),
            })),
            Action::Stop,
        ]
    );
}

#[test]
fn empty_frames_are_skipped_in_every_phase() {
    let (session, actions) = drive(vec![Event::Sent, Event::Frame(Vec::new())]);
    assert!(matches!(session, Session::Awaiting(MessageKind::RegisterNodeResponse)));
    assert_eq!(actions[2], Action::Receive);

    let mut events = until_registered();
    events.push(Event::Frame(Vec::new()));
    events.push(Event::Frame(Vec::new()));
    let (session, actions) = drive(events);
    assert!(matches!(session, Session::Awaiting(MessageKind::BootstrapRequest)));
    assert_eq!(actions.last(), Some(&Action::Receive));

    let mut events = until_bootstrapped();
    events.push(Event::Frame(Vec::new()));
    let (session, actions) = drive(events);
    assert!(matches!(session, Session::Awaiting(MessageKind::CompileRequest)));
    assert_eq!(actions.last(), Some(&Action::Receive));
}

#[test]
fn rejected_registration_ends_the_session() {
    let (session, actions) = drive(vec![Event::Sent, Event::Frame(vec![8, 3]), registered(3)]);
    assert!(matches!(session, Session::Aborted(Fault::Rejected(3))));
    assert_eq!(actions.last(), Some(&Action::Abort(Fault::Rejected(3))));
    let (session, action) = session.step(Event::Sent);
    assert!(matches!(session, Session::Aborted(Fault::Rejected(3))));
    assert_eq!(action, Action::Abort(Fault::Rejected(3)));
}

#[test]
fn negative_registration_code_is_rejected_too() {
    let (_, actions) = drive(vec![Event::Sent, Event::Frame(vec![1]), registered(-1)]);
    assert_eq!(actions.last(), Some(&Action::Abort(Fault::Rejected(-1))));
}

#[test]
fn malformed_messages_end_the_session() {
    let (_, actions) = drive(vec![Event::Sent, Event::Frame(vec![255]), Event::Malformed]);
    assert_eq!(
        actions.last(),
        Some(&Action::Abort(Fault::Malformed(MessageKind::RegisterNodeResponse)))
    );

    let mut events = until_registered();
    events.extend(vec![Event::Frame(vec![255]), Event::Malformed]);
    let (_, actions) = drive(events);
    assert_eq!(
        actions.last(),
        Some(&Action::Abort(Fault::Malformed(MessageKind::BootstrapRequest)))
    );

    let mut events = until_bootstrapped();
    events.extend(vec![Event::Frame(vec![255]), Event::Malformed]);
    let (_, actions) = drive(events);
    assert_eq!(
        actions.last(),
        Some(&Action::Abort(Fault::Malformed(MessageKind::CompileRequest)))
    );
}

#[test]
fn message_of_the_wrong_kind_ends_the_session() {
    let (_, actions) = drive(vec![Event::Sent, Event::Frame(vec![1]), compile("x")]);
    assert_eq!(actions.last(), Some(&Action::Abort(Fault::Unexpected)));
    let mut events = until_registered();
    events.extend(vec![Event::Frame(vec![1]), registered(0)]);
    let (_, actions) = drive(events);
    assert_eq!(actions.last(), Some(&Action::Abort(Fault::Unexpected)));
}

#[test]
fn report_that_answers_nothing_ends_the_session() {
    let (_, actions) = drive(vec![Event::Status(true)]);
    assert_eq!(actions.last(), Some(&Action::Abort(Fault::Unexpected)));
    let (_, actions) = drive(vec![Event::Sent, Event::Sent]);
    assert_eq!(actions.last(), Some(&Action::Abort(Fault::Unexpected)));
    let mut events = until_registered();
    events.extend(vec![Event::Frame(vec![1]), bootstrap("h/p", "r"), Event::Sent]);
    let (_, actions) = drive(events);
    assert_eq!(actions.last(), Some(&Action::Abort(Fault::Unexpected)));
}

#[test]
fn bad_url_is_answered_with_eurl_and_the_session_goes_on() {
    let mut events = until_registered();
    events.extend(vec![Event::Frame(vec![1]), bootstrap("no-slash", "r")]);
    let (session, actions) = drive(events);
    assert!(matches!(session, Session::ReportingBootstrap));
    assert_eq!(
        actions.last(),
        Some(&Action::Send(Outgoing::Bootstrapped(BootstrapResponse { code: Code::EURL })))
    );
    let (session, action) = session.step(Event::Sent);
    assert!(matches!(session, Session::Awaiting(MessageKind::CompileRequest)));
    assert_eq!(action, Action::Receive);
}

#[test]
fn failed_checkout_is_answered_with_erev_and_the_session_goes_on() {
    let mut events = until_registered();
    events.extend(vec![
        Event::Frame(vec![1]),
        bootstrap("h/p", "nope"),
        Event::Status(false),
        Event::Status(true),
        Event::Status(false),
    ]);
    let (session, actions) = drive(events);
    assert_eq!(
        actions.last(),
        Some(&Action::Send(Outgoing::Bootstrapped(BootstrapResponse { code: Code::EREV })))
    );
    let (_, action) = session.step(Event::Sent);
    assert_eq!(action, Action::Receive);
}

#[test]
fn failed_build_is_answered_without_data() {
    let mut events = until_bootstrapped();
    events.extend(vec![Event::Frame(vec![1]), compile("t"), Event::Built(BuildOutcome::Failed)]);
    let (session, actions) = drive(events);
    assert_eq!(
        actions.last(),
        Some(&Action::Send(Outgoing::Compiled(CompileResponse {
            file: "t".to_string(),
            data: Vec::new(),
            error: "compilation failed".to_string(),
        })))
    );
    let (session, action) = session.step(Event::Sent);
    assert!(matches!(session, Session::Finished));
    assert_eq!(action, Action::Stop);
}

#[test]
fn build_tool_that_does_not_start_is_answered() {
    let mut events = until_bootstrapped();
    events.extend(vec![
        Event::Frame(vec![1]),
        compile("t"),
        Event::Built(BuildOutcome::NotStarted),
    ]);
    let (_, actions) = drive(events);
    assert_eq!(
        actions.last(),
        Some(&Action::Send(Outgoing::Compiled(CompileResponse {
            file: "t".to_string(),
            data: Vec::new(),
            error: "failed to start build tool".to_string(),
        })))
    );
}

#[test]
fn missing_artifact_is_answered_with_an_error() {
    let mut events = until_bootstrapped();
    events.extend(vec![
        Event::Frame(vec![1]),
        compile("t"),
        Event::Built(BuildOutcome::Succeeded(b"cc -o t.o\n".to_vec())),
        Event::Loaded(Artifact::OpenFailed),
    ]);
    let (_, actions) = drive(events);
    assert_eq!(actions[actions.len() - 2], Action::ReadFile("t.o".to_string()));
    assert_eq!(
        actions.last(),
        Some(&Action::Send(Outgoing::Compiled(CompileResponse {
            file: "t".to_string(),
            data: Vec::new(),
            error: "Failed to open just compiled file".to_string(),
        })))
    );
}

#[test]
fn finished_session_stays_finished() {
    let mut events = until_bootstrapped();
    events.extend(vec![
        Event::Frame(vec![1]),
        compile("t"),
        Event::Built(BuildOutcome::Failed),
        Event::Sent,
        Event::Frame(vec![1, 2, 3]),
    ]);
    let (session, actions) = drive(events);
    assert!(matches!(session, Session::Finished));
    assert_eq!(actions.last(), Some(&Action::Stop));
}

#[test]
fn artifact_that_cannot_be_read_to_its_end_is_answered_with_an_error() {
    let mut events = until_bootstrapped();
    events.extend(vec![
        Event::Frame(vec![1]),
        compile("t"),
        Event::Built(BuildOutcome::Succeeded(b"cc -o t.o\n".to_vec())),
        Event::Loaded(Artifact::ReadFailed),
    ]);
    let (session, actions) = drive(events);
    assert!(matches!(session, Session::ReportingCompile));
    assert_eq!(
        actions.last(),
        Some(&Action::Send(Outgoing::Compiled(CompileResponse {
            file: "t".to_string(),
            data: Vec::new(),
            error: "Failed to read just opened file.".to_string(),
        })))
    );
}

#[test]
fn build_output_without_a_path_is_answered_with_an_error() {
    let mut events = until_bootstrapped();
    events.extend(vec![
        Event::Frame(vec![1]),
        compile("t"),
        Event::Built(BuildOutcome::Succeeded(b"nothing-to-see\n".to_vec())),
    ]);
    let (_, actions) = drive(events);
    assert_eq!(
        actions.last(),
        Some(&Action::Send(Outgoing::Compiled(CompileResponse {
            file: "t".to_string(),
            data: Vec::new(),
            error: "Failed ... path".to_string(),
        })))
    );
}
