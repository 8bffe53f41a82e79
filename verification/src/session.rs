//! The worker session: register, bootstrap, compile, each exactly once
//! and in this order, every request answered before the next is read.

use vstd::prelude::*;
use crate::bootstrap::{
    handle_project_init,
    Bootstrap,
    BootstrapView,
    Step,
    StepView,
    World,
};
use crate::compile::{
    after_build,
    after_load,
    build_command,
    check_build,
    check_load,
    make_command,
    response_of,
};
use crate::effect::{
    Action,
    ActionView,
    ArtifactView,
    BuildOutcomeView,
    Event,
    EventView,
    Fault,
};
use crate::messages::{
    BootstrapRequestView,
    BootstrapResponse,
    Code,
    CompileRequestView,
    CompileResponse,
    Incoming,
    IncomingView,
    MessageKind,
    Outgoing,
    OutgoingView,
    RegisterNodeRequest,
    RegisterNodeResponse,
    PROTOCOL_VERSION,
    REGISTRATION_ACCEPTED,
};

verus! {

/// Where a session stands: what the driver was last asked to do.
#[derive(Debug)]
pub enum Session {
    /// The registration request is on its way out.
    Registering,
    /// A frame with a message of this kind is awaited.
    Awaiting(MessageKind),
    /// A payload is being decoded as a message of this kind.
    Decoding(MessageKind),
    /// The bootstrapper has an action outstanding.
    Bootstrapping(Bootstrap),
    /// The bootstrap response is on its way out.
    ReportingBootstrap,
    /// The build tool is running for this target.
    Building(String),
    /// The artifact of this target is being read.
    Loading(String),
    /// The compile response is on its way out.
    ReportingCompile,
    /// The job is done.
    Finished,
    /// The session failed for good.
    Aborted(Fault),
}

/// A `Session` as contracts see it.
pub enum SessionView {
    Registering,
    Awaiting(MessageKind),
    Decoding(MessageKind),
    Bootstrapping(BootstrapView),
    ReportingBootstrap,
    Building(Seq<char>),
    Loading(Seq<char>),
    ReportingCompile,
    Finished,
    Aborted(Fault),
}

impl View for Session {
    type V = SessionView;

    open spec fn view(&self) -> SessionView {
        match self {
            Session::Registering => SessionView::Registering,
            Session::Awaiting(kind) => SessionView::Awaiting(*kind),
            Session::Decoding(kind) => SessionView::Decoding(*kind),
            Session::Bootstrapping(bootstrap) => SessionView::Bootstrapping(bootstrap@),
            Session::ReportingBootstrap => SessionView::ReportingBootstrap,
            Session::Building(file) => SessionView::Building(file@),
            Session::Loading(file) => SessionView::Loading(file@),
            Session::ReportingCompile => SessionView::ReportingCompile,
            Session::Finished => SessionView::Finished,
            Session::Aborted(fault) => SessionView::Aborted(*fault),
        }
    }
}

/// A session that fails with `fault`, and the action that says so.
pub open spec fn abort(fault: Fault) -> (SessionView, ActionView) {
    (SessionView::Aborted(fault), ActionView::Abort(fault))
}

/// How a session starts: by sending the registration request.
pub open spec fn start() -> (SessionView, ActionView) {
    (
        SessionView::Registering,
        ActionView::Send(OutgoingView::Register(RegisterNodeRequest { version: PROTOCOL_VERSION })),
    )
}

/// The bootstrap goes on with the step's action, or is over and its code
/// is sent, whatever the code.
pub open spec fn follow(step: StepView) -> (SessionView, ActionView) {
    match step {
        StepView::Pending(bootstrap, action) => (SessionView::Bootstrapping(bootstrap), action),
        StepView::Done(code) => (
            SessionView::ReportingBootstrap,
            ActionView::Send(OutgoingView::Bootstrapped(BootstrapResponse { code })),
        ),
    }
}

/// What a decoded message leads to when a message of `kind` was due.
pub open spec fn accept(kind: MessageKind, message: IncomingView) -> (SessionView, ActionView) {
    match message {
        IncomingView::Registered(response) => if kind != MessageKind::RegisterNodeResponse {
            abort(Fault::Unexpected)
        } else if response.code == REGISTRATION_ACCEPTED {
            (SessionView::Awaiting(MessageKind::BootstrapRequest), ActionView::Receive)
        } else {
            abort(Fault::Rejected(response.code))
        },
        IncomingView::Bootstrap(request) => if kind != MessageKind::BootstrapRequest {
            abort(Fault::Unexpected)
        } else {
            follow(crate::bootstrap::begin(request))
        },
        IncomingView::Compile(request) => if kind != MessageKind::CompileRequest {
            abort(Fault::Unexpected)
        } else {
            (SessionView::Building(request.files), ActionView::Build(build_command(request.files)))
        },
    }
}

impl SessionView {
    /// The session after `event`, and the next action. A frame without
    /// payload is no message: the session reads again. An event that
    /// does not answer the outstanding action ends the session.
    pub open spec fn step(self, event: EventView) -> (SessionView, ActionView) {
        match (self, event) {
            (SessionView::Registering, EventView::Sent) => (
                SessionView::Awaiting(MessageKind::RegisterNodeResponse),
                ActionView::Receive,
            ),
            (SessionView::Awaiting(kind), EventView::Frame(payload)) => if payload.len() == 0 {
                (SessionView::Awaiting(kind), ActionView::Receive)
            } else {
                (SessionView::Decoding(kind), ActionView::Decode(kind, payload))
            },
            (SessionView::Decoding(kind), EventView::Malformed) => abort(Fault::Malformed(kind)),
            (SessionView::Decoding(kind), EventView::Decoded(message)) => accept(kind, message),
            (SessionView::Bootstrapping(bootstrap), EventView::Status(ok)) => follow(
                bootstrap.advance(ok),
            ),
            (SessionView::ReportingBootstrap, EventView::Sent) => (
                SessionView::Awaiting(MessageKind::CompileRequest),
                ActionView::Receive,
            ),
            (SessionView::Building(file), EventView::Built(outcome)) => match after_build(
                outcome,
            ) {
                Ok(path) => (SessionView::Loading(file), ActionView::ReadFile(path)),
                Err(error) => (
                    SessionView::ReportingCompile,
                    ActionView::Send(OutgoingView::Compiled(response_of(file, Err(error)))),
                ),
            },
            (SessionView::Loading(file), EventView::Loaded(artifact)) => (
                SessionView::ReportingCompile,
                ActionView::Send(OutgoingView::Compiled(response_of(file, after_load(artifact)))),
            ),
            (SessionView::ReportingCompile, EventView::Sent) => (
                SessionView::Finished,
                ActionView::Stop,
            ),
            (SessionView::Finished, _) => (SessionView::Finished, ActionView::Stop),
            (SessionView::Aborted(fault), _) => abort(fault),
            _ => abort(Fault::Unexpected),
        }
    }
}

fn aborted(fault: Fault) -> (next: (Session, Action))
    ensures
        (next.0@, next.1@) == abort(fault),
{
    (Session::Aborted(fault), Action::Abort(fault))
}

fn followed(step: Step) -> (next: (Session, Action))
    ensures
        (next.0@, next.1@) == follow(step@),
{
    match step {
        Step::Pending(bootstrap, action) => (Session::Bootstrapping(bootstrap), action),
        Step::Done(code) => (
            Session::ReportingBootstrap,
            Action::Send(Outgoing::Bootstrapped(BootstrapResponse { code })),
        ),
    }
}

fn accepted(kind: MessageKind, message: Incoming) -> (next: (Session, Action))
    ensures
        (next.0@, next.1@) == accept(kind, message@),
{
    match message {
        Incoming::Registered(response) => match kind {
            MessageKind::RegisterNodeResponse => if response.code == REGISTRATION_ACCEPTED {
                (Session::Awaiting(MessageKind::BootstrapRequest), Action::Receive)
            } else {
                aborted(Fault::Rejected(response.code))
            },
            _ => aborted(Fault::Unexpected),
        },
        Incoming::Bootstrap(request) => match kind {
            MessageKind::BootstrapRequest => followed(handle_project_init(&request)),
            _ => aborted(Fault::Unexpected),
        },
        Incoming::Compile(request) => match kind {
            MessageKind::CompileRequest => {
                let command = make_command(request.files.as_str());
                (Session::Building(request.files), Action::Build(command))
            },
            _ => aborted(Fault::Unexpected),
        },
    }
}

impl Session {
    /// Opens a session on a channel that was just connected.
    pub fn start() -> (next: (Session, Action))
        ensures
            (next.0@, next.1@) == start(),
    {
        (
            Session::Registering,
            Action::Send(Outgoing::Register(RegisterNodeRequest { version: PROTOCOL_VERSION })),
        )
    }

    /// Takes the driver's report on the last action and decides the next.
    pub fn step(self, event: Event) -> (next: (Session, Action))
        ensures
            (next.0@, next.1@) == self@.step(event@),
    {
        match self {
            Session::Registering => match event {
                Event::Sent => (
                    Session::Awaiting(MessageKind::RegisterNodeResponse),
                    Action::Receive,
                ),
                _ => aborted(Fault::Unexpected),
            },
            Session::Awaiting(kind) => match event {
                Event::Frame(payload) => if payload.len() == 0 {
                    (Session::Awaiting(kind), Action::Receive)
                } else {
                    (Session::Decoding(kind), Action::Decode(kind, payload))
                },
                _ => aborted(Fault::Unexpected),
            },
            Session::Decoding(kind) => match event {
                Event::Malformed => aborted(Fault::Malformed(kind)),
                Event::Decoded(message) => accepted(kind, message),
                _ => aborted(Fault::Unexpected),
            },
            Session::Bootstrapping(bootstrap) => match event {
                Event::Status(ok) => followed(bootstrap.advance(ok)),
                _ => aborted(Fault::Unexpected),
            },
            Session::ReportingBootstrap => match event {
                Event::Sent => (Session::Awaiting(MessageKind::CompileRequest), Action::Receive),
                _ => aborted(Fault::Unexpected),
            },
            Session::Building(file) => match event {
                Event::Built(outcome) => match check_build(&outcome) {
                    Ok(path) => (Session::Loading(file), Action::ReadFile(path)),
                    Err(error) => (
                        Session::ReportingCompile,
                        Action::Send(Outgoing::Compiled(CompileResponse::failure(file, error))),
                    ),
                },
                _ => aborted(Fault::Unexpected),
            },
            Session::Loading(file) => match event {
                Event::Loaded(artifact) => {
                    let response = match check_load(artifact) {
                        Ok(data) => CompileResponse::success(file, data),
                        Err(error) => CompileResponse::failure(file, error),
                    };
                    (Session::ReportingCompile, Action::Send(Outgoing::Compiled(response)))
                },
                _ => aborted(Fault::Unexpected),
            },
            Session::ReportingCompile => match event {
                Event::Sent => (Session::Finished, Action::Stop),
                _ => aborted(Fault::Unexpected),
            },
            Session::Finished => (Session::Finished, Action::Stop),
            Session::Aborted(fault) => aborted(fault),
        }
    }
}

impl SessionView {
    /// How far a session has come: the phases in the order in which a
    /// session goes through them.
    pub open spec fn position(self) -> nat {
        match self {
            SessionView::Registering => 0,
            SessionView::Awaiting(MessageKind::RegisterNodeResponse) => 1,
            SessionView::Decoding(MessageKind::RegisterNodeResponse) => 2,
            SessionView::Awaiting(MessageKind::BootstrapRequest) => 3,
            SessionView::Decoding(MessageKind::BootstrapRequest) => 4,
            SessionView::Bootstrapping(_) => 5,
            SessionView::ReportingBootstrap => 6,
            SessionView::Awaiting(MessageKind::CompileRequest) => 7,
            SessionView::Decoding(MessageKind::CompileRequest) => 8,
            SessionView::Building(_) => 9,
            SessionView::Loading(_) => 10,
            SessionView::ReportingCompile => 11,
            SessionView::Finished => 12,
            SessionView::Aborted(_) => 13,
        }
    }
}

/// A frame without payload is never taken for a message: the session
/// stays where it is and reads again. Any other frame is decoded, whole,
/// as the message that is due.
pub proof fn law_empty_frames_skipped(kind: MessageKind, payload: Seq<u8>)
    ensures
        payload.len() == 0 ==> SessionView::Awaiting(kind).step(EventView::Frame(payload)) == (
            SessionView::Awaiting(kind),
            ActionView::Receive,
        ),
        payload.len() > 0 ==> SessionView::Awaiting(kind).step(EventView::Frame(payload)) == (
            SessionView::Decoding(kind),
            ActionView::Decode(kind, payload),
        ),
{
}

/// Only the code 0 registers the node. Any other code, and a registration
/// response that does not decode, end the session.
pub proof fn law_registration(code: i32)
    ensures
        ({
            let answered = SessionView::Decoding(MessageKind::RegisterNodeResponse).step(
                EventView::Decoded(
                    IncomingView::Registered(RegisterNodeResponse { code }),
                ),
            );
            if code == 0 {
                answered == (
                    SessionView::Awaiting(MessageKind::BootstrapRequest),
                    ActionView::Receive,
                )
            } else {
                answered == abort(Fault::Rejected(code))
            }
        }),
        SessionView::Decoding(MessageKind::RegisterNodeResponse).step(EventView::Malformed)
            == abort(Fault::Malformed(MessageKind::RegisterNodeResponse)),
{
}

/// A request with a URL that names no repository is answered with `EURL`
/// at once: between its decoding and the answer nothing is asked of the
/// file system or of a process.
pub proof fn law_bad_url_answered(request: BootstrapRequestView)
    requires
        !request.url.contains('/'),
    ensures
        SessionView::Decoding(MessageKind::BootstrapRequest).step(
            EventView::Decoded(IncomingView::Bootstrap(request)),
        ) == (
            SessionView::ReportingBootstrap,
            ActionView::Send(OutgoingView::Bootstrapped(BootstrapResponse { code: Code::EURL })),
        ),
{
}

/// A bootstrap that is over is answered with its code, whatever the code
/// is, and after the answer the session waits for the compile request: a
/// bootstrap that failed does not end the session.
pub proof fn law_bootstrap_answered(bootstrap: BootstrapView, ok: bool, code: Code)
    requires
        bootstrap.advance(ok) == StepView::Done(code),
    ensures
        SessionView::Bootstrapping(bootstrap).step(EventView::Status(ok)) == (
            SessionView::ReportingBootstrap,
            ActionView::Send(OutgoingView::Bootstrapped(BootstrapResponse { code })),
        ),
        SessionView::ReportingBootstrap.step(EventView::Sent) == (
            SessionView::Awaiting(MessageKind::CompileRequest),
            ActionView::Receive,
        ),
{
}

/// A compile is answered however it went, with the response that the
/// compile executor gives for what the build tool and the reading of the
/// artifact came to; the artifact is read only after a build that named
/// one.
pub proof fn law_compile_answered(
    file: Seq<char>,
    build: BuildOutcomeView,
    artifact: ArtifactView,
)
    ensures
        after_build(build) is Err ==> SessionView::Building(file).step(EventView::Built(build))
            == (
            SessionView::ReportingCompile,
            ActionView::Send(
                OutgoingView::Compiled(crate::compile::compile_of(file, build, artifact)),
            ),
        ),
        after_build(build) matches Ok(path) ==> SessionView::Building(file).step(
            EventView::Built(build),
        ) == (SessionView::Loading(file), ActionView::ReadFile(path)) && SessionView::Loading(
            file,
        ).step(EventView::Loaded(artifact)) == (
            SessionView::ReportingCompile,
            ActionView::Send(
                OutgoingView::Compiled(crate::compile::compile_of(file, build, artifact)),
            ),
        ),
        SessionView::ReportingCompile.step(EventView::Sent) == (
            SessionView::Finished,
            ActionView::Stop,
        ),
{
}

/// A session never goes back: whatever is reported, it stays in its
/// phase or moves to a later one. A message is sent only on entering a
/// phase that waits for `Sent`, and the next frame is read only from a
/// phase that has nothing left to send.
pub proof fn law_phases_in_order(session: SessionView, event: EventView)
    ensures
        session.step(event).0.position() >= session.position(),
        session.step(event).1 is Send ==> session.step(event).0 is ReportingBootstrap
            || session.step(event).0 is ReportingCompile,
        session.step(event).1 is Receive ==> session.step(event).0 is Awaiting && (event is Sent
            || event is Frame || event is Decoded),
        session.step(event).1 is Receive && event is Decoded ==> session == SessionView::Decoding(
            MessageKind::RegisterNodeResponse,
        ),
{
}

/// A coordinator and a machine that play along with one session: the
/// answer to the registration, the two requests, and how each step of
/// the bootstrap and of the compile goes.
pub struct Script {
    pub registration: i32,
    pub bootstrap: BootstrapRequestView,
    pub world: World,
    pub compile: CompileRequestView,
    pub build: BuildOutcomeView,
    pub artifact: ArtifactView,
}

impl Script {
    /// The message that a payload decodes to when a message of `kind` is
    /// due.
    pub open spec fn message(self, kind: MessageKind) -> IncomingView {
        match kind {
            MessageKind::RegisterNodeResponse => IncomingView::Registered(
                RegisterNodeResponse { code: self.registration },
            ),
            MessageKind::BootstrapRequest => IncomingView::Bootstrap(self.bootstrap),
            MessageKind::CompileRequest => IncomingView::Compile(self.compile),
        }
    }

    /// What the driver reports on `action`, asked for by `session`. Every
    /// frame carries a message.
    pub open spec fn report(self, session: SessionView, action: ActionView) -> EventView {
        match action {
            ActionView::Send(_) => EventView::Sent,
            ActionView::Receive => EventView::Frame(seq![0u8]),
            ActionView::Decode(kind, _) => EventView::Decoded(self.message(kind)),
            ActionView::ProbeDir(_) | ActionView::CreateDir(_) | ActionView::Run(_) => match session {
                SessionView::Bootstrapping(bootstrap) => EventView::Status(
                    self.world.answer(bootstrap.stage),
                ),
                _ => EventView::Status(false),
            },
            ActionView::Build(_) => EventView::Built(self.build),
            ActionView::ReadFile(_) => EventView::Loaded(self.artifact),
            ActionView::Stop | ActionView::Abort(_) => EventView::Sent,
        }
    }

    /// The messages that a session sends from `session` and `action` on,
    /// in order, within `steps` actions and until it stops or aborts.
    pub open spec fn sent(self, session: SessionView, action: ActionView, steps: nat) -> Seq<
        OutgoingView,
    >
        decreases steps,
    {
        if steps == 0 || action is Stop || action is Abort {
            seq![]
        } else {
            let next = session.step(self.report(session, action));
            let rest = self.sent(next.0, next.1, (steps - 1) as nat);
            match action {
                ActionView::Send(message) => seq![message] + rest,
                _ => rest,
            }
        }
    }

    /// The last action of a session that goes on from `session` and
    /// `action` for `steps` actions, or until it stops or aborts.
    pub open spec fn last_action(self, session: SessionView, action: ActionView, steps: nat)
        -> ActionView
        decreases steps,
    {
        if steps == 0 || action is Stop || action is Abort {
            action
        } else {
            let next = session.step(self.report(session, action));
            self.last_action(next.0, next.1, (steps - 1) as nat)
        }
    }
}

/// The number of actions within which every session with a message in
/// each frame comes to its end.
pub open spec fn longest_session() -> nat {
    16
}

/// From the point where the compile request is awaited, a session sends
/// the compile response and stops.
proof fn lemma_compile_phase(script: Script, steps: nat)
    requires
        steps >= 5,
    ensures
        script.sent(SessionView::Awaiting(MessageKind::CompileRequest), ActionView::Receive, steps)
            == seq![
            OutgoingView::Compiled(
                crate::compile::compile_of(script.compile.files, script.build, script.artifact),
            ),
        ],
        script.last_action(
            SessionView::Awaiting(MessageKind::CompileRequest),
            ActionView::Receive,
            steps,
        ) == ActionView::Stop,
{
    reveal_with_fuel(Script::sent, 6);
    reveal_with_fuel(Script::last_action, 6);
    let response = crate::compile::compile_of(script.compile.files, script.build, script.artifact);
    let decoding = SessionView::Decoding(MessageKind::CompileRequest);
    assert(SessionView::Awaiting(MessageKind::CompileRequest).step(
        script.report(SessionView::Awaiting(MessageKind::CompileRequest), ActionView::Receive),
    ) == (decoding, ActionView::Decode(MessageKind::CompileRequest, seq![0u8])));
    assert(script.sent(
        SessionView::Awaiting(MessageKind::CompileRequest),
        ActionView::Receive,
        steps,
    ) =~= seq![OutgoingView::Compiled(response)]);
}

/// From any step of the bootstrap, a session sends the bootstrap response
/// with the code that the bootstrap ends with, then the compile response,
/// and stops.
proof fn lemma_bootstrap_phase(script: Script, step: StepView, steps: nat)
    requires
        step matches StepView::Pending(bootstrap, action) ==> action == bootstrap.action(),
        steps >= step.steps_left() + 6,
    ensures
        script.sent(follow(step).0, follow(step).1, steps) == seq![
            OutgoingView::Bootstrapped(BootstrapResponse { code: step.outcome(script.world) }),
            OutgoingView::Compiled(
                crate::compile::compile_of(script.compile.files, script.build, script.artifact),
            ),
        ],
        script.last_action(follow(step).0, follow(step).1, steps) == ActionView::Stop,
    decreases step.steps_left(),
{
    let rest = (steps - 1) as nat;
    match step {
        StepView::Pending(bootstrap, action) => {
            let next = bootstrap.advance(script.world.answer(bootstrap.stage));
            lemma_bootstrap_phase(script, next, rest);
            assert(script.report(follow(step).0, action) == EventView::Status(
                script.world.answer(bootstrap.stage),
            ));
        },
        StepView::Done(code) => {
            lemma_compile_phase(script, rest);
            assert(script.sent(follow(step).0, follow(step).1, steps) =~= seq![
                OutgoingView::Bootstrapped(BootstrapResponse { code }),
                OutgoingView::Compiled(
                    crate::compile::compile_of(script.compile.files, script.build, script.artifact),
                ),
            ]);
        },
    }
}

/// With a coordinator that accepts the registration, a session sends
/// three messages and stops: the registration request with version 1, the
/// bootstrap response with the code that the bootstrapper ends with, and
/// the compile response that the compile executor gives for the file that
/// was asked for. It does so whatever the bootstrap's code is and however
/// the compile goes.
pub proof fn law_session(script: Script, steps: nat)
    requires
        script.registration == 0,
        steps >= longest_session(),
    ensures
        script.sent(start().0, start().1, steps) == seq![
            OutgoingView::Register(RegisterNodeRequest { version: 1 }),
            OutgoingView::Bootstrapped(
                BootstrapResponse {
                    code: crate::bootstrap::begin(script.bootstrap).outcome(script.world),
                },
            ),
            OutgoingView::Compiled(
                crate::compile::compile_of(script.compile.files, script.build, script.artifact),
            ),
        ],
        script.last_action(start().0, start().1, steps) == ActionView::Stop,
{
    let begun = crate::bootstrap::begin(script.bootstrap);
    let left = (steps - 5) as nat;
    lemma_bootstrap_phase(script, begun, left);
    reveal_with_fuel(Script::sent, 6);
    reveal_with_fuel(Script::last_action, 6);
    assert(script.sent(start().0, start().1, steps) =~= seq![
        OutgoingView::Register(RegisterNodeRequest { version: 1 }),
    ] + script.sent(follow(begun).0, follow(begun).1, left));
}

} // verus!
