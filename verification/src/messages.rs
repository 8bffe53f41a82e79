//! The records exchanged with the coordinator, as plain values.

use vstd::prelude::*;

verus! {

/// The protocol version announced at registration.
pub const PROTOCOL_VERSION: i32 = 1;

/// The registration code with which the coordinator accepts a node.
pub const REGISTRATION_ACCEPTED: i32 = 0;

/// How a bootstrap ended. The failure codes follow the pipeline: `EURL`
/// for a bad repository, `EREV` for a bad revision, `ECFG` for a build
/// configuration that failed.
#[derive(Clone, Copy, Debug, PartialEq, Eq, Structural)]
pub enum Code {
    OK,
    EURL,
    EREV,
    ECFG,
}

/// Sent once, at the start of a session.
#[derive(Clone, Copy, Debug, PartialEq, Eq, Structural)]
pub struct RegisterNodeRequest {
    pub version: i32,
}

/// The coordinator's answer to a registration; only code 0 accepts.
#[derive(Clone, Copy, Debug, PartialEq, Eq, Structural)]
pub struct RegisterNodeResponse {
    pub code: i32,
}

/// Asks for a checkout of `url` at `rev`, configured for building.
#[derive(Debug, PartialEq, Eq)]
pub struct BootstrapRequest {
    pub url: String,
    pub rev: String,
}

/// A `BootstrapRequest` as contracts see it.
pub struct BootstrapRequestView {
    pub url: Seq<char>,
    pub rev: Seq<char>,
}

impl View for BootstrapRequest {
    type V = BootstrapRequestView;

    open spec fn view(&self) -> BootstrapRequestView {
        BootstrapRequestView { url: self.url@, rev: self.rev@ }
    }
}

/// The outcome of a bootstrap.
#[derive(Clone, Copy, Debug, PartialEq, Eq, Structural)]
pub struct BootstrapResponse {
    pub code: Code,
}

/// Asks for one build target; `files` names exactly one.
#[derive(Debug, PartialEq, Eq)]
pub struct CompileRequest {
    pub files: String,
}

/// A `CompileRequest` as contracts see it.
pub struct CompileRequestView {
    pub files: Seq<char>,
}

impl View for CompileRequest {
    type V = CompileRequestView;

    open spec fn view(&self) -> CompileRequestView {
        CompileRequestView { files: self.files@ }
    }
}

/// The outcome of a compile: the artifact's bytes, or why there are none.
#[derive(Debug, PartialEq, Eq)]
pub struct CompileResponse {
    pub file: String,
    pub data: Vec<u8>,
    pub error: String,
}

/// A `CompileResponse` as contracts see it.
pub struct CompileResponseView {
    pub file: Seq<char>,
    pub data: Seq<u8>,
    pub error: Seq<char>,
}

impl CompileResponseView {
    /// A response carries data only when it reports no error.
    pub open spec fn well_formed(self) -> bool {
        self.error.len() > 0 ==> self.data.len() == 0
    }

    /// The response reports no error.
    pub open spec fn is_success(self) -> bool {
        self.error.len() == 0
    }
}

impl View for CompileResponse {
    type V = CompileResponseView;

    open spec fn view(&self) -> CompileResponseView {
        CompileResponseView { file: self.file@, data: self.data@, error: self.error@ }
    }
}

/// A message the node sends.
#[derive(Debug, PartialEq, Eq)]
pub enum Outgoing {
    Register(RegisterNodeRequest),
    Bootstrapped(BootstrapResponse),
    Compiled(CompileResponse),
}

/// An `Outgoing` as contracts see it.
pub enum OutgoingView {
    Register(RegisterNodeRequest),
    Bootstrapped(BootstrapResponse),
    Compiled(CompileResponseView),
}

impl View for Outgoing {
    type V = OutgoingView;

    open spec fn view(&self) -> OutgoingView {
        match self {
            Outgoing::Register(m) => OutgoingView::Register(*m),
            Outgoing::Bootstrapped(m) => OutgoingView::Bootstrapped(*m),
            Outgoing::Compiled(m) => OutgoingView::Compiled(m@),
        }
    }
}

/// The kinds of message the node receives, in the order it expects them.
#[derive(Clone, Copy, Debug, PartialEq, Eq, Structural)]
pub enum MessageKind {
    RegisterNodeResponse,
    BootstrapRequest,
    CompileRequest,
}

/// A message the node received, decoded.
#[derive(Debug, PartialEq, Eq)]
pub enum Incoming {
    Registered(RegisterNodeResponse),
    Bootstrap(BootstrapRequest),
    Compile(CompileRequest),
}

/// An `Incoming` as contracts see it.
pub enum IncomingView {
    Registered(RegisterNodeResponse),
    Bootstrap(BootstrapRequestView),
    Compile(CompileRequestView),
}

impl View for Incoming {
    type V = IncomingView;

    open spec fn view(&self) -> IncomingView {
        match self {
            Incoming::Registered(m) => IncomingView::Registered(*m),
            Incoming::Bootstrap(m) => IncomingView::Bootstrap(m@),
            Incoming::Compile(m) => IncomingView::Compile(m@),
        }
    }
}

} // verus!
