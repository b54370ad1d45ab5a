//! One run of the client as a machine: each step takes what the outside world
//! answered and says what to do next.
//!
//! The driver owns the process: it reads the command line and the environment,
//! has the client built, sends the request and writes the lines. The machine owns
//! the order of these steps and every decision between them.

use vstd::prelude::*;
use crate::cli::{invocation_of, parse_invocation, Invocation, InvocationView, Usage, UsageView};
use crate::config::ClientConfiguration;
use crate::text::{
    engine_line, missing_credential_message, render_engine, render_missing_variable,
    render_response, response_line, CREDENTIAL_VARIABLE,
};

verus! {

/// The status of a process that ended well.
pub const STATUS_OK: i32 = 0;

/// The status of a process that ended on an error it wrote out.
pub const STATUS_FAILURE: i32 = 1;

/// The status of a process that ended on a fatal error.
pub const STATUS_FATAL: i32 = 101;

/// Where a run stands.
#[derive(Clone, Debug, PartialEq, Eq)]
pub enum State {
    /// Nothing has happened yet: the command line is still to be read.
    Start,
    /// A question was asked; the credential is being looked up.
    ResolvingCredential { question: String },
    /// The credential was found; the client is being built.
    BuildingClient { question: String },
    /// The request was sent; the reply is awaited.
    AwaitingReply,
    /// The run is over.
    Exited,
}

/// [`State`] as a plain value.
pub enum StateView {
    Start,
    ResolvingCredential { question: Seq<char> },
    BuildingClient { question: Seq<char> },
    AwaitingReply,
    Exited,
}

impl View for State {
    type V = StateView;

    open spec fn view(&self) -> StateView {
        match self {
            State::Start => StateView::Start,
            State::ResolvingCredential { question } => StateView::ResolvingCredential {
                question: question@,
            },
            State::BuildingClient { question } => StateView::BuildingClient { question: question@ },
            State::AwaitingReply => StateView::AwaitingReply,
            State::Exited => StateView::Exited,
        }
    }
}

/// What the outside world answered.
#[derive(Clone, Debug, PartialEq, Eq)]
pub enum Event {
    /// The process was started with these tokens, the program's name first.
    Launched { tokens: Vec<String> },
    /// The environment was asked for the credential: its value, if it holds one.
    Credential(Option<String>),
    /// The client was built.
    ClientReady,
    /// The client could not be built.
    ClientFailed { diagnostic: String },
    /// The service replied with this textual content.
    Replied { content: String },
    /// The request failed, on the network or at the service.
    RequestFailed { diagnostic: String },
}

/// [`Event`] as a plain value.
pub enum EventView {
    Launched { tokens: Seq<Seq<char>> },
    Credential(Option<Seq<char>>),
    ClientReady,
    ClientFailed { diagnostic: Seq<char> },
    Replied { content: Seq<char> },
    RequestFailed { diagnostic: Seq<char> },
}

impl View for Event {
    type V = EventView;

    open spec fn view(&self) -> EventView {
        match self {
            Event::Launched { tokens } => EventView::Launched { tokens: tokens.deep_view() },
            Event::Credential(Some(value)) => EventView::Credential(Some(value@)),
            Event::Credential(None) => EventView::Credential(None),
            Event::ClientReady => EventView::ClientReady,
            Event::ClientFailed { diagnostic } => EventView::ClientFailed {
                diagnostic: diagnostic@,
            },
            Event::Replied { content } => EventView::Replied { content: content@ },
            Event::RequestFailed { diagnostic } => EventView::RequestFailed {
                diagnostic: diagnostic@,
            },
        }
    }
}

/// What the driver is to do next.
#[derive(Clone, Debug, PartialEq, Eq)]
pub enum Action {
    /// Look the variable up in the environment and answer with `Event::Credential`.
    ReadCredential { variable: String },
    /// Build the client and answer with `Event::ClientReady` or `Event::ClientFailed`.
    BuildClient { credential: String, configuration: ClientConfiguration },
    /// Write the notice to standard output, send the question, and answer with
    /// `Event::Replied` or `Event::RequestFailed`.
    SendRequest { notice: String, question: String },
    /// Write the parser's text and end with its status.
    ShowUsage(Usage),
    /// End at once on a fatal error with this message.
    Abort { message: String },
    /// Write the error and end with a non-zero status.
    Fail { diagnostic: String },
    /// Write the line to standard output and end well.
    PrintResponse { line: String },
    /// Nothing: the event did not answer what the machine had asked for.
    Ignore,
}

/// [`Action`] as a plain value.
pub enum ActionView {
    ReadCredential { variable: Seq<char> },
    BuildClient { credential: Seq<char>, configuration: ClientConfiguration },
    SendRequest { notice: Seq<char>, question: Seq<char> },
    ShowUsage(UsageView),
    Abort { message: Seq<char> },
    Fail { diagnostic: Seq<char> },
    PrintResponse { line: Seq<char> },
    Ignore,
}

impl View for Action {
    type V = ActionView;

    open spec fn view(&self) -> ActionView {
        match self {
            Action::ReadCredential { variable } => ActionView::ReadCredential {
                variable: variable@,
            },
            Action::BuildClient { credential, configuration } => ActionView::BuildClient {
                credential: credential@,
                configuration: *configuration,
            },
            Action::SendRequest { notice, question } => ActionView::SendRequest {
                notice: notice@,
                question: question@,
            },
            Action::ShowUsage(usage) => ActionView::ShowUsage(usage@),
            Action::Abort { message } => ActionView::Abort { message: message@ },
            Action::Fail { diagnostic } => ActionView::Fail { diagnostic: diagnostic@ },
            Action::PrintResponse { line } => ActionView::PrintResponse { line: line@ },
            Action::Ignore => ActionView::Ignore,
        }
    }
}

impl ActionView {
    /// The status with which the process ends on this action; `None` where the run
    /// goes on.
    pub open spec fn exit_code(self) -> Option<i32> {
        match self {
            ActionView::ShowUsage(usage) => Some(usage.exit_code),
            ActionView::Abort { .. } => Some(STATUS_FATAL),
            ActionView::Fail { .. } => Some(STATUS_FAILURE),
            ActionView::PrintResponse { .. } => Some(STATUS_OK),
            _ => None,
        }
    }

    /// Whether the action reaches out to the service: only sending the request does.
    pub open spec fn calls_service(self) -> bool {
        self is SendRequest
    }
}

/// The step from `Start`: the command line decides between the usage text and the
/// look-up of the credential.
pub open spec fn launch_spec(invocation: InvocationView) -> (StateView, ActionView) {
    match invocation {
        InvocationView::Ask { question } => (
            StateView::ResolvingCredential { question },
            ActionView::ReadCredential { variable: CREDENTIAL_VARIABLE@ },
        ),
        InvocationView::Usage(usage) => (StateView::Exited, ActionView::ShowUsage(usage)),
    }
}

/// The machine: the state that follows `state` on `event`, and what to do then.
/// An event that does not answer what the machine asked for changes nothing.
pub open spec fn step_spec(state: StateView, event: EventView) -> (StateView, ActionView) {
    match (state, event) {
        (StateView::Start, EventView::Launched { tokens }) => launch_spec(invocation_of(tokens)),
        (StateView::ResolvingCredential { question }, EventView::Credential(Some(credential))) => (
            StateView::BuildingClient { question },
            ActionView::BuildClient {
                credential,
                configuration: ClientConfiguration::standard_spec(),
            },
        ),
        (StateView::ResolvingCredential { question }, EventView::Credential(None)) => (
            StateView::Exited,
            ActionView::Abort { message: missing_credential_message() },
        ),
        (StateView::BuildingClient { question }, EventView::ClientReady) => (
            StateView::AwaitingReply,
            ActionView::SendRequest {
                notice: engine_line(ClientConfiguration::standard_spec().engine.label()),
                question,
            },
        ),
        (StateView::BuildingClient { question }, EventView::ClientFailed { diagnostic }) => (
            StateView::Exited,
            ActionView::Fail { diagnostic },
        ),
        (StateView::AwaitingReply, EventView::Replied { content }) => (
            StateView::Exited,
            ActionView::PrintResponse { line: response_line(content) },
        ),
        (StateView::AwaitingReply, EventView::RequestFailed { diagnostic }) => (
            StateView::Exited,
            ActionView::Fail { diagnostic },
        ),
        _ => (state, ActionView::Ignore),
    }
}

impl Action {
    /// The status with which the process ends on this action; `None` where the run
    /// goes on.
    pub fn exit_code(&self) -> (code: Option<i32>)
        ensures
            code == self@.exit_code(),
    {
        match self {
            Action::ShowUsage(usage) => Some(usage.exit_code),
            Action::Abort { .. } => Some(STATUS_FATAL),
            Action::Fail { .. } => Some(STATUS_FAILURE),
            Action::PrintResponse { .. } => Some(STATUS_OK),
            _ => None,
        }
    }
}

/// The state in which every run begins.
pub fn start() -> (state: State)
    ensures
        state@ == StateView::Start,
{
    State::Start
}

/// Takes one step of the machine. Text for standard error that ends the run comes
/// with status 2, text for standard output with status 0.
pub fn step(state: State, event: Event) -> (next: (State, Action))
    ensures
        next.0@ == step_spec(state@, event@).0,
        next.1@ == step_spec(state@, event@).1,
        next.1@ matches ActionView::ShowUsage(usage) ==> usage.status_follows_stream(),
{
    match state {
        State::Start => match event {
            Event::Launched { tokens } => match parse_invocation(&tokens) {
                Invocation::Ask { question } => (
                    State::ResolvingCredential { question },
                    Action::ReadCredential { variable: String::from_str(CREDENTIAL_VARIABLE) },
                ),
                Invocation::Usage(usage) => (State::Exited, Action::ShowUsage(usage)),
            },
            _ => (State::Start, Action::Ignore),
        },
        State::ResolvingCredential { question } => match event {
            Event::Credential(Some(credential)) => (
                State::BuildingClient { question },
                Action::BuildClient { credential, configuration: ClientConfiguration::standard() },
            ),
            Event::Credential(None) => (
                State::Exited,
                Action::Abort { message: render_missing_variable(CREDENTIAL_VARIABLE) },
            ),
            _ => (State::ResolvingCredential { question }, Action::Ignore),
        },
        State::BuildingClient { question } => match event {
            Event::ClientReady => {
                let engine = ClientConfiguration::standard().engine.name();
                (
                    State::AwaitingReply,
                    Action::SendRequest { notice: render_engine(engine.as_str()), question },
                )
            },
            Event::ClientFailed { diagnostic } => (State::Exited, Action::Fail { diagnostic }),
            _ => (State::BuildingClient { question }, Action::Ignore),
        },
        State::AwaitingReply => match event {
            Event::Replied { content } => (
                State::Exited,
                Action::PrintResponse { line: render_response(content.as_str()) },
            ),
            Event::RequestFailed { diagnostic } => (State::Exited, Action::Fail { diagnostic }),
            _ => (State::AwaitingReply, Action::Ignore),
        },
        State::Exited => (State::Exited, Action::Ignore),
    }
}

} // verus!
