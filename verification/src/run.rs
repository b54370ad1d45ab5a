//! Whole runs of the machine, and what holds of every run.
//!
//! A run is the sequence of events that the outside world answered with, from
//! `Start`. The driver may hand the machine any events in any order; what is
//! stated here holds of all of them.

use vstd::prelude::*;
use crate::cli::{interpret_spec, invocation_of, usage_notice, InvocationView, MatchesView};
use crate::config::{ClientConfiguration, Engine};
use crate::session::{
    step_spec, ActionView, EventView, StateView, STATUS_FAILURE, STATUS_FATAL, STATUS_OK,
};
use crate::text::{missing_credential_message_is_fixed, response_line};

verus! {

/// The state of a run after these events.
pub open spec fn state_after(events: Seq<EventView>) -> StateView
    decreases events.len(),
{
    if events.len() == 0 {
        StateView::Start
    } else {
        step_spec(state_after(events.drop_last()), events.last()).0
    }
}

/// What the machine answers to the event at `index` of a run.
pub open spec fn action_at(events: Seq<EventView>, index: int) -> ActionView
    recommends
        0 <= index < events.len(),
{
    step_spec(state_after(events.take(index)), events[index]).1
}

/// Whether the event is a command line that asks this question.
pub open spec fn asks(event: EventView, question: Seq<char>) -> bool {
    event matches EventView::Launched { tokens } && invocation_of(tokens) == (InvocationView::Ask {
        question,
    })
}

/// Whether the event is a command line, of whatever content, that asks a question.
pub open spec fn asks_something(event: EventView) -> bool {
    event matches EventView::Launched { tokens } && invocation_of(tokens) is Ask
}

/// Whether the event brings a credential.
pub open spec fn brings_credential(event: EventView) -> bool {
    event matches EventView::Credential(Some(_))
}

/// Whether one of the first `count` events is a command line that asks this question.
pub open spec fn asked_within(events: Seq<EventView>, count: int, question: Seq<char>) -> bool {
    exists|at: int| 0 <= at < count && #[trigger] asks(events[at], question)
}

/// Whether one of the first `count` events brings a credential.
pub open spec fn credential_within(events: Seq<EventView>, count: int) -> bool {
    exists|at: int| 0 <= at < count && #[trigger] brings_credential(events[at])
}

/// What must have happened for a run to be in `state`.
spec fn explained(events: Seq<EventView>, state: StateView) -> bool {
    match state {
        StateView::ResolvingCredential { question } => asked_within(
            events,
            events.len() as int,
            question,
        ),
        StateView::BuildingClient { question } => asked_within(
            events,
            events.len() as int,
            question,
        ) && credential_within(events, events.len() as int),
        _ => true,
    }
}

proof fn lemma_within_extends(
    shorter: Seq<EventView>,
    longer: Seq<EventView>,
    count: int,
    question: Seq<char>,
)
    requires
        0 <= count <= shorter.len() <= longer.len(),
        forall|at: int| 0 <= at < count ==> shorter[at] == longer[at],
    ensures
        asked_within(shorter, count, question) ==> asked_within(longer, longer.len() as int, question),
        credential_within(shorter, count) ==> credential_within(longer, longer.len() as int),
{
    if asked_within(shorter, count, question) {
        let at = choose|at: int| 0 <= at < count && #[trigger] asks(shorter[at], question);
        assert(asks(longer[at], question));
    }
    if credential_within(shorter, count) {
        let at = choose|at: int| 0 <= at < count && #[trigger] brings_credential(shorter[at]);
        assert(brings_credential(longer[at]));
    }
}

proof fn lemma_explained(events: Seq<EventView>)
    ensures
        explained(events, state_after(events)),
    decreases events.len(),
{
    if events.len() > 0 {
        let before = events.drop_last();
        let last = (events.len() - 1) as int;
        lemma_explained(before);
        match state_after(before) {
            StateView::Start => {
                if let StateView::ResolvingCredential { question } = state_after(events) {
                    assert(asks(events[last], question));
                }
            },
            StateView::ResolvingCredential { question } => {
                lemma_within_extends(before, events, before.len() as int, question);
                if state_after(events) is BuildingClient {
                    assert(brings_credential(events[last]));
                }
            },
            StateView::BuildingClient { question } => {
                lemma_within_extends(before, events, before.len() as int, question);
            },
            _ => {},
        }
    }
}

/// A request is sent only in answer to the client being ready, and only in a run in
/// which, before that, a command line asked the very question that is sent, and the
/// environment brought a credential.
pub proof fn request_follows_question_and_credential(events: Seq<EventView>, index: int)
    requires
        0 <= index < events.len(),
        action_at(events, index).calls_service(),
    ensures
        events[index] is ClientReady,
        asked_within(events, index, action_at(events, index)->SendRequest_question),
        credential_within(events, index),
{
    let before = events.take(index);
    let question = action_at(events, index)->SendRequest_question;
    lemma_explained(before);
    assert(state_after(before) == (StateView::BuildingClient { question }));
    if asked_within(before, index, question) {
        let at = choose|at: int| 0 <= at < index && #[trigger] asks(before[at], question);
        assert(asks(events[at], question));
    }
    if credential_within(before, index) {
        let at = choose|at: int| 0 <= at < index && #[trigger] brings_credential(before[at]);
        assert(brings_credential(events[at]));
    }
}

/// Where the credential is missing, the run ends at once on the fatal error whose
/// message names `OPENAI_API_KEY`, whatever the question was.
pub proof fn missing_credential_is_fatal(question: Seq<char>)
    ensures
        step_spec(StateView::ResolvingCredential { question }, EventView::Credential(None)) == (
            StateView::Exited,
            ActionView::Abort {
                message: "OPENAI_API_KEY not found in the environment variable"@,
            },
        ),
        step_spec(
            StateView::ResolvingCredential { question },
            EventView::Credential(None),
        ).1.exit_code() == Some(STATUS_FATAL),
{
    missing_credential_message_is_fixed();
}

proof fn lemma_run_without_credential(events: Seq<EventView>)
    requires
        forall|at: int| 0 <= at < events.len() ==> !brings_credential(#[trigger] events[at]),
    ensures
        stage(state_after(events)) <= 1 || state_after(events) is Exited,
    decreases events.len(),
{
    if events.len() > 0 {
        let before = events.drop_last();
        lemma_run_without_credential(before);
        assert(!brings_credential(events[events.len() - 1]));
    }
}

/// In a run in which the environment never brings a credential, no client is built
/// and no request is sent: the machine reads the command line, asks for the
/// credential, and ends.
pub proof fn no_credential_no_request(events: Seq<EventView>)
    requires
        forall|at: int| 0 <= at < events.len() ==> !brings_credential(#[trigger] events[at]),
    ensures
        forall|index: int|
            0 <= index < events.len() ==> {
                let action = #[trigger] action_at(events, index);
                &&& !action.calls_service()
                &&& action is ReadCredential || action is ShowUsage || action is Abort
                    || action is Ignore
            },
{
    assert forall|index: int| 0 <= index < events.len() implies {
        let action = #[trigger] action_at(events, index);
        &&& !action.calls_service()
        &&& action is ReadCredential || action is ShowUsage || action is Abort || action is Ignore
    } by {
        lemma_run_without_credential(events.take(index));
        assert(!brings_credential(events[index]));
    }
}

/// A line asks a question exactly when the parser found `ask` with its argument,
/// and then it asks that argument. What the parser declined is text to write.
pub proof fn only_ask_with_argument_asks(matches: MatchesView)
    ensures
        interpret_spec(matches) is Ask <==> matches matches MatchesView::Parsed(Some(Some(_))),
        matches matches MatchesView::Parsed(Some(Some(question))) ==> interpret_spec(matches) == (
            InvocationView::Ask { question }
        ),
        matches matches MatchesView::Declined(usage) ==> interpret_spec(matches) == (
            InvocationView::Usage(usage)
        ),
{
}

/// A line that lacks a subcommand asks nothing: it gets the usage notice, which
/// goes to standard error with a non-zero status.
pub proof fn line_without_subcommand_gets_usage()
    ensures
        interpret_spec(MatchesView::Parsed(None)) == InvocationView::Usage(usage_notice()),
        usage_notice().exit_code != STATUS_OK,
        usage_notice().to_stderr,
{
}

/// `ask` without its argument asks nothing: it gets the usage notice as well.
pub proof fn ask_without_argument_gets_usage()
    ensures
        interpret_spec(MatchesView::Parsed(Some(None))) == InvocationView::Usage(usage_notice()),
{
}

/// A command line that asks no question ends the run at once: its text is written,
/// and nothing else is done.
pub proof fn line_without_question_ends_the_run(tokens: Seq<Seq<char>>)
    requires
        invocation_of(tokens) is Usage,
    ensures
        step_spec(StateView::Start, EventView::Launched { tokens }) == (
            StateView::Exited,
            ActionView::ShowUsage(invocation_of(tokens)->Usage_0),
        ),
{
}

proof fn lemma_idle_run(events: Seq<EventView>)
    requires
        forall|at: int| 0 <= at < events.len() ==> !asks_something(#[trigger] events[at]),
    ensures
        state_after(events) is Start || state_after(events) is Exited,
    decreases events.len(),
{
    if events.len() > 0 {
        let before = events.drop_last();
        lemma_idle_run(before);
        assert(!asks_something(events[events.len() - 1]));
    }
}

/// In a run in which no command line asks a question, the machine never asks for
/// the credential, never has the client built and never sends a request: it only
/// hands out the parser's text, once, and ignores the rest.
pub proof fn no_question_no_request(events: Seq<EventView>)
    requires
        forall|at: int| 0 <= at < events.len() ==> !asks_something(#[trigger] events[at]),
    ensures
        forall|index: int|
            0 <= index < events.len() ==> {
                let action = #[trigger] action_at(events, index);
                action is ShowUsage || action is Ignore
            },
{
    assert forall|index: int| 0 <= index < events.len() implies {
        let action = #[trigger] action_at(events, index);
        action is ShowUsage || action is Ignore
    } by {
        lemma_idle_run(events.take(index));
        assert(!asks_something(events[index]));
    }
}

/// A command line that asks a question makes the machine look up `OPENAI_API_KEY`.
pub proof fn question_needs_credential(tokens: Seq<Seq<char>>)
    requires
        invocation_of(tokens) is Ask,
    ensures
        step_spec(StateView::Start, EventView::Launched { tokens }) == (
            StateView::ResolvingCredential { question: invocation_of(tokens)->question },
            ActionView::ReadCredential { variable: "OPENAI_API_KEY"@ },
        ),
{
}

/// The run that goes well, step by step: the credential is looked up, the client is
/// built with the credential and the fixed configuration, the engine's line is
/// written and the question sent as it was asked, and the reply's content is
/// written behind its label, which ends the run with status zero.
pub proof fn a_run_that_goes_well(
    tokens: Seq<Seq<char>>,
    question: Seq<char>,
    credential: Seq<char>,
    content: Seq<char>,
)
    requires
        invocation_of(tokens) == (InvocationView::Ask { question }),
    ensures
        ({
            let events = seq![
                EventView::Launched { tokens },
                EventView::Credential(Some(credential)),
                EventView::ClientReady,
                EventView::Replied { content },
            ];
            &&& action_at(events, 0) == (ActionView::ReadCredential {
                variable: "OPENAI_API_KEY"@,
            })
            &&& action_at(events, 1) == (ActionView::BuildClient {
                credential,
                configuration: ClientConfiguration { engine: Engine::Gpt4, timeout_secs: 60 },
            })
            &&& action_at(events, 2) == (ActionView::SendRequest {
                notice: "Using "@ + "gpt-4"@,
                question,
            })
            &&& action_at(events, 3) == (ActionView::PrintResponse {
                line: "Response: "@ + content,
            })
            &&& action_at(events, 3).exit_code() == Some(0i32)
            &&& state_after(events) == StateView::Exited
        }),
{
    let events = seq![
        EventView::Launched { tokens },
        EventView::Credential(Some(credential)),
        EventView::ClientReady,
        EventView::Replied { content },
    ];
    let one = events.take(1);
    let two = events.take(2);
    let three = events.take(3);
    assert(events.take(0).len() == 0);
    assert(one.drop_last() =~= events.take(0));
    assert(two.drop_last() =~= one);
    assert(three.drop_last() =~= two);
    assert(events.drop_last() =~= three);
    assert(state_after(events.take(0)) == StateView::Start);
    assert(state_after(one) == (StateView::ResolvingCredential { question }));
    assert(state_after(two) == (StateView::BuildingClient { question }));
    assert(state_after(three) == StateView::AwaitingReply);
}

/// How far a run has come: the states in the order in which a run passes through
/// them.
pub open spec fn stage(state: StateView) -> nat {
    match state {
        StateView::Start => 0,
        StateView::ResolvingCredential { .. } => 1,
        StateView::BuildingClient { .. } => 2,
        StateView::AwaitingReply => 3,
        StateView::Exited => 4,
    }
}

/// No step takes the machine back to an earlier state.
pub proof fn steps_only_advance(state: StateView, event: EventView)
    ensures
        stage(state) <= stage(step_spec(state, event).0),
{
}

proof fn lemma_runs_only_advance(events: Seq<EventView>, earlier: int, later: int)
    requires
        0 <= earlier <= later <= events.len(),
    ensures
        stage(state_after(events.take(earlier))) <= stage(state_after(events.take(later))),
    decreases later - earlier,
{
    if earlier < later {
        lemma_runs_only_advance(events, earlier, later - 1);
        assert(events.take(later).drop_last() =~= events.take(later - 1));
        steps_only_advance(state_after(events.take(later - 1)), events[later - 1]);
    }
}

/// A run sends one request at most: once a request is sent, no later event brings
/// another.
pub proof fn one_request_at_most(events: Seq<EventView>, first: int, second: int)
    requires
        0 <= first < second < events.len(),
        action_at(events, first).calls_service(),
    ensures
        !action_at(events, second).calls_service(),
{
    assert(events.take(first + 1).drop_last() =~= events.take(first));
    assert(state_after(events.take(first + 1)) == StateView::AwaitingReply);
    lemma_runs_only_advance(events, first + 1, second);
}

/// A request that fails ends the run with the error written and a non-zero status;
/// the response line is not written.
pub proof fn failed_request_ends_the_run(diagnostic: Seq<char>)
    ensures
        step_spec(StateView::AwaitingReply, EventView::RequestFailed { diagnostic }) == (
            StateView::Exited,
            ActionView::Fail { diagnostic },
        ),
        (ActionView::Fail { diagnostic }).exit_code() == Some(STATUS_FAILURE),
        STATUS_FAILURE != STATUS_OK,
{
}

/// A client that cannot be built ends the run in the same way.
pub proof fn failed_client_ends_the_run(question: Seq<char>, diagnostic: Seq<char>)
    ensures
        step_spec(
            StateView::BuildingClient { question },
            EventView::ClientFailed { diagnostic },
        ) == (StateView::Exited, ActionView::Fail { diagnostic }),
{
}

/// The response line is written only in answer to a reply, and it is the label
/// followed by the reply's content.
pub proof fn response_follows_reply(events: Seq<EventView>, index: int)
    requires
        0 <= index < events.len(),
        action_at(events, index) is PrintResponse,
    ensures
        events[index] is Replied,
        action_at(events, index)->PrintResponse_line == response_line(
            events[index]->Replied_content,
        ),
{
}

/// An action that ends the process leaves the machine in `Exited`, and from there
/// every event is ignored: a run ends once.
pub proof fn a_run_ends_once(state: StateView, event: EventView)
    ensures
        step_spec(state, event).1.exit_code() is Some ==> step_spec(state, event).0 is Exited,
        step_spec(StateView::Exited, event) == (StateView::Exited, ActionView::Ignore),
{
}

/// A run is determined by what the outside world answered: two runs over equal
/// events end in the same state and give the same actions, one by one.
pub proof fn equal_events_equal_runs(first: Seq<EventView>, second: Seq<EventView>)
    requires
        first.len() == second.len(),
        forall|at: int| 0 <= at < first.len() ==> first[at] == second[at],
    ensures
        state_after(first) == state_after(second),
        forall|index: int|
            0 <= index < first.len() ==> action_at(first, index) == action_at(second, index),
{
    assert(first =~= second);
}

} // verus!
