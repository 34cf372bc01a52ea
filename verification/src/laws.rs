//! What holds of every run of the supervisor, whatever the host's launcher
//! and the child answer.
//!
//! The host keeps the supervisor behind a lock, so the requests that reach it
//! at the same time are served one after the other, in some order. A run is
//! therefore a sequence of requests, and the statements below hold of every
//! such sequence.

use vstd::prelude::*;
use vstd::utf8::*;
use crate::error::SupervisorError;
use crate::relay::{line_text, Channel, Notice, OutputEvent};
use crate::shutdown::{ChildAction, ShutdownOutcome, ShutdownSequence};
use crate::supervisor::{SlotState, StartPlan};

verus! {

/// One if `condition` holds, zero if not.
pub open spec fn one_if(condition: bool) -> nat {
    if condition {
        1
    } else {
        0
    }
}

/// One start request, served without interruption: the slot is looked at,
/// and if a launch is planned, its result is handed in. `launch` is what the
/// launcher answers when it is asked.
pub open spec fn start_request<H>(state: SlotState<H>, launch: Result<H, String>) -> SlotState<H> {
    if state.plan() == StartPlan::Launch {
        state.after_start(launch)
    } else {
        state
    }
}

/// The state after a row of start requests; `answers[i]` is what the launcher
/// answers to request `i` if that request launches.
pub open spec fn after_starts<H>(state: SlotState<H>, answers: Seq<Result<H, String>>) -> SlotState<
    H,
>
    decreases answers.len(),
{
    if answers.len() == 0 {
        state
    } else {
        after_starts(start_request(state, answers[0]), answers.drop_first())
    }
}

/// How many of a row of start requests launch a process that comes to life.
pub open spec fn children_spawned<H>(state: SlotState<H>, answers: Seq<Result<H, String>>) -> nat
    decreases answers.len(),
{
    if answers.len() == 0 {
        0
    } else {
        one_if(state.plan() == StartPlan::Launch && answers[0] is Ok) + children_spawned(
            start_request(state, answers[0]),
            answers.drop_first(),
        )
    }
}

/// How many of a row of start requests take the slot from empty to occupied.
pub open spec fn times_filled<H>(state: SlotState<H>, answers: Seq<Result<H, String>>) -> nat
    decreases answers.len(),
{
    if answers.len() == 0 {
        0
    } else {
        let next = start_request(state, answers[0]);
        one_if(!state.occupied() && next.occupied()) + times_filled(next, answers.drop_first())
    }
}

/// While a helper is in the slot, start requests change nothing and launch
/// nothing, however many there are, and each of them ends with success.
pub proof fn lemma_start_while_running_is_noop<H>(
    state: SlotState<H>,
    answers: Seq<Result<H, String>>,
)
    requires
        state.occupied(),
    ensures
        state.plan() == StartPlan::AlreadyRunning,
        state.plan().verdict() == Some(Ok::<(), SupervisorError>(())),
        after_starts(state, answers) == state,
        children_spawned(state, answers) == 0,
        times_filled(state, answers) == 0,
    decreases answers.len(),
{
    if answers.len() > 0 {
        lemma_start_while_running_is_noop(state, answers.drop_first());
    }
}

/// The child of the first launch in `answers` that works, if any works.
pub open spec fn first_child<H>(answers: Seq<Result<H, String>>) -> Option<H>
    decreases answers.len(),
{
    if answers.len() == 0 {
        None
    } else {
        match answers[0] {
            Ok(child) => Some(child),
            Err(_) => first_child(answers.drop_first()),
        }
    }
}

/// Any number of start requests that meet an empty slot spawn exactly one
/// process between them if the launcher ever works, and none if it never
/// does: each request launches until one launch works, that child fills the
/// slot, the slot is filled that once, and no request after it launches.
pub proof fn lemma_starts_spawn_one_child<H>(answers: Seq<Result<H, String>>)
    ensures
        children_spawned(SlotState::Empty, answers) == one_if(first_child(answers) is Some),
        times_filled(SlotState::Empty, answers) == children_spawned(SlotState::Empty, answers),
        after_starts(SlotState::Empty, answers) == match first_child(answers) {
            Some(child) => SlotState::Running(child),
            None => SlotState::Empty,
        },
        answers.len() > 0 && answers[0] is Ok ==> children_spawned(SlotState::Empty, answers)
            == 1,
    decreases answers.len(),
{
    if answers.len() > 0 {
        let next = start_request(SlotState::Empty, answers[0]);
        if answers[0] is Ok {
            lemma_start_while_running_is_noop(next, answers.drop_first());
        } else {
            lemma_starts_spawn_one_child(answers.drop_first());
        }
    }
}

/// A launched child always has exactly one owner afterwards: either it is in
/// the slot and the start has succeeded, or the slot is as it was and the
/// child is handed back to be terminated. It is never in both places and
/// never in neither.
pub proof fn lemma_launched_child_has_one_owner<H>(state: SlotState<H>, child: H)
    ensures
        ({
            let after = state.after_start(Ok(child));
            let outcome = state.start_outcome(Ok(child));
            if state is Empty {
                after == SlotState::Running(child) && outcome.surplus() is None
                    && outcome.verdict() is Ok
            } else {
                after == state && outcome.surplus() == Some(child)
            }
        }),
{
}

/// One request to the supervisor, served without interruption.
pub enum Request<H> {
    /// A start request; holds what the launcher answers if it is asked.
    Start(Result<H, String>),
    /// A shutdown request.
    Shutdown,
    /// The request to shut down for the exit of the application.
    Exit,
}

/// The state after one request.
pub open spec fn served<H>(state: SlotState<H>, request: Request<H>) -> SlotState<H> {
    match request {
        Request::Start(launch) => start_request(state, launch),
        Request::Shutdown => state.after_shutdown(),
        Request::Exit => SlotState::Closed,
    }
}

/// The state after a row of requests.
pub open spec fn after_requests<H>(state: SlotState<H>, requests: Seq<Request<H>>) -> SlotState<H>
    decreases requests.len(),
{
    if requests.len() == 0 {
        state
    } else {
        after_requests(served(state, requests[0]), requests.drop_first())
    }
}

/// What a row of requests did with child processes.
pub struct Tally {
    /// Launches that brought a child to life.
    pub spawned: nat,
    /// Children taken out of the slot and handed to a shutdown.
    pub handed_out: nat,
    /// Children that the slot could not take, handed back to be terminated.
    pub handed_back: nat,
}

/// Whether `request`, met in `state`, launches a child that comes to life.
pub open spec fn spawns<H>(state: SlotState<H>, request: Request<H>) -> bool {
    request matches Request::Start(Ok(_)) && state.plan() == StartPlan::Launch
}

/// Whether `request`, met in `state`, takes the child out of the slot.
pub open spec fn hands_out<H>(state: SlotState<H>, request: Request<H>) -> bool {
    !(request is Start) && state.released() is Ok
}

/// Whether `request`, met in `state`, launches a child that the slot cannot
/// take.
pub open spec fn hands_back<H>(state: SlotState<H>, request: Request<H>) -> bool {
    request matches Request::Start(Ok(child)) && state.plan() == StartPlan::Launch
        && state.start_outcome(Ok(child)).surplus() is Some
}

/// The tally of a row of requests that begins in `state`.
pub open spec fn tally<H>(state: SlotState<H>, requests: Seq<Request<H>>) -> Tally
    decreases requests.len(),
{
    if requests.len() == 0 {
        Tally { spawned: 0, handed_out: 0, handed_back: 0 }
    } else {
        let rest = tally(served(state, requests[0]), requests.drop_first());
        Tally {
            spawned: one_if(spawns(state, requests[0])) + rest.spawned,
            handed_out: one_if(hands_out(state, requests[0])) + rest.handed_out,
            handed_back: one_if(hands_back(state, requests[0])) + rest.handed_back,
        }
    }
}

/// Whatever requests arrive in whatever order, every child that was spawned
/// is accounted for: it is the one in the slot, or it was handed to a
/// shutdown, or it was handed back to be terminated. So at any moment at
/// most one spawned child is still owned by the supervisor. A slot that is
/// set up, or closed, never hands a child back.
pub proof fn lemma_every_child_is_accounted_for<H>(
    state: SlotState<H>,
    requests: Seq<Request<H>>,
)
    ensures
        tally(state, requests).spawned + one_if(state.occupied()) == tally(
            state,
            requests,
        ).handed_out + tally(state, requests).handed_back + one_if(
            after_requests(state, requests).occupied(),
        ),
        !(state is Uninitialized) ==> tally(state, requests).handed_back == 0,
        !(state is Uninitialized) ==> !(after_requests(state, requests) is Uninitialized),
    decreases requests.len(),
{
    if requests.len() > 0 {
        lemma_every_child_is_accounted_for(served(state, requests[0]), requests.drop_first());
    }
}

/// What a child answers to the two things a shutdown can do to it.
pub struct ChildBehaviour {
    /// The result of writing the shutdown command to its input.
    pub write: Result<(), String>,
    /// The result of killing it.
    pub kill: Result<(), String>,
}

impl ChildBehaviour {
    /// The child's answer to `action`.
    pub open spec fn answer(self, action: ChildAction) -> Result<(), String> {
        match action {
            ChildAction::WriteCommand => self.write,
            ChildAction::Kill => self.kill,
        }
    }
}

/// How many actions a sequence still asks for at most.
pub open spec fn steps_left(sequence: ShutdownSequence) -> nat {
    match sequence {
        ShutdownSequence::AwaitingWrite => 2,
        ShutdownSequence::AwaitingKill { .. } => 1,
        ShutdownSequence::Finished(_) => 0,
    }
}

/// The actions a host performs when it drives `sequence` to its end on a
/// child that behaves as `child` says, in the order in which it performs
/// them.
pub open spec fn actions_taken(sequence: ShutdownSequence, child: ChildBehaviour) -> Seq<
    ChildAction,
>
    decreases steps_left(sequence),
{
    match sequence.next_action() {
        None => Seq::empty(),
        Some(action) => seq![action] + actions_taken(sequence.step(child.answer(action)), child),
    }
}

/// The state in which a driven sequence ends.
pub open spec fn end_of(sequence: ShutdownSequence, child: ChildBehaviour) -> ShutdownSequence
    decreases steps_left(sequence),
{
    match sequence.next_action() {
        None => sequence,
        Some(action) => end_of(sequence.step(child.answer(action)), child),
    }
}

/// How often `wanted` occurs among `actions`.
pub open spec fn occurrences(actions: Seq<ChildAction>, wanted: ChildAction) -> nat
    decreases actions.len(),
{
    if actions.len() == 0 {
        0
    } else {
        one_if(actions[0] == wanted) + occurrences(actions.drop_first(), wanted)
    }
}

/// Everything a shutdown request does to the child that was in the slot:
/// nothing at all if the slot gave no handle out.
pub open spec fn shutdown_actions<H>(state: SlotState<H>, child: ChildBehaviour) -> Seq<
    ChildAction,
> {
    match state.released() {
        Ok(_) => actions_taken(ShutdownSequence::AwaitingWrite, child),
        Err(_) => Seq::empty(),
    }
}

/// A shutdown request that meets an empty slot ends with
/// [`SupervisorError::NoActiveProcess`], leaves the slot as it is, and does
/// nothing to any process: it writes nothing and kills nothing.
pub proof fn lemma_shutdown_of_empty_slot<H>(child: ChildBehaviour)
    ensures
        SlotState::<H>::Empty.released() == Err::<H, SupervisorError>(
            SupervisorError::NoActiveProcess,
        ),
        SlotState::<H>::Empty.after_shutdown() == SlotState::<H>::Empty,
        shutdown_actions(SlotState::<H>::Empty, child) == Seq::<ChildAction>::empty(),
{
}

/// A shutdown request that meets a running helper takes its handle out of
/// the slot before anything is written to it: the handle is the one that was
/// in the slot, the slot is empty from then on, a start request that comes
/// next is told to launch, and a second shutdown request finds no process.
pub proof fn lemma_shutdown_empties_slot_first<H>(state: SlotState<H>)
    requires
        state.occupied(),
    ensures
        state.released() == Ok::<H, SupervisorError>(state->Running_0),
        state.after_shutdown() == SlotState::<H>::Empty,
        state.after_shutdown().plan() == StartPlan::Launch,
        state.after_shutdown().released() == Err::<H, SupervisorError>(
            SupervisorError::NoActiveProcess,
        ),
{
}

/// If the shutdown command is written without error, the child is never
/// killed: the write is all that is done to it, and the shutdown ends as
/// delivered.
pub proof fn lemma_delivered_command_means_no_kill(child: ChildBehaviour)
    requires
        child.write is Ok,
    ensures
        actions_taken(ShutdownSequence::AwaitingWrite, child) == seq![ChildAction::WriteCommand],
        occurrences(actions_taken(ShutdownSequence::AwaitingWrite, child), ChildAction::Kill)
            == 0,
        end_of(ShutdownSequence::AwaitingWrite, child) == ShutdownSequence::Finished(
            ShutdownOutcome::Delivered,
        ),
        ShutdownOutcome::Delivered.verdict() is Ok,
{
    let after_write = ShutdownSequence::AwaitingWrite.step(child.write);
    assert(actions_taken(after_write, child) == Seq::<ChildAction>::empty());
    assert(end_of(after_write, child) == after_write);
    let actions = actions_taken(ShutdownSequence::AwaitingWrite, child);
    assert(actions == seq![ChildAction::WriteCommand]);
    assert(occurrences(actions.drop_first(), ChildAction::Kill) == 0);
}

/// If writing the shutdown command fails, the child is killed exactly once,
/// right after the failed write, whether or not the kill succeeds; the
/// shutdown then ends with both results on record.
pub proof fn lemma_failed_write_means_one_kill(child: ChildBehaviour)
    requires
        child.write is Err,
    ensures
        actions_taken(ShutdownSequence::AwaitingWrite, child) == seq![
            ChildAction::WriteCommand,
            ChildAction::Kill,
        ],
        occurrences(actions_taken(ShutdownSequence::AwaitingWrite, child), ChildAction::Kill)
            == 1,
        end_of(ShutdownSequence::AwaitingWrite, child) == ShutdownSequence::Finished(
            match child.kill {
                Ok(_) => ShutdownOutcome::Killed { write_error: child.write->Err_0 },
                Err(kill_error) => ShutdownOutcome::Orphaned {
                    write_error: child.write->Err_0,
                    kill_error,
                },
            },
        ),
{
    let after_write = ShutdownSequence::AwaitingWrite.step(child.write);
    let after_kill = after_write.step(child.kill);
    assert(actions_taken(after_kill, child) == Seq::<ChildAction>::empty());
    assert(actions_taken(after_write, child) == seq![ChildAction::Kill]);
    assert(end_of(after_kill, child) == after_kill);
    assert(end_of(after_write, child) == after_kill);
    let actions = actions_taken(ShutdownSequence::AwaitingWrite, child);
    assert(actions == seq![ChildAction::WriteCommand, ChildAction::Kill]);
    assert(actions.drop_first() == seq![ChildAction::Kill]);
    assert(actions.drop_first().drop_first() == Seq::<ChildAction>::empty());
    assert(occurrences(actions.drop_first().drop_first(), ChildAction::Kill) == 0);
    assert(occurrences(actions.drop_first(), ChildAction::Kill) == 1);
}

/// A shutdown that has a child to work on always comes to an end, after the
/// write or after the kill, and it ends with success exactly if the command
/// was written; otherwise it ends with the failure of the write, or with
/// both failures if the kill failed too.
pub proof fn lemma_shutdown_succeeds_iff_command_delivered(child: ChildBehaviour)
    ensures
        end_of(ShutdownSequence::AwaitingWrite, child) is Finished,
        end_of(ShutdownSequence::AwaitingWrite, child)->Finished_0.verdict() is Ok
            <==> child.write is Ok,
        child.write is Err && child.kill is Ok ==> end_of(
            ShutdownSequence::AwaitingWrite,
            child,
        )->Finished_0.verdict() == Err::<Seq<char>, SupervisorError>(
            SupervisorError::WriteFailure(child.write->Err_0),
        ),
        child.write is Err && child.kill is Err ==> end_of(
            ShutdownSequence::AwaitingWrite,
            child,
        )->Finished_0.verdict() == Err::<Seq<char>, SupervisorError>(
            SupervisorError::KillFailure {
                write_error: child.write->Err_0,
                kill_error: child.kill->Err_0,
            },
        ),
{
    if child.write is Ok {
        lemma_delivered_command_means_no_kill(child);
    } else {
        lemma_failed_write_means_one_kill(child);
    }
}

/// Once the application has begun to exit, the slot stays closed: no start
/// request launches anything, and shutdown requests find no slot.
pub proof fn lemma_nothing_starts_after_exit<H>(answers: Seq<Result<H, String>>)
    ensures
        SlotState::<H>::Closed.plan() == StartPlan::Refused,
        after_starts(SlotState::<H>::Closed, answers) == SlotState::<H>::Closed,
        children_spawned(SlotState::<H>::Closed, answers) == 0,
        SlotState::<H>::Closed.after_shutdown() == SlotState::<H>::Closed,
    decreases answers.len(),
{
    if answers.len() > 0 {
        lemma_nothing_starts_after_exit::<H>(answers.drop_first());
    }
}

/// What a relay task publishes for what it receives, in order; `None` stands
/// for the closed stream, at which the task ends.
pub open spec fn published(received: Seq<Option<OutputEvent>>) -> Seq<Notice>
    decreases received.len(),
{
    if received.len() == 0 {
        Seq::empty()
    } else {
        match received[0] {
            None => Seq::empty(),
            Some(event) => match event.notice() {
                Some(notice) => seq![notice] + published(received.drop_first()),
                None => published(received.drop_first()),
            },
        }
    }
}

/// The raw lines that arrive on `channel` before the stream closes, in
/// order.
pub open spec fn lines_received(received: Seq<Option<OutputEvent>>, channel: Channel) -> Seq<
    Seq<u8>,
>
    decreases received.len(),
{
    if received.len() == 0 {
        Seq::empty()
    } else {
        match received[0] {
            None => Seq::empty(),
            Some(event) => match event.line() {
                Some((from, bytes)) if from == channel => seq![bytes] + lines_received(
                    received.drop_first(),
                    channel,
                ),
                _ => lines_received(received.drop_first(), channel),
            },
        }
    }
}

/// The texts among `notices` that go out on `channel`, in order.
pub open spec fn texts_on(notices: Seq<Notice>, channel: Channel) -> Seq<Seq<char>>
    decreases notices.len(),
{
    if notices.len() == 0 {
        Seq::empty()
    } else if notices[0].channel == channel {
        seq![notices[0].text] + texts_on(notices.drop_first(), channel)
    } else {
        texts_on(notices.drop_first(), channel)
    }
}

/// Every line that arrives on a channel before the stream closes is
/// published exactly once on that channel, in the order of arrival, as the
/// text of that line; nothing else is published there.
pub proof fn lemma_each_line_is_published_once(
    received: Seq<Option<OutputEvent>>,
    channel: Channel,
)
    ensures
        texts_on(published(received), channel) == lines_received(received, channel).map_values(
            |bytes: Seq<u8>| line_text(bytes),
        ),
        texts_on(published(received), channel).len() == lines_received(received, channel).len(),
    decreases received.len(),
{
    let decode = |bytes: Seq<u8>| line_text(bytes);
    if received.len() == 0 {
        assert(lines_received(received, channel).map_values(decode) =~= Seq::<Seq<char>>::empty());
    } else {
        let rest = received.drop_first();
        lemma_each_line_is_published_once(rest, channel);
        match received[0] {
            None => {
                assert(lines_received(received, channel).map_values(decode) =~= Seq::<
                    Seq<char>,
                >::empty());
            },
            Some(event) => match event.line() {
                Some((from, bytes)) => {
                    let notice = Notice { channel: from, text: line_text(bytes) };
                    assert(published(received) == seq![notice] + published(rest));
                    assert((seq![notice] + published(rest)).drop_first() =~= published(rest));
                    if from == channel {
                        assert(lines_received(received, channel).map_values(decode) =~= seq![
                            line_text(bytes),
                        ] + lines_received(rest, channel).map_values(decode));
                    }
                },
                None => {},
            },
        }
    }
}

/// A line that is valid UTF-8 is published unchanged: the bytes of the
/// published text are the bytes that arrived.
pub proof fn lemma_valid_line_is_published_unchanged(bytes: Seq<u8>)
    requires
        valid_utf8(bytes),
    ensures
        encode_utf8(line_text(bytes)) == bytes,
{
    decode_utf8_encode_utf8(bytes);
}

} // verus!
