use vstd::prelude::*;
use vstd::string::*;
use crate::client::{WebDriver, WebDriverView};
use crate::error::WebDriverError;
use crate::json::Json;
use crate::reply::{spec_session_id, Reply, ReplyView};
use crate::request::{capabilities_body, spec_capabilities_body, spec_post, Method, Request};
use crate::text::{
    base_url, port_argument, session_url, spec_base_url, spec_port_argument, spec_session_url,
};

verus! {

/// How long to wait, in milliseconds, before the driver process is looked
/// at and the session request is sent again.
pub const RETRY_INTERVAL_MS: u64 = 125;

/// Where the opening of a session stands.
#[derive(Debug, Clone, Copy, PartialEq, Eq, Structural)]
pub enum Phase {
    /// The driver process is being started.
    Spawning,
    /// The session request is on its way.
    Posting,
    /// The last attempt found nobody listening; the pause is running.
    Sleeping,
    /// The pause is over; the driver process is being looked at.
    Polling,
    /// The session is open.
    Active,
    /// The session could not be opened, for this reason.
    Failed(WebDriverError),
}

/// What the caller reports after it has carried out an action.
#[derive(Debug, PartialEq, Eq)]
pub enum Event {
    /// The driver process was started.
    Spawned,
    /// The driver executable could not be launched.
    SpawnFailed,
    /// The session request was sent, with this outcome.
    Replied(Reply),
    /// The pause is over.
    Slept,
    /// The driver process is still running.
    Running,
    /// The driver process has ended.
    Exited,
}

/// An event as a mathematical value.
pub enum EventView {
    Spawned,
    SpawnFailed,
    Replied(ReplyView),
    Slept,
    Running,
    Exited,
}

impl View for Event {
    type V = EventView;

    open spec fn view(&self) -> EventView {
        match self {
            Event::Spawned => EventView::Spawned,
            Event::SpawnFailed => EventView::SpawnFailed,
            Event::Replied(reply) => EventView::Replied(reply@),
            Event::Slept => EventView::Slept,
            Event::Running => EventView::Running,
            Event::Exited => EventView::Exited,
        }
    }
}

/// What the caller is to do next.
#[derive(Debug, PartialEq, Eq)]
pub enum Action {
    /// Start the driver with this argument appended, all standard streams closed.
    Spawn(String),
    /// Send the session request.
    Post,
    /// Pause for this many milliseconds.
    Sleep(u64),
    /// Look whether the driver process is still running.
    Poll,
    /// The session is open: use it.
    Finish(WebDriver),
    /// Give up with this error.
    Fail(WebDriverError),
    /// Nothing is left to do.
    Halt,
}

/// An action as a mathematical value.
pub enum ActionView {
    Spawn(Seq<char>),
    Post,
    Sleep(u64),
    Poll,
    Finish(WebDriverView),
    Fail(WebDriverError),
    Halt,
}

impl View for Action {
    type V = ActionView;

    open spec fn view(&self) -> ActionView {
        match self {
            Action::Spawn(argument) => ActionView::Spawn(argument@),
            Action::Post => ActionView::Post,
            Action::Sleep(millis) => ActionView::Sleep(*millis),
            Action::Poll => ActionView::Poll,
            Action::Finish(driver) => ActionView::Finish(driver@),
            Action::Fail(e) => ActionView::Fail(*e),
            Action::Halt => ActionView::Halt,
        }
    }
}

impl Phase {
    /// Whether nothing can follow this phase.
    pub open spec fn is_final(self) -> bool {
        self is Active || self is Failed
    }
}

/// Whether an event reports an answer of the driver to the session request.
pub open spec fn is_answer(event: EventView) -> bool {
    event matches EventView::Replied(ReplyView::Received { .. })
}

/// The action that a phase is waiting on.
pub open spec fn spec_pending(port: nat, phase: Phase) -> ActionView {
    match phase {
        Phase::Spawning => ActionView::Spawn(spec_port_argument(port)),
        Phase::Posting => ActionView::Post,
        Phase::Sleeping => ActionView::Sleep(RETRY_INTERVAL_MS),
        Phase::Polling => ActionView::Poll,
        Phase::Active => ActionView::Halt,
        Phase::Failed(_) => ActionView::Halt,
    }
}

/// The phase that follows `phase` on `event`. An event that the phase does
/// not wait for changes nothing.
pub open spec fn spec_next(phase: Phase, event: EventView) -> Phase {
    match (phase, event) {
        (Phase::Spawning, EventView::Spawned) => Phase::Posting,
        (Phase::Spawning, EventView::SpawnFailed) => Phase::Failed(WebDriverError::SpawnError),
        (Phase::Posting, EventView::Replied(ReplyView::Failed)) => Phase::Sleeping,
        (Phase::Posting, EventView::Replied(reply)) => match spec_session_id(reply) {
            Ok(_) => Phase::Active,
            Err(e) => Phase::Failed(e),
        },
        (Phase::Sleeping, EventView::Slept) => Phase::Polling,
        (Phase::Polling, EventView::Running) => Phase::Posting,
        (Phase::Polling, EventView::Exited) => Phase::Failed(WebDriverError::DriverExited),
        _ => phase,
    }
}

/// The action that answers `event` in `phase`. An event that the phase does
/// not wait for repeats the action that the phase is waiting on.
pub open spec fn spec_action(port: nat, phase: Phase, event: EventView) -> ActionView {
    match (phase, event) {
        (Phase::Spawning, EventView::Spawned) => ActionView::Post,
        (Phase::Spawning, EventView::SpawnFailed) => ActionView::Fail(WebDriverError::SpawnError),
        (Phase::Posting, EventView::Replied(ReplyView::Failed)) => ActionView::Sleep(
            RETRY_INTERVAL_MS,
        ),
        (Phase::Posting, EventView::Replied(reply)) => match spec_session_id(reply) {
            Ok(id) => ActionView::Finish(
                WebDriverView { url: spec_base_url(port), session_id: id },
            ),
            Err(e) => ActionView::Fail(e),
        },
        (Phase::Sleeping, EventView::Slept) => ActionView::Poll,
        (Phase::Polling, EventView::Running) => ActionView::Post,
        (Phase::Polling, EventView::Exited) => ActionView::Fail(WebDriverError::DriverExited),
        _ => spec_pending(port, phase),
    }
}

/// The phase reached from `phase` after `events`, in order.
pub open spec fn spec_run(phase: Phase, events: Seq<EventView>) -> Phase
    decreases events.len(),
{
    if events.len() == 0 {
        phase
    } else {
        spec_run(spec_next(phase, events[0]), events.skip(1))
    }
}

/// How many answers of the driver were taken while `events` ran from `phase`:
/// an answer is taken where it arrives while the session request is on its way.
pub open spec fn spec_answers_taken(phase: Phase, events: Seq<EventView>) -> nat
    decreases events.len(),
{
    if events.len() == 0 {
        0
    } else {
        let taken: nat = if phase == Phase::Posting && is_answer(events[0]) {
            1
        } else {
            0
        };
        taken + spec_answers_taken(spec_next(phase, events[0]), events.skip(1))
    }
}

/// One attempt that gets no answer while the driver process keeps running.
pub open spec fn spec_idle_round() -> Seq<EventView> {
    seq![EventView::Replied(ReplyView::Failed), EventView::Slept, EventView::Running]
}

/// One attempt that gets no answer and finds the driver process ended.
pub open spec fn spec_last_round() -> Seq<EventView> {
    seq![EventView::Replied(ReplyView::Failed), EventView::Slept, EventView::Exited]
}

/// `n` attempts in a row that get no answer while the driver process keeps running.
pub open spec fn spec_idle_rounds(n: nat) -> Seq<EventView>
    decreases n,
{
    if n == 0 {
        Seq::empty()
    } else {
        spec_idle_round() + spec_idle_rounds((n - 1) as nat)
    }
}

/// The first action: start the driver, told to listen on `port`.
pub fn start(port: usize) -> (r: (Phase, Action))
    ensures
        r.0 == Phase::Spawning,
        r.1@ == ActionView::Spawn(spec_port_argument(port as nat)),
{
    (Phase::Spawning, Action::Spawn(port_argument(port)))
}

/// The request that opens a session: the capabilities, as they are, posted
/// to the driver that listens on `port`.
pub fn session_request(port: usize, caps: Json) -> (r: Request)
    ensures
        r@ == spec_post(
            spec_session_url(spec_base_url(port as nat)),
            spec_capabilities_body(caps@),
        ),
{
    let base = base_url(port);
    Request {
        method: Method::Post,
        url: session_url(base.as_str()),
        body: Some(capabilities_body(caps)),
    }
}

/// The action that a phase is waiting on.
pub fn pending(port: usize, phase: Phase) -> (r: Action)
    ensures
        r@ == spec_pending(port as nat, phase),
{
    match phase {
        Phase::Spawning => Action::Spawn(port_argument(port)),
        Phase::Posting => Action::Post,
        Phase::Sleeping => Action::Sleep(RETRY_INTERVAL_MS),
        Phase::Polling => Action::Poll,
        Phase::Active => Action::Halt,
        Phase::Failed(_) => Action::Halt,
    }
}

/// Decides what follows `event` in `phase`.
///
/// After the driver has started, the session request is sent until an
/// answer arrives. An attempt without an answer is followed by a pause and a
/// look at the driver process: if it has ended, the handshake fails with
/// `DriverExited`, else the request is sent again. The first answer ends the
/// handshake: with the session, or with a `ProtocolError` where the answer
/// does not hold a session identifier.
pub fn step(port: usize, phase: Phase, event: Event) -> (r: (Phase, Action))
    ensures
        r.0 == spec_next(phase, event@),
        r.1@ == spec_action(port as nat, phase, event@),
{
    match (phase, event) {
        (Phase::Spawning, Event::Spawned) => (Phase::Posting, Action::Post),
        (Phase::Spawning, Event::SpawnFailed) => (
            Phase::Failed(WebDriverError::SpawnError),
            Action::Fail(WebDriverError::SpawnError),
        ),
        (Phase::Posting, Event::Replied(reply)) => match reply {
            Reply::Failed => (Phase::Sleeping, Action::Sleep(RETRY_INTERVAL_MS)),
            Reply::Received { status, body } => match WebDriver::new(
                port,
                Reply::Received { status, body },
            ) {
                Ok(driver) => (Phase::Active, Action::Finish(driver)),
                Err(e) => (Phase::Failed(e), Action::Fail(e)),
            },
        },
        (Phase::Sleeping, Event::Slept) => (Phase::Polling, Action::Poll),
        (Phase::Polling, Event::Running) => (Phase::Posting, Action::Post),
        (Phase::Polling, Event::Exited) => (
            Phase::Failed(WebDriverError::DriverExited),
            Action::Fail(WebDriverError::DriverExited),
        ),
        (phase, _) => (phase, pending(port, phase)),
    }
}

/// Once the handshake has ended, no event changes the phase or asks for
/// anything more.
pub proof fn lemma_final_phase_stays(port: nat, phase: Phase, event: EventView)
    requires
        phase.is_final(),
    ensures
        spec_next(phase, event) == phase,
        spec_action(port, phase, event) == ActionView::Halt,
{
}

/// A handshake takes at most one answer of the driver, whatever the events
/// and however often the request was sent: none once it has ended, and
/// exactly one where it ends with an open session.
pub proof fn lemma_one_answer_taken(phase: Phase, events: Seq<EventView>)
    ensures
        spec_answers_taken(phase, events) <= 1,
        phase.is_final() ==> spec_answers_taken(phase, events) == 0 && spec_run(phase, events)
            == phase,
        phase != Phase::Active && spec_run(phase, events) == Phase::Active ==> spec_answers_taken(
            phase,
            events,
        ) == 1,
    decreases events.len(),
{
    if events.len() > 0 {
        lemma_one_answer_taken(spec_next(phase, events[0]), events.skip(1));
    }
}

/// A handshake that fails without having taken an answer of the driver
/// fails because the driver process has ended, or, before the process was
/// started, because it could not be launched: it never fails otherwise, and
/// after the start only with `DriverExited`.
pub proof fn lemma_failure_without_answer(
    phase: Phase,
    events: Seq<EventView>,
    e: WebDriverError,
)
    requires
        !phase.is_final(),
        spec_answers_taken(phase, events) == 0,
        spec_run(phase, events) == Phase::Failed(e),
    ensures
        phase != Phase::Spawning ==> e == WebDriverError::DriverExited,
        phase == Phase::Spawning ==> e == WebDriverError::DriverExited || e
            == WebDriverError::SpawnError,
    decreases events.len(),
{
    if events.len() > 0 {
        let next = spec_next(phase, events[0]);
        if next.is_final() {
            lemma_one_answer_taken(next, events.skip(1));
        } else {
            lemma_failure_without_answer(next, events.skip(1), e);
        }
    }
}

/// Running two lists of events one after the other is running their
/// concatenation, and the answers taken add up.
pub proof fn lemma_run_append(phase: Phase, first: Seq<EventView>, rest: Seq<EventView>)
    ensures
        spec_run(phase, first + rest) == spec_run(spec_run(phase, first), rest),
        spec_answers_taken(phase, first + rest) == spec_answers_taken(phase, first)
            + spec_answers_taken(spec_run(phase, first), rest),
    decreases first.len(),
{
    if first.len() == 0 {
        assert(first + rest =~= rest);
    } else {
        assert((first + rest)[0] == first[0]);
        assert((first + rest).skip(1) =~= first.skip(1) + rest);
        lemma_run_append(spec_next(phase, first[0]), first.skip(1), rest);
    }
}

/// Running one event is one step.
pub proof fn lemma_run_one(phase: Phase, event: EventView)
    ensures
        spec_run(phase, seq![event]) == spec_next(phase, event),
        spec_answers_taken(phase, seq![event]) == if phase == Phase::Posting && is_answer(event) {
            1nat
        } else {
            0nat
        },
{
    let events = seq![event];
    assert(events.skip(1).len() == 0);
    assert(spec_run(spec_next(phase, event), events.skip(1)) == spec_next(phase, event));
    assert(spec_answers_taken(spec_next(phase, event), events.skip(1)) == 0);
}

/// Running three events is three steps.
proof fn lemma_run_three(phase: Phase, a: EventView, b: EventView, c: EventView)
    ensures
        spec_run(phase, seq![a, b, c]) == spec_next(spec_next(spec_next(phase, a), b), c),
        phase == Phase::Posting && !is_answer(a) && spec_next(phase, a) != Phase::Posting
            && spec_next(spec_next(phase, a), b) != Phase::Posting ==> spec_answers_taken(
            phase,
            seq![a, b, c],
        ) == 0,
{
    assert(seq![a, b, c] =~= seq![a] + (seq![b] + seq![c]));
    lemma_run_one(phase, a);
    lemma_run_one(spec_next(phase, a), b);
    lemma_run_one(spec_next(spec_next(phase, a), b), c);
    lemma_run_append(spec_next(phase, a), seq![b], seq![c]);
    lemma_run_append(phase, seq![a], seq![b] + seq![c]);
}

/// However often the request went unanswered while the driver process kept
/// running, the handshake is where it was: about to send the request, with
/// no answer taken.
pub proof fn lemma_idle_rounds(n: nat)
    ensures
        spec_run(Phase::Posting, spec_idle_rounds(n)) == Phase::Posting,
        spec_answers_taken(Phase::Posting, spec_idle_rounds(n)) == 0,
    decreases n,
{
    if n > 0 {
        lemma_run_three(
            Phase::Posting,
            EventView::Replied(ReplyView::Failed),
            EventView::Slept,
            EventView::Running,
        );
        lemma_idle_rounds((n - 1) as nat);
        lemma_run_append(Phase::Posting, spec_idle_round(), spec_idle_rounds((n - 1) as nat));
    }
}

/// If the driver process ends before the driver has ever answered, the
/// handshake fails with `DriverExited`, after any number of attempts.
pub proof fn lemma_exit_after_rounds(n: nat)
    ensures
        spec_run(Phase::Posting, spec_idle_rounds(n) + spec_last_round()) == Phase::Failed(
            WebDriverError::DriverExited,
        ),
{
    lemma_idle_rounds(n);
    lemma_run_three(
        Phase::Posting,
        EventView::Replied(ReplyView::Failed),
        EventView::Slept,
        EventView::Exited,
    );
    lemma_run_append(Phase::Posting, spec_idle_rounds(n), spec_last_round());
}

/// If the driver accepts the session request after any number of attempts
/// that went unanswered, the handshake ends with an open session and has
/// taken exactly one answer.
pub proof fn lemma_accept_after_rounds(n: nat, reply: ReplyView, id: Seq<char>)
    requires
        reply is Received,
        spec_session_id(reply) == Ok::<Seq<char>, WebDriverError>(id),
    ensures
        spec_run(Phase::Posting, spec_idle_rounds(n) + seq![EventView::Replied(reply)])
            == Phase::Active,
        spec_answers_taken(Phase::Posting, spec_idle_rounds(n) + seq![EventView::Replied(reply)])
            == 1,
{
    lemma_idle_rounds(n);
    lemma_run_one(Phase::Posting, EventView::Replied(reply));
    lemma_run_append(Phase::Posting, spec_idle_rounds(n), seq![EventView::Replied(reply)]);
}

/// An answer that holds a session identifier ends the handshake with a
/// session that has this identifier and the address of the driver on `port`;
/// the identifier is not empty where the driver's is not.
pub proof fn lemma_answer_opens_session(port: nat, reply: ReplyView, id: Seq<char>)
    requires
        reply is Received,
        spec_session_id(reply) == Ok::<Seq<char>, WebDriverError>(id),
    ensures
        spec_next(Phase::Posting, EventView::Replied(reply)) == Phase::Active,
        spec_action(port, Phase::Posting, EventView::Replied(reply)) == ActionView::Finish(
            WebDriverView { url: spec_base_url(port), session_id: id },
        ),
        id.len() > 0 ==> spec_action(port, Phase::Posting, EventView::Replied(reply))
            ->Finish_0.session_id.len() > 0,
{
}

/// An attempt that gets no answer is followed by a pause and a look at the
/// driver process. If the process has ended, the handshake fails with
/// `DriverExited`; if it still runs, the request is sent again.
pub proof fn lemma_round_without_answer(port: nat)
    ensures
        spec_next(Phase::Posting, EventView::Replied(ReplyView::Failed)) == Phase::Sleeping,
        spec_action(port, Phase::Posting, EventView::Replied(ReplyView::Failed))
            == ActionView::Sleep(125),
        spec_next(Phase::Sleeping, EventView::Slept) == Phase::Polling,
        spec_action(port, Phase::Sleeping, EventView::Slept) == ActionView::Poll,
        spec_next(Phase::Polling, EventView::Exited) == Phase::Failed(
            WebDriverError::DriverExited,
        ),
        spec_action(port, Phase::Polling, EventView::Exited) == ActionView::Fail(
            WebDriverError::DriverExited,
        ),
        spec_next(Phase::Polling, EventView::Running) == Phase::Posting,
        spec_action(port, Phase::Polling, EventView::Running) == ActionView::Post,
{
}

} // verus!
