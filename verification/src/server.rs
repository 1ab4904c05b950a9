//! The front door: what each request does to the waiting calls and what it
//! is answered with.
//!
//! Nothing here reads a socket, runs the transcript pipeline or runs a tool.
//! The caller does those and hands over what came of them; the functions here
//! decide what is stored, what is taken out, what may run and what is answered.

use crate::model::views;
use crate::pending::{
    distinct_ids, has_id, inserted, item_of, lemma_inserted_distinct,
    lemma_inserted_keeps_others, lemma_inserted_waits, lemma_removed_is_gone,
    lemma_removed_keeps_others, listing, lookup, removed, PendingRegistry,
};
use crate::protocol::{
    CoreEvent, CoreEventView, PendingItem, PendingItemView, ToolCall, ToolCallView, ToolResult,
    ToolResultView,
};
use crate::text::same_text;
use serde_json::Value;
use vstd::prelude::*;

verus! {

/// Body of a transcript submission.
#[derive(Debug, PartialEq, Eq)]
pub struct TranscriptIn {
    pub transcript: String,
    pub session_id: Option<String>,
    pub locale: Option<String>,
}

/// Body of a decision on a waiting call.
#[derive(Debug, PartialEq, Eq)]
pub struct ConfirmIn {
    pub id: String,
    pub approve: bool,
}

/// What an answer says.
#[derive(Debug, PartialEq, Eq)]
pub enum ApiBody {
    /// The events of a transcript and how many calls now wait.
    Transcript { session: String, events: Vec<CoreEvent>, pending_count: usize },
    /// The waiting calls.
    Pending { pending: Vec<PendingItem> },
    /// The call was taken out and will not run.
    Denied { id: String },
    /// The call ran.
    Executed { id: String, result: ToolResult },
    /// The call was approved and its tool failed. The call does not wait any more.
    ExecutionFailed { id: String, tool: String, error: String },
    /// The service is up.
    Health,
    /// The request could not be served.
    Error { error: String },
}

pub enum ApiBodyView {
    Transcript { session: Seq<char>, events: Seq<CoreEventView>, pending_count: nat },
    Pending { pending: Seq<PendingItemView> },
    Denied { id: Seq<char> },
    Executed { id: Seq<char>, result: ToolResultView },
    ExecutionFailed { id: Seq<char>, tool: Seq<char>, error: Seq<char> },
    Health,
    Error { error: Seq<char> },
}

impl View for ApiBody {
    type V = ApiBodyView;

    open spec fn view(&self) -> ApiBodyView {
        match self {
            ApiBody::Transcript { session, events, pending_count } => ApiBodyView::Transcript {
                session: session@,
                events: views(events@),
                pending_count: *pending_count as nat,
            },
            ApiBody::Pending { pending } => ApiBodyView::Pending { pending: views(pending@) },
            ApiBody::Denied { id } => ApiBodyView::Denied { id: id@ },
            ApiBody::Executed { id, result } => ApiBodyView::Executed { id: id@, result: result@ },
            ApiBody::ExecutionFailed { id, tool, error } => ApiBodyView::ExecutionFailed {
                id: id@,
                tool: tool@,
                error: error@,
            },
            ApiBody::Health => ApiBodyView::Health,
            ApiBody::Error { error } => ApiBodyView::Error { error: error@ },
        }
    }
}

/// An answer: a status code and what it says.
#[derive(Debug, PartialEq, Eq)]
pub struct ApiResponse {
    pub status: u16,
    pub body: ApiBody,
}

pub struct ApiResponseView {
    pub status: u16,
    pub body: ApiBodyView,
}

impl View for ApiResponse {
    type V = ApiResponseView;

    open spec fn view(&self) -> ApiResponseView {
        ApiResponseView { status: self.status, body: self.body@ }
    }
}

/// An answer with the given status.
pub fn json_response(code: u16, body: ApiBody) -> (response: ApiResponse)
    ensures
        response == (ApiResponse { status: code, body }),
{
    ApiResponse { status: code, body }
}

/// An answer with status 200.
pub fn ok(body: ApiBody) -> (response: ApiResponse)
    ensures
        response == (ApiResponse { status: 200, body }),
{
    json_response(200, body)
}

/// The answer to a body that could not be read as a request: status 400 with
/// the reader's message. Nothing is stored or taken out.
pub fn malformed(error: String) -> (response: ApiResponse)
    ensures
        response@ == (ApiResponseView { status: 400, body: ApiBodyView::Error { error: error@ } }),
{
    json_response(400, ApiBody::Error { error })
}

/// The answer to a health probe.
pub fn health() -> (response: ApiResponse)
    ensures
        response@ == (ApiResponseView { status: 200, body: ApiBodyView::Health }),
{
    ok(ApiBody::Health)
}

/// The answer to a request that no route serves.
pub fn not_found() -> (response: ApiResponse)
    ensures
        response@ == (ApiResponseView {
            status: 404,
            body: ApiBodyView::Error { error: "not_found"@ },
        }),
{
    json_response(404, ApiBody::Error { error: "not_found".to_owned() })
}

/// A request method, as far as the routes tell methods apart.
#[derive(Clone, Copy, Debug, PartialEq, Eq, Structural)]
pub enum HttpMethod {
    Get,
    Post,
    Other,
}

/// What a request asks for.
#[derive(Clone, Copy, Debug, PartialEq, Eq, Structural)]
pub enum Route {
    /// Submit a transcript.
    Transcript,
    /// List the waiting calls.
    Pending,
    /// Approve or deny a waiting call.
    Confirm,
    /// Health probe.
    Health,
    /// Nothing is served under this method and path.
    NotFound,
}

/// The route of a method and a path. The path must match as a whole.
pub open spec fn route_of(method: HttpMethod, path: Seq<char>) -> Route {
    if method == HttpMethod::Post && path == "/v1/transcript"@ {
        Route::Transcript
    } else if method == HttpMethod::Get && path == "/v1/pending"@ {
        Route::Pending
    } else if method == HttpMethod::Post && path == "/v1/confirm"@ {
        Route::Confirm
    } else if method == HttpMethod::Get && path == "/health"@ {
        Route::Health
    } else {
        Route::NotFound
    }
}

/// Finds the route of a request.
pub fn route(method: HttpMethod, path: &str) -> (found: Route)
    ensures
        found == route_of(method, path@),
{
    match method {
        HttpMethod::Post => {
            if same_text(path, "/v1/transcript") {
                Route::Transcript
            } else if same_text(path, "/v1/confirm") {
                Route::Confirm
            } else {
                Route::NotFound
            }
        },
        HttpMethod::Get => {
            if same_text(path, "/v1/pending") {
                Route::Pending
            } else if same_text(path, "/health") {
                Route::Health
            } else {
                Route::NotFound
            }
        },
        HttpMethod::Other => Route::NotFound,
    }
}

/// What becomes of the events that wait for no decision, once a transcript
/// was answered.
#[derive(Clone, Copy, Debug, PartialEq, Eq, Structural)]
pub enum EventPolicy {
    /// They are part of the answer and go nowhere else.
    ResponseOnly,
    /// They are part of the answer and are also announced to the subscribers
    /// of the bus.
    Announce,
}

/// The state that the requests share: the calls that wait for a decision,
/// and what is done with the events that wait for none.
pub struct ApiState {
    pending: PendingRegistry,
    policy: EventPolicy,
}

impl View for ApiState {
    type V = Seq<ToolCallView>;

    /// The waiting calls, in the order of the registry.
    closed spec fn view(&self) -> Seq<ToolCallView> {
        self.pending@
    }
}

impl ApiState {
    /// No two waiting calls share an id. Every state that this module hands
    /// out is well formed, and its functions keep it so.
    pub open spec fn wf(&self) -> bool {
        distinct_ids(self@)
    }

    /// What is done with the events that wait for no decision.
    pub closed spec fn policy(&self) -> EventPolicy {
        self.policy
    }

    /// A state in which nothing waits and events go into the answer only.
    pub fn new() -> (state: ApiState)
        ensures
            state.wf(),
            state@ == Seq::<ToolCallView>::empty(),
            state.policy() == EventPolicy::ResponseOnly,
    {
        ApiState { pending: PendingRegistry::new(), policy: EventPolicy::ResponseOnly }
    }

    /// A state in which nothing waits, with the given policy for events.
    pub fn with_policy(policy: EventPolicy) -> (state: ApiState)
        ensures
            state.wf(),
            state@ == Seq::<ToolCallView>::empty(),
            state.policy() == policy,
    {
        ApiState { pending: PendingRegistry::new(), policy }
    }

    /// What is done with the events that wait for no decision.
    pub fn event_policy(&self) -> (policy: EventPolicy)
        ensures
            policy == self.policy(),
    {
        self.policy
    }

    /// The number of waiting calls.
    pub fn pending_count(&self) -> (count: usize)
        ensures
            count == self@.len(),
    {
        self.pending.len()
    }

}

/// The waiting calls after one event: a tool call that asks for confirmation
/// is stored, any other event leaves them as they are.
pub open spec fn queue_event(calls: Seq<ToolCallView>, event: CoreEventView) -> Seq<ToolCallView> {
    match event {
        CoreEventView::ToolCall(call) => if call.requires_confirmation {
            inserted(calls, call)
        } else {
            calls
        },
        CoreEventView::SpeechTurn(_) => calls,
    }
}

/// The waiting calls after a run of events, taken in order.
pub open spec fn queue_events(calls: Seq<ToolCallView>, events: Seq<CoreEventView>) -> Seq<
    ToolCallView,
>
    decreases events.len(),
{
    if events.len() == 0 {
        calls
    } else {
        queue_event(queue_events(calls, events.drop_last()), events.last())
    }
}

/// What the pipeline made of a transcript, by views.
pub open spec fn outcome_view(outcome: Result<Vec<CoreEvent>, String>) -> Result<
    Seq<CoreEventView>,
    Seq<char>,
> {
    match outcome {
        Ok(events) => Ok(views(events@)),
        Err(error) => Err(error@),
    }
}

/// The session that an answer names: the one given, or `default`.
pub open spec fn session_name(session_id: Option<String>) -> Seq<char> {
    match session_id {
        Some(name) => name@,
        None => "default"@,
    }
}

/// The waiting calls after a transcript was submitted.
pub open spec fn transcript_state(
    calls: Seq<ToolCallView>,
    outcome: Result<Seq<CoreEventView>, Seq<char>>,
) -> Seq<ToolCallView> {
    match outcome {
        Ok(events) => queue_events(calls, events),
        Err(_) => calls,
    }
}

/// The answer to a submitted transcript.
pub open spec fn transcript_response(
    calls: Seq<ToolCallView>,
    session: Seq<char>,
    outcome: Result<Seq<CoreEventView>, Seq<char>>,
) -> ApiResponseView {
    match outcome {
        Ok(events) => ApiResponseView {
            status: 200,
            body: ApiBodyView::Transcript {
                session,
                events,
                pending_count: queue_events(calls, events).len(),
            },
        },
        Err(error) => ApiResponseView { status: 500, body: ApiBodyView::Error { error } },
    }
}

/// Storing events keeps ids distinct.
pub proof fn lemma_queue_events_distinct(calls: Seq<ToolCallView>, events: Seq<CoreEventView>)
    requires
        distinct_ids(calls),
    ensures
        distinct_ids(queue_events(calls, events)),
    decreases events.len(),
{
    if events.len() > 0 {
        lemma_queue_events_distinct(calls, events.drop_last());
        let before = queue_events(calls, events.drop_last());
        match events.last() {
            CoreEventView::ToolCall(call) => {
                lemma_inserted_distinct(before, call);
            },
            CoreEventView::SpeechTurn(_) => {},
        }
    }
}

/// Takes in what the pipeline made of a submitted transcript.
///
/// When the pipeline failed, nothing is stored and the answer is its error
/// with status 500. Otherwise every tool call among the events that asks for
/// confirmation is stored, in the order of the events, and the answer gives
/// the session, all the events as they came, and the number of calls that
/// wait once they are stored.
pub fn handle_transcript(
    state: &mut ApiState,
    input: TranscriptIn,
    outcome: Result<Vec<CoreEvent>, String>,
) -> (response: ApiResponse)
    requires
        old(state).wf(),
    ensures
        final(state).wf(),
        final(state).policy() == old(state).policy(),
        final(state)@ == transcript_state(old(state)@, outcome_view(outcome)),
        response@ == transcript_response(
            old(state)@,
            session_name(input.session_id),
            outcome_view(outcome),
        ),
{
    match outcome {
        Ok(events) => {
            let ghost before = state@;
            let mut at: usize = 0;
            assert(views(events@).take(0) =~= Seq::<CoreEventView>::empty());
            while at < events.len()
                invariant
                    at <= events.len(),
                    state.wf(),
                    state.policy() == old(state).policy(),
                    state@ == queue_events(before, views(events@).take(at as int)),
                decreases events.len() - at,
            {
                proof {
                    let done = views(events@).take(at as int);
                    let next = views(events@).take(at + 1);
                    assert(next.drop_last() =~= done);
                    assert(next.last() == events@[at as int]@);
                }
                match &events[at] {
                    CoreEvent::ToolCall(call) => {
                        if call.requires_confirmation {
                            state.pending.insert(call.clone());
                        }
                    },
                    CoreEvent::SpeechTurn(_) => {},
                }
                at += 1;
            }
            assert(views(events@).take(at as int) =~= views(events@));
            let session = match input.session_id {
                Some(name) => name,
                None => "default".to_owned(),
            };
            let pending_count = state.pending.len();
            ok(ApiBody::Transcript { session, events, pending_count })
        },
        Err(error) => json_response(500, ApiBody::Error { error }),
    }
}

/// Whether an event waits for no decision: anything but a tool call that
/// asks for confirmation.
pub open spec fn passes_through(event: CoreEventView) -> bool {
    match event {
        CoreEventView::ToolCall(call) => !call.requires_confirmation,
        CoreEventView::SpeechTurn(_) => true,
    }
}

/// Those of `events` that wait for no decision, in order.
pub open spec fn passing_through(events: Seq<CoreEventView>) -> Seq<CoreEventView>
    decreases events.len(),
{
    if events.len() == 0 {
        events
    } else if passes_through(events.last()) {
        passing_through(events.drop_last()).push(events.last())
    } else {
        passing_through(events.drop_last())
    }
}

/// The events to announce on the bus under a policy.
pub open spec fn announced(policy: EventPolicy, events: Seq<CoreEventView>) -> Seq<
    CoreEventView,
> {
    match policy {
        EventPolicy::ResponseOnly => Seq::empty(),
        EventPolicy::Announce => passing_through(events),
    }
}

/// Picks the events of a transcript that are to be announced on the bus:
/// none where the policy keeps events in the answer, else those that wait
/// for no decision, in the order in which they came. A call that waits for
/// its confirmation is never among them.
pub fn events_to_announce(state: &ApiState, events: &Vec<CoreEvent>) -> (chosen: Vec<CoreEvent>)
    ensures
        views(chosen@) == announced(state.policy(), views(events@)),
{
    let mut chosen: Vec<CoreEvent> = Vec::new();
    match state.policy {
        EventPolicy::ResponseOnly => {
            assert(views(chosen@) =~= Seq::<CoreEventView>::empty());
        },
        EventPolicy::Announce => {
            let mut at: usize = 0;
            assert(views(events@).take(0) =~= Seq::<CoreEventView>::empty());
            assert(views(chosen@) =~= Seq::<CoreEventView>::empty());
            while at < events.len()
                invariant
                    at <= events.len(),
                    views(chosen@) == passing_through(views(events@).take(at as int)),
                decreases events.len() - at,
            {
                proof {
                    let done = views(events@).take(at as int);
                    let next = views(events@).take(at + 1);
                    assert(next.drop_last() =~= done);
                    assert(next.last() == events@[at as int]@);
                }
                let ghost so_far = views(chosen@);
                let passes = match &events[at] {
                    CoreEvent::ToolCall(call) => !call.requires_confirmation,
                    CoreEvent::SpeechTurn(_) => true,
                };
                if passes {
                    chosen.push(events[at].clone());
                    assert(views(chosen@) =~= so_far.push(events@[at as int]@));
                }
                at += 1;
            }
            assert(views(events@).take(at as int) =~= views(events@));
        },
    }
    chosen
}

/// Lists the waiting calls. The state is unchanged.
pub fn handle_pending(state: &ApiState) -> (response: ApiResponse)
    ensures
        response@ == (ApiResponseView {
            status: 200,
            body: ApiBodyView::Pending { pending: listing(state@) },
        }),
{
    ok(ApiBody::Pending { pending: state.pending.list() })
}

/// What to do with a request once its method and path are known.
#[derive(Debug, PartialEq, Eq)]
pub enum Served {
    /// Answer with this; the request needs nothing more.
    Answer(ApiResponse),
    /// Read the body as a transcript submission, run the pipeline on the
    /// transcript, then answer with `handle_transcript`.
    ReadTranscript,
    /// Read the body as a decision, then go on with `handle_confirm`.
    ReadConfirm,
}

pub enum ServedView {
    Answer(ApiResponseView),
    ReadTranscript,
    ReadConfirm,
}

impl View for Served {
    type V = ServedView;

    open spec fn view(&self) -> ServedView {
        match self {
            Served::Answer(response) => ServedView::Answer(response@),
            Served::ReadTranscript => ServedView::ReadTranscript,
            Served::ReadConfirm => ServedView::ReadConfirm,
        }
    }
}

/// What a request leads to, given the calls that wait when it arrives.
pub open spec fn served(calls: Seq<ToolCallView>, method: HttpMethod, path: Seq<char>)
    -> ServedView {
    match route_of(method, path) {
        Route::Transcript => ServedView::ReadTranscript,
        Route::Confirm => ServedView::ReadConfirm,
        Route::Pending => ServedView::Answer(
            ApiResponseView { status: 200, body: ApiBodyView::Pending { pending: listing(calls) } },
        ),
        Route::Health => ServedView::Answer(
            ApiResponseView { status: 200, body: ApiBodyView::Health },
        ),
        Route::NotFound => ServedView::Answer(
            ApiResponseView { status: 404, body: ApiBodyView::Error { error: "not_found"@ } },
        ),
    }
}

/// Serves one request as far as its method and path decide it. The listing
/// of the waiting calls, the health probe and an unknown route are answered
/// here; a transcript or a decision has a body to be read first. The state
/// is unchanged.
pub fn serve(state: &ApiState, method: HttpMethod, path: &str) -> (next: Served)
    ensures
        next@ == served(state@, method, path@),
{
    match route(method, path) {
        Route::Transcript => Served::ReadTranscript,
        Route::Confirm => Served::ReadConfirm,
        Route::Pending => Served::Answer(handle_pending(state)),
        Route::Health => Served::Answer(health()),
        Route::NotFound => Served::Answer(not_found()),
    }
}

/// What a decision on a waiting call leads to.
#[derive(Debug, PartialEq, Eq)]
pub enum ConfirmStep {
    /// Answer right away; no tool runs.
    Respond(ApiResponse),
    /// Run the tool of this call, then answer with `finish_confirm`.
    Execute(ToolCall),
}

pub enum ConfirmStepView {
    Respond(ApiResponseView),
    Execute(ToolCallView),
}

impl View for ConfirmStep {
    type V = ConfirmStepView;

    open spec fn view(&self) -> ConfirmStepView {
        match self {
            ConfirmStep::Respond(response) => ConfirmStepView::Respond(response@),
            ConfirmStep::Execute(call) => ConfirmStepView::Execute(call@),
        }
    }
}

/// What a decision leads to, given the calls that wait when it arrives.
pub open spec fn confirm_step(calls: Seq<ToolCallView>, id: Seq<char>, approve: bool)
    -> ConfirmStepView {
    match lookup(calls, id) {
        None => ConfirmStepView::Respond(
            ApiResponseView {
                status: 404,
                body: ApiBodyView::Error { error: "pending_id_not_found"@ },
            },
        ),
        Some(call) => if approve {
            ConfirmStepView::Execute(call)
        } else {
            ConfirmStepView::Respond(
                ApiResponseView { status: 200, body: ApiBodyView::Denied { id: call.id } },
            )
        },
    }
}

/// Takes a decision on a waiting call.
///
/// The call leaves the registry here, before anything runs, whether it was
/// approved or denied. When nothing waits under the id, nothing changes and
/// the answer is 404. A denied call is answered at once. Only an approved call
/// that was waiting is handed out to be run, so of two decisions on one id
/// at most the first runs it.
pub fn handle_confirm(state: &mut ApiState, input: ConfirmIn) -> (step: ConfirmStep)
    requires
        old(state).wf(),
    ensures
        final(state).wf(),
        final(state).policy() == old(state).policy(),
        final(state)@ == removed(old(state)@, input.id@),
        step@ == confirm_step(old(state)@, input.id@, input.approve),
{
    let call = match state.pending.remove(input.id.as_str()) {
        Some(call) => call,
        None => {
            return ConfirmStep::Respond(
                json_response(404, ApiBody::Error { error: "pending_id_not_found".to_owned() }),
            );
        },
    };
    if !input.approve {
        return ConfirmStep::Respond(ok(ApiBody::Denied { id: call.id }));
    }
    ConfirmStep::Execute(call)
}

/// The answer once the tool of an approved call has run.
pub open spec fn confirm_response(call: ToolCallView, outcome: Result<Value, Seq<char>>)
    -> ApiResponseView {
    match outcome {
        Ok(output) => ApiResponseView {
            status: 200,
            body: ApiBodyView::Executed {
                id: call.id,
                result: ToolResultView { id: call.id, ok: true, output },
            },
        },
        Err(error) => ApiResponseView {
            status: 500,
            body: ApiBodyView::ExecutionFailed { id: call.id, tool: call.tool, error },
        },
    }
}

/// What the tool made of a call, by views.
pub open spec fn execution_view(outcome: Result<Value, String>) -> Result<Value, Seq<char>> {
    match outcome {
        Ok(output) => Ok(output),
        Err(error) => Err(error@),
    }
}

/// Answers a decision whose call was run. The call was taken out before it
/// ran and is not stored again, whatever the tool made of it.
pub fn finish_confirm(call: ToolCall, outcome: Result<Value, String>) -> (response: ApiResponse)
    ensures
        response@ == confirm_response(call@, execution_view(outcome)),
{
    match outcome {
        Ok(output) => {
            let id = call.id.clone();
            ok(ApiBody::Executed { id, result: ToolResult { id: call.id, ok: true, output } })
        },
        Err(error) => json_response(
            500,
            ApiBody::ExecutionFailed { id: call.id, tool: call.tool, error },
        ),
    }
}

/// The answer to a decision on an id under which nothing waits.
pub open spec fn not_waiting() -> ConfirmStepView {
    ConfirmStepView::Respond(
        ApiResponseView {
            status: 404,
            body: ApiBodyView::Error { error: "pending_id_not_found"@ },
        },
    )
}

/// A stored call is listed until a decision takes it out, and a decision is
/// taken once. While `call` waits, a listing shows it. The first decision on
/// its id, approval or denial, takes it out; from then on no listing shows
/// the id and every further decision on it is answered with "not found".
pub proof fn law_listed_until_decided(
    calls: Seq<ToolCallView>,
    call: ToolCallView,
    decide_again: bool,
)
    requires
        distinct_ids(calls),
    ensures
        ({
            let waiting = inserted(calls, call);
            let decided = removed(waiting, call.id);
            &&& listing(waiting).contains(item_of(call))
            &&& confirm_step(waiting, call.id, true) == ConfirmStepView::Execute(call)
            &&& confirm_step(waiting, call.id, false) == ConfirmStepView::Respond(
                ApiResponseView { status: 200, body: ApiBodyView::Denied { id: call.id } },
            )
            &&& !has_id(decided, call.id)
            &&& forall|i: int|
                0 <= i < listing(decided).len() ==> (#[trigger] listing(decided)[i]).id != call.id
            &&& confirm_step(decided, call.id, decide_again) == not_waiting()
        }),
{
    let waiting = inserted(calls, call);
    lemma_inserted_waits(calls, call);
    lemma_inserted_distinct(calls, call);
    lemma_removed_is_gone(waiting, call.id);
}

/// Until it is decided, a waiting call stays: storing a call under another
/// id, and a decision on another id, leave what waits under `id` as it was.
pub proof fn law_other_ids_do_not_interfere(
    calls: Seq<ToolCallView>,
    id: Seq<char>,
    other: ToolCallView,
    approve: bool,
)
    requires
        distinct_ids(calls),
        other.id != id,
    ensures
        lookup(inserted(calls, other), id) == lookup(calls, id),
        lookup(removed(calls, other.id), id) == lookup(calls, id),
        confirm_step(inserted(calls, other), id, approve) == confirm_step(calls, id, approve),
        confirm_step(removed(calls, other.id), id, approve) == confirm_step(calls, id, approve),
{
    lemma_inserted_keeps_others(calls, other, id);
    lemma_removed_keeps_others(calls, other.id, id);
}

/// Of two approvals of the same waiting call, which reach the state one after
/// the other, the first is told to run the call and the second is answered
/// with "not found": the call runs once.
pub proof fn law_one_approval_runs(calls: Seq<ToolCallView>, id: Seq<char>)
    requires
        distinct_ids(calls),
        has_id(calls, id),
    ensures
        confirm_step(calls, id, true) == ConfirmStepView::Execute(lookup(calls, id)->0),
        confirm_step(removed(calls, id), id, true) == not_waiting(),
{
    lemma_removed_is_gone(calls, id);
}

/// A denial never hands a call out to be run, whatever waits.
pub proof fn law_denial_runs_nothing(calls: Seq<ToolCallView>, id: Seq<char>)
    ensures
        confirm_step(calls, id, false) is Respond,
{
}

} // verus!
