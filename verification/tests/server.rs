use munin_core::protocol::{CoreEvent, PendingItem, SpeechTurn, ToolCall, ToolResult};
use munin_core::server::{
    events_to_announce, EventPolicy, finish_confirm, handle_confirm, handle_pending, handle_transcript, health, json_response,
    malformed, not_found, ok, route, serve, ApiBody, ApiResponse, ApiState, ConfirmIn,
    ConfirmStep, HttpMethod, Route, Served, TranscriptIn,
};
use serde_json::Value;

struct RecordingRouter {
    invocations: Vec<(String, Value)>,
    fail: bool,
}

impl RecordingRouter {
    fn new() -> Self {
        RecordingRouter { invocations: Vec::new(), fail: false }
    }

    fn execute(&mut self, tool: &str, args: &Value) -> Result<Value, String> {
        self.invocations.push((tool.to_string(), args.clone()));
        if self.fail {
            Err(format!("{} failed", tool))
        } else {
            let mut output = serde_json::Map::new();
            output.insert("tool".to_string(), Value::String(tool.to_string()));
            output.insert("args".to_string(), args.clone());
            Ok(Value::Object(output))
        }
    }
}

fn confirm(state: &mut ApiState, router: &mut RecordingRouter, id: &str, approve: bool) -> ApiResponse {
    match handle_confirm(state, ConfirmIn { id: id.to_string(), approve }) {
        ConfirmStep::Respond(response) => response,
        ConfirmStep::Execute(call) => {
            let outcome = router.execute(&call.tool, &call.args);
            finish_confirm(call, outcome)
        }
    }
}

fn shell_call(id: &str, command: &str) -> ToolCall {
    ToolCall {
        id: id.to_string(),
        tool: "shell".to_string(),
        args: Value::String(command.to_string()),
        requires_confirmation: true,
    }
}

fn says(text: &str) -> CoreEvent {
    CoreEvent::SpeechTurn(SpeechTurn { role: "assistant".to_string(), text: text.to_string() })
}

fn transcript(text: &str, session: Option<&str>) -> TranscriptIn {
    TranscriptIn {
        transcript: text.to_string(),
        session_id: session.map(|s| s.to_string()),
        locale: None,
    }
}

fn lights_pipeline(text: &str) -> Result<Vec<CoreEvent>, String> {
    if text == "turn off the lights" {
        Ok(vec![
            says("Turning off the lights."),
            CoreEvent::ToolCall(shell_call("call-1", "lights off")),
        ])
    } else if text.is_empty() {
        Err("empty transcript".to_string())
    } else {
        Ok(vec![says(text)])
    }
}

fn error_response(status: u16, error: &str) -> ApiResponse {
    ApiResponse { status, body: ApiBody::Error { error: error.to_string() } }
}

#[test]
fn routes() {
    assert_eq!(route(HttpMethod::Post, "/v1/transcript"), Route::Transcript);
    assert_eq!(route(HttpMethod::Get, "/v1/pending"), Route::Pending);
    assert_eq!(route(HttpMethod::Post, "/v1/confirm"), Route::Confirm);
    assert_eq!(route(HttpMethod::Get, "/health"), Route::Health);
}

#[test]
fn routes_match_method_and_whole_path() {
    assert_eq!(route(HttpMethod::Get, "/v1/transcript"), Route::NotFound);
    assert_eq!(route(HttpMethod::Post, "/v1/pending"), Route::NotFound);
    assert_eq!(route(HttpMethod::Get, "/v1/confirm"), Route::NotFound);
    assert_eq!(route(HttpMethod::Post, "/health"), Route::NotFound);
    assert_eq!(route(HttpMethod::Other, "/health"), Route::NotFound);
    assert_eq!(route(HttpMethod::Get, "/health/"), Route::NotFound);
    assert_eq!(route(HttpMethod::Get, "/v1/pending?all=1"), Route::NotFound);
    assert_eq!(route(HttpMethod::Get, ""), Route::NotFound);
    assert_eq!(route(HttpMethod::Get, "/"), Route::NotFound);
}

#[test]
fn plain_answers() {
    assert_eq!(health(), ApiResponse { status: 200, body: ApiBody::Health });
    assert_eq!(not_found(), error_response(404, "not_found"));
    assert_eq!(malformed("expected value at line 1".to_string()), error_response(400, "expected value at line 1"));
    assert_eq!(ok(ApiBody::Health).status, 200);
    assert_eq!(
        json_response(418, ApiBody::Denied { id: "x".to_string() }),
        ApiResponse { status: 418, body: ApiBody::Denied { id: "x".to_string() } }
    );
}

#[test]
fn end_to_end_lights() {
    let mut state = ApiState::new();
    let mut router = RecordingRouter::new();

    let input = transcript("turn off the lights", Some("s-1"));
    let outcome = lights_pipeline(&input.transcript);
    let response = handle_transcript(&mut state, input, outcome);
    assert_eq!(
        response,
        ApiResponse {
            status: 200,
            body: ApiBody::Transcript {
                session: "s-1".to_string(),
                events: vec![
                    says("Turning off the lights."),
                    CoreEvent::ToolCall(shell_call("call-1", "lights off")),
                ],
                pending_count: 1,
            },
        }
    );
    assert_eq!(state.pending_count(), 1);

    assert_eq!(
        handle_pending(&state),
        ApiResponse {
            status: 200,
            body: ApiBody::Pending {
                pending: vec![PendingItem {
                    id: "call-1".to_string(),
                    tool: "shell".to_string(),
                    args: Value::String("lights off".to_string()),
                }],
            },
        }
    );
    assert!(router.invocations.is_empty());

    let answer = confirm(&mut state, &mut router, "call-1", true);
    let mut output = serde_json::Map::new();
    output.insert("tool".to_string(), Value::String("shell".to_string()));
    output.insert("args".to_string(), Value::String("lights off".to_string()));
    assert_eq!(
        answer,
        ApiResponse {
            status: 200,
            body: ApiBody::Executed {
                id: "call-1".to_string(),
                result: ToolResult {
                    id: "call-1".to_string(),
                    ok: true,
                    output: Value::Object(output),
                },
            },
        }
    );
    assert_eq!(
        router.invocations,
        vec![("shell".to_string(), Value::String("lights off".to_string()))]
    );

    assert_eq!(
        handle_pending(&state),
        ApiResponse { status: 200, body: ApiBody::Pending { pending: vec![] } }
    );
    assert_eq!(state.pending_count(), 0);
}

#[test]
fn confirm_of_an_unknown_id_is_not_found() {
    let mut state = ApiState::new();
    let mut router = RecordingRouter::new();
    assert_eq!(
        confirm(&mut state, &mut router, "nonexistent", true),
        error_response(404, "pending_id_not_found")
    );
    assert_eq!(
        confirm(&mut state, &mut router, "nonexistent", false),
        error_response(404, "pending_id_not_found")
    );
    assert!(router.invocations.is_empty());
    assert_eq!(state.pending_count(), 0);
}

#[test]
fn second_approval_is_not_found_and_the_call_runs_once() {
    let mut state = ApiState::new();
    let mut router = RecordingRouter::new();
    let outcome = lights_pipeline("turn off the lights");
    handle_transcript(&mut state, transcript("turn off the lights", None), outcome);

    let first = confirm(&mut state, &mut router, "call-1", true);
    let second = confirm(&mut state, &mut router, "call-1", true);
    assert_eq!(first.status, 200);
    assert!(matches!(first.body, ApiBody::Executed { .. }));
    assert_eq!(second, error_response(404, "pending_id_not_found"));
    assert_eq!(router.invocations.len(), 1);
}

#[test]
fn denial_never_invokes_the_router() {
    let mut state = ApiState::new();
    let mut router = RecordingRouter::new();
    let outcome = lights_pipeline("turn off the lights");
    handle_transcript(&mut state, transcript("turn off the lights", None), outcome);

    let answer = confirm(&mut state, &mut router, "call-1", false);
    assert_eq!(
        answer,
        ApiResponse { status: 200, body: ApiBody::Denied { id: "call-1".to_string() } }
    );
    assert!(router.invocations.is_empty());
    assert_eq!(state.pending_count(), 0);

    assert_eq!(
        confirm(&mut state, &mut router, "call-1", true),
        error_response(404, "pending_id_not_found")
    );
    assert_eq!(
        confirm(&mut state, &mut router, "call-1", false),
        error_response(404, "pending_id_not_found")
    );
    assert!(router.invocations.is_empty());
}

#[test]
fn failed_execution_is_terminal() {
    let mut state = ApiState::new();
    let mut router = RecordingRouter::new();
    router.fail = true;
    let outcome = lights_pipeline("turn off the lights");
    handle_transcript(&mut state, transcript("turn off the lights", None), outcome);

    assert_eq!(
        confirm(&mut state, &mut router, "call-1", true),
        ApiResponse {
            status: 500,
            body: ApiBody::ExecutionFailed {
                id: "call-1".to_string(),
                tool: "shell".to_string(),
                error: "shell failed".to_string(),
            },
        }
    );
    assert_eq!(state.pending_count(), 0);
    assert_eq!(
        confirm(&mut state, &mut router, "call-1", true),
        error_response(404, "pending_id_not_found")
    );
    assert_eq!(router.invocations.len(), 1);
}

#[test]
fn pipeline_failure_stores_nothing() {
    let mut state = ApiState::new();
    let outcome = lights_pipeline("turn off the lights");
    handle_transcript(&mut state, transcript("turn off the lights", None), outcome);

    let failed = lights_pipeline("");
    assert_eq!(
        handle_transcript(&mut state, transcript("", Some("s-2")), failed),
        error_response(500, "empty transcript")
    );
    assert_eq!(state.pending_count(), 1);
}

#[test]
fn session_defaults_to_default() {
    let mut state = ApiState::new();
    let outcome = lights_pipeline("hello");
    assert_eq!(
        handle_transcript(&mut state, transcript("hello", None), outcome),
        ApiResponse {
            status: 200,
            body: ApiBody::Transcript {
                session: "default".to_string(),
                events: vec![says("hello")],
                pending_count: 0,
            },
        }
    );
}

#[test]
fn only_calls_that_ask_for_confirmation_wait() {
    let mut state = ApiState::new();
    let mut advisory = shell_call("free-1", "date");
    advisory.requires_confirmation = false;
    let events = vec![
        CoreEvent::ToolCall(shell_call("a", "rm x")),
        CoreEvent::ToolCall(advisory),
        says("two things"),
        CoreEvent::ToolCall(shell_call("b", "rm y")),
    ];
    let response = handle_transcript(&mut state, transcript("do it", None), Ok(events));
    match response.body {
        ApiBody::Transcript { events, pending_count, .. } => {
            assert_eq!(events.len(), 4);
            assert_eq!(pending_count, 2);
        }
        other => panic!("unexpected body {:?}", other),
    }
    match handle_pending(&state).body {
        ApiBody::Pending { pending } => {
            let ids: Vec<String> = pending.into_iter().map(|item| item.id).collect();
            assert_eq!(ids, vec!["a".to_string(), "b".to_string()]);
        }
        other => panic!("unexpected body {:?}", other),
    }
}

#[test]
fn pending_count_counts_calls_of_earlier_transcripts() {
    let mut state = ApiState::new();
    let first = Ok(vec![CoreEvent::ToolCall(shell_call("a", "one"))]);
    let second = Ok(vec![
        CoreEvent::ToolCall(shell_call("b", "two")),
        CoreEvent::ToolCall(shell_call("a", "again")),
    ]);
    handle_transcript(&mut state, transcript("one", None), first);
    let response = handle_transcript(&mut state, transcript("two", None), second);
    match response.body {
        ApiBody::Transcript { pending_count, .. } => assert_eq!(pending_count, 2),
        other => panic!("unexpected body {:?}", other),
    }
    let mut router = RecordingRouter::new();
    confirm(&mut state, &mut router, "a", true);
    assert_eq!(router.invocations, vec![("shell".to_string(), Value::String("again".to_string()))]);
}

#[test]
fn finish_confirm_tags_the_result_with_the_call_id() {
    let call = shell_call("call-7", "uptime");
    assert_eq!(
        finish_confirm(call, Ok(Value::from(3))),
        ApiResponse {
            status: 200,
            body: ApiBody::Executed {
                id: "call-7".to_string(),
                result: ToolResult { id: "call-7".to_string(), ok: true, output: Value::from(3) },
            },
        }
    );
}

#[test]
fn serve_answers_what_needs_no_body() {
    let mut state = ApiState::new();
    let outcome = lights_pipeline("turn off the lights");
    handle_transcript(&mut state, transcript("turn off the lights", None), outcome);

    assert_eq!(serve(&state, HttpMethod::Get, "/health"), Served::Answer(health()));
    assert_eq!(serve(&state, HttpMethod::Get, "/nowhere"), Served::Answer(not_found()));
    assert_eq!(serve(&state, HttpMethod::Other, "/v1/pending"), Served::Answer(not_found()));
    assert_eq!(
        serve(&state, HttpMethod::Get, "/v1/pending"),
        Served::Answer(ApiResponse {
            status: 200,
            body: ApiBody::Pending {
                pending: vec![PendingItem {
                    id: "call-1".to_string(),
                    tool: "shell".to_string(),
                    args: Value::String("lights off".to_string()),
                }],
            },
        })
    );
    assert_eq!(state.pending_count(), 1);
}

#[test]
fn serve_asks_for_the_body_of_a_transcript_or_a_decision() {
    let state = ApiState::new();
    assert_eq!(serve(&state, HttpMethod::Post, "/v1/transcript"), Served::ReadTranscript);
    assert_eq!(serve(&state, HttpMethod::Post, "/v1/confirm"), Served::ReadConfirm);
}

#[test]
fn events_stay_in_the_answer_unless_the_policy_announces_them() {
    let mut advisory = shell_call("free-1", "date");
    advisory.requires_confirmation = false;
    let events = vec![
        says("one"),
        CoreEvent::ToolCall(shell_call("a", "rm x")),
        CoreEvent::ToolCall(advisory),
        says("two"),
    ];

    let quiet = ApiState::new();
    assert_eq!(quiet.event_policy(), EventPolicy::ResponseOnly);
    assert_eq!(events_to_announce(&quiet, &events), vec![]);

    let loud = ApiState::with_policy(EventPolicy::Announce);
    assert_eq!(loud.event_policy(), EventPolicy::Announce);
    let mut advisory = shell_call("free-1", "date");
    advisory.requires_confirmation = false;
    assert_eq!(
        events_to_announce(&loud, &events),
        vec![says("one"), CoreEvent::ToolCall(advisory), says("two")]
    );
    assert_eq!(events_to_announce(&loud, &vec![]), vec![]);
    assert_eq!(
        events_to_announce(&loud, &vec![CoreEvent::ToolCall(shell_call("a", "rm x"))]),
        vec![]
    );
}
