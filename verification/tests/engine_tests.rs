use chat_agent::adapters::{OutputDestination, SourceMessage, WriteError, send_to_all_outputs};
use chat_agent::engine::{Provider, run_conversation, run_turn};
use chat_agent::history::manage_message_history;
use chat_agent::messages::{ChatCompletionResponse, FunctionCall, Message, ToolCall};
use chat_agent::turn::{CompletionError, CompletionOutcome, TurnAction, TurnError, TurnMachine, TurnPhase};

struct MockSink {
    fail: bool,
    received: Vec<(String, String)>,
}

impl MockSink {
    fn new(fail: bool) -> MockSink {
        MockSink { fail, received: Vec::new() }
    }
}

impl OutputDestination for MockSink {
    fn name(&self) -> String {
        "mock".to_string()
    }

    fn write_message(&mut self, role: &str, content: &str) -> Result<(), WriteError> {
        if self.fail {
            Err(WriteError { message: "sink unavailable".to_string() })
        } else {
            self.received.push((role.to_string(), content.to_string()));
            Ok(())
        }
    }
}

struct MockProvider {
    responses: Vec<Result<ChatCompletionResponse, CompletionError>>,
    calls: usize,
}

fn assistant_response(content: &str, tool_calls: Option<Vec<ToolCall>>) -> ChatCompletionResponse {
    ChatCompletionResponse {
        message: Message {
            role: "assistant".to_string(),
            content: content.to_string(),
            tool_calls: tool_calls.clone(),
            tool_call_id: None,
        },
        tool_calls,
    }
}

impl Provider for MockProvider {
    fn name(&self) -> String {
        "mock".to_string()
    }

    fn available_models(&self) -> Vec<String> {
        vec!["mock-model".to_string()]
    }

    fn chat_completion(
        &mut self,
        _model: &str,
        _messages: &Vec<Message>,
        _tools: Option<&Vec<chat_agent::messages::Tool>>,
    ) -> Result<ChatCompletionResponse, CompletionError> {
        let i = self.calls;
        self.calls += 1;
        if i < self.responses.len() {
            match &self.responses[i] {
                Ok(r) => Ok(assistant_response(
                    &r.message.content,
                    r.tool_calls.as_ref().map(|c| c.clone()),
                )),
                Err(e) => Err(CompletionError { message: e.message.clone() }),
            }
        } else {
            Err(CompletionError { message: "script exhausted".to_string() })
        }
    }
}

fn system_conv(text: &str) -> Vec<Message> {
    vec![Message {
        role: "system".to_string(),
        content: text.to_string(),
        tool_calls: None,
        tool_call_id: None,
    }]
}

#[test]
fn plain_turn_appends_user_and_assistant() {
    let mut provider = MockProvider { responses: vec![Ok(assistant_response("Hello!", None))], calls: 0 };
    let mut conv = system_conv("be helpful");
    let mut sinks = vec![MockSink::new(false)];
    let r = run_turn("hi there", &mut provider, "m", None, false, &mut conv, &mut sinks, 50, 3);
    assert!(r.is_ok());
    assert_eq!(provider.calls, 1);
    let roles: Vec<&str> = conv.iter().map(|m| m.role.as_str()).collect();
    assert_eq!(roles, vec!["system", "user", "assistant"]);
    assert_eq!(conv[1].content, "hi there");
    assert_eq!(conv[2].content, "Hello!");
    // The sinks saw the user message, the processing notice, and the answer.
    assert_eq!(
        sinks[0].received,
        vec![
            ("user".to_string(), "hi there".to_string()),
            ("system".to_string(), "Processing your request...".to_string()),
            ("assistant".to_string(), "Hello!".to_string()),
        ]
    );
}

#[test]
fn tool_turn_runs_the_tool_round_in_order() {
    let call = ToolCall {
        id: Some("call-1".to_string()),
        type_: Some("function".to_string()),
        function: Some(FunctionCall {
            name: "calculate".to_string(),
            arguments: "{\"expression\": \"2 + 2\"}".to_string(),
        }),
    };
    let mut provider = MockProvider {
        responses: vec![
            Ok(assistant_response("let me check", Some(vec![call]))),
            Ok(assistant_response("The answer is 4", None)),
        ],
        calls: 0,
    };
    let mut conv = system_conv("be helpful");
    let mut sinks = vec![MockSink::new(false)];
    let r = run_turn("what is 2+2?", &mut provider, "m", None, true, &mut conv, &mut sinks, 50, 3);
    assert!(r.is_ok());
    assert_eq!(provider.calls, 2);
    let roles: Vec<&str> = conv.iter().map(|m| m.role.as_str()).collect();
    assert_eq!(roles, vec!["system", "user", "assistant", "tool", "assistant"]);
    assert_eq!(conv[3].content, "Result: 4");
    assert_eq!(conv[3].tool_call_id.as_deref(), Some("call-1"));
    assert_eq!(conv[4].content, "The answer is 4");
    let last = sinks[0].received.last().unwrap();
    assert_eq!(last, &("assistant".to_string(), "The answer is 4".to_string()));
}

#[test]
fn failing_backend_is_retried_then_propagated() {
    // Always failing: with three retries allowed the backend is invoked
    // exactly four times, and the conversation keeps only the user message.
    let mut provider = MockProvider { responses: vec![], calls: 0 };
    let mut conv = system_conv("be helpful");
    let mut sinks = vec![MockSink::new(false)];
    let r = run_turn("hi", &mut provider, "m", None, false, &mut conv, &mut sinks, 50, 3);
    assert!(r.is_err());
    assert_eq!(provider.calls, 4);
    let roles: Vec<&str> = conv.iter().map(|m| m.role.as_str()).collect();
    assert_eq!(roles, vec!["system", "user"]);
}

#[test]
fn backend_recovers_within_retry_budget() {
    let mut provider = MockProvider {
        responses: vec![
            Err(CompletionError { message: "busy".to_string() }),
            Err(CompletionError { message: "busy".to_string() }),
            Ok(assistant_response("ok now", None)),
        ],
        calls: 0,
    };
    let mut conv = system_conv("be helpful");
    let mut sinks = vec![MockSink::new(false)];
    let r = run_turn("hi", &mut provider, "m", None, false, &mut conv, &mut sinks, 50, 3);
    assert!(r.is_ok());
    assert_eq!(provider.calls, 3);
    assert_eq!(conv.last().unwrap().content, "ok now");
}

#[test]
fn malformed_tool_arguments_abort_the_turn() {
    let call = ToolCall {
        id: Some("call-1".to_string()),
        type_: Some("function".to_string()),
        function: Some(FunctionCall {
            name: "calculate".to_string(),
            arguments: "{broken".to_string(),
        }),
    };
    let mut provider = MockProvider {
        responses: vec![Ok(assistant_response("using a tool", Some(vec![call])))],
        calls: 0,
    };
    let mut conv = system_conv("be helpful");
    let mut sinks = vec![MockSink::new(false)];
    let r = run_turn("hi", &mut provider, "m", None, true, &mut conv, &mut sinks, 50, 3);
    assert!(r.is_err());
    // No partial assistant message: only the user message is recorded.
    let roles: Vec<&str> = conv.iter().map(|m| m.role.as_str()).collect();
    assert_eq!(roles, vec!["system", "user"]);
}

#[test]
fn unknown_tool_does_not_fail_the_turn() {
    let calls = vec![
        ToolCall {
            id: Some("a".to_string()),
            type_: Some("function".to_string()),
            function: Some(FunctionCall {
                name: "no_such_tool".to_string(),
                arguments: "{}".to_string(),
            }),
        },
        ToolCall {
            id: Some("b".to_string()),
            type_: Some("function".to_string()),
            function: Some(FunctionCall {
                name: "calculate".to_string(),
                arguments: "{\"expression\": \"sqrt(16)\"}".to_string(),
            }),
        },
    ];
    let mut provider = MockProvider {
        responses: vec![
            Ok(assistant_response("tools", Some(calls))),
            Ok(assistant_response("done", None)),
        ],
        calls: 0,
    };
    let mut conv = system_conv("be helpful");
    let mut sinks = vec![MockSink::new(false)];
    let r = run_turn("go", &mut provider, "m", None, true, &mut conv, &mut sinks, 50, 3);
    assert!(r.is_ok());
    assert_eq!(conv[3].content, "Unknown function: no_such_tool");
    assert_eq!(conv[4].content, "Result: 4");
}

#[test]
fn broadcast_reaches_every_sink_despite_one_failure() {
    let mut sinks = vec![MockSink::new(false), MockSink::new(true), MockSink::new(false)];
    let delivered = send_to_all_outputs(&mut sinks, "assistant", "hello");
    assert_eq!(delivered, vec![true, false, true]);
    assert_eq!(sinks[0].received.len(), 1);
    assert_eq!(sinks[1].received.len(), 0);
    assert_eq!(sinks[2].received.len(), 1);
}

#[test]
fn exit_command_says_goodbye_and_stops() {
    let inbox = vec![SourceMessage { source_index: 0, content: "EXIT".to_string() }];
    let mut provider = MockProvider { responses: vec![], calls: 0 };
    let mut sinks = vec![MockSink::new(false), MockSink::new(false)];
    let conv = run_conversation(&inbox, "be helpful", &mut provider, "m", None, false, &mut sinks, 50, 3);
    // The exit command is not a conversation turn.
    assert_eq!(provider.calls, 0);
    assert_eq!(conv.len(), 1);
    assert_eq!(conv[0].role, "system");
    for sink in &sinks {
        assert_eq!(sink.received, vec![("system".to_string(), "Goodbye!".to_string())]);
    }
}

#[test]
fn exit_command_stops_later_messages() {
    let inbox = vec![
        SourceMessage { source_index: 0, content: "hello".to_string() },
        SourceMessage { source_index: 1, content: "exit".to_string() },
        SourceMessage { source_index: 0, content: "never processed".to_string() },
    ];
    let mut provider = MockProvider { responses: vec![Ok(assistant_response("hi!", None))], calls: 0 };
    let mut sinks = vec![MockSink::new(false)];
    let conv = run_conversation(&inbox, "be helpful", &mut provider, "m", None, false, &mut sinks, 50, 3);
    assert_eq!(provider.calls, 1);
    assert_eq!(conv.len(), 3);
    let last = sinks[0].received.last().unwrap();
    assert_eq!(last, &("system".to_string(), "Goodbye!".to_string()));
    assert!(!sinks[0].received.iter().any(|(_, c)| c == "never processed"));
}

#[test]
fn history_is_trimmed_and_keeps_the_system_message() {
    let mut messages = system_conv("directive");
    for i in 0..9 {
        messages.push(Message {
            role: "user".to_string(),
            content: format!("m{}", i),
            tool_calls: None,
            tool_call_id: None,
        });
    }
    manage_message_history(&mut messages, 5);
    assert_eq!(messages.len(), 5);
    assert_eq!(messages[0].role, "system");
    assert_eq!(messages[0].content, "directive");
    assert_eq!(messages[1].content, "m5");
    assert_eq!(messages[4].content, "m8");
}

#[test]
fn short_history_is_left_alone() {
    let mut messages = system_conv("directive");
    messages.push(Message {
        role: "user".to_string(),
        content: "hello".to_string(),
        tool_calls: None,
        tool_call_id: None,
    });
    manage_message_history(&mut messages, 50);
    assert_eq!(messages.len(), 2);
    manage_message_history(&mut messages, 0);
    assert_eq!(messages.len(), 2);
}

#[test]
fn turns_respect_the_history_bound() {
    let mut provider = MockProvider {
        responses: (0..10).map(|i| Ok(assistant_response(&format!("r{}", i), None))).collect(),
        calls: 0,
    };
    let inbox: Vec<SourceMessage> = (0..5)
        .map(|i| SourceMessage { source_index: 0, content: format!("q{}", i) })
        .collect();
    let mut sinks = vec![MockSink::new(false)];
    let conv = run_conversation(&inbox, "directive", &mut provider, "m", None, false, &mut sinks, 4, 0);
    assert!(conv.len() <= 4);
    assert_eq!(conv[0].role, "system");
    assert_eq!(conv[0].content, "directive");
}

#[test]
fn turn_machine_emits_the_expected_protocol() {
    let (mut machine, actions) = TurnMachine::start("hello", true);
    assert!(matches!(machine.phase, TurnPhase::AwaitingCompletion));
    assert_eq!(actions.len(), 3);
    match &actions[0] {
        TurnAction::Deliver { role, content } => {
            assert_eq!(role, "user");
            assert_eq!(content, "hello");
        }
        _ => panic!("expected the user delivery first"),
    }
    match &actions[1] {
        TurnAction::Deliver { role, content } => {
            assert_eq!(role, "system");
            assert_eq!(content, "Processing your request...");
        }
        _ => panic!("expected the processing notice second"),
    }
    match &actions[2] {
        TurnAction::RequestCompletion { offer_tools } => assert!(*offer_tools),
        _ => panic!("expected a completion request last"),
    }

    let history = machine.history_for_request(&system_conv("directive"));
    assert_eq!(history.len(), 2);
    assert_eq!(history[0].role, "system");
    assert_eq!(history[1].role, "user");
    assert_eq!(history[1].content, "hello");

    let outcome = CompletionOutcome::Completed(assistant_response("hi!", None));
    let actions2 = machine.on_completion(outcome);
    assert!(matches!(machine.phase, TurnPhase::Succeeded));
    assert_eq!(actions2.len(), 1);
    match &actions2[0] {
        TurnAction::Deliver { role, content } => {
            assert_eq!(role, "assistant");
            assert_eq!(content, "hi!");
        }
        _ => panic!("expected the answer delivery"),
    }

    let mut conv = system_conv("directive");
    machine.commit(&mut conv, 50);
    let roles: Vec<&str> = conv.iter().map(|m| m.role.as_str()).collect();
    assert_eq!(roles, vec!["system", "user", "assistant"]);
}

#[test]
fn exhausted_retries_propagate_the_last_error_verbatim() {
    let mut provider = MockProvider {
        responses: vec![
            Err(CompletionError { message: "first outage".to_string() }),
            Err(CompletionError { message: "second outage".to_string() }),
            Err(CompletionError { message: "third outage".to_string() }),
            Err(CompletionError { message: "final outage".to_string() }),
        ],
        calls: 0,
    };
    let mut conv = system_conv("be helpful");
    let mut sinks = vec![MockSink::new(false)];
    let r = run_turn("hi", &mut provider, "m", None, false, &mut conv, &mut sinks, 50, 3);
    assert_eq!(provider.calls, 4);
    match r {
        Err(TurnError::CompletionFailed(err)) => assert_eq!(err.message, "final outage"),
        _ => panic!("expected the final backend error to be propagated"),
    }
}
