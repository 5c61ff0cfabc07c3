use chat_agent::adapters::{
    InputSource, ReadError, SinkKind, SourceAction, SourceEvent, SourceKind, SourcePollMachine,
    drain_source, is_exit_command, normalize_input_line, sink_kind_of, source_kind_of,
};
use chat_agent::config::{Args, Config, ProviderKind, api_key_env_var, provider_kind_of};
use chat_agent::resilience::{ConnectionAction, ConnectionEvent, ConnectionMonitor};
use chat_agent::retry::{RetryDecision, RetryMachine, adapter_backoff_ms, backoff_delay_ms, run_retry_schedule};
use chat_agent::wire::{
    StdoutDestination, WebhookDestination, filter_inbound_envelope, format_for_stdout,
    plan_queue_publish, webhook_response,
};

#[test]
fn exit_is_recognized_case_insensitively() {
    assert!(is_exit_command("exit"));
    assert!(is_exit_command("EXIT"));
    assert!(is_exit_command("eXiT"));
    assert!(!is_exit_command("exit now"));
    assert!(!is_exit_command("quit"));
}

#[test]
fn input_lines_are_trimmed_and_blank_ones_dropped() {
    assert_eq!(normalize_input_line("  hello there \n"), Some("hello there".to_string()));
    assert_eq!(normalize_input_line("ok"), Some("ok".to_string()));
    assert_eq!(normalize_input_line("   \t \n"), None);
    assert_eq!(normalize_input_line(""), None);
}

#[test]
fn retry_succeeds_after_k_failures_with_k_plus_one_calls() {
    // Fails twice, then succeeds: three invocations in all.
    let outcomes = vec![false, false, true, true];
    let (calls, ok) = run_retry_schedule(&outcomes, 3);
    assert_eq!(calls, 3);
    assert!(ok);
}

#[test]
fn retry_exhaustion_calls_max_plus_one_times() {
    let outcomes = vec![false, false, false, false, false];
    let (calls, ok) = run_retry_schedule(&outcomes, 3);
    assert_eq!(calls, 4);
    assert!(!ok);
}

#[test]
fn retry_immediate_success_calls_once() {
    let outcomes = vec![true];
    let (calls, ok) = run_retry_schedule(&outcomes, 0);
    assert_eq!(calls, 1);
    assert!(ok);
}

#[test]
fn retry_backoff_doubles_from_one_second_up_to_thirty() {
    assert_eq!(backoff_delay_ms(0), 1000);
    assert_eq!(backoff_delay_ms(1), 2000);
    assert_eq!(backoff_delay_ms(4), 16000);
    assert_eq!(backoff_delay_ms(5), 30000);
    assert_eq!(backoff_delay_ms(40), 30000);
}

#[test]
fn retry_machine_gives_up_after_budget() {
    let mut m = RetryMachine::new(2);
    assert_eq!(m.on_failure(), RetryDecision::RetryAfterMs(1000));
    assert_eq!(m.on_failure(), RetryDecision::RetryAfterMs(2000));
    assert_eq!(m.on_failure(), RetryDecision::GiveUp);
}

#[test]
fn adapter_backoff_doubles_from_a_tenth_second() {
    assert_eq!(adapter_backoff_ms(0), 100);
    assert_eq!(adapter_backoff_ms(1), 200);
    assert_eq!(adapter_backoff_ms(8), 25600);
    assert_eq!(adapter_backoff_ms(9), 30000);
}

#[test]
fn source_worker_backs_off_and_resets() {
    let mut m = SourcePollMachine::new();
    assert_eq!(m.on_event(SourceEvent::ReadFailed), SourceAction::SleepMs(100));
    assert_eq!(m.on_event(SourceEvent::ReadFailed), SourceAction::SleepMs(200));
    assert_eq!(m.on_event(SourceEvent::ReadFailed), SourceAction::SleepMs(400));
    assert_eq!(m.on_event(SourceEvent::Received), SourceAction::Forward);
    assert_eq!(m.on_event(SourceEvent::ReadFailed), SourceAction::SleepMs(100));
    assert_eq!(m.on_event(SourceEvent::EmptyPoll), SourceAction::SleepMs(100));
}

#[test]
fn source_worker_stops_for_good_after_shutdown() {
    let mut m = SourcePollMachine::new();
    assert_eq!(m.on_event(SourceEvent::ShutdownObserved), SourceAction::Stop);
    assert_eq!(m.on_event(SourceEvent::Received), SourceAction::Stop);
    assert_eq!(m.on_event(SourceEvent::ReadFailed), SourceAction::Stop);
}

#[test]
fn connection_monitor_warns_after_five_consecutive_errors() {
    let mut m = ConnectionMonitor::new();
    for k in 1u32..=5 {
        let act = m.on_event(ConnectionEvent::Failed);
        match act {
            ConnectionAction::BackOff { delay_ms, warn } => {
                assert_eq!(delay_ms, std::cmp::min(100 * 2u64.pow(k), 30000));
                assert!(!warn);
            },
            _ => panic!("expected a backoff"),
        }
    }
    match m.on_event(ConnectionEvent::Failed) {
        ConnectionAction::BackOff { warn, .. } => assert!(warn),
        _ => panic!("expected a backoff"),
    }
    // A reconnection re-issues subscriptions and resets the count.
    assert_eq!(m.on_event(ConnectionEvent::Established), ConnectionAction::Resubscribe);
    match m.on_event(ConnectionEvent::Failed) {
        ConnectionAction::BackOff { delay_ms, warn } => {
            assert_eq!(delay_ms, 200);
            assert!(!warn);
        },
        _ => panic!("expected a backoff"),
    }
}

#[test]
fn connection_monitor_stops_for_good_after_shutdown() {
    let mut m = ConnectionMonitor::new();
    assert_eq!(m.on_event(ConnectionEvent::ShutdownObserved), ConnectionAction::Stop);
    assert_eq!(m.on_event(ConnectionEvent::Established), ConnectionAction::Stop);
    assert_eq!(m.on_event(ConnectionEvent::Failed), ConnectionAction::Stop);
}

struct ScriptedSource {
    script: Vec<Result<Option<String>, ()>>,
    at: usize,
}

impl InputSource for ScriptedSource {
    fn name(&self) -> String {
        "scripted".to_string()
    }

    fn read_message(&mut self) -> Result<Option<String>, ReadError> {
        let i = self.at;
        self.at += 1;
        if i < self.script.len() {
            match &self.script[i] {
                Ok(Some(s)) => Ok(Some(s.clone())),
                Ok(None) => Ok(None),
                Err(()) => Err(ReadError { message: "read failed".to_string() }),
            }
        } else {
            Ok(None)
        }
    }
}

#[test]
fn fan_in_tags_messages_with_their_source() {
    let mut source = ScriptedSource {
        script: vec![
            Ok(Some("a".to_string())),
            Err(()),
            Ok(None),
            Ok(Some("b".to_string())),
        ],
        at: 0,
    };
    let mut inbox = Vec::new();
    drain_source(&mut source, 7, &mut inbox, 4);
    assert_eq!(inbox.len(), 2);
    assert_eq!(inbox[0].source_index, 7);
    assert_eq!(inbox[0].content, "a");
    assert_eq!(inbox[1].source_index, 7);
    assert_eq!(inbox[1].content, "b");
}

#[test]
fn inbound_envelopes_forward_only_user_messages() {
    assert_eq!(
        filter_inbound_envelope("user", "question".to_string()),
        Some("question".to_string())
    );
    assert_eq!(filter_inbound_envelope("assistant", "echo".to_string()), None);
    assert_eq!(filter_inbound_envelope("system", "note".to_string()), None);
}

#[test]
fn queue_publishes_only_assistant_messages() {
    let env = plan_queue_publish("assistant", "answer", 1700000000).unwrap();
    assert_eq!(env.role, "assistant");
    assert_eq!(env.content, "answer");
    assert_eq!(env.timestamp, 1700000000);
    assert!(plan_queue_publish("user", "question", 1700000000).is_none());
}

#[test]
fn webhook_sends_only_with_url_and_assistant_role() {
    let silent = WebhookDestination::new();
    assert!(silent.plan_write("assistant", "hi", 5).is_none());
    let dest = WebhookDestination::with_url("http://example.invalid/hook".to_string());
    let (url, env) = dest.plan_write("assistant", "hi", 5).unwrap();
    assert_eq!(url, "http://example.invalid/hook");
    assert_eq!(env.role, "assistant");
    assert_eq!(env.content, "hi");
    assert_eq!(env.timestamp, 5);
    assert!(dest.plan_write("user", "hi", 5).is_none());
}

#[test]
fn webhook_endpoint_reports_acceptance() {
    let (code, status, message) = webhook_response(true);
    assert_eq!((code, status.as_str(), message.as_str()), (200, "success", "Message received"));
    let (code, status, message) = webhook_response(false);
    assert_eq!(
        (code, status.as_str(), message.as_str()),
        (500, "error", "Failed to process message")
    );
}

#[test]
fn stdout_formatting_matches_each_role() {
    assert_eq!(format_for_stdout("assistant", "hi"), "\nAssistant: hi\n");
    assert_eq!(format_for_stdout("user", "hi"), "\nUser: hi\n");
    assert_eq!(format_for_stdout("system", "hi"), "\nSystem: hi\n");
    assert_eq!(format_for_stdout("tool", "hi"), "\nTool: hi\n");
    assert_eq!(format_for_stdout("weird", "hi"), "\nweird: hi\n");
    let dest = StdoutDestination::new();
    assert_eq!(dest.format_message("assistant", "hi"), "\nAssistant: hi\n");
}

#[test]
fn config_defaults_fill_every_omission() {
    let c = Config::from_parts(
        None, None, None, None, None, None, None, None, None, None,
        Vec::new(), Vec::new(),
    );
    assert_eq!(c.provider, "openai");
    assert_eq!(c.model, "gpt-4o");
    assert_eq!(c.system_message, "");
    assert!(!c.enable_tools);
    assert!(!c.daemon);
    assert_eq!(c.inputs_vec, vec!["mqtt".to_string(), "stdin".to_string()]);
    assert_eq!(c.outputs_vec, vec!["mqtt".to_string(), "stdout".to_string()]);
    assert_eq!(c.max_history_messages, None);
}

#[test]
fn command_line_overrides_config() {
    let mut c = Config::from_parts(
        Some("openai".to_string()),
        Some("gpt-4o".to_string()),
        Some("old directive".to_string()),
        Some(false),
        Some(false),
        Some("broker.local".to_string()),
        Some(1883),
        None,
        None,
        Some(50),
        vec!["stdin".to_string()],
        vec!["stdout".to_string()],
    );
    let args = Args {
        config: None,
        provider: "anthropic".to_string(),
        model: "".to_string(),
        system_message: "new directive".to_string(),
        enable_tools: true,
        inputs: None,
        outputs: Some(vec!["mqtt".to_string()]),
        daemon: false,
        mqtt_broker: None,
        mqtt_port: Some(8883),
        mqtt_input_topic: Some("agent/input".to_string()),
        mqtt_output_topic: None,
        max_history_messages: None,
        verbose: false,
    };
    c.apply_args(args);
    assert_eq!(c.provider, "anthropic");
    assert_eq!(c.model, "gpt-4o");
    assert_eq!(c.system_message, "new directive");
    assert!(c.enable_tools);
    assert!(!c.daemon);
    assert_eq!(c.inputs_vec, vec!["stdin".to_string()]);
    assert_eq!(c.outputs_vec, vec!["mqtt".to_string()]);
    assert_eq!(c.mqtt_broker, Some("broker.local".to_string()));
    assert_eq!(c.mqtt_port, Some(8883));
    assert_eq!(c.mqtt_input_topic, Some("agent/input".to_string()));
    assert_eq!(c.max_history_messages, Some(50));
}

#[test]
fn provider_names_resolve_case_insensitively() {
    assert_eq!(provider_kind_of("openai"), Ok(ProviderKind::OpenAI));
    assert_eq!(provider_kind_of("OpenAI"), Ok(ProviderKind::OpenAI));
    assert_eq!(provider_kind_of("ANTHROPIC"), Ok(ProviderKind::Anthropic));
    assert!(provider_kind_of("mistral").is_err());
    assert!(provider_kind_of("").is_err());
}

#[test]
fn api_key_variables_follow_the_provider() {
    assert_eq!(api_key_env_var(ProviderKind::OpenAI), "OPENAI_API_KEY");
    assert_eq!(api_key_env_var(ProviderKind::Anthropic), "ANTHROPIC_API_KEY");
}

#[test]
fn adapter_names_resolve_to_their_transports() {
    assert_eq!(source_kind_of("mqtt"), Ok(SourceKind::Mqtt));
    assert_eq!(source_kind_of("stdin"), Ok(SourceKind::Stdin));
    assert_eq!(source_kind_of("webhook"), Ok(SourceKind::Webhook));
    assert!(source_kind_of("carrier-pigeon").is_err());
    assert_eq!(sink_kind_of("mqtt"), Ok(SinkKind::Mqtt));
    assert_eq!(sink_kind_of("stdout"), Ok(SinkKind::Stdout));
    assert!(sink_kind_of("stdin").is_err());
}

#[test]
fn queue_settings_fill_every_omission() {
    let defaults = Config::from_parts(
        None, None, None, None, None, None, None, None, None, None,
        Vec::new(), Vec::new(),
    );
    let (broker, port, input_topic, output_topic) = defaults.mqtt_settings();
    assert_eq!(broker, "localhost");
    assert_eq!(port, 1883);
    assert_eq!(input_topic, "agent/input");
    assert_eq!(output_topic, "agent/output");

    let configured = Config::from_parts(
        None,
        None,
        None,
        None,
        None,
        Some("broker.local".to_string()),
        Some(8883),
        Some("in/topic".to_string()),
        Some("out/topic".to_string()),
        None,
        Vec::new(),
        Vec::new(),
    );
    let (broker, port, input_topic, output_topic) = configured.mqtt_settings();
    assert_eq!(broker, "broker.local");
    assert_eq!(port, 8883);
    assert_eq!(input_topic, "in/topic");
    assert_eq!(output_topic, "out/topic");
}
