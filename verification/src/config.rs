//! The agent's configuration: the defaults a config file's omissions
//! fall back to, how command-line arguments override the file, and
//! which completion providers exist.

use vstd::prelude::*;
use vstd::string::StringExecFns;
use crate::util::ci_eq;

verus! {

/// Configuration for the agent.
pub struct Config {
    /// Provider to use.
    pub provider: String,
    /// Model to use.
    pub model: String,
    /// System message that sets the behaviour of the assistant.
    pub system_message: String,
    /// Whether tools are offered to the backend.
    pub enable_tools: bool,
    /// Input sources, by name.
    pub inputs_vec: Vec<String>,
    /// Output destinations, by name.
    pub outputs_vec: Vec<String>,
    /// Whether to fork to the background.
    pub daemon: bool,
    /// Queue broker address.
    pub mqtt_broker: Option<String>,
    /// Queue broker port.
    pub mqtt_port: Option<u16>,
    /// Queue topic read for inbound messages.
    pub mqtt_input_topic: Option<String>,
    /// Queue topic written with outbound messages.
    pub mqtt_output_topic: Option<String>,
    /// Bound on the conversation history length.
    pub max_history_messages: Option<usize>,
}

/// The command-line arguments, with the comma-separated source and
/// destination lists already split into names.
pub struct Args {
    pub config: Option<String>,
    pub provider: String,
    pub model: String,
    pub system_message: String,
    pub enable_tools: bool,
    pub inputs: Option<Vec<String>>,
    pub outputs: Option<Vec<String>>,
    pub daemon: bool,
    pub mqtt_broker: Option<String>,
    pub mqtt_port: Option<u16>,
    pub mqtt_input_topic: Option<String>,
    pub mqtt_output_topic: Option<String>,
    pub max_history_messages: Option<usize>,
    pub verbose: bool,
}

impl Config {
    /// Builds a configuration from what a config file held, filling
    /// every omission with its default: provider `openai`, model
    /// `gpt-4o`, an empty system message, tools and daemon mode off,
    /// and the queue-plus-terminal source and destination sets when
    /// the file named none.
    pub fn from_parts(
        provider: Option<String>,
        model: Option<String>,
        system_message: Option<String>,
        enable_tools: Option<bool>,
        daemon: Option<bool>,
        mqtt_broker: Option<String>,
        mqtt_port: Option<u16>,
        mqtt_input_topic: Option<String>,
        mqtt_output_topic: Option<String>,
        max_history_messages: Option<usize>,
        inputs_vec: Vec<String>,
        outputs_vec: Vec<String>,
    ) -> (c: Config)
        ensures
            c.provider@ == (match provider {
                Some(p) => p@,
                None => "openai"@,
            }),
            c.model@ == (match model {
                Some(m) => m@,
                None => "gpt-4o"@,
            }),
            c.system_message@ == (match system_message {
                Some(s) => s@,
                None => Seq::<char>::empty(),
            }),
            c.enable_tools == (match enable_tools {
                Some(b) => b,
                None => false,
            }),
            c.daemon == (match daemon {
                Some(b) => b,
                None => false,
            }),
            c.mqtt_broker == mqtt_broker,
            c.mqtt_port == mqtt_port,
            c.mqtt_input_topic == mqtt_input_topic,
            c.mqtt_output_topic == mqtt_output_topic,
            c.max_history_messages == max_history_messages,
            inputs_vec@.len() > 0 ==> c.inputs_vec == inputs_vec,
            inputs_vec@.len() == 0 ==> c.inputs_vec@.len() == 2 && c.inputs_vec@[0]@ == "mqtt"@
                && c.inputs_vec@[1]@ == "stdin"@,
            outputs_vec@.len() > 0 ==> c.outputs_vec == outputs_vec,
            outputs_vec@.len() == 0 ==> c.outputs_vec@.len() == 2 && c.outputs_vec@[0]@ == "mqtt"@
                && c.outputs_vec@[1]@ == "stdout"@,
    {
        let provider = match provider {
            Some(p) => p,
            None => "openai".to_owned(),
        };
        let model = match model {
            Some(m) => m,
            None => "gpt-4o".to_owned(),
        };
        let system_message = match system_message {
            Some(s) => s,
            None => String::new(),
        };
        let enable_tools = match enable_tools {
            Some(b) => b,
            None => false,
        };
        let daemon = match daemon {
            Some(b) => b,
            None => false,
        };
        let inputs_vec = if inputs_vec.len() == 0 {
            let mut v: Vec<String> = Vec::new();
            v.push("mqtt".to_owned());
            v.push("stdin".to_owned());
            v
        } else {
            inputs_vec
        };
        let outputs_vec = if outputs_vec.len() == 0 {
            let mut v: Vec<String> = Vec::new();
            v.push("mqtt".to_owned());
            v.push("stdout".to_owned());
            v
        } else {
            outputs_vec
        };
        Config {
            provider,
            model,
            system_message,
            enable_tools,
            inputs_vec,
            outputs_vec,
            daemon,
            mqtt_broker,
            mqtt_port,
            mqtt_input_topic,
            mqtt_output_topic,
            max_history_messages,
        }
    }

    /// Overrides the configuration with what the command line set: a
    /// non-empty provider, model or system message replaces the file's
    /// value; the source and destination lists are replaced only when
    /// given; the tool and daemon switches can only be turned on; the
    /// queue settings and the history bound are replaced when given.
    pub fn apply_args(&mut self, args: Args)
        ensures
            final(self).provider@ == (if args.provider@.len() > 0 {
                args.provider@
            } else {
                old(self).provider@
            }),
            final(self).model@ == (if args.model@.len() > 0 {
                args.model@
            } else {
                old(self).model@
            }),
            final(self).system_message@ == (if args.system_message@.len() > 0 {
                args.system_message@
            } else {
                old(self).system_message@
            }),
            final(self).inputs_vec == (match args.inputs {
                Some(v) => v,
                None => old(self).inputs_vec,
            }),
            final(self).outputs_vec == (match args.outputs {
                Some(v) => v,
                None => old(self).outputs_vec,
            }),
            final(self).enable_tools == (old(self).enable_tools || args.enable_tools),
            final(self).daemon == (old(self).daemon || args.daemon),
            final(self).mqtt_broker == (match args.mqtt_broker {
                Some(b) => Some(b),
                None => old(self).mqtt_broker,
            }),
            final(self).mqtt_port == (match args.mqtt_port {
                Some(p) => Some(p),
                None => old(self).mqtt_port,
            }),
            final(self).mqtt_input_topic == (match args.mqtt_input_topic {
                Some(t) => Some(t),
                None => old(self).mqtt_input_topic,
            }),
            final(self).mqtt_output_topic == (match args.mqtt_output_topic {
                Some(t) => Some(t),
                None => old(self).mqtt_output_topic,
            }),
            final(self).max_history_messages == (match args.max_history_messages {
                Some(m) => Some(m),
                None => old(self).max_history_messages,
            }),
    {
        if args.provider.as_str().unicode_len() > 0 {
            self.provider = args.provider;
        }
        if args.model.as_str().unicode_len() > 0 {
            self.model = args.model;
        }
        if args.system_message.as_str().unicode_len() > 0 {
            self.system_message = args.system_message;
        }
        match args.inputs {
            Some(v) => {
                self.inputs_vec = v;
            },
            None => {},
        }
        match args.outputs {
            Some(v) => {
                self.outputs_vec = v;
            },
            None => {},
        }
        if args.enable_tools {
            self.enable_tools = true;
        }
        if args.daemon {
            self.daemon = true;
        }
        match args.mqtt_broker {
            Some(b) => {
                self.mqtt_broker = Some(b);
            },
            None => {},
        }
        match args.mqtt_port {
            Some(p) => {
                self.mqtt_port = Some(p);
            },
            None => {},
        }
        match args.mqtt_input_topic {
            Some(t) => {
                self.mqtt_input_topic = Some(t);
            },
            None => {},
        }
        match args.mqtt_output_topic {
            Some(t) => {
                self.mqtt_output_topic = Some(t);
            },
            None => {},
        }
        match args.max_history_messages {
            Some(m) => {
                self.max_history_messages = Some(m);
            },
            None => {},
        }
    }
}

impl Config {
    /// The effective queue settings, every omission filled with its
    /// default: broker `localhost`, port 1883, inbound topic
    /// `agent/input`, outbound topic `agent/output`. Returned as
    /// (broker, port, input topic, output topic).
    pub fn mqtt_settings(&self) -> (s: (String, u16, String, String))
        ensures
            s.0@ == (match self.mqtt_broker {
                Some(b) => b@,
                None => "localhost"@,
            }),
            s.1 == (match self.mqtt_port {
                Some(p) => p,
                None => 1883u16,
            }),
            s.2@ == (match self.mqtt_input_topic {
                Some(t) => t@,
                None => "agent/input"@,
            }),
            s.3@ == (match self.mqtt_output_topic {
                Some(t) => t@,
                None => "agent/output"@,
            }),
    {
        let broker = match &self.mqtt_broker {
            Some(b) => b.clone(),
            None => "localhost".to_owned(),
        };
        let port = match self.mqtt_port {
            Some(p) => p,
            None => 1883,
        };
        let input_topic = match &self.mqtt_input_topic {
            Some(t) => t.clone(),
            None => "agent/input".to_owned(),
        };
        let output_topic = match &self.mqtt_output_topic {
            Some(t) => t.clone(),
            None => "agent/output".to_owned(),
        };
        (broker, port, input_topic, output_topic)
    }
}

/// A completion backend the agent knows how to construct.
#[derive(Debug, PartialEq, Eq, Structural, Clone, Copy)]
pub enum ProviderKind {
    OpenAI,
    Anthropic,
}

/// Resolves a provider name, compared without regard to ASCII case;
/// any other name is the unsupported-provider error.
pub fn provider_kind_of(name: &str) -> (r: Result<ProviderKind, ()>)
    ensures
        ci_eq(name@, "openai"@) ==> r == Ok::<ProviderKind, ()>(ProviderKind::OpenAI),
        ci_eq(name@, "anthropic"@) ==> r == Ok::<ProviderKind, ()>(ProviderKind::Anthropic),
        !ci_eq(name@, "openai"@) && !ci_eq(name@, "anthropic"@) ==> r is Err,
{
    proof {
        reveal_strlit("openai");
        reveal_strlit("anthropic");
    }
    if crate::util::eq_ignore_ascii_case(name, "openai") {
        Ok(ProviderKind::OpenAI)
    } else if crate::util::eq_ignore_ascii_case(name, "anthropic") {
        Ok(ProviderKind::Anthropic)
    } else {
        Err(())
    }
}

/// The environment variable a provider's API key is read from.
pub fn api_key_env_var(kind: ProviderKind) -> (r: String)
    ensures
        kind == ProviderKind::OpenAI ==> r@ == "OPENAI_API_KEY"@,
        kind == ProviderKind::Anthropic ==> r@ == "ANTHROPIC_API_KEY"@,
{
    match kind {
        ProviderKind::OpenAI => "OPENAI_API_KEY".to_owned(),
        ProviderKind::Anthropic => "ANTHROPIC_API_KEY".to_owned(),
    }
}

} // verus!
