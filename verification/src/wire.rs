//! The wire-level decisions of the concrete adapters: which envelopes
//! are forwarded in, which are sent out, and how messages are formatted
//! for the terminal. The shell does the actual JSON framing and I/O;
//! every rule about the content stands here.

use vstd::prelude::*;
use vstd::string::StringExecFns;

verus! {

/// The queue-broker and outbound HTTP envelope: role, content, and a
/// unix-seconds timestamp.
pub struct WireEnvelope {
    pub role: String,
    pub content: String,
    pub timestamp: u64,
}

/// Only envelopes whose role is exactly `user` enter the conversation;
/// everything else arriving on a queue topic is dropped.
pub open spec fn inbound_accepted(role: Seq<char>) -> bool {
    role == "user"@
}

/// Filters one decoded inbound envelope: the content is forwarded only
/// when the envelope's role is `user`.
pub fn filter_inbound_envelope(role: &str, content: String) -> (r: Option<String>)
    ensures
        inbound_accepted(role@) ==> r == Some(content),
        !inbound_accepted(role@) ==> r is None,
{
    if role.to_owned() == String::from_str("user") {
        Some(content)
    } else {
        None
    }
}

/// A queue destination publishes only assistant messages; everything
/// else is acknowledged without a publish.
pub open spec fn outbound_published(role: Seq<char>) -> bool {
    role == "assistant"@
}

/// Plans one queue publish: an envelope for an assistant message,
/// nothing for any other role. The timestamp is whatever clock reading
/// the shell hands in.
pub fn plan_queue_publish(role: &str, content: &str, timestamp: u64) -> (r: Option<WireEnvelope>)
    ensures
        match r {
            Some(env) => outbound_published(role@) && env.role@ == role@ && env.content@
                == content@ && env.timestamp == timestamp,
            None => !outbound_published(role@),
        },
{
    if role.to_owned() == String::from_str("assistant") {
        Some(WireEnvelope { role: role.to_owned(), content: content.to_owned(), timestamp })
    } else {
        None
    }
}

/// A fire-and-forget HTTP destination; it holds the URL messages are
/// posted to, when one is configured.
pub struct WebhookDestination {
    pub webhook_url: Option<String>,
}

impl WebhookDestination {
    /// A destination with no URL configured: it logs and drops
    /// everything handed to it.
    pub fn new() -> (d: WebhookDestination)
        ensures
            d.webhook_url is None,
    {
        WebhookDestination { webhook_url: None }
    }

    /// A destination posting to the given URL.
    pub fn with_url(url: String) -> (d: WebhookDestination)
        ensures
            d.webhook_url == Some(url),
    {
        WebhookDestination { webhook_url: Some(url) }
    }

    /// Plans one delivery: a post of the envelope to the configured
    /// URL, only when a URL is configured and the role is `assistant`;
    /// otherwise nothing is sent and the delivery still succeeds.
    pub fn plan_write(&self, role: &str, content: &str, timestamp: u64) -> (r: Option<
        (String, WireEnvelope),
    >)
        ensures
            match r {
                Some(plan) => {
                    &&& self.webhook_url == Some(plan.0)
                    &&& outbound_published(role@)
                    &&& plan.1.role@ == role@
                    &&& plan.1.content@ == content@
                    &&& plan.1.timestamp == timestamp
                },
                None => self.webhook_url is None || !outbound_published(role@),
            },
    {
        match &self.webhook_url {
            None => None,
            Some(url) => {
                if role.to_owned() == String::from_str("assistant") {
                    Some(
                        (
                            url.clone(),
                            WireEnvelope {
                                role: role.to_owned(),
                                content: content.to_owned(),
                                timestamp,
                            },
                        ),
                    )
                } else {
                    None
                }
            },
        }
    }
}

/// The reply of the inbound HTTP endpoint: a status code with a status
/// word and a human-readable message, depending on whether the message
/// was accepted onto the input channel.
pub fn webhook_response(accepted: bool) -> (r: (u16, String, String))
    ensures
        accepted ==> r.0 == 200 && r.1@ == "success"@ && r.2@ == "Message received"@,
        !accepted ==> r.0 == 500 && r.1@ == "error"@ && r.2@ == "Failed to process message"@,
{
    if accepted {
        (200, "success".to_owned(), "Message received".to_owned())
    } else {
        (500, "error".to_owned(), "Failed to process message".to_owned())
    }
}

/// A terminal destination: messages are printed with a role prefix.
pub struct StdoutDestination;

/// How a message is shown on the terminal: a known role gets its
/// capitalised prefix, any other role is printed as it is.
pub open spec fn stdout_format_spec(role: Seq<char>, content: Seq<char>) -> Seq<char> {
    if role == "assistant"@ {
        "\nAssistant: "@ + content + "\n"@
    } else if role == "user"@ {
        "\nUser: "@ + content + "\n"@
    } else if role == "system"@ {
        "\nSystem: "@ + content + "\n"@
    } else if role == "tool"@ {
        "\nTool: "@ + content + "\n"@
    } else {
        "\n"@ + role + ": "@ + content + "\n"@
    }
}

impl StdoutDestination {
    /// A terminal destination; the terminal itself needs no state.
    pub fn new() -> (d: StdoutDestination) {
        StdoutDestination
    }

    /// The exact text one message prints as.
    pub fn format_message(&self, role: &str, content: &str) -> (r: String)
        ensures
            r@ == stdout_format_spec(role@, content@),
    {
        format_for_stdout(role, content)
    }
}

/// The exact text one message prints as on the terminal.
pub fn format_for_stdout(role: &str, content: &str) -> (r: String)
    ensures
        r@ == stdout_format_spec(role@, content@),
{
    let mut s = String::new();
    if role.to_owned() == String::from_str("assistant") {
        s.append("\nAssistant: ");
        s.append(content);
        s.append("\n");
    } else if role.to_owned() == String::from_str("user") {
        s.append("\nUser: ");
        s.append(content);
        s.append("\n");
    } else if role.to_owned() == String::from_str("system") {
        s.append("\nSystem: ");
        s.append(content);
        s.append("\n");
    } else if role.to_owned() == String::from_str("tool") {
        s.append("\nTool: ");
        s.append(content);
        s.append("\n");
    } else {
        s.append("\n");
        s.append(role);
        s.append(": ");
        s.append(content);
        s.append("\n");
    }
    s
}

} // verus!
