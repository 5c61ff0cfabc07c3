//! The tool dispatcher: maps a tool call's name and raw JSON argument
//! payload to a textual result. A malformed payload is the one error; an
//! unrecognized name resolves to a literal "unknown function" reply
//! rather than failing the turn.

use vstd::prelude::*;
use vstd::string::StringExecFns;
use crate::calc::{calculate, render_spec, eval_expression_spec};

verus! {

/// The two string fields a tool call's JSON argument payload may carry,
/// in this order: `location`, then `expression`. `Err` stands for a
/// payload that is not valid JSON.
pub type ToolArgs = Result<(Option<String>, Option<String>), ()>;

pub open spec fn tool_args_view(r: ToolArgs) -> Result<
    (Option<Seq<char>>, Option<Seq<char>>),
    (),
> {
    match r {
        Ok((loc, expr)) => Ok(
            (
                match loc {
                    Some(s) => Some(s@),
                    None => None,
                },
                match expr {
                    Some(s) => Some(s@),
                    None => None,
                },
            ),
        ),
        Err(()) => Err(()),
    }
}

/// What serde_json finds in a raw argument payload: the `location` and
/// `expression` string fields of the JSON object, or `Err` when the text
/// is not valid JSON. The result depends on the text alone.
pub uninterp spec fn tool_args_of(raw: Seq<char>) -> Result<
    (Option<Seq<char>>, Option<Seq<char>>),
    (),
>;

/// Relies on `serde_json::from_str`, `serde_json::Value::get` and
/// `serde_json::Value::as_str`: parses a tool call's raw JSON arguments
/// and picks out the two string fields the built-in tools read.
#[verifier::external_body]
fn parse_tool_args(raw: &str) -> (r: ToolArgs)
    ensures
        tool_args_view(r) == tool_args_of(raw@),
{
    match serde_json::from_str::<serde_json::Value>(raw) {
        Ok(doc) => {
            let location = match doc.get("location") {
                Some(x) => x.as_str().map(|s| s.to_string()),
                None => None,
            };
            let expression = match doc.get("expression") {
                Some(x) => x.as_str().map(|s| s.to_string()),
                None => None,
            };
            Ok((location, expression))
        },
        Err(_) => Err(()),
    }
}

/// The reply of the weather-lookup stub: a fixed template around the
/// requested location.
pub open spec fn weather_reply_spec(location: Seq<char>) -> Seq<char> {
    "Weather in "@ + location + ": Sunny, 72\u{00b0}F"@
}

/// The reply of the calculator tool.
pub open spec fn calc_reply_spec(expression: Seq<char>) -> Seq<char> {
    "Result: "@ + render_spec(eval_expression_spec(expression))
}

/// The reply for a tool name no dispatcher entry matches.
pub open spec fn unknown_reply_spec(name: Seq<char>) -> Seq<char> {
    "Unknown function: "@ + name
}

/// The text a tool call resolves to, over the parsed argument fields:
/// the weather stub reads `location` (defaulting to `unknown`), the
/// calculator reads `expression` (defaulting to `0`), and any other
/// name resolves to the "unknown function" reply. A payload that is
/// not valid JSON is the one failure.
pub open spec fn tool_reply_spec(
    name: Seq<char>,
    args: Result<(Option<Seq<char>>, Option<Seq<char>>), ()>,
) -> Result<Seq<char>, ()> {
    match args {
        Err(()) => Err(()),
        Ok((loc, expr)) => Ok(
            if name == "get_current_weather"@ {
                weather_reply_spec(
                    match loc {
                        Some(s) => s,
                        None => "unknown"@,
                    },
                )
            } else if name == "calculate"@ {
                calc_reply_spec(
                    match expr {
                        Some(s) => s,
                        None => "0"@,
                    },
                )
            } else {
                unknown_reply_spec(name)
            },
        ),
    }
}

/// The error of a tool round: the argument payload was not valid JSON.
#[derive(Debug, PartialEq, Eq, Structural)]
pub enum ToolError {
    MalformedArguments,
}

fn weather_reply(location: &str) -> (r: String)
    ensures
        r@ == weather_reply_spec(location@),
{
    let mut s = String::new();
    s.append("Weather in ");
    s.append(location);
    s.append(": Sunny, 72\u{00b0}F");
    s
}

fn calc_reply(expression: &str) -> (r: String)
    ensures
        r@ == calc_reply_spec(expression@),
{
    let mut s = String::new();
    s.append("Result: ");
    let rendered = calculate(expression);
    s.append(rendered.as_str());
    s
}

fn unknown_reply(name: &str) -> (r: String)
    ensures
        r@ == unknown_reply_spec(name@),
{
    let mut s = String::new();
    s.append("Unknown function: ");
    s.append(name);
    s
}

/// Resolves one tool call: parses the raw argument payload and computes
/// the reply text, or reports the payload malformed.
pub fn dispatch_tool_call(name: &str, raw_args: &str) -> (r: Result<String, ToolError>)
    ensures
        match r {
            Ok(s) => tool_reply_spec(name@, tool_args_of(raw_args@)) == Ok::<Seq<char>, ()>(s@),
            Err(_) => tool_reply_spec(name@, tool_args_of(raw_args@)) is Err,
        },
{
    match parse_tool_args(raw_args) {
        Err(()) => Err(ToolError::MalformedArguments),
        Ok((loc, expr)) => {
            if name.to_owned() == String::from_str("get_current_weather") {
                match loc {
                    Some(l) => Ok(weather_reply(l.as_str())),
                    None => Ok(weather_reply("unknown")),
                }
            } else if name.to_owned() == String::from_str("calculate") {
                match expr {
                    Some(e) => Ok(calc_reply(e.as_str())),
                    None => Ok(calc_reply("0")),
                }
            } else {
                Ok(unknown_reply(name))
            }
        },
    }
}

/// The built-in tools offered to the completion backend when tools are
/// enabled: the weather-lookup stub and the expression calculator, each
/// with the JSON schema of its arguments as raw text.
pub fn builtin_tools() -> (tools: Vec<crate::messages::Tool>)
    ensures
        tools@.len() == 2,
        tools@[0].type_@ == "function"@,
        tools@[0].function.name@ == "get_current_weather"@,
        tools@[0].function.description@ == "Get the current weather"@,
        tools@[0].function.parameters@
            == "{\"type\":\"object\",\"properties\":{\"location\":{\"type\":\"string\",\"description\":\"The location to get weather for, e.g. 'San Francisco, CA'\"}},\"required\":[\"location\"]}"@,
        tools@[1].type_@ == "function"@,
        tools@[1].function.name@ == "calculate"@,
        tools@[1].function.description@ == "Evaluate a mathematical expression"@,
        tools@[1].function.parameters@
            == "{\"type\":\"object\",\"properties\":{\"expression\":{\"type\":\"string\",\"description\":\"The mathematical expression to evaluate, e.g. '2 + 2'\"}},\"required\":[\"expression\"]}"@,
{
    let weather = crate::messages::Tool {
        type_: "function".to_owned(),
        function: crate::messages::Function {
            name: "get_current_weather".to_owned(),
            description: "Get the current weather".to_owned(),
            parameters:
                "{\"type\":\"object\",\"properties\":{\"location\":{\"type\":\"string\",\"description\":\"The location to get weather for, e.g. 'San Francisco, CA'\"}},\"required\":[\"location\"]}".to_owned(),
        },
    };
    let calculator = crate::messages::Tool {
        type_: "function".to_owned(),
        function: crate::messages::Function {
            name: "calculate".to_owned(),
            description: "Evaluate a mathematical expression".to_owned(),
            parameters:
                "{\"type\":\"object\",\"properties\":{\"expression\":{\"type\":\"string\",\"description\":\"The mathematical expression to evaluate, e.g. '2 + 2'\"}},\"required\":[\"expression\"]}".to_owned(),
        },
    };
    let mut tools: Vec<crate::messages::Tool> = Vec::new();
    tools.push(weather);
    tools.push(calculator);
    tools
}

} // verus!
