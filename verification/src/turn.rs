//! The turn state machine: one user message driven through completion,
//! an optional tool round, and a follow-up completion. The machine owns
//! the messages staged for the conversation and commits them only when
//! the turn ends: a successful turn appends them all and trims, a failed
//! turn records the triggering user message and nothing else.

use vstd::prelude::*;
use vstd::string::StringExecFns;
use crate::messages::{
    Message, MessageView, ToolCall, ToolCallView, ChatCompletionResponse, msgs_view,
    plain_message_view, tool_calls_view,
};
use crate::history::{manage_message_history, trim_spec};
use crate::tools::{dispatch_tool_call, tool_args_of, tool_reply_spec};

verus! {

/// The user message a turn starts from.
pub open spec fn user_message_view(content: Seq<char>) -> MessageView {
    plain_message_view("user"@, content)
}

/// An assistant message, with the tool calls it asks for, if any.
pub open spec fn assistant_message_view(
    content: Seq<char>,
    tool_calls: Option<Seq<ToolCallView>>,
) -> MessageView {
    MessageView { role: "assistant"@, content, tool_calls, tool_call_id: None }
}

/// A role-"tool" message carrying one tool call's reply, linked back by
/// the call's id.
pub open spec fn tool_message_view(id: Option<Seq<char>>, content: Seq<char>) -> MessageView {
    MessageView { role: "tool"@, content, tool_calls: None, tool_call_id: id }
}

/// Whether any of the first `n` tool calls carries an argument payload
/// that does not parse; such a payload aborts the whole turn.
pub open spec fn any_malformed_args(calls: Seq<ToolCallView>, n: int) -> bool {
    exists|i: int|
        0 <= i < n && (#[trigger] calls[i].function matches Some(f) && tool_args_of(f.arguments)
            is Err)
}

/// The role-"tool" messages staged for the first `n` tool calls, in
/// arrival order: calls without a function are skipped, every other one
/// resolves to its dispatcher reply.
pub open spec fn staged_tool_messages(calls: Seq<ToolCallView>, n: int) -> Seq<MessageView>
    decreases n,
{
    if n <= 0 {
        Seq::empty()
    } else {
        staged_tool_messages(calls, n - 1) + (match calls[n - 1].function {
            None => Seq::<MessageView>::empty(),
            Some(f) => match tool_reply_spec(f.name, tool_args_of(f.arguments)) {
                Err(()) => Seq::<MessageView>::empty(),
                Ok(reply) => seq![tool_message_view(calls[n - 1].id, reply)],
            },
        })
    }
}

/// Where a turn stands.
#[derive(PartialEq, Eq, Structural)]
pub enum TurnPhase {
    AwaitingCompletion,
    AwaitingFollowUp,
    Succeeded,
    Failed,
}

/// Why a completion call failed; it carries what the backend reported,
/// so that exhausted retries can propagate the final failure verbatim.
pub struct CompletionError {
    pub message: String,
}

/// Why a turn failed: the final backend error after exhausted retries,
/// carried verbatim, or a tool call whose argument payload did not
/// parse.
pub enum TurnError {
    CompletionFailed(CompletionError),
    MalformedToolArguments,
}

/// What the surrounding loop must do next: deliver a message to every
/// sink, or call the completion backend (through the retry wrapper) and
/// hand the outcome back.
pub enum TurnAction {
    Deliver { role: String, content: String },
    RequestCompletion { offer_tools: bool },
}

pub enum TurnActionView {
    Deliver { role: Seq<char>, content: Seq<char> },
    RequestCompletion { offer_tools: bool },
}

impl View for TurnAction {
    type V = TurnActionView;

    open spec fn view(&self) -> TurnActionView {
        match self {
            TurnAction::Deliver { role, content } => TurnActionView::Deliver {
                role: role@,
                content: content@,
            },
            TurnAction::RequestCompletion { offer_tools } => TurnActionView::RequestCompletion {
                offer_tools: *offer_tools,
            },
        }
    }
}

/// What one round of completion came out as, after the retry wrapper is
/// done with it.
pub enum CompletionOutcome {
    Completed(ChatCompletionResponse),
    Failed(CompletionError),
}

/// One turn in flight: its phase, the messages staged for the
/// conversation so far, and whether tools are offered on the first
/// completion round.
pub struct TurnMachine {
    pub phase: TurnPhase,
    pub staged: Vec<Message>,
    pub offer_tools: bool,
    pub failure: Option<TurnError>,
}

impl TurnMachine {
    /// A machine always stages at least one message: the user message
    /// the turn started from stands at index 0.
    pub open spec fn wf(&self) -> bool {
        self.staged@.len() >= 1
    }

    /// Starts a turn on one user message. The caller delivers the user
    /// message and a transient processing notice to every sink, then
    /// requests the first completion.
    pub fn start(content: &str, offer_tools: bool) -> (r: (TurnMachine, Vec<TurnAction>))
        ensures
            r.0.phase == TurnPhase::AwaitingCompletion,
            r.0.offer_tools == offer_tools,
            r.0.failure is None,
            r.0.wf(),
            msgs_view(r.0.staged@) == seq![user_message_view(content@)],
            r.1@.len() == 3,
            r.1@[0]@ == (TurnActionView::Deliver { role: "user"@, content: content@ }),
            r.1@[1]@ == (TurnActionView::Deliver {
                role: "system"@,
                content: "Processing your request..."@,
            }),
            r.1@[2]@ == (TurnActionView::RequestCompletion { offer_tools: offer_tools }),
    {
        let user_msg = crate::messages::plain_message("user", content);
        let mut staged: Vec<Message> = Vec::new();
        staged.push(user_msg);
        let mut actions: Vec<TurnAction> = Vec::new();
        actions.push(
            TurnAction::Deliver { role: "user".to_owned(), content: content.to_owned() },
        );
        actions.push(
            TurnAction::Deliver {
                role: "system".to_owned(),
                content: "Processing your request...".to_owned(),
            },
        );
        actions.push(TurnAction::RequestCompletion { offer_tools });
        let machine = TurnMachine {
            phase: TurnPhase::AwaitingCompletion,
            staged,
            offer_tools,
            failure: None,
        };
        proof {
            assert(msgs_view(machine.staged@) =~= seq![user_message_view(content@)]);
        }
        (machine, actions)
    }

    /// Feeds the outcome of one completion round into the machine.
    ///
    /// A failure ends the turn with nothing staged beyond the user
    /// message. An answer without tool calls, or any answer to the
    /// follow-up round, stages the assistant message and ends the turn
    /// with a delivery. An answer with tool calls stages the assistant
    /// message and one tool message per resolvable call, then asks for
    /// the follow-up round without tools; one malformed argument
    /// payload aborts the turn instead, staging nothing.
    pub fn on_completion(&mut self, outcome: CompletionOutcome) -> (actions: Vec<TurnAction>)
        requires
            old(self).phase == TurnPhase::AwaitingCompletion || old(self).phase
                == TurnPhase::AwaitingFollowUp,
            old(self).wf(),
        ensures
            final(self).wf(),
            final(self).offer_tools == old(self).offer_tools,
            msgs_view(final(self).staged@)[0] == msgs_view(old(self).staged@)[0],
            match outcome {
                CompletionOutcome::Failed(err) => {
                    &&& final(self).phase == TurnPhase::Failed
                    &&& final(self).failure == Some(TurnError::CompletionFailed(err))
                    &&& final(self).staged == old(self).staged
                    &&& actions@.len() == 0
                },
                CompletionOutcome::Completed(resp) => {
                    if old(self).phase == TurnPhase::AwaitingFollowUp || resp@.tool_calls is None {
                        &&& final(self).phase == TurnPhase::Succeeded
                        &&& final(self).failure is None
                        &&& msgs_view(final(self).staged@) == msgs_view(old(self).staged@)
                            + seq![assistant_message_view(resp@.message.content, None)]
                        &&& actions@.len() == 1
                        &&& actions@[0]@ == (TurnActionView::Deliver {
                            role: "assistant"@,
                            content: resp@.message.content,
                        })
                    } else {
                        let calls = resp@.tool_calls->Some_0;
                        if any_malformed_args(calls, calls.len() as int) {
                            &&& final(self).phase == TurnPhase::Failed
                            &&& final(self).failure == Some(TurnError::MalformedToolArguments)
                            &&& final(self).staged == old(self).staged
                            &&& actions@.len() == 0
                        } else {
                            &&& final(self).phase == TurnPhase::AwaitingFollowUp
                            &&& final(self).failure is None
                            &&& msgs_view(final(self).staged@) == msgs_view(old(self).staged@)
                                + seq![
                                assistant_message_view(resp@.message.content, Some(calls)),
                            ] + staged_tool_messages(calls, calls.len() as int)
                            &&& actions@.len() == 1
                            &&& actions@[0]@ == (TurnActionView::RequestCompletion {
                                offer_tools: false,
                            })
                        }
                    }
                },
            },
    {
        let mut actions: Vec<TurnAction> = Vec::new();
        match outcome {
            CompletionOutcome::Failed(err) => {
                self.phase = TurnPhase::Failed;
                self.failure = Some(TurnError::CompletionFailed(err));
                actions
            },
            CompletionOutcome::Completed(resp) => {
                let ghost respv = resp@;
                let follow_up = match self.phase {
                    TurnPhase::AwaitingFollowUp => true,
                    _ => false,
                };
                if follow_up || resp.tool_calls.is_none() {
                    let assistant = Message {
                        role: "assistant".to_owned(),
                        content: resp.message.content.clone(),
                        tool_calls: None,
                        tool_call_id: None,
                    };
                    let ghost prev: Seq<Message> = self.staged@;
                    self.staged.push(assistant);
                    self.phase = TurnPhase::Succeeded;
                    self.failure = None;
                    actions.push(
                        TurnAction::Deliver {
                            role: "assistant".to_owned(),
                            content: resp.message.content.clone(),
                        },
                    );
                    proof {
                        assert(msgs_view(self.staged@) =~= msgs_view(prev) + seq![
                            assistant_message_view(respv.message.content, None),
                        ]);
                    }
                    actions
                } else {
                    let calls: Vec<ToolCall> = match resp.tool_calls {
                        Some(c) => c,
                        None => Vec::new(),
                    };
                    let ghost callsv: Seq<ToolCallView> = calls@.map_values(|c: ToolCall| c@);
                    proof {
                        assert(respv.tool_calls == Some(callsv));
                    }
                    let mut tool_msgs: Vec<Message> = Vec::new();
                    let mut i: usize = 0;
                    while i < calls.len()
                        invariant
                            i <= calls.len(),
                            callsv == calls@.map_values(|c: ToolCall| c@),
                            callsv.len() == calls@.len(),
                            !any_malformed_args(callsv, i as int),
                            msgs_view(tool_msgs@) == staged_tool_messages(callsv, i as int),
                            outcome matches CompletionOutcome::Completed(rr) && rr@ == respv,
                            respv.tool_calls == Some(callsv),
                            old(self).phase == TurnPhase::AwaitingCompletion,
                            actions@.len() == 0,
                            self.phase == old(self).phase,
                            self.staged == old(self).staged,
                            self.offer_tools == old(self).offer_tools,
                            self.failure == old(self).failure,
                            old(self).staged@.len() >= 1,
                        decreases calls.len() - i,
                    {
                        let has_function = calls[i].function.is_some();
                        if has_function {
                            let reply_result = match &calls[i].function {
                                Some(f) => dispatch_tool_call(
                                    f.name.as_str(),
                                    f.arguments.as_str(),
                                ),
                                None => Err(crate::tools::ToolError::MalformedArguments),
                            };
                            match reply_result {
                                Err(_) => {
                                    proof {
                                        assert(callsv[i as int] == calls@[i as int]@);
                                        assert(any_malformed_args(callsv, callsv.len() as int))
                                            by {
                                            assert(callsv[i as int].function matches Some(g)
                                                && tool_args_of(g.arguments) is Err);
                                        }
                                    }
                                    self.phase = TurnPhase::Failed;
                                    self.failure = Some(TurnError::MalformedToolArguments);
                                    return actions;
                                },
                                Ok(reply) => {
                                    let ghost replyv: Seq<char> = reply@;
                                    let ghost prev_msgs: Seq<Message> = tool_msgs@;
                                    let msg = Message {
                                        role: "tool".to_owned(),
                                        content: reply,
                                        tool_calls: None,
                                        tool_call_id: crate::messages::clone_opt_string(
                                            &calls[i].id,
                                        ),
                                    };
                                    proof {
                                        assert(callsv[i as int] == calls@[i as int]@);
                                        assert(msg@ == tool_message_view(
                                            callsv[i as int].id,
                                            replyv,
                                        ));
                                    }
                                    tool_msgs.push(msg);
                                    proof {
                                        assert(staged_tool_messages(callsv, i as int + 1)
                                            =~= staged_tool_messages(callsv, i as int) + seq![
                                            tool_message_view(callsv[i as int].id, replyv),
                                        ]);
                                        assert(msgs_view(tool_msgs@) =~= msgs_view(prev_msgs)
                                            + seq![tool_message_view(callsv[i as int].id, replyv)]);
                                    }
                                },
                            }
                        } else {
                            proof {
                                assert(callsv[i as int] == calls@[i as int]@);
                                assert(staged_tool_messages(callsv, i as int + 1)
                                    =~= staged_tool_messages(callsv, i as int));
                            }
                        }
                        i = i + 1;
                    }
                    let assistant = Message {
                        role: "assistant".to_owned(),
                        content: resp.message.content.clone(),
                        tool_calls: Some(crate::messages::clone_tool_call_list(&calls)),
                        tool_call_id: None,
                    };
                    proof {
                        assert(assistant@ == assistant_message_view(
                            respv.message.content,
                            Some(callsv),
                        ));
                    }
                    let ghost prev: Seq<Message> = self.staged@;
                    self.staged.push(assistant);
                    proof {
                        assert(msgs_view(self.staged@) =~= msgs_view(prev) + seq![
                            assistant_message_view(respv.message.content, Some(callsv)),
                        ]);
                        assert(msgs_view(tool_msgs@).take(0) =~= Seq::<MessageView>::empty());
                        assert(msgs_view(self.staged@) =~= msgs_view(prev) + seq![
                            assistant_message_view(respv.message.content, Some(callsv)),
                        ] + msgs_view(tool_msgs@).take(0));
                    }
                    let mut j: usize = 0;
                    while j < tool_msgs.len()
                        invariant
                            j <= tool_msgs@.len(),
                            msgs_view(self.staged@) == msgs_view(prev) + seq![
                                assistant_message_view(respv.message.content, Some(callsv)),
                            ] + msgs_view(tool_msgs@).take(j as int),
                            prev == old(self).staged@,
                            outcome matches CompletionOutcome::Completed(rr) && rr@ == respv,
                            respv.tool_calls == Some(callsv),
                            callsv.len() == calls@.len(),
                            !any_malformed_args(callsv, callsv.len() as int),
                            old(self).phase == TurnPhase::AwaitingCompletion,
                            actions@.len() == 0,
                            self.phase == old(self).phase,
                            self.offer_tools == old(self).offer_tools,
                            self.failure == old(self).failure,
                            old(self).staged@.len() >= 1,
                        decreases tool_msgs@.len() - j,
                    {
                        let ghost mid: Seq<Message> = self.staged@;
                        self.staged.push(tool_msgs[j].clone());
                        proof {
                            assert(msgs_view(self.staged@) =~= msgs_view(mid) + seq![
                                tool_msgs@[j as int]@,
                            ]);
                            assert(msgs_view(self.staged@) =~= msgs_view(prev) + seq![
                                assistant_message_view(respv.message.content, Some(callsv)),
                            ] + msgs_view(tool_msgs@).take(j as int + 1));
                        }
                        j = j + 1;
                    }
                    self.phase = TurnPhase::AwaitingFollowUp;
                    self.failure = None;
                    actions.push(TurnAction::RequestCompletion { offer_tools: false });
                    proof {
                        assert(msgs_view(tool_msgs@).take(tool_msgs@.len() as int) =~= msgs_view(
                            tool_msgs@,
                        ));
                    }
                    actions
                }
            },
        }
    }

    /// Copies the request history for the next completion call: the
    /// committed conversation followed by everything this turn has
    /// staged.
    pub fn history_for_request(&self, conv: &Vec<Message>) -> (r: Vec<Message>)
        ensures
            msgs_view(r@) == msgs_view(conv@) + msgs_view(self.staged@),
    {
        let mut r: Vec<Message> = Vec::new();
        let mut i: usize = 0;
        while i < conv.len()
            invariant
                i <= conv@.len(),
                msgs_view(r@) == msgs_view(conv@).take(i as int),
            decreases conv@.len() - i,
        {
            let ghost mid: Seq<Message> = r@;
            r.push(conv[i].clone());
            proof {
                assert(msgs_view(r@) =~= msgs_view(mid) + seq![conv@[i as int]@]);
                assert(msgs_view(r@) =~= msgs_view(conv@).take(i as int + 1));
            }
            i = i + 1;
        }
        proof {
            assert(msgs_view(conv@).take(conv@.len() as int) =~= msgs_view(conv@));
        }
        let mut j: usize = 0;
        while j < self.staged.len()
            invariant
                j <= self.staged@.len(),
                msgs_view(r@) == msgs_view(conv@) + msgs_view(self.staged@).take(j as int),
            decreases self.staged@.len() - j,
        {
            let ghost mid: Seq<Message> = r@;
            r.push(self.staged[j].clone());
            proof {
                assert(msgs_view(r@) =~= msgs_view(mid) + seq![self.staged@[j as int]@]);
                assert(msgs_view(r@) =~= msgs_view(conv@) + msgs_view(self.staged@).take(
                    j as int + 1,
                ));
            }
            j = j + 1;
        }
        proof {
            assert(msgs_view(self.staged@).take(self.staged@.len() as int) =~= msgs_view(
                self.staged@,
            ));
        }
        r
    }

    /// Commits the turn to the conversation. A successful turn appends
    /// everything staged and trims the history; a failed turn appends
    /// only the triggering user message, leaving the rest of the
    /// conversation exactly as it was.
    pub fn commit(&self, conv: &mut Vec<Message>, max_history: usize)
        requires
            self.phase == TurnPhase::Succeeded || self.phase == TurnPhase::Failed,
            self.wf(),
        ensures
            self.phase == TurnPhase::Succeeded ==> msgs_view(final(conv)@) == trim_spec(
                msgs_view(old(conv)@) + msgs_view(self.staged@),
                max_history as int,
            ),
            self.phase == TurnPhase::Failed ==> msgs_view(final(conv)@) == msgs_view(old(conv)@)
                + seq![msgs_view(self.staged@)[0]],
    {
        let succeeded = match self.phase {
            TurnPhase::Succeeded => true,
            _ => false,
        };
        if succeeded {
            let ghost orig: Seq<Message> = conv@;
            let ghost stagedv: Seq<Message> = self.staged@;
            let mut i: usize = 0;
            while i < self.staged.len()
                invariant
                    i <= self.staged@.len(),
                    self.staged@ == stagedv,
                    msgs_view(conv@) == msgs_view(orig) + msgs_view(stagedv).take(i as int),
                decreases self.staged@.len() - i,
            {
                let ghost mid: Seq<Message> = conv@;
                conv.push(self.staged[i].clone());
                proof {
                    assert(msgs_view(conv@) =~= msgs_view(mid) + seq![stagedv[i as int]@]);
                    assert(msgs_view(conv@) =~= msgs_view(orig) + msgs_view(stagedv).take(
                        i as int + 1,
                    ));
                }
                i = i + 1;
            }
            proof {
                assert(msgs_view(stagedv).take(stagedv.len() as int) =~= msgs_view(stagedv));
            }
            manage_message_history(conv, max_history);
        } else {
            let user_msg = self.staged[0].clone();
            let ghost orig: Seq<Message> = conv@;
            conv.push(user_msg);
            proof {
                assert(msgs_view(conv@) =~= msgs_view(orig) + seq![msgs_view(self.staged@)[0]]);
            }
        }
    }
}

} // verus!
