//! The orchestration engine: one turn driven through the turn machine,
//! the retry wrapper around every backend call, and the main loop over
//! the shared inbox. The engine is sequential; the shell schedules it
//! and adds the waiting between retries.

use vstd::prelude::*;
use crate::messages::{Message, Tool, ChatCompletionResponse, msgs_view, plain_message_view};
use crate::adapters::{
    OutputDestination, SourceMessage, send_to_all_outputs, is_exit_command, is_exit_view,
};
use crate::messages::MessageView;
use crate::history::trim_spec;
use crate::retry::{RetryMachine, RetryDecision};
use crate::turn::{
    TurnMachine, TurnPhase, TurnError, TurnAction, CompletionOutcome, CompletionError,
    user_message_view,
};

verus! {

/// A completion backend: one request against a model over the whole
/// history, with tools optionally offered.
pub trait Provider {
    /// The name of the provider.
    fn name(&self) -> (r: String);

    /// The models this provider offers.
    fn available_models(&self) -> (r: Vec<String>);

    /// Sends one chat completion request.
    fn chat_completion(&mut self, model: &str, messages: &Vec<Message>, tools: Option<&Vec<Tool>>)
        -> (r: Result<ChatCompletionResponse, CompletionError>);
}

/// Calls the backend until it answers or the retry budget is spent,
/// taking each wait from the retry machine; the sequential engine does
/// not itself sleep, the shell does. After exhaustion the outcome
/// carries the final failure verbatim.
fn complete_with_retries<P: Provider>(
    provider: &mut P,
    model: &str,
    history: &Vec<Message>,
    tools: Option<&Vec<Tool>>,
    max_retries: usize,
) -> (o: CompletionOutcome)
    requires
        max_retries < usize::MAX,
{
    let mut machine = RetryMachine::new(max_retries);
    loop
        invariant
            machine.max_retries == max_retries,
            machine.failures <= max_retries,
            max_retries < usize::MAX,
        decreases max_retries - machine.failures,
    {
        match provider.chat_completion(model, history, tools) {
            Ok(resp) => {
                return CompletionOutcome::Completed(resp);
            },
            Err(e) => {
                match machine.on_failure() {
                    RetryDecision::GiveUp => {
                        return CompletionOutcome::Failed(e);
                    },
                    RetryDecision::RetryAfterMs(_delay) => {
                    },
                }
            },
        }
    }
}

fn perform_deliveries<S: OutputDestination>(
    outputs: &mut Vec<S>,
    actions: &Vec<TurnAction>,
) -> (completion: Option<bool>)
    ensures
        final(outputs)@.len() == old(outputs)@.len(),
        completion == last_completion_request(actions@),
{
    let mut completion: Option<bool> = None;
    let mut i: usize = 0;
    proof {
        assert(actions@.take(0) =~= Seq::<TurnAction>::empty());
    }
    while i < actions.len()
        invariant
            i <= actions@.len(),
            outputs@.len() == old(outputs)@.len(),
            completion == last_completion_request(actions@.take(i as int)),
        decreases actions@.len() - i,
    {
        proof {
            assert(actions@.take(i as int + 1).drop_last() =~= actions@.take(i as int));
            assert(actions@.take(i as int + 1).last() == actions@[i as int]);
        }
        match &actions[i] {
            TurnAction::Deliver { role, content } => {
                let _delivered = send_to_all_outputs(outputs, role.as_str(), content.as_str());
            },
            TurnAction::RequestCompletion { offer_tools } => {
                completion = Some(*offer_tools);
            },
        }
        i = i + 1;
    }
    proof {
        assert(actions@.take(actions@.len() as int) =~= actions@);
    }
    completion
}

/// The completion request an action list ends with, if any: the last
/// request wins, and a list without one asks for nothing.
pub open spec fn last_completion_request(actions: Seq<TurnAction>) -> Option<bool>
    decreases actions.len(),
{
    if actions.len() == 0 {
        None
    } else {
        match actions.last()@ {
            crate::turn::TurnActionView::RequestCompletion { offer_tools } => Some(offer_tools),
            _ => last_completion_request(actions.drop_last()),
        }
    }
}

/// Runs one whole turn: the user message and a processing notice go to
/// every sink, the backend is called through the retry wrapper, a tool
/// round and follow-up call happen when asked for, and the turn is
/// committed. A failed turn leaves the conversation unchanged except
/// that the triggering user message remains recorded; a successful one
/// appends the turn's messages and trims the history, never touching
/// the leading system directive.
pub fn run_turn<P: Provider, S: OutputDestination>(
    content: &str,
    provider: &mut P,
    model: &str,
    tools: Option<&Vec<Tool>>,
    offer_tools: bool,
    conv: &mut Vec<Message>,
    outputs: &mut Vec<S>,
    max_history: usize,
    max_retries: usize,
) -> (r: Result<(), TurnError>)
    requires
        max_retries < usize::MAX,
    ensures
        final(conv)@.len() >= 1,
        final(outputs)@.len() == old(outputs)@.len(),
        old(conv)@.len() >= 1 ==> msgs_view(final(conv)@)[0] == msgs_view(old(conv)@)[0],
        r is Err ==> msgs_view(final(conv)@) == msgs_view(old(conv)@) + seq![
            user_message_view(content@),
        ],
        r is Ok ==> exists|staged: Seq<crate::messages::MessageView>|
            {
                &&& msgs_view(final(conv)@) == trim_spec(
                    msgs_view(old(conv)@) + staged,
                    max_history as int,
                )
                &&& staged.len() >= 2
                &&& staged[0] == user_message_view(content@)
                &&& staged[staged.len() - 1].role == "assistant"@
            },
{
    let (mut machine, actions) = TurnMachine::start(content, offer_tools);
    let req = perform_deliveries(outputs, &actions);
    proof {
        assert(actions@.take(2) =~= actions@.drop_last());
        assert(last_completion_request(actions@) == Some(offer_tools));
    }
    let offered = match req {
        Some(o) => o,
        None => offer_tools,
    };
    let history = machine.history_for_request(conv);
    let outcome = complete_with_retries(
        provider,
        model,
        &history,
        if offered {
            tools
        } else {
            None
        },
        max_retries,
    );
    let actions2 = machine.on_completion(outcome);
    let req2 = perform_deliveries(outputs, &actions2);
    proof {
        if actions2@.len() == 1 {
            assert(actions2@.last() == actions2@[0]);
            assert(last_completion_request(actions2@.drop_last()) is None);
        }
        if last_completion_request(actions2@) is Some {
            assert(machine.phase == TurnPhase::AwaitingFollowUp);
        } else {
            assert(machine.phase == TurnPhase::Succeeded || machine.phase == TurnPhase::Failed);
        }
    }
    match req2 {
        Some(_offer2) => {
            let history2 = machine.history_for_request(conv);
            let outcome2 = complete_with_retries(provider, model, &history2, None, max_retries);
            let actions3 = machine.on_completion(outcome2);
            let _req3 = perform_deliveries(outputs, &actions3);
        },
        None => {},
    }
    let succeeded = machine.failure.is_none();
    let ghost stagedv = msgs_view(machine.staged@);
    machine.commit(conv, max_history);
    proof {
        assert(msgs_view(conv@).len() == conv@.len());
        if succeeded {
            assert(msgs_view(conv@) == trim_spec(
                msgs_view(old(conv)@) + stagedv,
                max_history as int,
            ));
            crate::history::lemma_trim_preserves_system(
                msgs_view(old(conv)@) + stagedv,
                max_history as int,
            );
        } else {
            assert(msgs_view(conv@) == msgs_view(old(conv)@) + seq![
                user_message_view(content@),
            ]);
            assert(msgs_view(conv@).len() >= 1);
        }
        if old(conv)@.len() >= 1 {
            assert(msgs_view(conv@)[0] == msgs_view(old(conv)@)[0]);
        }
    }
    match machine.failure {
        Some(e) => Err(e),
        None => Ok(()),
    }
}

/// One conversation turn, as the history sees it: a failed turn
/// appends exactly the triggering user message, and a successful one
/// appends the turn's staged messages (the user message first, a final
/// assistant answer last) and trims the result.
pub open spec fn turn_step(
    pre: Seq<MessageView>,
    post: Seq<MessageView>,
    content: Seq<char>,
    max: int,
) -> bool {
    ||| post == pre + seq![user_message_view(content)]
    ||| exists|staged: Seq<MessageView>|
        {
            &&& post == trim_spec(pre + staged, max)
            &&& staged.len() >= 2
            &&& staged[0] == user_message_view(content)
            &&& staged[staged.len() - 1].role == "assistant"@
        }
}

/// Whether `post` is reached from `pre` by exactly one turn step per
/// entry of `contents`, in order.
pub open spec fn conversation_evolution(
    pre: Seq<MessageView>,
    post: Seq<MessageView>,
    contents: Seq<Seq<char>>,
    max: int,
) -> bool
    decreases contents.len(),
{
    if contents.len() == 0 {
        post == pre
    } else {
        exists|mid: Seq<MessageView>|
            conversation_evolution(pre, mid, contents.drop_last(), max) && turn_step(
                mid,
                post,
                contents.last(),
                max,
            )
    }
}

/// The text of each inbox entry, in arrival order.
pub open spec fn inbox_contents(inbox: Seq<SourceMessage>) -> Seq<Seq<char>> {
    inbox.map_values(|m: SourceMessage| m.content@)
}

/// Runs the main loop over an already-merged inbox: each message is
/// either the exit command, which sends a goodbye notice to every sink
/// and ends the loop without becoming a turn, or one conversation turn,
/// whose failure is contained. The returned conversation is reached
/// from the lone system directive by one turn step per inbox entry
/// before the first exit command; the entry carrying the exit command
/// and everything after it contribute no turn. The system directive is
/// set once and stays at index 0 throughout.
pub fn run_conversation<P: Provider, S: OutputDestination>(
    inbox: &Vec<SourceMessage>,
    system_message: &str,
    provider: &mut P,
    model: &str,
    tools: Option<&Vec<Tool>>,
    enable_tools: bool,
    outputs: &mut Vec<S>,
    max_history: usize,
    max_retries: usize,
) -> (conv: Vec<Message>)
    requires
        max_retries < usize::MAX,
    ensures
        conv@.len() >= 1,
        msgs_view(conv@)[0] == plain_message_view("system"@, system_message@),
        final(outputs)@.len() == old(outputs)@.len(),
        exists|k: int|
            {
                &&& 0 <= k <= inbox@.len()
                &&& (forall|j: int| 0 <= j < k ==> !is_exit_view(#[trigger] inbox@[j].content@))
                &&& (k < inbox@.len() ==> is_exit_view(inbox@[k].content@))
                &&& conversation_evolution(
                    seq![plain_message_view("system"@, system_message@)],
                    msgs_view(conv@),
                    inbox_contents(inbox@).take(k),
                    max_history as int,
                )
            },
{
    let ghost init: Seq<MessageView> = seq![plain_message_view("system"@, system_message@)];
    let mut conv: Vec<Message> = Vec::new();
    conv.push(crate::messages::plain_message("system", system_message));
    proof {
        assert(msgs_view(conv@) =~= init);
        assert(inbox_contents(inbox@).take(0) =~= Seq::<Seq<char>>::empty());
    }
    let mut i: usize = 0;
    while i < inbox.len()
        invariant
            i <= inbox@.len(),
            conv@.len() >= 1,
            init == seq![plain_message_view("system"@, system_message@)],
            msgs_view(conv@)[0] == plain_message_view("system"@, system_message@),
            outputs@.len() == old(outputs)@.len(),
            max_retries < usize::MAX,
            forall|j: int| 0 <= j < i ==> !is_exit_view(#[trigger] inbox@[j].content@),
            conversation_evolution(
                init,
                msgs_view(conv@),
                inbox_contents(inbox@).take(i as int),
                max_history as int,
            ),
        decreases inbox@.len() - i,
    {
        let content = &inbox[i].content;
        if is_exit_command(content.as_str()) {
            let _delivered = send_to_all_outputs(outputs, "system", "Goodbye!");
            proof {
                let k = i as int;
                assert(0 <= k <= inbox@.len() && (forall|j: int|
                    0 <= j < k ==> !is_exit_view(#[trigger] inbox@[j].content@)) && (k
                    < inbox@.len() ==> is_exit_view(inbox@[k].content@))
                    && conversation_evolution(
                    init,
                    msgs_view(conv@),
                    inbox_contents(inbox@).take(k),
                    max_history as int,
                ));
            }
            return conv;
        }
        let ghost prev: Seq<MessageView> = msgs_view(conv@);
        let _turn = run_turn(
            content.as_str(),
            provider,
            model,
            tools,
            enable_tools,
            &mut conv,
            outputs,
            max_history,
            max_retries,
        );
        proof {
            let contents = inbox_contents(inbox@);
            assert(contents[i as int] == inbox@[i as int].content@);
            assert(contents.take(i as int + 1).drop_last() =~= contents.take(i as int));
            assert(contents.take(i as int + 1).last() == contents[i as int]);
            assert(turn_step(
                prev,
                msgs_view(conv@),
                inbox@[i as int].content@,
                max_history as int,
            ));
            assert(conversation_evolution(
                init,
                prev,
                contents.take(i as int + 1).drop_last(),
                max_history as int,
            ) && turn_step(
                prev,
                msgs_view(conv@),
                contents.take(i as int + 1).last(),
                max_history as int,
            ));
            assert(conversation_evolution(
                init,
                msgs_view(conv@),
                contents.take(i as int + 1),
                max_history as int,
            ));
        }
        i = i + 1;
    }
    proof {
        let k = inbox@.len() as int;
        assert(inbox_contents(inbox@).take(k) =~= inbox_contents(inbox@));
        assert(0 <= k <= inbox@.len() && (forall|j: int|
            0 <= j < k ==> !is_exit_view(#[trigger] inbox@[j].content@)) && (k < inbox@.len()
            ==> is_exit_view(inbox@[k].content@)) && conversation_evolution(
            init,
            msgs_view(conv@),
            inbox_contents(inbox@).take(k),
            max_history as int,
        ));
    }
    conv
}

} // verus!
