//! The conversation manager's trimming policy: a history never grows past
//! a configured bound, and the system directive at index 0 survives every
//! trim.

use vstd::prelude::*;
use crate::messages::{Message, MessageView, msgs_view};

verus! {

/// What trimming does to a history. When the history is longer than
/// `max` (and holds more than one entry, and the bound is meaningful),
/// the system directive at index 0 is kept and the most recent `max - 1`
/// other entries follow it; otherwise the history is unchanged.
pub open spec fn trim_spec(s: Seq<MessageView>, max: int) -> Seq<MessageView> {
    if s.len() <= 1 || s.len() <= max || max < 1 {
        s
    } else {
        seq![s[0]] + s.skip(s.len() - (max - 1))
    }
}

/// Trims a history in place: drops the oldest non-system entries until
/// the length fits the bound, keeping the system message at index 0.
pub fn manage_message_history(messages: &mut Vec<Message>, max_messages: usize)
    ensures
        msgs_view(final(messages)@) == trim_spec(msgs_view(old(messages)@), max_messages as int),
{
    let ghost orig: Seq<Message> = messages@;
    if messages.len() <= 1 || messages.len() <= max_messages || max_messages == 0 {
        return ;
    }
    let system_message = messages.remove(0);
    proof {
        orig.remove_ensures(0);
    }
    while messages.len() > max_messages - 1
        invariant
            1 <= max_messages,
            max_messages < orig.len(),
            max_messages - 1 <= messages@.len() < orig.len(),
            forall|j: int|
                0 <= j < messages@.len() ==> messages@[j] == orig[orig.len() - messages@.len()
                    + j],
        decreases messages@.len(),
    {
        let ghost prev: Seq<Message> = messages@;
        messages.remove(0);
        proof {
            prev.remove_ensures(0);
        }
    }
    let ghost kept: Seq<Message> = messages@;
    messages.insert(0, system_message);
    proof {
        kept.insert_ensures(0, system_message);
        let v = msgs_view(orig);
        let t = trim_spec(v, max_messages as int);
        assert(messages@.len() == max_messages);
        assert(t.len() == max_messages) by {
            assert(v.skip(v.len() - (max_messages - 1)).len() == max_messages - 1);
        }
        assert forall|j: int| 0 <= j < messages@.len() implies msgs_view(messages@)[j] == t[j] by {
            if j == 0 {
                assert(messages@[0] == system_message);
                assert(t[0] == v[0]);
            } else {
                assert(messages@[j] == kept[j - 1]);
                assert(kept[j - 1] == orig[orig.len() - kept.len() + j - 1]);
                vstd::seq_lib::lemma_seq_skip_index(v, v.len() - (max_messages - 1), j - 1);
                assert(t[j] == v.skip(v.len() - (max_messages - 1))[j - 1]);
            }
        }
        assert(msgs_view(messages@) =~= t);
    }
}

/// Trimming never touches index 0: whatever the bound, the entry that
/// leads the history leads it afterwards too.
pub proof fn lemma_trim_preserves_system(s: Seq<MessageView>, max: int)
    requires
        s.len() >= 1,
    ensures
        trim_spec(s, max).len() >= 1,
        trim_spec(s, max)[0] == s[0],
{
}

/// For any history at least as long as a positive bound, trimming yields
/// a history no longer than the bound.
pub proof fn lemma_trim_bounds(s: Seq<MessageView>, max: int)
    requires
        1 <= max,
        max <= s.len(),
    ensures
        trim_spec(s, max).len() <= max,
{
}

} // verus!
