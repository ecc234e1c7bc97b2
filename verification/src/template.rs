//! Prompt templating: assembles a role-delimited prompt from a system
//! message and/or a chat history.
//!
//! Both entry shapes share one fixed set of delimiters (begin-of-text,
//! header open/close, end-of-turn) and always end with an open assistant
//! header, so the model continues from there.

use vstd::prelude::*;

use crate::config::ChatMessage;
use crate::text::seq_ends_with;
use crate::text::str_eq;

verus! {

use vstd::string::StringExecFns;

/// The begin-of-text marker.
pub open spec fn begin_marker() -> Seq<char> {
    "<|begin_of_text|>"@
}

/// The marker opening a role header.
pub open spec fn header_open() -> Seq<char> {
    "<|start_header_id|>"@
}

/// The marker closing a role header, with the blank line that follows it.
pub open spec fn header_close() -> Seq<char> {
    "<|end_header_id|>\n\n"@
}

/// The end-of-turn marker.
pub open spec fn turn_end() -> Seq<char> {
    "<|eot_id|>"@
}

/// The open assistant header every prompt ends with; no closing delimiter
/// follows it.
pub open spec fn assistant_open() -> Seq<char> {
    header_open() + "assistant"@ + header_close()
}

/// One closed role-delimited segment.
pub open spec fn segment(role: Seq<char>, content: Seq<char>) -> Seq<char> {
    header_open() + role + header_close() + content + turn_end()
}

/// The roles a chat message may carry; others are dropped.
pub open spec fn known_role(role: Seq<char>) -> bool {
    role == "system"@ || role == "user"@ || role == "assistant"@
}

/// The segment a message contributes: its closed segment for a known role,
/// nothing otherwise.
pub open spec fn segment_of(m: ChatMessage) -> Seq<char> {
    if known_role(m.role@) {
        segment(m.role@, m.content@)
    } else {
        Seq::empty()
    }
}

/// The concatenated segments of a message list, in order.
pub open spec fn segments(msgs: Seq<ChatMessage>) -> Seq<char>
    decreases msgs.len(),
{
    if msgs.len() == 0 {
        Seq::empty()
    } else {
        segment_of(msgs[0]) + segments(msgs.drop_first())
    }
}

/// The multi-turn prompt of a message list.
pub open spec fn chat_prompt(msgs: Seq<ChatMessage>) -> Seq<char> {
    begin_marker() + segments(msgs) + assistant_open()
}

/// The single-turn prompt: an optional system segment, the user segment,
/// then the open assistant header.
pub open spec fn single_prompt(system: Option<Seq<char>>, user: Seq<char>) -> Seq<char> {
    match system {
        Some(s) => begin_marker() + segment("system"@, s) + segment("user"@, user)
            + assistant_open(),
        None => begin_marker() + segment("user"@, user) + assistant_open(),
    }
}

/// The view of an optional string slice.
pub open spec fn opt_str_view(o: Option<&str>) -> Option<Seq<char>> {
    match o {
        Some(s) => Some(s@),
        None => None,
    }
}

/// Appends one closed role segment to `out`.
fn push_segment(out: &mut String, role: &str, content: &str)
    ensures
        final(out)@ == old(out)@ + segment(role@, content@),
{
    out.append("<|start_header_id|>");
    out.append(role);
    out.append("<|end_header_id|>\n\n");
    out.append(content);
    out.append("<|eot_id|>");
    proof {
        assert(out@ =~= old(out)@ + segment(role@, content@));
    }
}

/// Whether this message's role is one the templater keeps.
fn is_known_role(role: &str) -> (r: bool)
    ensures
        r == known_role(role@),
{
    str_eq(role, "system") || str_eq(role, "user") || str_eq(role, "assistant")
}

proof fn lemma_segments_snoc(msgs: Seq<ChatMessage>)
    requires
        msgs.len() > 0,
    ensures
        segments(msgs) == segments(msgs.drop_last()) + segment_of(msgs.last()),
    decreases msgs.len(),
{
    if msgs.len() == 1 {
        assert(msgs.drop_last() =~= Seq::<ChatMessage>::empty());
        assert(msgs.drop_first() =~= Seq::<ChatMessage>::empty());
        assert(segments(msgs) =~= segments(msgs.drop_last()) + segment_of(msgs.last()));
    } else {
        let rest = msgs.drop_first();
        lemma_segments_snoc(rest);
        assert(msgs.drop_last().drop_first() =~= rest.drop_last());
        assert(msgs.drop_last()[0] == msgs[0]);
        assert(segments(msgs.drop_last()) == segment_of(msgs[0]) + segments(rest.drop_last()));
        assert(segments(msgs) =~= segments(msgs.drop_last()) + segment_of(msgs.last()));
    }
}

/// Formats a chat history into a multi-turn prompt: one closed segment per
/// known-role message, in order, then an open assistant header. Messages
/// with unknown roles are dropped.
pub fn format_chat_messages(messages: &Vec<ChatMessage>) -> (r: String)
    ensures
        r@ == chat_prompt(messages@),
{
    let mut out = String::from_str("<|begin_of_text|>");
    let mut i: usize = 0;
    while i < messages.len()
        invariant
            i <= messages@.len(),
            out@ == begin_marker() + segments(messages@.take(i as int)),
        decreases messages@.len() - i,
    {
        let msg = &messages[i];
        if is_known_role(msg.role.as_str()) {
            push_segment(&mut out, msg.role.as_str(), msg.content.as_str());
        }
        proof {
            let taken = messages@.take(i + 1 as int);
            lemma_segments_snoc(taken);
            assert(taken.drop_last() =~= messages@.take(i as int));
            assert(taken.last() == messages@[i as int]);
            assert(out@ =~= begin_marker() + segments(taken));
        }
        i += 1;
    }
    proof {
        assert(messages@.take(messages@.len() as int) =~= messages@);
    }
    out.append("<|start_header_id|>");
    out.append("assistant");
    out.append("<|end_header_id|>\n\n");
    proof {
        assert(out@ =~= chat_prompt(messages@));
    }
    out
}

/// Builds a single-turn prompt: an optional system segment, then the user
/// segment, then an open assistant header.
pub fn build_single_prompt(system: Option<&str>, user: &str) -> (r: String)
    ensures
        r@ == single_prompt(opt_str_view(system), user@),
{
    let mut out = String::from_str("<|begin_of_text|>");
    match system {
        Some(sys) => {
            push_segment(&mut out, "system", sys);
        },
        None => {},
    }
    push_segment(&mut out, "user", user);
    out.append("<|start_header_id|>");
    out.append("assistant");
    out.append("<|end_header_id|>\n\n");
    proof {
        assert(out@ =~= single_prompt(opt_str_view(system), user@));
    }
    out
}

/// Whether each of `needles` occurs in `hay` as a substring, one after the
/// other in the given order, without overlap.
pub open spec fn appears_in_order(hay: Seq<char>, needles: Seq<Seq<char>>) -> bool
    decreases needles.len(),
{
    needles.len() == 0 || exists|k: int|
        {
            &&& 0 <= k
            &&& k + needles[0].len() <= hay.len()
            &&& #[trigger] hay.subrange(k, k + needles[0].len()) == needles[0]
            &&& appears_in_order(hay.skip(k + needles[0].len()), needles.drop_first())
        }
}

/// The role names and contents the templater keeps, in input order.
pub open spec fn kept_parts(msgs: Seq<ChatMessage>) -> Seq<Seq<char>>
    decreases msgs.len(),
{
    if msgs.len() == 0 {
        Seq::empty()
    } else {
        (if known_role(msgs[0].role@) {
            seq![msgs[0].role@, msgs[0].content@]
        } else {
            Seq::empty()
        }) + kept_parts(msgs.drop_first())
    }
}

proof fn lemma_appears_prepend(s: Seq<char>, t: Seq<char>, needles: Seq<Seq<char>>)
    requires
        appears_in_order(t, needles),
    ensures
        appears_in_order(s + t, needles),
{
    if needles.len() > 0 {
        let k = choose|k: int|
            {
                &&& 0 <= k
                &&& k + needles[0].len() <= t.len()
                &&& #[trigger] t.subrange(k, k + needles[0].len()) == needles[0]
                &&& appears_in_order(t.skip(k + needles[0].len()), needles.drop_first())
            };
        let k2 = s.len() + k;
        assert((s + t).subrange(k2 as int, k2 + needles[0].len()) =~= t.subrange(
            k,
            k + needles[0].len(),
        ));
        assert((s + t).skip(k2 + needles[0].len()) =~= t.skip(k + needles[0].len()));
    }
}

proof fn lemma_segments_appear(msgs: Seq<ChatMessage>, tail: Seq<char>)
    ensures
        appears_in_order(segments(msgs) + tail, kept_parts(msgs)),
    decreases msgs.len(),
{
    if msgs.len() == 0 {
    } else {
        let rest = msgs.drop_first();
        lemma_segments_appear(rest, tail);
        let parts = kept_parts(msgs);
        let hay = segments(msgs) + tail;
        if known_role(msgs[0].role@) {
            let role = msgs[0].role@;
            let content = msgs[0].content@;
            let suffix = segments(rest) + tail;
            // hay == header_open + role + header_close + content + turn_end + suffix
            let k1 = header_open().len() as int;
            assert(parts[0] == role);
            let inner = parts.drop_first();
            assert(inner[0] == content);
            assert(inner.drop_first() =~= kept_parts(rest));
            assert(hay.subrange(k1, k1 + parts[0].len()) =~= parts[0]);
            let hay2 = hay.skip(k1 + parts[0].len());
            // hay2 == header_close + content + turn_end + suffix
            let k2 = header_close().len() as int;
            assert(hay2.subrange(k2, k2 + inner[0].len()) =~= inner[0]);
            let hay3 = hay2.skip(k2 + inner[0].len());
            // hay3 == turn_end + suffix
            assert(hay3 =~= turn_end() + suffix);
            lemma_appears_prepend(turn_end(), suffix, kept_parts(rest));
            assert(appears_in_order(hay3, inner.drop_first()));
            assert(appears_in_order(hay2, inner));
            assert(appears_in_order(hay, parts));
        } else {
            assert(parts =~= kept_parts(rest));
            assert(hay =~= segments(rest) + tail);
        }
    }
}

/// Law: the multi-turn prompt contains every kept message's role name and
/// content as substrings, in the same relative order as the input, and ends
/// with the open assistant header.
pub proof fn lemma_chat_prompt_structure(msgs: Seq<ChatMessage>)
    ensures
        appears_in_order(chat_prompt(msgs), kept_parts(msgs)),
        seq_ends_with(chat_prompt(msgs), assistant_open()),
{
    lemma_segments_appear(msgs, assistant_open());
    lemma_appears_prepend(begin_marker(), segments(msgs) + assistant_open(), kept_parts(msgs));
    assert(begin_marker() + (segments(msgs) + assistant_open()) =~= chat_prompt(msgs));
    let p = chat_prompt(msgs);
    assert(p.subrange(p.len() - assistant_open().len(), p.len() as int) =~= assistant_open());
}

} // verus!
