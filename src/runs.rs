//! Whole runs of an exchange: what a sequence of events makes it do.
use vstd::prelude::*;
use vstd::utf8::encode_utf8;
use crate::delivery::{DeliveryView, MESSAGE_LIMIT, attachment_caption, attachment_name, byte_len};
use crate::relay::{ActionView, EventView, ExchangeView, MessageView, Stage, initial, next, request_of};
use crate::response::{decoded_candidates, first_text, response_head_settled};

verus! {

/// The state reached and the actions asked for, event by event.
pub open spec fn run(s: ExchangeView, events: Seq<EventView>) -> (ExchangeView, Seq<ActionView>)
    decreases events.len(),
{
    if events.len() == 0 {
        (s, Seq::empty())
    } else {
        let (s1, a) = next(s, events[0]);
        let (s2, rest) = run(s1, events.drop_first());
        (s2, seq![a] + rest)
    }
}

/// How many of `actions` satisfy `p`.
pub open spec fn count(actions: Seq<ActionView>, p: spec_fn(ActionView) -> bool) -> nat
    decreases actions.len(),
{
    if actions.len() == 0 {
        0
    } else {
        (if p(actions[0]) { 1nat } else { 0nat }) + count(actions.drop_first(), p)
    }
}

pub open spec fn is_generate(a: ActionView) -> bool {
    a is Generate
}

pub open spec fn is_start_typing(a: ActionView) -> bool {
    a is StartTyping
}

pub open spec fn is_stop_typing(a: ActionView) -> bool {
    a is StopTyping
}

/// The requests made once the exchange is at `stage`, after a message that
/// passed the bot filter.
pub open spec fn requests_made(stage: Stage) -> int {
    if stage == Stage::Typing { 0 } else { 1 }
}

/// The releases of the typing indicator made once the exchange is at `stage`.
pub open spec fn releases_made(stage: Stage) -> int {
    if stage == Stage::Done { 1 } else { 0 }
}

proof fn lemma_count_prepend(a: ActionView, rest: Seq<ActionView>, p: spec_fn(ActionView) -> bool)
    ensures
        count(seq![a] + rest, p) == (if p(a) { 1nat } else { 0nat }) + count(rest, p),
{
    assert((seq![a] + rest).drop_first() =~= rest);
}

/// Once over, an exchange stays over and asks for nothing.
proof fn lemma_done_is_quiet(s: ExchangeView, events: Seq<EventView>)
    requires
        s.stage == Stage::Done,
    ensures
        run(s, events).0 == s,
        forall|i: int| 0 <= i < run(s, events).1.len() ==> run(s, events).1[i] is Nothing,
    decreases events.len(),
{
    if events.len() > 0 {
        lemma_done_is_quiet(s, events.drop_first());
    }
}

/// From any stage after the bot filter, the requests and releases that a run
/// asks for are those that its stages account for, every request is the one
/// for the message, and the indicator is not started again.
proof fn lemma_engaged_run(s: ExchangeView, events: Seq<EventView>)
    requires
        s.stage != Stage::Idle,
        s.stage == Stage::Done ==> requests_made(s.stage) == 1,
    ensures
        run(s, events).0.stage != Stage::Idle,
        run(s, events).0.text == s.text,
        run(s, events).0.instruction == s.instruction,
        s.stage != Stage::Typing ==> run(s, events).0.stage != Stage::Typing,
        count(run(s, events).1, |a: ActionView| is_generate(a)) == requests_made(run(s, events).0.stage)
            - requests_made(s.stage),
        count(run(s, events).1, |a: ActionView| is_stop_typing(a)) == releases_made(
            run(s, events).0.stage,
        ) - releases_made(s.stage),
        count(run(s, events).1, |a: ActionView| is_start_typing(a)) == 0,
        forall|i: int|
            0 <= i < run(s, events).1.len() && (#[trigger] run(s, events).1[i]) is Generate
                ==> run(s, events).1[i] == ActionView::Generate(request_of(s.instruction, s.text)),
    decreases events.len(),
{
    if events.len() > 0 {
        let (s1, a) = next(s, events[0]);
        let rest = run(s1, events.drop_first()).1;
        lemma_engaged_run(s1, events.drop_first());
        lemma_count_prepend(a, rest, |a: ActionView| is_generate(a));
        lemma_count_prepend(a, rest, |a: ActionView| is_stop_typing(a));
        lemma_count_prepend(a, rest, |a: ActionView| is_start_typing(a));
        assert forall|i: int|
            0 <= i < run(s, events).1.len() && (#[trigger] run(s, events).1[i]) is Generate
                implies run(s, events).1[i] == ActionView::Generate(request_of(s.instruction, s.text)) by {
            if i > 0 {
                assert(run(s, events).1[i] == rest[i - 1]);
            }
        }
    }
}

/// A message from a bot gets no reply: whatever events follow, the exchange
/// never starts the typing indicator, asks the generation service nothing and
/// sends nothing.
pub proof fn bot_message_is_ignored(instruction: Seq<char>, m: MessageView, events: Seq<EventView>)
    requires
        m.author_is_bot,
    ensures
        forall|i: int| 0 <= i < run(initial(instruction), seq![EventView::Received(m)] + events).1.len()
            ==> (#[trigger] run(initial(instruction), seq![EventView::Received(m)] + events).1[i]) is Nothing,
{
    let all = seq![EventView::Received(m)] + events;
    assert(all.drop_first() =~= events);
    let s1 = next(initial(instruction), all[0]).0;
    lemma_done_is_quiet(s1, events);
}

/// A message from anyone else leads to exactly one request, for its text
/// verbatim, and to exactly one release of the typing indicator, once the
/// exchange is over, whichever step failed; before that, to at most one
/// request and no release. The indicator is started exactly once.
pub proof fn message_gets_one_request_and_one_release(
    instruction: Seq<char>,
    m: MessageView,
    events: Seq<EventView>,
)
    requires
        !m.author_is_bot,
    ensures
        ({
            let (s, actions) = run(initial(instruction), seq![EventView::Received(m)] + events);
            &&& count(actions, |a: ActionView| is_start_typing(a)) == 1
            &&& count(actions, |a: ActionView| is_generate(a)) <= 1
            &&& count(actions, |a: ActionView| is_stop_typing(a)) <= 1
            &&& s.stage == Stage::Done ==> count(actions, |a: ActionView| is_generate(a)) == 1
            &&& s.stage == Stage::Done ==> count(actions, |a: ActionView| is_stop_typing(a)) == 1
            &&& forall|i: int|
                0 <= i < actions.len() && (#[trigger] actions[i]) is Generate ==> actions[i]
                    == ActionView::Generate(request_of(instruction, m.content))
        }),
{
    let all = seq![EventView::Received(m)] + events;
    assert(all.drop_first() =~= events);
    let (s1, a) = next(initial(instruction), all[0]);
    let rest = run(s1, events).1;
    lemma_engaged_run(s1, events);
    lemma_count_prepend(a, rest, |a: ActionView| is_generate(a));
    lemma_count_prepend(a, rest, |a: ActionView| is_stop_typing(a));
    lemma_count_prepend(a, rest, |a: ActionView| is_start_typing(a));
    let actions = run(initial(instruction), all).1;
    assert forall|i: int|
        0 <= i < actions.len() && (#[trigger] actions[i]) is Generate implies actions[i]
            == ActionView::Generate(request_of(instruction, m.content)) by {
        if i > 0 {
            assert(actions[i] == rest[i - 1]);
        }
    }
}

/// A reply whose first candidate's first part is `t` goes to the message's
/// channel as `t` itself where its UTF-8 form fits in one message, and
/// otherwise as exactly those bytes, in `response.txt`, under the fixed caption.
pub proof fn reply_is_delivered_by_length(s: ExchangeView, raw: Seq<char>, t: Seq<char>)
    requires
        s.stage == Stage::Generating,
        response_head_settled(raw),
        decoded_candidates(raw) is Some,
        first_text(decoded_candidates(raw)->0) == Some(t),
    ensures
        next(s, EventView::Generated(raw)).0.stage == Stage::Delivering,
        byte_len(t) <= MESSAGE_LIMIT ==> next(s, EventView::Generated(raw)).1 == (ActionView::Send {
            channel: s.channel,
            delivery: DeliveryView::Inline(t),
        }),
        byte_len(t) > MESSAGE_LIMIT ==> next(s, EventView::Generated(raw)).1 == (ActionView::Send {
            channel: s.channel,
            delivery: DeliveryView::File {
                data: encode_utf8(t),
                filename: attachment_name(),
                caption: attachment_caption(),
            },
        }),
{
}

} // verus!
