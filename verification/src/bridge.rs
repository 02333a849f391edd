//! The conversation bridge: the marshalling core called once per
//! conversation round.
//!
//! The host hands over a batch of messages and expects a parallel batch of
//! responses. [`converse`] classifies each message by its style code,
//! dispatches it to the handler, records the answer of each prompt in the
//! matching response slot, and stops at the first failure: a prompt the
//! handler cannot answer, an error-class message, or an unrecognized style
//! code. On success it returns the full response array; on failure it
//! returns none, so a partially built array is never published.
//!
//! The round is modeled by recursive spec functions over the message
//! sequence: [`conv_status`] gives the resulting status, [`conv_handler`]
//! the handler's final state (and with it, exactly which messages the
//! handler observed), and [`conv_responses`] the contents of every response
//! slot.

use vstd::prelude::*;

use crate::conv::Conversation;
use crate::conv::PasswordConv;
use crate::types::PamMessage;
use crate::types::PamMessageStyle;
use crate::types::PamResponse;
use crate::types::PamReturnCode;
use crate::types::spec_style_from_code;
use crate::types::style_from_code;

verus! {

/// The status of handling one message in handler state `h`: `Success` for an
/// answered prompt or an informational message, `ConvErr` for a declined
/// prompt, an error-class message, or an unrecognized style code.
pub open spec fn step_status<C: Conversation>(h: C, m: PamMessage) -> PamReturnCode {
    match spec_style_from_code(m.msg_style) {
        Some(PamMessageStyle::PromptEchoOn) => if h.echo_answer(m.msg@) is Some {
            PamReturnCode::Success
        } else {
            PamReturnCode::ConvErr
        },
        Some(PamMessageStyle::PromptEchoOff) => if h.blind_answer(m.msg@) is Some {
            PamReturnCode::Success
        } else {
            PamReturnCode::ConvErr
        },
        Some(PamMessageStyle::TextInfo) => PamReturnCode::Success,
        Some(PamMessageStyle::ErrorMsg) => PamReturnCode::ConvErr,
        None => PamReturnCode::ConvErr,
    }
}

/// The handler state after it observes one message in state `h`. A message
/// with an unrecognized style code is never shown to the handler.
pub open spec fn step_handler<C: Conversation>(h: C, m: PamMessage) -> C {
    match spec_style_from_code(m.msg_style) {
        Some(PamMessageStyle::PromptEchoOn) => h.after_echo(m.msg@),
        Some(PamMessageStyle::PromptEchoOff) => h.after_blind(m.msg@),
        Some(PamMessageStyle::TextInfo) => h.after_info(m.msg@),
        Some(PamMessageStyle::ErrorMsg) => h.after_error(m.msg@),
        None => h,
    }
}

/// The response slot produced by one message in handler state `h`: the
/// handler's answer for a prompt-style message, `None` for every other
/// style.
pub open spec fn step_response<C: Conversation>(h: C, m: PamMessage) -> Option<Seq<u8>> {
    match spec_style_from_code(m.msg_style) {
        Some(PamMessageStyle::PromptEchoOn) => h.echo_answer(m.msg@),
        Some(PamMessageStyle::PromptEchoOff) => h.blind_answer(m.msg@),
        Some(PamMessageStyle::TextInfo) => None,
        Some(PamMessageStyle::ErrorMsg) => None,
        None => None,
    }
}

/// The status of a whole round started in handler state `h`: `Success` when
/// every message is handled, otherwise the status of the first failing step.
pub open spec fn conv_status<C: Conversation>(h: C, msgs: Seq<PamMessage>) -> PamReturnCode
    decreases msgs.len(),
{
    if msgs.len() == 0 {
        PamReturnCode::Success
    } else if step_status(h, msgs[0]) == PamReturnCode::Success {
        conv_status(step_handler(h, msgs[0]), msgs.drop_first())
    } else {
        step_status(h, msgs[0])
    }
}

/// The handler's state after a whole round started in state `h`. The
/// handler observes the messages strictly in order, up to and including the
/// first failing one, and none after it.
pub open spec fn conv_handler<C: Conversation>(h: C, msgs: Seq<PamMessage>) -> C
    decreases msgs.len(),
{
    if msgs.len() == 0 {
        h
    } else if step_status(h, msgs[0]) == PamReturnCode::Success {
        conv_handler(step_handler(h, msgs[0]), msgs.drop_first())
    } else {
        step_handler(h, msgs[0])
    }
}

/// The response slots of a whole round started in handler state `h`: one
/// slot per message, each prompt's slot holding the answer the handler gave
/// in the state it was in at that point, and every slot from the first
/// failing step on left unset.
pub open spec fn conv_responses<C: Conversation>(h: C, msgs: Seq<PamMessage>) -> Seq<
    Option<Seq<u8>>,
>
    decreases msgs.len(),
{
    if msgs.len() == 0 {
        Seq::empty()
    } else if step_status(h, msgs[0]) == PamReturnCode::Success {
        seq![step_response(h, msgs[0])] + conv_responses(step_handler(h, msgs[0]), msgs.drop_first())
    } else {
        seq![step_response(h, msgs[0])] + Seq::new((msgs.len() - 1) as nat, |i: int| None)
    }
}

/// The contents of an exec response array, slot by slot.
pub open spec fn responses_view(rs: Seq<PamResponse>) -> Seq<Option<Seq<u8>>> {
    rs.map_values(|r: PamResponse| r@)
}

/// Conduct one conversation round.
///
/// Every message in `msgs` is classified by its style code and dispatched to
/// `handler`, strictly in order, stopping at the first failure. On success
/// the result is `(Success, Some(responses))` with one slot per message; on
/// failure it is `(ConvErr, None)` and no response array is published.
pub fn converse<C: Conversation>(handler: &mut C, msgs: &Vec<PamMessage>) -> (r: (
    PamReturnCode,
    Option<Vec<PamResponse>>,
))
    ensures
        *final(handler) == conv_handler(*old(handler), msgs@),
        r.0 == conv_status(*old(handler), msgs@),
        (r.0 == PamReturnCode::Success) <==> (r.1 is Some),
        (match r.1 {
            Some(resps) => resps@.len() == msgs@.len() && responses_view(resps@) == conv_responses(
                *old(handler),
                msgs@,
            ),
            None => true,
        }),
{
    let ghost h0 = *handler;
    let mut status = PamReturnCode::Success;
    let mut responses: Vec<PamResponse> = Vec::new();
    let mut i: usize = 0;
    proof {
        assert(msgs@.skip(0) =~= msgs@);
        assert(responses_view(responses@) + conv_responses(h0, msgs@) =~= conv_responses(
            h0,
            msgs@,
        ));
    }
    while i < msgs.len() && status == PamReturnCode::Success
        invariant
            i <= msgs@.len(),
            responses@.len() == i,
            status == PamReturnCode::Success || status == PamReturnCode::ConvErr,
            status == PamReturnCode::Success ==> {
                &&& conv_handler(h0, msgs@) == conv_handler(*handler, msgs@.skip(i as int))
                &&& conv_status(h0, msgs@) == conv_status(*handler, msgs@.skip(i as int))
                &&& conv_responses(h0, msgs@) == responses_view(responses@) + conv_responses(
                    *handler,
                    msgs@.skip(i as int),
                )
            },
            status != PamReturnCode::Success ==> {
                &&& conv_handler(h0, msgs@) == *handler
                &&& conv_status(h0, msgs@) == status
            },
        decreases msgs@.len() - i,
    {
        let ghost h_at = *handler;
        let ghost rest = msgs@.skip(i as int);
        proof {
            assert(rest[0] == msgs@[i as int]);
            assert(rest.drop_first() =~= msgs@.skip(i as int + 1));
        }
        let m = &msgs[i];
        match style_from_code(m.msg_style) {
            Some(PamMessageStyle::PromptEchoOn) => {
                match handler.prompt_echo(&m.msg) {
                    Ok(ans) => {
                        responses.push(PamResponse { resp: Some(ans) });
                    },
                    Err(()) => {
                        status = PamReturnCode::ConvErr;
                        responses.push(PamResponse { resp: None });
                    },
                }
            },
            Some(PamMessageStyle::PromptEchoOff) => {
                match handler.prompt_blind(&m.msg) {
                    Ok(ans) => {
                        responses.push(PamResponse { resp: Some(ans) });
                    },
                    Err(()) => {
                        status = PamReturnCode::ConvErr;
                        responses.push(PamResponse { resp: None });
                    },
                }
            },
            Some(PamMessageStyle::TextInfo) => {
                handler.info(&m.msg);
                responses.push(PamResponse { resp: None });
            },
            Some(PamMessageStyle::ErrorMsg) => {
                handler.error(&m.msg);
                status = PamReturnCode::ConvErr;
                responses.push(PamResponse { resp: None });
            },
            None => {
                status = PamReturnCode::ConvErr;
                responses.push(PamResponse { resp: None });
            },
        }
        proof {
            assert(*handler == step_handler(h_at, msgs@[i as int]));
            if status == PamReturnCode::Success {
                assert(step_status(h_at, rest[0]) == PamReturnCode::Success);
                assert(responses_view(responses@) =~= responses_view(responses@.drop_last()).push(
                    step_response(h_at, msgs@[i as int]),
                ));
                assert(responses_view(responses@.drop_last()).push(
                    step_response(h_at, msgs@[i as int]),
                ) + conv_responses(*handler, rest.drop_first()) =~= responses_view(
                    responses@.drop_last(),
                ) + conv_responses(h_at, rest));
            } else {
                assert(step_status(h_at, rest[0]) == PamReturnCode::ConvErr);
            }
        }
        i += 1;
    }
    if status == PamReturnCode::Success {
        proof {
            assert(msgs@.skip(msgs@.len() as int) =~= Seq::<PamMessage>::empty());
            assert(responses_view(responses@) + conv_responses(*handler, msgs@.skip(i as int))
                =~= responses_view(responses@));
        }
        (PamReturnCode::Success, Some(responses))
    } else {
        (status, None)
    }
}

/// True when the message carries one of the two prompting styles, the only
/// styles that fill a response slot.
pub open spec fn is_prompt(m: PamMessage) -> bool {
    spec_style_from_code(m.msg_style) == Some(PamMessageStyle::PromptEchoOn)
        || spec_style_from_code(m.msg_style) == Some(PamMessageStyle::PromptEchoOff)
}

/// The handler's state just before message `i` is handled, when every
/// earlier step succeeded: the result of observing the first `i` messages.
pub open spec fn handler_before<C: Conversation>(h: C, msgs: Seq<PamMessage>, i: int) -> C {
    conv_handler(h, msgs.take(i))
}

/// True when every step of the round succeeds: each message carries a known
/// style, no message is error-class, and the handler, in the state it has
/// reached at that point, answers every prompt.
pub open spec fn steps_all_succeed<C: Conversation>(h: C, msgs: Seq<PamMessage>) -> bool
    decreases msgs.len(),
{
    msgs.len() == 0 || (step_status(h, msgs[0]) == PamReturnCode::Success && steps_all_succeed(
        step_handler(h, msgs[0]),
        msgs.drop_first(),
    ))
}

/// A published response array always has exactly one slot per incoming
/// message.
pub proof fn lemma_conv_responses_len<C: Conversation>(h: C, msgs: Seq<PamMessage>)
    ensures
        conv_responses(h, msgs).len() == msgs.len(),
    decreases msgs.len(),
{
    if msgs.len() > 0 && step_status(h, msgs[0]) == PamReturnCode::Success {
        lemma_conv_responses_len(step_handler(h, msgs[0]), msgs.drop_first());
    }
}

/// The round itself never reports an allocation failure: a handler's
/// inability to answer, an error-class message, and an unrecognized style
/// code are all conversation errors. `BufErr` can only arise where the
/// response array is allocated, outside this core.
pub proof fn lemma_conv_status_never_buf_err<C: Conversation>(h: C, msgs: Seq<PamMessage>)
    ensures
        conv_status(h, msgs) != PamReturnCode::BufErr,
    decreases msgs.len(),
{
    if msgs.len() > 0 && step_status(h, msgs[0]) == PamReturnCode::Success {
        lemma_conv_status_never_buf_err(step_handler(h, msgs[0]), msgs.drop_first());
    }
}

/// An empty round always succeeds: the status is `Success`, the published
/// response array is empty, and the handler is never invoked.
pub proof fn lemma_empty_conversation<C: Conversation>(h: C)
    ensures
        conv_status(h, Seq::<PamMessage>::empty()) == PamReturnCode::Success,
        conv_responses(h, Seq::<PamMessage>::empty()) == Seq::<Option<Seq<u8>>>::empty(),
        conv_handler(h, Seq::<PamMessage>::empty()) == h,
{
}

/// When every step of the round succeeds, the round succeeds: the status is
/// `Success`, there is one response slot per message, each slot holds
/// exactly the answer the handler gave to that message in the state it had
/// reached at that point, and a slot is filled if and only if its message is
/// a prompt.
pub proof fn lemma_successful_conversation<C: Conversation>(h: C, msgs: Seq<PamMessage>)
    requires
        steps_all_succeed(h, msgs),
    ensures
        conv_status(h, msgs) == PamReturnCode::Success,
        conv_responses(h, msgs).len() == msgs.len(),
        forall|i: int|
            0 <= i < msgs.len() ==> #[trigger] step_status(handler_before(h, msgs, i), msgs[i])
                == PamReturnCode::Success,
        forall|i: int|
            0 <= i < msgs.len() ==> #[trigger] conv_responses(h, msgs)[i] == step_response(
                handler_before(h, msgs, i),
                msgs[i],
            ),
        forall|i: int|
            0 <= i < msgs.len() ==> ((#[trigger] conv_responses(h, msgs)[i] is Some) <==> is_prompt(
                msgs[i],
            )),
    decreases msgs.len(),
{
    lemma_conv_responses_len(h, msgs);
    if msgs.len() > 0 {
        let h1 = step_handler(h, msgs[0]);
        let rest = msgs.drop_first();
        lemma_successful_conversation(h1, rest);
        assert forall|i: int| 0 <= i < msgs.len() implies handler_before(h, msgs, i) == (if i == 0 {
            h
        } else {
            handler_before(h1, rest, i - 1)
        }) by {
            if i == 0 {
                assert(msgs.take(0) =~= Seq::<PamMessage>::empty());
            } else {
                assert(msgs.take(i)[0] == msgs[0]);
                assert(msgs.take(i).drop_first() =~= rest.take(i - 1));
            }
        }
        assert forall|i: int|
            0 <= i < msgs.len() implies #[trigger] conv_responses(h, msgs)[i] == step_response(
            handler_before(h, msgs, i),
            msgs[i],
        ) by {
            if i > 0 {
                assert(conv_responses(h, msgs)[i] == conv_responses(h1, rest)[i - 1]);
                assert(rest[i - 1] == msgs[i]);
            }
        }
        assert forall|i: int|
            0 <= i < msgs.len() implies #[trigger] step_status(handler_before(h, msgs, i), msgs[i])
            == PamReturnCode::Success by {
            if i > 0 {
                assert(step_status(handler_before(h1, rest, i - 1), rest[i - 1])
                    == PamReturnCode::Success);
                assert(rest[i - 1] == msgs[i]);
            }
        }
    }
}

/// When the first `k` steps succeed and step `k` fails, the round stops
/// there: the status is the failing step's status, namely `ConvErr`, and the
/// handler observes the messages up to and including message `k` and none
/// after it.
pub proof fn lemma_stops_at_first_failure<C: Conversation>(h: C, msgs: Seq<PamMessage>, k: int)
    requires
        0 <= k < msgs.len(),
        steps_all_succeed(h, msgs.take(k)),
        step_status(handler_before(h, msgs, k), msgs[k]) != PamReturnCode::Success,
    ensures
        conv_status(h, msgs) == step_status(handler_before(h, msgs, k), msgs[k]),
        conv_status(h, msgs) == PamReturnCode::ConvErr,
        conv_handler(h, msgs) == step_handler(handler_before(h, msgs, k), msgs[k]),
    decreases k,
{
    if k == 0 {
        assert(msgs.take(0) =~= Seq::<PamMessage>::empty());
    } else {
        let h1 = step_handler(h, msgs[0]);
        let rest = msgs.drop_first();
        assert(msgs.take(k)[0] == msgs[0]);
        assert(msgs.take(k).drop_first() =~= rest.take(k - 1));
        assert(rest[k - 1] == msgs[k]);
        lemma_stops_at_first_failure(h1, rest, k - 1);
    }
}

/// A round containing an error-class message never succeeds, even when the
/// handler answers every prompt before it.
pub proof fn lemma_error_message_fails<C: Conversation>(h: C, msgs: Seq<PamMessage>, k: int)
    requires
        0 <= k < msgs.len(),
        spec_style_from_code(msgs[k].msg_style) == Some(PamMessageStyle::ErrorMsg),
    ensures
        conv_status(h, msgs) == PamReturnCode::ConvErr,
    decreases k,
{
    if step_status(h, msgs[0]) == PamReturnCode::Success {
        assert(k > 0);
        assert(msgs.drop_first()[k - 1] == msgs[k]);
        lemma_error_message_fails(step_handler(h, msgs[0]), msgs.drop_first(), k - 1);
    }
}

/// When every step before the first error-class message succeeds, the round
/// fails with `ConvErr`, and the handler's `error` notification is invoked
/// exactly once for that message, in the state the handler had reached, and
/// no message after it is observed.
pub proof fn lemma_error_message_observed<C: Conversation>(h: C, msgs: Seq<PamMessage>, k: int)
    requires
        0 <= k < msgs.len(),
        steps_all_succeed(h, msgs.take(k)),
        spec_style_from_code(msgs[k].msg_style) == Some(PamMessageStyle::ErrorMsg),
    ensures
        conv_status(h, msgs) == PamReturnCode::ConvErr,
        conv_handler(h, msgs) == handler_before(h, msgs, k).after_error(msgs[k].msg@),
{
    lemma_stops_at_first_failure(h, msgs, k);
}

/// A [`PasswordConv`] handler is stateless: a round leaves it exactly as it
/// was, so repeated rounds against the same handler behave identically.
pub proof fn lemma_password_conv_stateless(h: PasswordConv, msgs: Seq<PamMessage>)
    ensures
        conv_handler(h, msgs) == h,
    decreases msgs.len(),
{
    if msgs.len() > 0 {
        assert(step_handler(h, msgs[0]) == h);
        if step_status(h, msgs[0]) == PamReturnCode::Success {
            lemma_password_conv_stateless(h, msgs.drop_first());
        }
    }
}

} // verus!

