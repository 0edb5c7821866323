//! What holds of every callback, whatever events arrive and in whatever order.

use crate::callback::{
    callback_start, callback_step, reply_of, CallbackActionView, CallbackEventView,
    CallbackFlowView, CallbackReplyView, CallbackStage,
};
use crate::exchange::OAuthClientView;
use vstd::prelude::*;

verus! {

/// The actions that a flow asks for, in order, while `events` arrive one by one.
pub open spec fn callback_run(flow: CallbackFlowView, events: Seq<CallbackEventView>) -> Seq<
    CallbackActionView,
>
    decreases events.len(),
{
    if events.len() == 0 {
        Seq::empty()
    } else {
        let (next, action) = callback_step(flow, events[0]);
        let rest = callback_run(next, events.drop_first());
        match action {
            Some(a) => seq![a] + rest,
            None => rest,
        }
    }
}

/// The first answer of the store among `events`.
pub open spec fn first_store_answer(events: Seq<CallbackEventView>) -> Option<CallbackEventView>
    decreases events.len(),
{
    if events.len() == 0 {
        None
    } else {
        match events[0] {
            CallbackEventView::StateConsumed(_) => Some(events[0]),
            CallbackEventView::StoreFailed => Some(events[0]),
            _ => first_store_answer(events.drop_first()),
        }
    }
}

/// From `at` on there is nothing, or the response and nothing after it.
pub open spec fn closes(run: Seq<CallbackActionView>, at: int) -> bool {
    run.len() == at || (run.len() == at + 1 && run[at] is Respond)
}

/// From `at` on: the body is read and the response follows, or the response alone.
pub open spec fn reads(run: Seq<CallbackActionView>, at: int) -> bool {
    ||| run.len() == at
    ||| (run.len() > at && run[at] is ReadBody && closes(run, at + 1))
    ||| (run.len() == at + 1 && run[at] is Respond)
}

/// The order in which a flow at `stage` can still ask for actions.
pub open spec fn well_ordered(stage: CallbackStage, run: Seq<CallbackActionView>) -> bool {
    match stage {
        CallbackStage::Consuming => {
            ||| run.len() == 0
            ||| (run[0] is Exchange && reads(run, 1))
            ||| (run.len() == 1 && run[0] is Respond)
        },
        CallbackStage::Exchanging => reads(run, 0),
        CallbackStage::Reading => closes(run, 0),
        CallbackStage::Finished => run.len() == 0,
    }
}

/// Whatever events arrive, a flow asks for its actions in the order that its stage
/// leaves open.
pub proof fn lemma_run_is_well_ordered(flow: CallbackFlowView, events: Seq<CallbackEventView>)
    ensures
        well_ordered(flow.stage, callback_run(flow, events)),
    decreases events.len(),
{
    if events.len() > 0 {
        lemma_run_is_well_ordered(callback_step(flow, events[0]).0, events.drop_first());
    }
}

/// A callback whose state is not among the login states is answered as invalid at
/// once: no exchange is asked for, and no later event brings another action.
pub proof fn law_unknown_state_is_rejected(
    client: OAuthClientView,
    code: Seq<char>,
    events: Seq<CallbackEventView>,
)
    requires
        first_store_answer(events) == Some(CallbackEventView::StateConsumed(false)),
    ensures
        callback_run(callback_start(client, code), events) == seq![
            CallbackActionView::Respond(CallbackReplyView::InvalidState),
        ],
    decreases events.len(),
{
    let flow = callback_start(client, code);
    match events[0] {
        CallbackEventView::StateConsumed(_) => {
            lemma_run_is_well_ordered(callback_step(flow, events[0]).0, events.drop_first());
        },
        CallbackEventView::StoreFailed => {},
        _ => {
            law_unknown_state_is_rejected(client, code, events.drop_first());
        },
    }
}

proof fn lemma_exchange_needs_consumed_state(
    client: OAuthClientView,
    code: Seq<char>,
    events: Seq<CallbackEventView>,
)
    requires
        callback_run(callback_start(client, code), events).len() > 0,
        callback_run(callback_start(client, code), events)[0] is Exchange,
    ensures
        first_store_answer(events) == Some(CallbackEventView::StateConsumed(true)),
    decreases events.len(),
{
    if callback_step(callback_start(client, code), events[0]).1 is None {
        lemma_exchange_needs_consumed_state(client, code, events.drop_first());
    }
}

/// The login state goes before the exchange. Of the actions of any callback after
/// the consumption that it starts with: the state is not consumed a second time; an
/// exchange is asked for at most once, before anything else, and only when the
/// store's first answer was that the state existed and is deleted; a body is read
/// only after the exchange; the response is the last action.
pub proof fn law_exchange_follows_consumption(
    client: OAuthClientView,
    code: Seq<char>,
    events: Seq<CallbackEventView>,
)
    ensures
        ({
            let run = callback_run(callback_start(client, code), events);
            &&& forall|k: int| 0 <= k < run.len() ==> !(#[trigger] run[k] is Consume)
            &&& forall|k: int|
                0 <= k < run.len() && #[trigger] run[k] is Exchange ==> k == 0
                    && first_store_answer(events) == Some(CallbackEventView::StateConsumed(true))
            &&& forall|k: int|
                0 <= k < run.len() && #[trigger] run[k] is ReadBody ==> k == 1 && run[0]
                    is Exchange
            &&& forall|k: int|
                0 <= k < run.len() && #[trigger] run[k] is Respond ==> k == run.len() - 1
        }),
{
    let run = callback_run(callback_start(client, code), events);
    lemma_run_is_well_ordered(callback_start(client, code), events);
    if run.len() > 0 && run[0] is Exchange {
        lemma_exchange_needs_consumed_state(client, code, events);
    }
}

/// The answer to the exchange decides the reply. A status other than 200 is answered
/// with that status at once, and the body is not read. After status 200 the body is
/// read, and the response is the reply that status and body lead to.
pub proof fn law_exchange_answer_decides_reply(
    exchanging: CallbackFlowView,
    status: u16,
    body: Seq<char>,
)
    requires
        exchanging.stage == CallbackStage::Exchanging,
    ensures
        ({
            let answered = callback_step(
                exchanging,
                CallbackEventView::ExchangeAnswered { status },
            );
            if status == 200 {
                &&& answered.1 == Some(CallbackActionView::ReadBody)
                &&& callback_step(answered.0, CallbackEventView::BodyRead { body }).1 == Some(
                    CallbackActionView::Respond(reply_of(status, body)),
                )
            } else {
                answered.1 == Some(CallbackActionView::Respond(reply_of(status, body)))
            }
        }),
{
}

} // verus!
