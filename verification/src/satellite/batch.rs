//! The order in which the messages of a proposal run, and the sub-messages
//! that make them run in that order with one callback at the end.

use crate::governance::{ProposalMessage, ProposalMessageView};
use crate::host::{fire_and_forget, OutMsg, OutMsgView, ReplyOn, SubMsg, SubMsgView};
use vstd::prelude::*;

verus! {

/// The number by which the satellite knows the callback of a proposal's
/// last message.
pub const RECEIVE_ID: u64 = 1;

/// A message numbered `a` runs before one numbered `b`: messages without a
/// number run first, numbered ones in ascending order.
pub open spec fn runs_before(a: Option<u64>, b: Option<u64>) -> bool {
    match (a, b) {
        (None, Some(_)) => true,
        (Some(x), Some(y)) => x < y,
        _ => false,
    }
}

/// Whether a message numbered `a` runs before one numbered `b`.
pub fn order_runs_before(a: Option<u64>, b: Option<u64>) -> (before: bool)
    ensures
        before == runs_before(a, b),
{
    match (a, b) {
        (None, Some(_)) => true,
        (Some(x), Some(y)) => x < y,
        _ => false,
    }
}

/// `output` holds the messages of `input` in running order, and `places`
/// tells for each message of `output` where in `input` it stood: messages
/// are ordered by their number, and those with the same number, or with
/// none, keep the order in which they came.
pub open spec fn is_running_order<M>(
    input: Seq<ProposalMessageView<M>>,
    output: Seq<ProposalMessageView<M>>,
    places: Seq<int>,
) -> bool {
    &&& output.len() == input.len()
    &&& places.len() == input.len()
    &&& forall|i: int| 0 <= i < places.len() ==> 0 <= #[trigger] places[i] < input.len()
    &&& forall|i: int| 0 <= i < places.len() ==> #[trigger] output[i] == input[places[i]]
    &&& forall|i: int, j: int|
        0 <= i < j < places.len() ==> {
            let first = input[#[trigger] places[i]].order;
            let second = input[#[trigger] places[j]].order;
            runs_before(first, second) || (first == second && places[i] < places[j])
        }
}

/// Where a message numbered `order` goes into messages that are in
/// running order already, looking from position `from` on: before the
/// first message that runs after it, and so behind all messages of its
/// own number.
pub open spec fn slot_from<M>(
    sorted: Seq<ProposalMessageView<M>>,
    order: Option<u64>,
    from: int,
) -> int
    decreases sorted.len() - from,
{
    if from < 0 || from >= sorted.len() || runs_before(order, sorted[from].order) {
        from
    } else {
        slot_from(sorted, order, from + 1)
    }
}

/// The messages of `input` in running order: by their number, those with
/// the same number, or with none, in the order in which they came.
pub open spec fn running_order<M>(input: Seq<ProposalMessageView<M>>) -> Seq<
    ProposalMessageView<M>,
>
    decreases input.len(),
{
    if input.len() == 0 {
        input
    } else {
        let earlier = running_order(input.drop_last());
        earlier.insert(slot_from(earlier, input.last().order, 0), input.last())
    }
}

/// For each message of `running_order(input)`, where in `input` it stood.
pub open spec fn running_places<M>(input: Seq<ProposalMessageView<M>>) -> Seq<int>
    decreases input.len(),
{
    if input.len() == 0 {
        Seq::empty()
    } else {
        let earlier = running_order(input.drop_last());
        running_places(input.drop_last()).insert(
            slot_from(earlier, input.last().order, 0),
            input.len() - 1,
        )
    }
}

/// The slot found from `from` on lies at or behind `from`, no message
/// between the two runs after the new one, and the message in the slot,
/// if there is one, does.
pub proof fn slot_is_behind_equals<M>(
    sorted: Seq<ProposalMessageView<M>>,
    order: Option<u64>,
    from: int,
)
    requires
        0 <= from <= sorted.len(),
    ensures
        from <= slot_from(sorted, order, from) <= sorted.len(),
        forall|k: int|
            from <= k < slot_from(sorted, order, from) ==> !runs_before(
                order,
                #[trigger] sorted[k].order,
            ),
        slot_from(sorted, order, from) < sorted.len() ==> runs_before(
            order,
            sorted[slot_from(sorted, order, from)].order,
        ),
    decreases sorted.len() - from,
{
    if from < sorted.len() && !runs_before(order, sorted[from].order) {
        slot_is_behind_equals(sorted, order, from + 1);
    }
}

/// Running order is what its name says: `running_order(input)` holds
/// every message of `input` once, `running_places(input)` telling where
/// each stood; the messages are ordered by their number; and messages
/// with the same number, or with none, keep the order in which they came.
pub proof fn running_order_sorts_and_keeps_ties<M>(input: Seq<ProposalMessageView<M>>)
    ensures
        is_running_order(input, running_order(input), running_places(input)),
    decreases input.len(),
{
    if input.len() > 0 {
        let prefix = input.drop_last();
        let item = input.last();
        let taken = input.len() - 1;
        running_order_sorts_and_keeps_ties(prefix);
        let before = running_order(prefix);
        let old_places = running_places(prefix);
        let at = slot_from(before, item.order, 0);
        slot_is_behind_equals(before, item.order, 0);
        let output = running_order(input);
        let places = running_places(input);
        assert(output == before.insert(at, item));
        assert(places == old_places.insert(at, taken));
        assert forall|i: int| 0 <= i < places.len() implies 0 <= #[trigger] places[i] < input.len()
            && output[i] == input[places[i]] by {
            if i < at {
                assert(places[i] == old_places[i]);
                assert(before[i] == prefix[old_places[i]]);
            } else if i > at {
                assert(places[i] == old_places[i - 1]);
                assert(before[i - 1] == prefix[old_places[i - 1]]);
            }
        }
        assert forall|i: int, j: int| 0 <= i < j < places.len() implies ({
            let first = input[#[trigger] places[i]].order;
            let second = input[#[trigger] places[j]].order;
            runs_before(first, second) || (first == second && places[i] < places[j])
        }) by {
            let oi = if i < at {
                i
            } else {
                i - 1
            };
            let oj = if j < at {
                j
            } else {
                j - 1
            };
            if i != at && j != at {
                assert(places[i] == old_places[oi]);
                assert(places[j] == old_places[oj]);
                assert(prefix[old_places[oi]] == input[old_places[oi]]);
                assert(prefix[old_places[oj]] == input[old_places[oj]]);
            } else if j == at {
                assert(places[i] == old_places[i]);
                assert(before[i] == prefix[old_places[i]]);
                assert(!runs_before(item.order, before[i].order));
            } else {
                assert(places[j] == old_places[j - 1]);
                assert(before[j - 1] == prefix[old_places[j - 1]]);
                assert(before[at] == prefix[old_places[at]]);
                assert(runs_before(item.order, before[at].order));
                if j - 1 > at {
                    assert(prefix[old_places[at]] == input[old_places[at]]);
                    assert(prefix[old_places[j - 1]] == input[old_places[j - 1]]);
                }
            }
        }
    }
}

/// Running order rearranges and does no more: every message is in
/// `running_order(input)` as often as it is in `input`.
pub proof fn running_order_rearranges<M>(input: Seq<ProposalMessageView<M>>)
    ensures
        running_order(input).to_multiset() =~= input.to_multiset(),
        running_order(input).len() == input.len(),
    decreases input.len(),
{
    if input.len() > 0 {
        let prefix = input.drop_last();
        let item = input.last();
        running_order_rearranges(prefix);
        let earlier = running_order(prefix);
        let at = slot_from(earlier, item.order, 0);
        slot_is_behind_equals(earlier, item.order, 0);
        let output = earlier.insert(at, item);
        assert(output.remove(at) =~= earlier);
        assert(output[at] == item);
        vstd::seq_lib::to_multiset_remove(output, at);
        vstd::seq_lib::to_multiset_build(prefix, item);
        assert(prefix.push(item) =~= input);
        output.to_multiset_ensures();
        assert(output.contains(item));
        assert(output.to_multiset().count(item) > 0);
        assert(output.to_multiset() =~= output.to_multiset().remove(item).insert(item));
    }
}

/// Puts the messages of a proposal in running order.
pub fn sort_by_order<M>(messages: Vec<ProposalMessage<M>>) -> (sorted: Vec<ProposalMessage<M>>)
    ensures
        sorted.deep_view() == running_order(messages.deep_view()),
{
    let ghost input = messages.deep_view();
    let mut rest = messages;
    let mut sorted: Vec<ProposalMessage<M>> = Vec::new();
    let ghost mut taken: int = 0;
    assert(sorted.deep_view() =~= running_order(input.subrange(0, 0)));
    while rest.len() > 0
        invariant
            0 <= taken <= input.len(),
            taken + rest.len() == input.len(),
            rest.deep_view() == input.subrange(taken, input.len() as int),
            sorted.deep_view() == running_order(input.subrange(0, taken)),
        decreases rest.len(),
    {
        let ghost before = sorted.deep_view();
        let ghost rest_before = rest.deep_view();
        let ghost rest_items = rest@;
        let item = rest.remove(0);
        assert(item.deep_view() == input[taken]) by {
            assert(rest_before[0] == input[taken]);
        }
        assert(rest.deep_view() =~= input.subrange(taken + 1, input.len() as int)) by {
            assert forall|k: int| 0 <= k < rest.len() implies rest.deep_view()[k] == input[taken
                + 1 + k] by {
                assert(rest@[k] == rest_items[k + 1]);
                assert(rest_before[k + 1] == input[taken + k + 1]);
            }
        }
        let mut at: usize = 0;
        while at < sorted.len() && !order_runs_before(item.order, sorted[at].order)
            invariant
                at <= sorted.len(),
                sorted.deep_view() == before,
                slot_from(before, item.order, at as int) == slot_from(before, item.order, 0),
            decreases sorted.len() - at,
        {
            assert(before[at as int].order == sorted[at as int].order);
            at = at + 1;
        }
        assert(at as int == slot_from(before, item.order, 0)) by {
            if at < sorted.len() {
                assert(before[at as int].order == sorted[at as int].order);
            }
        }
        sorted.insert(at, item);
        assert(sorted.deep_view() =~= before.insert(at as int, item.deep_view()));
        proof {
            let longer = input.subrange(0, taken + 1);
            assert(longer.drop_last() =~= input.subrange(0, taken));
            assert(longer.last() == input[taken]);
            taken = taken + 1;
        }
    }
    assert(input.subrange(0, taken) =~= input);
    sorted
}

/// The sub-messages that run `messages` in the order given: each is sent
/// off without a callback but the last, which calls back under
/// [`RECEIVE_ID`] once it has succeeded.
pub open spec fn execution_plan<M>(messages: Seq<ProposalMessageView<M>>) -> Seq<SubMsgView<M>> {
    Seq::new(
        messages.len(),
        |i: int|
            if i == messages.len() - 1 {
                SubMsgView {
                    id: RECEIVE_ID,
                    msg: OutMsgView::Proposal(messages[i].msg),
                    reply_on: ReplyOn::Success,
                }
            } else {
                fire_and_forget(OutMsgView::Proposal(messages[i].msg))
            },
    )
}

/// Wraps the messages of a proposal, in the order given, as sub-messages
/// of which only the last calls back.
pub fn plan_execution<M>(messages: Vec<ProposalMessage<M>>) -> (plan: Vec<SubMsg<M>>)
    ensures
        plan.deep_view() == execution_plan(messages.deep_view()),
{
    let ghost input = messages.deep_view();
    let mut rest = messages;
    let mut plan: Vec<SubMsg<M>> = Vec::new();
    while rest.len() > 0
        invariant
            plan.len() + rest.len() == input.len(),
            rest.deep_view() == input.subrange(plan.len() as int, input.len() as int),
            plan.deep_view() == execution_plan(input).subrange(0, plan.len() as int),
        decreases rest.len(),
    {
        let ghost done = plan.deep_view();
        let ghost rest_before = rest.deep_view();
        let ghost rest_items = rest@;
        let item = rest.remove(0);
        assert(item.deep_view() == input[plan.len() as int]) by {
            assert(rest_before[0] == input[plan.len() as int]);
        }
        assert(rest.deep_view() =~= input.subrange(plan.len() + 1, input.len() as int)) by {
            assert forall|k: int| 0 <= k < rest.len() implies rest.deep_view()[k] == input[plan.len()
                + 1 + k] by {
                assert(rest@[k] == rest_items[k + 1]);
                assert(rest_before[k + 1] == input[plan.len() + k + 1]);
            }
        }
        let sub = if rest.len() == 0 {
            SubMsg { id: RECEIVE_ID, msg: OutMsg::Proposal(item.msg), reply_on: ReplyOn::Success }
        } else {
            SubMsg::new(OutMsg::Proposal(item.msg))
        };
        plan.push(sub);
        assert(plan.deep_view() =~= execution_plan(input).subrange(0, plan.len() as int)) by {
            assert(plan.deep_view() =~= done.push(sub.deep_view()));
        }
    }
    assert(execution_plan(input).subrange(0, plan.len() as int) =~= execution_plan(input));
    plan
}

} // verus!
