//! Histories of operations, and what holds of all of them.

use crate::call::{Call, Reply, Resource};
use crate::operation::{Operation, Owns, Pending, Step};
use vstd::multiset::Multiset;
use vstd::prelude::*;

verus! {

broadcast use crate::call::group_adding_nothing;

/// Whether `reply`, taken at `step`, leads to `after`.
pub open spec fn follows<K: Operation>(
    step: Step<K, K::Output>,
    reply: Reply,
    after: Step<K, K::Output>,
) -> bool {
    &&& step matches Step::Pending(pending)
    &&& pending.next.expects(reply)
    &&& pending.next.resumes_to(reply, after)
}

/// Whether an operation went through these steps on these replies.
pub open spec fn is_history<K: Operation>(
    steps: Seq<Step<K, K::Output>>,
    replies: Seq<Reply>,
) -> bool {
    &&& steps.len() == replies.len() + 1
    &&& forall|i: int|
        0 <= i < replies.len() ==> follows(steps[i], #[trigger] replies[i], steps[i + 1])
}

/// Whether an operation went through these steps, and came to its end.
pub open spec fn is_run<K: Operation>(
    steps: Seq<Step<K, K::Output>>,
    replies: Seq<Reply>,
) -> bool {
    is_history(steps, replies) && steps.last() is Done
}

/// A run on one reply, put together from its steps.
pub proof fn lemma_run_of_one<K: Operation>(
    first: Pending<K>,
    r0: Reply,
    output: K::Output,
)
    requires
        first.next.expects(r0),
        first.next.resumes_to(r0, Step::Done(output)),
    ensures
        is_run::<K>(
            seq![Step::Pending(first), Step::Done(output)],
            seq![r0],
        ),
{
}

/// A run on two replies, put together from its steps.
pub proof fn lemma_run_of_two<K: Operation>(
    first: Pending<K>,
    r0: Reply,
    second: Pending<K>,
    r1: Reply,
    output: K::Output,
)
    requires
        first.next.expects(r0),
        first.next.resumes_to(r0, Step::Pending(second)),
        second.next.expects(r1),
        second.next.resumes_to(r1, Step::Done(output)),
    ensures
        is_run::<K>(
            seq![Step::Pending(first), Step::Pending(second), Step::Done(output)],
            seq![r0, r1],
        ),
{
}

/// A run on three replies, put together from its steps.
pub proof fn lemma_run_of_three<K: Operation>(
    first: Pending<K>,
    r0: Reply,
    second: Pending<K>,
    r1: Reply,
    third: Pending<K>,
    r2: Reply,
    output: K::Output,
)
    requires
        first.next.expects(r0),
        first.next.resumes_to(r0, Step::Pending(second)),
        second.next.expects(r1),
        second.next.resumes_to(r1, Step::Pending(third)),
        third.next.expects(r2),
        third.next.resumes_to(r2, Step::Done(output)),
    ensures
        is_run::<K>(
            seq![
                Step::Pending(first),
                Step::Pending(second),
                Step::Pending(third),
                Step::Done(output),
            ],
            seq![r0, r1, r2],
        ),
{
}

/// A run on four replies, put together from its steps.
pub proof fn lemma_run_of_four<K: Operation>(
    first: Pending<K>,
    r0: Reply,
    second: Pending<K>,
    r1: Reply,
    third: Pending<K>,
    r2: Reply,
    fourth: Pending<K>,
    r3: Reply,
    output: K::Output,
)
    requires
        first.next.expects(r0),
        first.next.resumes_to(r0, Step::Pending(second)),
        second.next.expects(r1),
        second.next.resumes_to(r1, Step::Pending(third)),
        third.next.expects(r2),
        third.next.resumes_to(r2, Step::Pending(fourth)),
        fourth.next.expects(r3),
        fourth.next.resumes_to(r3, Step::Done(output)),
    ensures
        is_run::<K>(
            seq![
                Step::Pending(first),
                Step::Pending(second),
                Step::Pending(third),
                Step::Pending(fourth),
                Step::Done(output),
            ],
            seq![r0, r1, r2, r3],
        ),
{
}

/// The request that is made at a step.
pub open spec fn request<K: Operation>(step: Step<K, K::Output>) -> Call {
    step->Pending_0.call
}

/// What the replies made the operation responsible for, taken together.
pub open spec fn created<K: Operation>(
    steps: Seq<Step<K, K::Output>>,
    replies: Seq<Reply>,
) -> Multiset<Resource>
    decreases replies.len(),
{
    if replies.len() == 0 {
        Multiset::empty()
    } else {
        created(steps, replies.drop_last()).add(
            request(steps[replies.len() - 1]).creates(replies.last()),
        )
    }
}

/// What the operation handed over with its first `count` requests, taken
/// together.
pub open spec fn consumed<K: Operation>(
    steps: Seq<Step<K, K::Output>>,
    count: nat,
) -> Multiset<Resource>
    decreases count,
{
    if count == 0 {
        Multiset::empty()
    } else {
        consumed(steps, (count - 1) as nat).add(request(steps[count - 1]).consumes())
    }
}

/// Each continuation that comes up in a history belongs to the request before
/// it.
pub proof fn law_continuations_fit<K: Operation>(
    steps: Seq<Step<K, K::Output>>,
    replies: Seq<Reply>,
    i: int,
)
    requires
        is_history(steps, replies),
        steps[0].wf(),
        0 <= i < steps.len(),
    ensures
        steps[i].wf(),
    decreases i,
{
    if i > 0 {
        law_continuations_fit(steps, replies, i - 1);
        assert(follows(steps[i - 1], replies[i - 1], steps[i]));
        let pending = steps[i - 1]->Pending_0;
        pending.next.goes_on_well(pending.call, replies[i - 1], steps[i]);
    }
}

/// Nothing is dropped on the way and nothing is handed over twice: what an
/// operation started with and what LLVM made it responsible for is, at any time,
/// what it handed over and what it still holds. Once it is done, what it holds
/// is what its output holds.
pub proof fn law_responsibility_is_conserved<K: Operation>(
    steps: Seq<Step<K, K::Output>>,
    replies: Seq<Reply>,
)
    requires
        is_history(steps, replies),
        steps[0].wf(),
    ensures
        steps[0].owned().add(created(steps, replies)) == consumed(steps, replies.len()).add(
            steps.last().owned(),
        ),
    decreases replies.len(),
{
    if replies.len() > 0 {
        let n = replies.len() - 1;
        let sooner = steps.drop_last();
        assert(is_history(sooner, replies.drop_last())) by {
            assert forall|i: int| 0 <= i < n implies follows(
                sooner[i],
                #[trigger] replies.drop_last()[i],
                sooner[i + 1],
            ) by {
                assert(replies.drop_last()[i] == replies[i]);
            }
        }
        law_responsibility_is_conserved(sooner, replies.drop_last());
        lemma_created_of_prefix(steps, sooner, replies.drop_last());
        lemma_consumed_of_prefix(steps, sooner, n as nat);
        law_continuations_fit(steps, replies, n);
        assert(follows(steps[n], replies[n], steps[n + 1]));
        let pending = steps[n]->Pending_0;
        pending.next.goes_on_well(pending.call, replies[n], steps[n + 1]);
        assert(sooner.last() == steps[n]);
        assert(steps[n].owned() == pending.call.consumes().add(pending.next.held()));
        lemma_one_more_request(
            steps[0].owned(),
            created(steps, replies.drop_last()),
            consumed(steps, n as nat),
            pending.call.consumes(),
            pending.next.held(),
            pending.call.creates(replies[n]),
        );
        assert(pending.next.held().add(pending.call.creates(replies[n])) == steps[n + 1].owned());
    }
}

/// The balance before a request carries over to the balance after it.
proof fn lemma_one_more_request(
    start: Multiset<Resource>,
    created: Multiset<Resource>,
    consumed: Multiset<Resource>,
    handed_over: Multiset<Resource>,
    held: Multiset<Resource>,
    gained: Multiset<Resource>,
)
    requires
        start.add(created) == consumed.add(handed_over.add(held)),
    ensures
        start.add(created.add(gained)) == consumed.add(handed_over).add(held.add(gained)),
{
    assert(start.add(created.add(gained)) =~= start.add(created).add(gained));
    assert(consumed.add(handed_over).add(held.add(gained)) =~= consumed.add(
        handed_over.add(held),
    ).add(gained));
}

proof fn lemma_created_of_prefix<K: Operation>(
    steps: Seq<Step<K, K::Output>>,
    sooner: Seq<Step<K, K::Output>>,
    replies: Seq<Reply>,
)
    requires
        forall|i: int| 0 <= i < replies.len() ==> steps[i] == #[trigger] sooner[i],
    ensures
        created(steps, replies) == created(sooner, replies),
    decreases replies.len(),
{
    if replies.len() > 0 {
        lemma_created_of_prefix(steps, sooner, replies.drop_last());
        assert(steps[replies.len() - 1] == sooner[replies.len() - 1]);
    }
}

proof fn lemma_consumed_of_prefix<K: Operation>(
    steps: Seq<Step<K, K::Output>>,
    sooner: Seq<Step<K, K::Output>>,
    count: nat,
)
    requires
        forall|i: int| 0 <= i < count ==> steps[i] == #[trigger] sooner[i],
    ensures
        consumed(steps, count) == consumed(sooner, count),
    decreases count,
{
    if count > 0 {
        lemma_consumed_of_prefix(steps, sooner, (count - 1) as nat);
        assert(steps[count - 1] == sooner[count - 1]);
    }
}

/// No operation goes on for ever: there are no more requests than its first
/// continuation allows, and one.
pub proof fn law_operations_end<K: Operation>(
    steps: Seq<Step<K, K::Output>>,
    replies: Seq<Reply>,
)
    requires
        is_history(steps, replies),
        steps[0].wf(),
        replies.len() > 0,
    ensures
        replies.len() <= steps[0]->Pending_0.next.calls_left() + 1,
{
    assert(follows(steps[0], replies[0], steps[1]));
    lemma_calls_left_shrinks(steps, replies, replies.len() - 1);
}

proof fn lemma_calls_left_shrinks<K: Operation>(
    steps: Seq<Step<K, K::Output>>,
    replies: Seq<Reply>,
    i: int,
)
    requires
        is_history(steps, replies),
        steps[0].wf(),
        0 <= i < replies.len(),
    ensures
        steps[i]->Pending_0.next.calls_left() + i <= steps[0]->Pending_0.next.calls_left(),
    decreases i,
{
    if i > 0 {
        lemma_calls_left_shrinks(steps, replies, i - 1);
        law_continuations_fit(steps, replies, i - 1);
        assert(follows(steps[i - 1], replies[i - 1], steps[i]));
        assert(follows(steps[i], replies[i], steps[i + 1]));
        let pending = steps[i - 1]->Pending_0;
        pending.next.goes_on_well(pending.call, replies[i - 1], steps[i]);
    }
}

/// One operation from a holder's side: what it put in, what LLVM made the
/// operation responsible for, what the operation handed over to LLVM, and what
/// the holder got back.
pub ghost struct Exchange {
    pub put_in: Multiset<Resource>,
    pub created: Multiset<Resource>,
    pub consumed: Multiset<Resource>,
    pub got_back: Multiset<Resource>,
}

impl Exchange {
    /// Whether nothing was lost and nothing appeared.
    pub open spec fn balances(self) -> bool {
        self.put_in.add(self.created) == self.consumed.add(self.got_back)
    }
}

/// A history as an exchange.
pub open spec fn exchange<K: Operation>(
    steps: Seq<Step<K, K::Output>>,
    replies: Seq<Reply>,
) -> Exchange {
    Exchange {
        put_in: steps[0].owned(),
        created: created(steps, replies),
        consumed: consumed(steps, replies.len()),
        got_back: steps.last().owned(),
    }
}

/// Every operation is a balanced exchange.
pub proof fn law_exchanges_balance<K: Operation>(
    steps: Seq<Step<K, K::Output>>,
    replies: Seq<Reply>,
)
    requires
        is_history(steps, replies),
        steps[0].wf(),
    ensures
        exchange(steps, replies).balances(),
{
    law_responsibility_is_conserved(steps, replies);
}

/// What a holder who started with `start` has after these exchanges.
pub open spec fn holdings(start: Multiset<Resource>, exchanges: Seq<Exchange>) -> Multiset<Resource>
    decreases exchanges.len(),
{
    if exchanges.len() == 0 {
        start
    } else {
        holdings(start, exchanges.drop_last()).sub(exchanges.last().put_in).add(
            exchanges.last().got_back,
        )
    }
}

/// Whether the holder always had what it put in.
pub open spec fn affordable(start: Multiset<Resource>, exchanges: Seq<Exchange>) -> bool
    decreases exchanges.len(),
{
    exchanges.len() > 0 ==> {
        &&& affordable(start, exchanges.drop_last())
        &&& exchanges.last().put_in.subset_of(holdings(start, exchanges.drop_last()))
    }
}

/// All that LLVM made the holder's operations responsible for.
pub open spec fn all_created(exchanges: Seq<Exchange>) -> Multiset<Resource>
    decreases exchanges.len(),
{
    if exchanges.len() == 0 {
        Multiset::empty()
    } else {
        all_created(exchanges.drop_last()).add(exchanges.last().created)
    }
}

/// All that the holder's operations handed over to LLVM.
pub open spec fn all_consumed(exchanges: Seq<Exchange>) -> Multiset<Resource>
    decreases exchanges.len(),
{
    if exchanges.len() == 0 {
        Multiset::empty()
    } else {
        all_consumed(exchanges.drop_last()).add(exchanges.last().consumed)
    }
}

/// Over any number of operations, what a holder had at the start and what LLVM
/// made it responsible for is what went back to LLVM and what it still has.
pub proof fn law_sessions_balance(start: Multiset<Resource>, exchanges: Seq<Exchange>)
    requires
        affordable(start, exchanges),
        forall|i: int| 0 <= i < exchanges.len() ==> (#[trigger] exchanges[i]).balances(),
    ensures
        start.add(all_created(exchanges)) == all_consumed(exchanges).add(
            holdings(start, exchanges),
        ),
    decreases exchanges.len(),
{
    if exchanges.len() > 0 {
        let sooner = exchanges.drop_last();
        let last = exchanges.last();
        assert forall|i: int| 0 <= i < sooner.len() implies (#[trigger] sooner[i]).balances() by {
            assert(sooner[i] == exchanges[i]);
        }
        law_sessions_balance(start, sooner);
        assert(last.balances());
        let had = holdings(start, sooner);
        let have = holdings(start, exchanges);
        assert forall|r: Resource|
            start.add(all_created(exchanges)).count(r) == all_consumed(exchanges).add(have).count(
                r,
            ) by {
            assert(last.put_in.count(r) <= had.count(r));
            assert(start.add(all_created(sooner)).count(r) == all_consumed(sooner).add(had).count(
                r,
            ));
            assert(last.put_in.add(last.created).count(r) == last.consumed.add(
                last.got_back,
            ).count(r));
        }
        assert(start.add(all_created(exchanges)) =~= all_consumed(exchanges).add(have));
    }
}

/// Nothing is disposed of, released or handed over more often than LLVM made
/// the holder responsible for it.
pub proof fn law_nothing_is_handed_over_twice(
    start: Multiset<Resource>,
    exchanges: Seq<Exchange>,
    resource: Resource,
)
    requires
        affordable(start, exchanges),
        forall|i: int| 0 <= i < exchanges.len() ==> (#[trigger] exchanges[i]).balances(),
    ensures
        all_consumed(exchanges).count(resource) <= start.count(resource) + all_created(
            exchanges,
        ).count(resource),
{
    law_sessions_balance(start, exchanges);
    assert(start.add(all_created(exchanges)).count(resource) == all_consumed(exchanges).add(
        holdings(start, exchanges),
    ).count(resource));
}

} // verus!
