use vstd::prelude::*;

use crate::dao::Module;
use crate::dao::settle_access_rel;
use crate::dao::settle_project_rel;

verus! {

/// Pool conservation. In every well-formed state — and every operation of
/// [`Module`] both requires and re-establishes well-formedness — the four
/// treasury pools together never exceed the funds ever withdrawn from
/// accounts into the organization, and each pool, being unsigned, is never
/// negative.
pub proof fn law_pool_conservation(d: Module)
    requires
        d.wf(),
    ensures
        d.free_pool + d.mortgage_pool + d.deposit_pool + d.grant_locked_pool <= d.total_inflow@,
        d.free_pool >= 0,
        d.mortgage_pool >= 0,
        d.deposit_pool >= 0,
        d.grant_locked_pool >= 0,
{
}

/// Energy accounting. In every well-formed state — settlements included,
/// since every operation re-establishes well-formedness — the total-energy
/// counter equals the sum of all members' energy.
pub proof fn law_total_energy(d: Module)
    requires
        d.wf(),
    ensures
        d.total_energies == d.members.total(),
{
}

/// The voting window. With every other requirement met — a valid index, a
/// proposal not aborted, a member sender who has not yet voted on it, and
/// tallies that fit — a vote on an access proposal is accepted if and only
/// if the current period lies in
/// `[starting_period, starting_period + voting_period_length)`.
pub proof fn law_access_vote_window(d: Module, sender: u64, index: u32, vote: bool, now: u64)
    requires
        d.wf(),
        (index as int) < d.access_proposals@.len(),
        !d.access_proposals@[index as int].aborted,
        d.members.is_member_spec(sender),
        !d.access_proposals@[index as int].voters@.contains(sender),
        d.access_proposals@[index as int].yes_votes + d.members.get(sender).unwrap().energy
            <= u64::MAX,
        d.access_proposals@[index as int].no_votes + d.members.get(sender).unwrap().energy
            <= u64::MAX,
    ensures
        d.access_vote_decision(sender, index, vote, now) is Ok <==> d.spec_in_vote_period(
            now,
            d.access_proposals@[index as int].starting_period,
        ),
{
}

/// Access settlement is first-in, first-out: in every well-formed state
/// the settled access proposals form a prefix of the submission order, so
/// a proposal is settled only when every earlier one is.
pub proof fn law_access_fifo(d: Module, i: int, j: int)
    requires
        d.wf(),
        0 <= i <= j < d.access_proposals@.len(),
        d.access_proposals@[j].processed,
    ensures
        d.access_proposals@[i].processed,
{
}

/// One access settlement settles exactly the oldest unsettled proposal
/// and advances the settlement cursor by one; no other proposal changes.
pub proof fn law_access_settle_order(pre: Module, post: Module)
    requires
        pre.wf(),
        pre.processed_access_count < pre.access_proposals@.len(),
        settle_access_rel(pre, post),
    ensures
        post.processed_access_count == pre.processed_access_count + 1,
        post.access_proposals@[pre.processed_access_count as int].processed,
        forall|j: int|
            0 <= j < pre.access_proposals@.len() && j != pre.processed_access_count as int
                ==> post.access_proposals@[j] == pre.access_proposals@[j],
{
}

/// Project settlement is first-in, first-out: one settlement settles
/// exactly the proposal at the queue's head, advances the head by one, and
/// leaves the queue itself and every other proposal as they were.
pub proof fn law_project_fifo(pre: Module, post: Module)
    requires
        pre.wf(),
        pre.queue_head < pre.queue@.len(),
        settle_project_rel(pre, post),
    ensures
        post.queue_head == pre.queue_head + 1,
        post.queue@ == pre.queue@,
        post.project_proposals@[pre.queue@[pre.queue_head as int] as int].processed,
        forall|j: int|
            0 <= j < pre.project_proposals@.len() && j != pre.queue@[pre.queue_head as int] as int
                ==> post.project_proposals@[j] == pre.project_proposals@[j],
{
    vstd::std_specs::vec::axiom_spec_len::<u32, std::alloc::Global>(&pre.queue);
}

/// The rage-quit gate. With the sender a member, a positive burn within
/// their energy, and a redemption credit that exists and fits, a rage-quit
/// goes through if and only if the access proposal at the member's
/// highest yes-vote index exists and is settled. The quit itself (see
/// `Module::rage_quit`) burns the energy from the member and from
/// `total_energies`, and redeems the pro-rata Free-pool share.
pub proof fn law_rage_quit_gate(d: Module, sender: u64, energies_to_burn: u64)
    requires
        d.wf(),
        d.members.is_member_spec(sender),
        0 < energies_to_burn <= d.members.get(sender).unwrap().energy,
        d.spec_redemption(energies_to_burn) > 0 ==> d.bank.contains(sender) && d.bank.balance(
            sender,
        ) + d.spec_redemption(energies_to_burn) <= u64::MAX,
    ensures
        d.rage_quit_decision(sender, energies_to_burn) is Ok <==> ({
            let h = d.members.get(sender).unwrap().highest_index_yes_vote as int;
            h < d.access_proposals@.len() && d.access_proposals@[h].processed
        }),
{
}

} // verus!
