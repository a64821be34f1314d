//! What holds of whole runs of a batch, whatever the external programs return.
//!
//! A run is the sequence of completions that the caller hands in, one for each
//! action that it was asked to carry out. The statements here are about the
//! mathematical content of a batch; `Batch::advance` and `Batch::next_action`
//! are proved to follow `BatchModel::step` and `BatchModel::pending`.

use crate::batch::{ActionModel, BatchError, BatchModel, OperationModel, PhaseModel};
use crate::collaborator::CompletionModel;
use crate::wallet::{AmountModel, TransferRequestModel};
use vstd::prelude::*;
use vstd::utf8::valid_utf8;

verus! {

/// An action together with the index of the wallet that it was carried out
/// for.
pub struct Deed {
    pub position: nat,
    pub action: ActionModel,
}

impl ActionModel {
    /// The action opens the work on a wallet whose address is known: the
    /// query of its balance, or the first attempt of its transfer.
    pub open spec fn opens_work(self) -> bool {
        match self {
            ActionModel::QueryBalance { .. } => true,
            ActionModel::Transfer { request, attempt } => attempt == 1,
            _ => false,
        }
    }
}

/// The indices of the wallets that work was opened on, in the order of the
/// deeds.
pub open spec fn opened(deeds: Seq<Deed>) -> Seq<nat>
    decreases deeds.len(),
{
    if deeds.len() == 0 {
        Seq::empty()
    } else if deeds.last().action.opens_work() {
        opened(deeds.drop_last()).push(deeds.last().position)
    } else {
        opened(deeds.drop_last())
    }
}

/// How many of the deeds are transfers.
pub open spec fn transfers(deeds: Seq<Deed>) -> nat
    decreases deeds.len(),
{
    if deeds.len() == 0 {
        0
    } else if deeds.last().action is Transfer {
        transfers(deeds.drop_last()) + 1
    } else {
        transfers(deeds.drop_last())
    }
}

/// How many of the deeds are transfers for the wallet with index `position`.
pub open spec fn transfers_for(deeds: Seq<Deed>, position: nat) -> nat
    decreases deeds.len(),
{
    if deeds.len() == 0 {
        0
    } else if deeds.last().action is Transfer && deeds.last().position == position {
        transfers_for(deeds.drop_last(), position) + 1
    } else {
        transfers_for(deeds.drop_last(), position)
    }
}

/// How many of the deeds are balance queries.
pub open spec fn queries(deeds: Seq<Deed>) -> nat
    decreases deeds.len(),
{
    if deeds.len() == 0 {
        0
    } else if deeds.last().action is QueryBalance {
        queries(deeds.drop_last()) + 1
    } else {
        queries(deeds.drop_last())
    }
}

/// The numbers from zero up to, and without, `n`.
pub open spec fn count_up(n: nat) -> Seq<nat> {
    Seq::new(n, |i: int| i as nat)
}

impl BatchModel {
    /// What the caller carried out to obtain the given completions: for each
    /// of them the action that was pending when it was handed in. For a
    /// completion that is handed to a batch that has ended, that is the
    /// action to finish or to abort, which carries nothing out.
    pub open spec fn deeds(self, completions: Seq<CompletionModel>) -> Seq<Deed>
        decreases completions.len(),
    {
        if completions.len() == 0 {
            Seq::empty()
        } else {
            let before = self.after(completions.drop_last());
            self.deeds(completions.drop_last()).push(
                Deed { position: before.position, action: before.pending() },
            )
        }
    }

    /// Work on the wallet at hand has been opened: a later attempt is
    /// pending, or the batch ended because the wallet program did not start.
    pub open spec fn work_opened(self) -> bool {
        match self.phase {
            PhaseModel::Working { address, attempt } => attempt >= 2,
            PhaseModel::Aborted { error } => error == BatchError::CollaboratorNotStarted,
            PhaseModel::Resolving => false,
        }
    }

    /// The most transfers that can have been submitted for the wallet at
    /// hand.
    pub open spec fn submitted_at_hand(self) -> nat {
        match self.phase {
            PhaseModel::Working { address, attempt } => (attempt - 1) as nat,
            PhaseModel::Aborted { error } => if error == BatchError::CollaboratorNotStarted {
                self.budget as nat
            } else {
                0
            },
            PhaseModel::Resolving => 0,
        }
    }
}

/// A step keeps a batch well formed, and changes neither what the batch was
/// set up with nor the order of its wallets.
pub proof fn lemma_step_keeps_well_formed(batch: BatchModel, completion: CompletionModel)
    requires
        batch.well_formed(),
    ensures
        batch.step(completion).well_formed(),
        batch.step(completion).operation == batch.operation,
        batch.step(completion).wallets == batch.wallets,
        batch.step(completion).budget == batch.budget,
        batch.position <= batch.step(completion).position <= batch.position + 1,
{
}

/// Attempt numbers count up from one, and the same request is submitted every
/// time: the work on a wallet begins with attempt one, and while the batch
/// stays with the wallet each step raises the number by one, never beyond the
/// budget, and leaves the address and the request as they were.
pub proof fn lemma_attempt_numbers_count_up(batch: BatchModel, completion: CompletionModel)
    requires
        batch.well_formed(),
    ensures
        batch.step(completion).phase matches PhaseModel::Working { address, attempt: next } ==> {
            &&& batch.step(completion).position == batch.position
            &&& next <= batch.budget
            &&& match batch.phase {
                PhaseModel::Working { address: known, attempt } => {
                    &&& next == attempt + 1
                    &&& address == known
                    &&& batch.pending() matches ActionModel::Transfer { request, .. }
                    &&& batch.step(completion).pending() == (ActionModel::Transfer {
                        request,
                        attempt: next,
                    })
                },
                _ => next == 1,
            }
        },
{
}

/// Every state of a run is well formed, and a run changes neither what the
/// batch was set up with nor the order of its wallets: the wallet set is fixed
/// for the whole run.
pub proof fn lemma_run_keeps_well_formed(batch: BatchModel, completions: Seq<CompletionModel>)
    requires
        batch.well_formed(),
    ensures
        batch.after(completions).well_formed(),
        batch.after(completions).operation == batch.operation,
        batch.after(completions).wallets == batch.wallets,
        batch.after(completions).budget == batch.budget,
        batch.position <= batch.after(completions).position,
    decreases completions.len(),
{
    if completions.len() > 0 {
        lemma_run_keeps_well_formed(batch, completions.drop_last());
        lemma_step_keeps_well_formed(batch.after(completions.drop_last()), completions.last());
    }
}

/// A finished or aborted batch asks for nothing more, and stays as it is
/// whatever is handed in.
pub proof fn lemma_ended_batch_stays(batch: BatchModel, completions: Seq<CompletionModel>)
    requires
        batch.finished() || batch.aborted(),
    ensures
        batch.after(completions) == batch,
        batch.finished() ==> batch.pending() == ActionModel::Finish,
        batch.aborted() ==> batch.pending() is Abort,
    decreases completions.len(),
{
    if completions.len() > 0 {
        lemma_ended_batch_stays(batch, completions.drop_last());
    }
}

/// Work is opened on each wallet once, in order: in a run of a fresh batch of
/// any kind, the wallets that a balance query or a first transfer attempt was
/// carried out for are the first so many of the set, each once. When the
/// batch is finished they are all wallets of the set.
pub proof fn lemma_each_wallet_once(
    operation: OperationModel,
    wallets: Seq<Seq<char>>,
    budget: u32,
    completions: Seq<CompletionModel>,
)
    requires
        BatchModel::fresh(operation, wallets, budget).well_formed(),
    ensures
        ({
            let start = BatchModel::fresh(operation, wallets, budget);
            let end = start.after(completions);
            let opened = opened(start.deeds(completions));
            &&& opened == count_up(opened.len())
            &&& opened.len() <= wallets.len()
            &&& opened.len() == end.position + if end.work_opened() {
                1nat
            } else {
                0nat
            }
            &&& end.finished() ==> opened == count_up(wallets.len())
        }),
    decreases completions.len(),
{
    let start = BatchModel::fresh(operation, wallets, budget);
    if completions.len() > 0 {
        let earlier = completions.drop_last();
        lemma_each_wallet_once(operation, wallets, budget, earlier);
        lemma_run_keeps_well_formed(start, earlier);
        lemma_step_keeps_well_formed(start.after(earlier), completions.last());
        assert(start.deeds(completions).drop_last() =~= start.deeds(earlier));
    }
}

/// A balance listing queries the balance of each wallet once: in a run of a
/// fresh listing no more balances are queried than there are wallets, and
/// when the listing is finished exactly as many.
pub proof fn lemma_one_query_per_wallet(
    wallets: Seq<Seq<char>>,
    budget: u32,
    completions: Seq<CompletionModel>,
)
    requires
        budget >= 1,
    ensures
        ({
            let start = BatchModel::fresh(OperationModel::ViewBalances, wallets, budget);
            let deeds = start.deeds(completions);
            &&& queries(deeds) == opened(deeds).len()
            &&& opened(deeds) == count_up(queries(deeds))
            &&& queries(deeds) <= wallets.len()
            &&& transfers(deeds) == 0
            &&& start.after(completions).finished() ==> queries(deeds) == wallets.len()
        }),
    decreases completions.len(),
{
    let start = BatchModel::fresh(OperationModel::ViewBalances, wallets, budget);
    lemma_each_wallet_once(OperationModel::ViewBalances, wallets, budget, completions);
    if completions.len() > 0 {
        let earlier = completions.drop_last();
        lemma_one_query_per_wallet(wallets, budget, earlier);
        lemma_run_keeps_well_formed(start, earlier);
        assert(start.deeds(completions).drop_last() =~= start.deeds(earlier));
    }
}

/// A distribution or a consolidation builds one request for each wallet, and
/// submits it no more often than the budget allows: in a run of a fresh batch
/// the first attempts are for the first so many wallets of the set, each
/// once, and the transfers in all are no more than the budget times the
/// number of wallets. No balance is queried.
pub proof fn lemma_one_request_per_wallet(
    operation: OperationModel,
    wallets: Seq<Seq<char>>,
    budget: u32,
    completions: Seq<CompletionModel>,
)
    requires
        BatchModel::fresh(operation, wallets, budget).well_formed(),
        !(operation is ViewBalances),
    ensures
        ({
            let start = BatchModel::fresh(operation, wallets, budget);
            let end = start.after(completions);
            let deeds = start.deeds(completions);
            &&& opened(deeds) == count_up(opened(deeds).len())
            &&& opened(deeds).len() <= wallets.len()
            &&& end.finished() ==> opened(deeds).len() == wallets.len()
            &&& queries(deeds) == 0
            &&& transfers(deeds) <= budget * end.position + end.submitted_at_hand()
            &&& transfers(deeds) <= budget * wallets.len()
        }),
    decreases completions.len(),
{
    let start = BatchModel::fresh(operation, wallets, budget);
    let end = start.after(completions);
    lemma_each_wallet_once(operation, wallets, budget, completions);
    lemma_run_keeps_well_formed(start, completions);
    if completions.len() > 0 {
        let earlier = completions.drop_last();
        let before = start.after(earlier);
        lemma_one_request_per_wallet(operation, wallets, budget, earlier);
        lemma_run_keeps_well_formed(start, earlier);
        lemma_step_keeps_well_formed(before, completions.last());
        assert(start.deeds(completions).drop_last() =~= start.deeds(earlier));
        assert(budget * (before.position + 1) == budget * before.position + budget)
            by (nonlinear_arith);
    }
    assert(budget * end.position + end.submitted_at_hand() <= budget * wallets.len()) by {
        if end.position < wallets.len() {
            assert(budget * (end.position + 1) <= budget * wallets.len()) by (nonlinear_arith)
                requires
                    end.position + 1 <= wallets.len(),
            ;
            assert(budget * (end.position + 1) == budget * end.position + budget)
                by (nonlinear_arith);
        }
    }
}

/// No wallet is attempted more often than the budget allows: in a run of a
/// fresh distribution or consolidation, the transfers carried out for any one
/// wallet are no more than the budget. For the wallet at hand they are the
/// attempts before the pending one; for the wallets to come there is none.
pub proof fn lemma_attempts_per_wallet_within_budget(
    operation: OperationModel,
    wallets: Seq<Seq<char>>,
    budget: u32,
    completions: Seq<CompletionModel>,
    position: nat,
)
    requires
        BatchModel::fresh(operation, wallets, budget).well_formed(),
        !(operation is ViewBalances),
    ensures
        ({
            let start = BatchModel::fresh(operation, wallets, budget);
            let end = start.after(completions);
            let attempts = transfers_for(start.deeds(completions), position);
            &&& attempts <= budget
            &&& position == end.position ==> attempts <= end.submitted_at_hand()
            &&& position == end.position ==> (end.phase matches PhaseModel::Working {
                address,
                attempt,
            } ==> attempts == attempt - 1)
            &&& position > end.position ==> attempts == 0
        }),
    decreases completions.len(),
{
    let start = BatchModel::fresh(operation, wallets, budget);
    if completions.len() > 0 {
        let earlier = completions.drop_last();
        lemma_attempts_per_wallet_within_budget(operation, wallets, budget, earlier, position);
        lemma_run_keeps_well_formed(start, earlier);
        lemma_step_keeps_well_formed(start.after(earlier), completions.last());
        assert(start.deeds(completions).drop_last() =~= start.deeds(earlier));
    }
}

/// Handing in two runs one after the other is handing in their concatenation.
pub proof fn lemma_run_in_two_parts(
    batch: BatchModel,
    first: Seq<CompletionModel>,
    second: Seq<CompletionModel>,
)
    ensures
        batch.after(first + second) == batch.after(first).after(second),
    decreases second.len(),
{
    if second.len() > 0 {
        assert((first + second).drop_last() =~= first + second.drop_last());
        lemma_run_in_two_parts(batch, first, second.drop_last());
    }
}

/// The deed with index `i` is the action that was pending after the first `i`
/// completions, for the wallet that was at hand then.
pub proof fn lemma_deed_at(batch: BatchModel, completions: Seq<CompletionModel>, i: int)
    requires
        0 <= i < completions.len(),
    ensures
        batch.deeds(completions).len() == completions.len(),
        batch.deeds(completions)[i] == (Deed {
            position: batch.after(completions.take(i)).position,
            action: batch.after(completions.take(i)).pending(),
        }),
    decreases completions.len(),
{
    lemma_deeds_len(batch, completions);
    lemma_deeds_len(batch, completions.drop_last());
    if i < completions.len() - 1 {
        lemma_deed_at(batch, completions.drop_last(), i);
        assert(completions.drop_last().take(i) =~= completions.take(i));
    }
}

/// The work on a wallet stops at the first success: once a transfer has come
/// back as a success, every later deed is for a later wallet.
pub proof fn lemma_success_ends_the_work(
    batch: BatchModel,
    completions: Seq<CompletionModel>,
    i: int,
    j: int,
)
    requires
        batch.well_formed(),
        0 <= i < j < completions.len(),
        batch.deeds(completions)[i].action is Transfer,
        completions[i] matches CompletionModel::Exited { success, .. } && success,
    ensures
        batch.deeds(completions)[j].position > batch.deeds(completions)[i].position,
{
    lemma_deed_at(batch, completions, i);
    lemma_deed_at(batch, completions, j);
    let before = batch.after(completions.take(i));
    let after = batch.after(completions.take(i + 1));
    lemma_run_keeps_well_formed(batch, completions.take(i));
    assert(completions.take(i + 1).drop_last() =~= completions.take(i));
    let rest = completions.subrange(i + 1, j);
    assert(completions.take(i + 1) + rest =~= completions.take(j));
    lemma_run_in_two_parts(batch, completions.take(i + 1), rest);
    lemma_step_keeps_well_formed(before, completions[i]);
    lemma_run_keeps_well_formed(after, rest);
}

/// Every transfer of a distribution moves the amount per wallet away from the
/// source, which also pays the fee, to an address that may be new; the
/// priority fee is the one that the distribution was set up with.
pub proof fn lemma_distribution_requests(
    source: Seq<char>,
    amount: Seq<char>,
    fee: Option<u64>,
    wallets: Seq<Seq<char>>,
    budget: u32,
    completions: Seq<CompletionModel>,
    i: int,
)
    requires
        budget >= 1,
        wallets.len() > 0,
        0 <= i < completions.len(),
    ensures
        ({
            let operation = OperationModel::Distribute { source, amount, fee };
            let deeds = BatchModel::fresh(operation, wallets, budget).deeds(completions);
            &&& deeds.len() == completions.len()
            &&& deeds[i].action matches ActionModel::Transfer { request, attempt } ==> {
                &&& request == TransferRequestModel::distribution(
                    source,
                    request.destination,
                    amount,
                    fee,
                )
                &&& request.amount == AmountModel::Fixed(amount)
                &&& request.fee_payer == source
                &&& 1 <= attempt <= budget
            }
        }),
    decreases completions.len(),
{
    let operation = OperationModel::Distribute { source, amount, fee };
    let start = BatchModel::fresh(operation, wallets, budget);
    let earlier = completions.drop_last();
    lemma_run_keeps_well_formed(start, earlier);
    lemma_deeds_len(start, completions);
    if i < earlier.len() {
        lemma_distribution_requests(source, amount, fee, wallets, budget, earlier, i);
    }
}

/// Every transfer of a consolidation sweeps the whole balance of the wallet
/// at hand to the address of the target, and the target pays the fee; the
/// priority fee is the one that the consolidation was set up with.
pub proof fn lemma_consolidation_requests(
    target: Seq<char>,
    target_address: Seq<char>,
    fee: Option<u64>,
    wallets: Seq<Seq<char>>,
    budget: u32,
    completions: Seq<CompletionModel>,
    i: int,
)
    requires
        budget >= 1,
        0 <= i < completions.len(),
    ensures
        ({
            let operation = OperationModel::Consolidate { target, target_address, fee };
            let deeds = BatchModel::fresh(operation, wallets, budget).deeds(completions);
            &&& deeds.len() == completions.len()
            &&& deeds[i].action matches ActionModel::Transfer { request, attempt } ==> {
                &&& deeds[i].position < wallets.len()
                &&& request == TransferRequestModel::consolidation(
                    wallets[deeds[i].position as int],
                    target,
                    target_address,
                    fee,
                )
                &&& request.amount == AmountModel::All
                &&& request.fee_payer == target
                &&& request.fee == fee
                &&& 1 <= attempt <= budget
            }
        }),
    decreases completions.len(),
{
    let operation = OperationModel::Consolidate { target, target_address, fee };
    let start = BatchModel::fresh(operation, wallets, budget);
    let earlier = completions.drop_last();
    lemma_run_keeps_well_formed(start, earlier);
    lemma_deeds_len(start, completions);
    if i < earlier.len() {
        lemma_consolidation_requests(target, target_address, fee, wallets, budget, earlier, i);
    }
}

/// One deed for each completion.
pub proof fn lemma_deeds_len(batch: BatchModel, completions: Seq<CompletionModel>)
    ensures
        batch.deeds(completions).len() == completions.len(),
    decreases completions.len(),
{
    if completions.len() > 0 {
        lemma_deeds_len(batch, completions.drop_last());
    }
}

/// The completion reports a program that ran, succeeded, and printed text.
pub open spec fn went_well(completion: CompletionModel) -> bool {
    completion matches CompletionModel::Exited { success, stdout, stderr } && success
        && valid_utf8(stdout)
}

/// All of the given completions report programs that went well.
pub open spec fn all_went_well(completions: Seq<CompletionModel>) -> bool {
    forall|i: int| 0 <= i < completions.len() ==> went_well(#[trigger] completions[i])
}

/// Where nothing goes wrong, a batch takes two steps for each wallet and then
/// is finished: as long as every program goes well the batch alternates
/// between resolving an address and one query or one transfer, counts every
/// wallet as succeeded, and is finished after twice as many completions as
/// there are wallets, with one query or one transfer carried out for each.
pub proof fn lemma_unhindered_run(
    operation: OperationModel,
    wallets: Seq<Seq<char>>,
    budget: u32,
    completions: Seq<CompletionModel>,
)
    requires
        BatchModel::fresh(operation, wallets, budget).well_formed(),
        all_went_well(completions),
        completions.len() <= 2 * wallets.len(),
    ensures
        ({
            let start = BatchModel::fresh(operation, wallets, budget);
            let end = start.after(completions);
            let deeds = start.deeds(completions);
            let steps = completions.len();
            &&& end.position == steps / 2
            &&& end.succeeded == steps / 2
            &&& end.exhausted == 0
            &&& steps % 2 == 0 ==> end.phase is Resolving
            &&& steps % 2 == 1 ==> (end.phase matches PhaseModel::Working { address, attempt }
                && attempt == 1)
            &&& steps == 2 * wallets.len() ==> end.finished()
            &&& opened(deeds) == count_up(steps / 2)
            &&& queries(deeds) + transfers(deeds) == steps / 2
            &&& operation is ViewBalances ==> transfers(deeds) == 0
            &&& !(operation is ViewBalances) ==> queries(deeds) == 0
        }),
    decreases completions.len(),
{
    let start = BatchModel::fresh(operation, wallets, budget);
    lemma_each_wallet_once(operation, wallets, budget, completions);
    if completions.len() > 0 {
        let earlier = completions.drop_last();
        lemma_unhindered_run(operation, wallets, budget, earlier);
        lemma_run_keeps_well_formed(start, earlier);
        assert(start.deeds(completions).drop_last() =~= start.deeds(earlier));
    }
}

/// All of the given completions report a program that ran and failed.
pub open spec fn all_exited_with_failure(completions: Seq<CompletionModel>) -> bool {
    forall|i: int|
        0 <= i < completions.len() ==> (#[trigger] completions[i] matches CompletionModel::Exited {
            success,
            ..
        } && !success)
}

/// A wallet whose transfer keeps failing does not hold up the batch: when the
/// attempts that are left for the wallet at hand all fail, the wallet is
/// counted as exhausted, the batch is not ended, and the next wallet is at
/// hand.
pub proof fn lemma_exhaustion_moves_on(batch: BatchModel, completions: Seq<CompletionModel>)
    requires
        batch.well_formed(),
        !(batch.operation is ViewBalances),
        batch.phase matches PhaseModel::Working { address, attempt } && completions.len()
            == batch.budget - attempt + 1,
        all_exited_with_failure(completions),
    ensures
        batch.after(completions) == batch.settled(false),
        batch.after(completions).position == batch.position + 1,
        batch.after(completions).exhausted == batch.exhausted + 1,
        batch.after(completions).succeeded == batch.succeeded,
        batch.after(completions).phase == PhaseModel::Resolving,
        !batch.after(completions).aborted(),
        transfers(batch.deeds(completions)) == completions.len(),
{
    let earlier = completions.drop_last();
    lemma_failures_keep_working(batch, earlier);
    assert(batch.deeds(completions).drop_last() =~= batch.deeds(earlier));
}

/// While attempts are left, failures only count the attempt number up.
proof fn lemma_failures_keep_working(batch: BatchModel, completions: Seq<CompletionModel>)
    requires
        batch.well_formed(),
        !(batch.operation is ViewBalances),
        batch.phase matches PhaseModel::Working { address, attempt } && completions.len()
            <= batch.budget - attempt,
        all_exited_with_failure(completions),
    ensures
        batch.phase matches PhaseModel::Working { address, attempt } && batch.after(completions)
            == batch.in_phase(
            PhaseModel::Working { address, attempt: (attempt + completions.len()) as u32 },
        ),
        transfers(batch.deeds(completions)) == completions.len(),
    decreases completions.len(),
{
    if completions.len() > 0 {
        let earlier = completions.drop_last();
        lemma_failures_keep_working(batch, earlier);
        assert(batch.deeds(completions).drop_last() =~= batch.deeds(earlier));
    }
}

} // verus!
