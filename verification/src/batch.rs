//! The batch controller: one operation carried out for every wallet of a set,
//! one wallet after the other. The controller decides; its caller runs the
//! external programs and hands back what they returned.
//!
//! For each wallet the address is resolved first. A distribution or a
//! consolidation then attempts its transfer until it succeeds or the budget
//! is used up, and goes on to the next wallet either way. A balance listing
//! queries the balance once. A program that cannot be started, or an address
//! that cannot be resolved, ends the whole batch.

use crate::collaborator::{
    address_invocation, balance_invocation, resolve_public_key, resolved_address,
    transfer_invocation, Completion, CompletionModel, Invocation, InvocationModel,
    KeyResolutionError, Network, NetworkModel, Program,
};
use crate::collaborator::{address_arguments, balance_arguments, transfer_arguments};
use crate::report::{LogLine, LogLineModel};
use crate::retry::{RetryPolicy, RetryState, DEFAULT_MAX_ATTEMPTS};
use crate::text::{lossy_text, text_from_utf8_lossy, trim, trimmed};
use crate::wallet::{PublicKey, TransferRequest, TransferRequestModel, WalletHandle};
use vstd::prelude::*;
use vstd::string::*;

verus! {

/// Why a batch could not be set up or was ended early.
#[derive(Clone, Copy, Debug, PartialEq, Eq, Structural)]
pub enum BatchError {
    /// A distribution was asked for over no wallets at all.
    EmptyWalletSet,
    /// The address of a wallet could not be resolved.
    KeyResolution(KeyResolutionError),
    /// The wallet program could not be started.
    CollaboratorNotStarted,
}

impl BatchError {
    /// What the error says to the operator.
    pub open spec fn message(self) -> Seq<char> {
        match self {
            BatchError::EmptyWalletSet => "No wallet files found in the specified directory."@,
            BatchError::KeyResolution(error) => error.message(),
            BatchError::CollaboratorNotStarted => "The wallet program could not be started."@,
        }
    }

    /// What the error says to the operator.
    pub fn describe(&self) -> (text: String)
        ensures
            text@ == self.message(),
    {
        match self {
            BatchError::EmptyWalletSet => String::from_str(
                "No wallet files found in the specified directory.",
            ),
            BatchError::KeyResolution(error) => error.describe(),
            BatchError::CollaboratorNotStarted => String::from_str(
                "The wallet program could not be started.",
            ),
        }
    }
}

/// What a batch does for each of its wallets.
#[derive(Debug, PartialEq, Eq)]
pub enum Operation {
    /// Sends `amount` from `source` to each wallet; `source` pays the fees.
    Distribute { source: WalletHandle, amount: String, fee: Option<u64> },
    /// Sweeps each wallet into `target`, whose address is `target_address`;
    /// `target` pays the fees.
    Consolidate { target: WalletHandle, target_address: PublicKey, fee: Option<u64> },
    /// Looks up the balance of each wallet.
    ViewBalances,
}

/// The mathematical content of an `Operation`.
pub enum OperationModel {
    Distribute { source: Seq<char>, amount: Seq<char>, fee: Option<u64> },
    Consolidate { target: Seq<char>, target_address: Seq<char>, fee: Option<u64> },
    ViewBalances,
}

impl View for Operation {
    type V = OperationModel;

    open spec fn view(&self) -> OperationModel {
        match self {
            Operation::Distribute { source, amount, fee } => OperationModel::Distribute {
                source: source@,
                amount: amount@,
                fee: *fee,
            },
            Operation::Consolidate { target, target_address, fee } => OperationModel::Consolidate {
                target: target@,
                target_address: target_address@,
                fee: *fee,
            },
            Operation::ViewBalances => OperationModel::ViewBalances,
        }
    }
}

impl Operation {
    /// Tells a balance listing from the operations that move funds.
    pub fn is_listing(&self) -> (yes: bool)
        ensures
            yes == (self@ is ViewBalances),
    {
        match self {
            Operation::ViewBalances => true,
            _ => false,
        }
    }
}

impl OperationModel {
    /// The transfer that the operation asks for on behalf of `wallet`, whose
    /// address is `address`. A balance listing asks for none.
    pub open spec fn request(self, wallet: Seq<char>, address: Seq<char>) -> Option<
        TransferRequestModel,
    > {
        match self {
            OperationModel::Distribute { source, amount, fee } => Some(
                TransferRequestModel::distribution(source, address, amount, fee),
            ),
            OperationModel::Consolidate { target, target_address, fee } => Some(
                TransferRequestModel::consolidation(wallet, target, target_address, fee),
            ),
            OperationModel::ViewBalances => None,
        }
    }

    /// The line that reports how an attempt for the wallet with the given
    /// address came back, given the state that the attempt left the transfer
    /// in and the diagnostic text that it left.
    pub open spec fn attempt_line(
        self,
        address: Seq<char>,
        attempt: u32,
        budget: u32,
        after: RetryState,
        diagnostic: Seq<char>,
    ) -> Option<LogLineModel> {
        match self {
            OperationModel::Distribute { source, amount, fee } => match after {
                RetryState::Succeeded { .. } => Some(LogLineModel::transferred(amount, address)),
                RetryState::Exhausted { .. } => Some(
                    LogLineModel::transfer_failed(address, budget, diagnostic),
                ),
                RetryState::Attempting { .. } => Some(LogLineModel::retrying(attempt)),
                RetryState::Pending => None,
            },
            OperationModel::Consolidate { target, target_address, fee } => match after {
                RetryState::Succeeded { .. } => Some(
                    LogLineModel::consolidated(address, target_address),
                ),
                RetryState::Exhausted { .. } => Some(
                    LogLineModel::consolidation_failed(address, budget, diagnostic),
                ),
                RetryState::Attempting { .. } => Some(LogLineModel::retrying(attempt)),
                RetryState::Pending => None,
            },
            OperationModel::ViewBalances => None,
        }
    }
}

/// What the batch is doing for the wallet at hand.
#[derive(Debug, PartialEq, Eq)]
pub enum Phase {
    /// The address of the wallet is to be resolved. With no wallet left, the
    /// batch is finished.
    Resolving,
    /// The address is known and the attempt with the given number, counted
    /// from one, is to be made.
    Working { address: PublicKey, attempt: u32 },
    /// The batch was ended early.
    Aborted { error: BatchError },
}

/// The mathematical content of a `Phase`.
pub enum PhaseModel {
    Resolving,
    Working { address: Seq<char>, attempt: u32 },
    Aborted { error: BatchError },
}

impl View for Phase {
    type V = PhaseModel;

    open spec fn view(&self) -> PhaseModel {
        match self {
            Phase::Resolving => PhaseModel::Resolving,
            Phase::Working { address, attempt } => PhaseModel::Working {
                address: address@,
                attempt: *attempt,
            },
            Phase::Aborted { error } => PhaseModel::Aborted { error: *error },
        }
    }
}

/// What the caller of a batch has to do next.
#[derive(Clone, Debug, PartialEq, Eq)]
pub enum Action {
    /// Have the address of `wallet` derived and hand back what came of it.
    ResolveKey { wallet: WalletHandle },
    /// Submit `request` and hand back what came of it. `attempt` counts the
    /// attempts for this wallet from one.
    Transfer { request: TransferRequest, attempt: u32 },
    /// Query the balance of `address` and hand back what came of it.
    QueryBalance { address: PublicKey },
    /// Nothing: every wallet has been dealt with.
    Finish,
    /// Nothing: the batch was ended early for the reason given.
    Abort { error: BatchError },
}

/// The mathematical content of an `Action`.
pub enum ActionModel {
    ResolveKey { wallet: Seq<char> },
    Transfer { request: TransferRequestModel, attempt: u32 },
    QueryBalance { address: Seq<char> },
    Finish,
    Abort { error: BatchError },
}

impl View for Action {
    type V = ActionModel;

    open spec fn view(&self) -> ActionModel {
        match self {
            Action::ResolveKey { wallet } => ActionModel::ResolveKey { wallet: wallet@ },
            Action::Transfer { request, attempt } => ActionModel::Transfer {
                request: request@,
                attempt: *attempt,
            },
            Action::QueryBalance { address } => ActionModel::QueryBalance { address: address@ },
            Action::Finish => ActionModel::Finish,
            Action::Abort { error } => ActionModel::Abort { error: *error },
        }
    }
}

impl ActionModel {
    /// The run of an external program that carries the action out, if it
    /// takes one.
    pub open spec fn invocation(self, network: NetworkModel) -> Option<InvocationModel> {
        match self {
            ActionModel::ResolveKey { wallet } => Some(
                InvocationModel { program: Program::Keygen, arguments: address_arguments(wallet) },
            ),
            ActionModel::Transfer { request, attempt } => Some(
                InvocationModel {
                    program: Program::Wallet,
                    arguments: transfer_arguments(request, network),
                },
            ),
            ActionModel::QueryBalance { address } => Some(
                InvocationModel {
                    program: Program::Wallet,
                    arguments: balance_arguments(address, network),
                },
            ),
            ActionModel::Finish => None,
            ActionModel::Abort { error } => None,
        }
    }
}

impl Action {
    /// The run of an external program that carries the action out, if it
    /// takes one.
    pub fn invocation(&self, network: &Network) -> (invocation: Option<Invocation>)
        ensures
            match invocation {
                Some(i) => self@.invocation(network@) == Some(i@),
                None => self@.invocation(network@) is None,
            },
    {
        match self {
            Action::ResolveKey { wallet } => Some(address_invocation(wallet)),
            Action::Transfer { request, attempt } => Some(transfer_invocation(request, network)),
            Action::QueryBalance { address } => Some(balance_invocation(address, network)),
            Action::Finish => None,
            Action::Abort { error } => None,
        }
    }
}

/// How many wallets a batch has dealt with, by outcome.
#[derive(Clone, Copy, Debug, PartialEq, Eq, Structural)]
pub struct Tally {
    /// Wallets whose transfer succeeded or whose balance was listed.
    pub succeeded: usize,
    /// Wallets whose transfer was given up with the budget used up.
    pub exhausted: usize,
}

/// The mathematical content of a `Batch`: what it was set up with, and how far
/// it has come.
pub struct BatchModel {
    pub operation: OperationModel,
    /// The wallets, in the order in which they are dealt with. The set is
    /// fixed for the whole run.
    pub wallets: Seq<Seq<char>>,
    /// The attempt budget per wallet.
    pub budget: u32,
    /// The index of the wallet at hand; as many wallets have been dealt with.
    pub position: nat,
    pub phase: PhaseModel,
    pub succeeded: nat,
    pub exhausted: nat,
}

impl BatchModel {
    /// A batch that has not done anything yet.
    pub open spec fn fresh(
        operation: OperationModel,
        wallets: Seq<Seq<char>>,
        budget: u32,
    ) -> BatchModel {
        BatchModel {
            operation,
            wallets,
            budget,
            position: 0,
            phase: PhaseModel::Resolving,
            succeeded: 0,
            exhausted: 0,
        }
    }

    /// What holds of every batch: the budget is positive, a distribution has
    /// wallets, the wallet at hand exists unless all are dealt with, every
    /// wallet dealt with was counted once, and attempt numbers run from one to
    /// the budget (a balance is queried once).
    pub open spec fn well_formed(self) -> bool {
        &&& self.budget >= 1
        &&& self.operation is Distribute ==> self.wallets.len() > 0
        &&& self.position <= self.wallets.len()
        &&& self.succeeded + self.exhausted == self.position
        &&& match self.phase {
            PhaseModel::Resolving => true,
            PhaseModel::Working { address, attempt } => {
                &&& self.position < self.wallets.len()
                &&& 1 <= attempt <= self.budget
                &&& self.operation is ViewBalances ==> attempt == 1
            },
            PhaseModel::Aborted { error } => {
                &&& self.position < self.wallets.len()
                &&& error != BatchError::EmptyWalletSet
            },
        }
    }

    /// Every wallet has been dealt with.
    pub open spec fn finished(self) -> bool {
        self.phase is Resolving && self.position >= self.wallets.len()
    }

    /// The batch was ended early.
    pub open spec fn aborted(self) -> bool {
        self.phase is Aborted
    }

    /// The batch with the wallet at hand dealt with, counted as succeeded or
    /// as exhausted, and the next wallet at hand.
    pub open spec fn settled(self, success: bool) -> BatchModel {
        BatchModel {
            position: self.position + 1,
            phase: PhaseModel::Resolving,
            succeeded: if success {
                self.succeeded + 1
            } else {
                self.succeeded
            },
            exhausted: if success {
                self.exhausted
            } else {
                self.exhausted + 1
            },
            ..self
        }
    }

    /// The batch in another phase, everything else unchanged.
    pub open spec fn in_phase(self, phase: PhaseModel) -> BatchModel {
        BatchModel { phase, ..self }
    }

    /// What the caller has to do next.
    pub open spec fn pending(self) -> ActionModel {
        match self.phase {
            PhaseModel::Aborted { error } => ActionModel::Abort { error },
            PhaseModel::Resolving => if self.position < self.wallets.len() {
                ActionModel::ResolveKey { wallet: self.wallets[self.position as int] }
            } else {
                ActionModel::Finish
            },
            PhaseModel::Working { address, attempt } => match self.operation.request(
                self.wallets[self.position as int],
                address,
            ) {
                Some(request) => ActionModel::Transfer { request, attempt },
                None => ActionModel::QueryBalance { address },
            },
        }
    }

    /// The batch after the pending action has been carried out and has come
    /// back with `completion`. A finished or aborted batch stays as it is.
    pub open spec fn step(self, completion: CompletionModel) -> BatchModel {
        match self.phase {
            PhaseModel::Aborted { error } => self,
            PhaseModel::Resolving => if self.position < self.wallets.len() {
                match resolved_address(completion) {
                    Ok(address) => self.in_phase(PhaseModel::Working { address, attempt: 1 }),
                    Err(error) => self.in_phase(
                        PhaseModel::Aborted { error: BatchError::KeyResolution(error) },
                    ),
                }
            } else {
                self
            },
            PhaseModel::Working { address, attempt } => match completion {
                CompletionModel::NotStarted => self.in_phase(
                    PhaseModel::Aborted { error: BatchError::CollaboratorNotStarted },
                ),
                CompletionModel::Exited { success, stdout, stderr } => if self.operation
                    is ViewBalances {
                    self.settled(true)
                } else {
                    match (RetryState::Attempting { attempt }).observed(self.budget, success) {
                        RetryState::Succeeded { .. } => self.settled(true),
                        RetryState::Exhausted { .. } => self.settled(false),
                        RetryState::Attempting { attempt: next } => self.in_phase(
                            PhaseModel::Working { address, attempt: next },
                        ),
                        RetryState::Pending => self,
                    }
                },
            },
        }
    }

    /// The line that is written when the pending action has come back with
    /// `completion`: the balance of a wallet, or how an attempt ended.
    pub open spec fn line(self, completion: CompletionModel) -> Option<LogLineModel> {
        match self.phase {
            PhaseModel::Working { address, attempt } => match completion {
                CompletionModel::NotStarted => None,
                CompletionModel::Exited { success, stdout, stderr } => if self.operation
                    is ViewBalances {
                    Some(LogLineModel::balance(address, trimmed(lossy_text(stdout))))
                } else {
                    self.operation.attempt_line(
                        address,
                        attempt,
                        self.budget,
                        (RetryState::Attempting { attempt }).observed(self.budget, success),
                        lossy_text(stderr),
                    )
                },
            },
            _ => None,
        }
    }

    /// The batch after the given completions have been handed in, in order.
    pub open spec fn after(self, completions: Seq<CompletionModel>) -> BatchModel
        decreases completions.len(),
    {
        if completions.len() == 0 {
            self
        } else {
            self.after(completions.drop_last()).step(completions.last())
        }
    }

    /// The lines that are written while the given completions are handed in,
    /// in order.
    pub open spec fn written(self, completions: Seq<CompletionModel>) -> Seq<LogLineModel>
        decreases completions.len(),
    {
        if completions.len() == 0 {
            Seq::empty()
        } else {
            let earlier = self.written(completions.drop_last());
            match self.after(completions.drop_last()).line(completions.last()) {
                Some(line) => earlier.push(line),
                None => earlier,
            }
        }
    }
}

/// A batch under way.
#[derive(Debug)]
pub struct Batch {
    operation: Operation,
    wallets: Vec<WalletHandle>,
    policy: RetryPolicy,
    position: usize,
    phase: Phase,
    tally: Tally,
}

impl View for Batch {
    type V = BatchModel;

    closed spec fn view(&self) -> BatchModel {
        BatchModel {
            operation: self.operation@,
            wallets: self.wallets.deep_view(),
            budget: self.policy.budget(),
            position: self.position as nat,
            phase: self.phase@,
            succeeded: self.tally.succeeded as nat,
            exhausted: self.tally.exhausted as nat,
        }
    }
}

/// Reports how an attempt for the wallet with the given address came back.
fn attempt_line(
    operation: &Operation,
    address: &PublicKey,
    attempt: u32,
    budget: u32,
    after: RetryState,
    diagnostic: &str,
) -> (line: Option<LogLine>)
    ensures
        match line {
            Some(l) => operation@.attempt_line(address@, attempt, budget, after, diagnostic@)
                == Some(l@),
            None => operation@.attempt_line(address@, attempt, budget, after, diagnostic@)
                is None,
        },
{
    match operation {
        Operation::Distribute { source, amount, fee } => match after {
            RetryState::Succeeded { .. } => Some(
                LogLine::transferred(amount.as_str(), address.text.as_str()),
            ),
            RetryState::Exhausted { .. } => Some(
                LogLine::transfer_failed(address.text.as_str(), budget, diagnostic),
            ),
            RetryState::Attempting { .. } => Some(LogLine::retrying(attempt)),
            RetryState::Pending => None,
        },
        Operation::Consolidate { target, target_address, fee } => match after {
            RetryState::Succeeded { .. } => Some(
                LogLine::consolidated(address.text.as_str(), target_address.text.as_str()),
            ),
            RetryState::Exhausted { .. } => Some(
                LogLine::consolidation_failed(address.text.as_str(), budget, diagnostic),
            ),
            RetryState::Attempting { .. } => Some(LogLine::retrying(attempt)),
            RetryState::Pending => None,
        },
        Operation::ViewBalances => None,
    }
}

impl Batch {
    #[verifier::type_invariant]
    spec fn holds_together(self) -> bool {
        self@.well_formed()
    }

    /// A batch that has not done anything yet.
    fn fresh(operation: Operation, wallets: Vec<WalletHandle>, policy: RetryPolicy) -> (batch:
        Batch)
        requires
            operation@ is Distribute ==> wallets@.len() > 0,
        ensures
            batch@ == BatchModel::fresh(operation@, wallets.deep_view(), policy.budget()),
            batch@.well_formed(),
    {
        // The accessor tells that the budget is positive.
        let _ = policy.max_attempts();
        Batch {
            operation,
            wallets,
            policy,
            position: 0,
            phase: Phase::Resolving,
            tally: Tally { succeeded: 0, exhausted: 0 },
        }
    }

    /// Sets up the distribution of `amount_per_wallet` from `source` to each
    /// of `wallets`. Fails, before anything is attempted, when there is no
    /// wallet to distribute to.
    pub fn distribute(
        source: WalletHandle,
        wallets: Vec<WalletHandle>,
        amount_per_wallet: String,
        fee: Option<u64>,
        policy: RetryPolicy,
    ) -> (batch: Result<Batch, BatchError>)
        ensures
            batch is Err <==> wallets@.len() == 0,
            batch matches Err(error) ==> error == BatchError::EmptyWalletSet,
            batch matches Ok(b) ==> b@ == BatchModel::fresh(
                OperationModel::Distribute { source: source@, amount: amount_per_wallet@, fee },
                wallets.deep_view(),
                policy.budget(),
            ) && b@.well_formed(),
    {
        if wallets.len() == 0 {
            return Err(BatchError::EmptyWalletSet);
        }
        let operation = Operation::Distribute { source, amount: amount_per_wallet, fee };
        Ok(Batch::fresh(operation, wallets, policy))
    }

    /// Sets up the consolidation of each of `sources` into `target`, whose
    /// address has been resolved as `target_address`.
    pub fn consolidate(
        target: WalletHandle,
        target_address: PublicKey,
        sources: Vec<WalletHandle>,
        fee: Option<u64>,
        policy: RetryPolicy,
    ) -> (batch: Batch)
        ensures
            batch@ == BatchModel::fresh(
                OperationModel::Consolidate {
                    target: target@,
                    target_address: target_address@,
                    fee,
                },
                sources.deep_view(),
                policy.budget(),
            ),
            batch@.well_formed(),
    {
        Batch::fresh(Operation::Consolidate { target, target_address, fee }, sources, policy)
    }

    /// Sets up the listing of the balance of each of `wallets`.
    pub fn view_balances(wallets: Vec<WalletHandle>) -> (batch: Batch)
        ensures
            batch@ == BatchModel::fresh(
                OperationModel::ViewBalances,
                wallets.deep_view(),
                DEFAULT_MAX_ATTEMPTS,
            ),
            batch@.well_formed(),
    {
        Batch::fresh(Operation::ViewBalances, wallets, RetryPolicy::default())
    }

    /// What the caller has to do next.
    pub fn next_action(&self) -> (action: Action)
        ensures
            action@ == self@.pending(),
            self@.well_formed(),
    {
        proof {
            use_type_invariant(self);
        }
        match &self.phase {
            Phase::Aborted { error } => Action::Abort { error: *error },
            Phase::Resolving => {
                if self.position < self.wallets.len() {
                    Action::ResolveKey { wallet: self.wallets[self.position].clone() }
                } else {
                    Action::Finish
                }
            },
            Phase::Working { address, attempt } => {
                let wallet = &self.wallets[self.position];
                match &self.operation {
                    Operation::Distribute { source, amount, fee } => Action::Transfer {
                        request: TransferRequest::distribution(
                            source,
                            address,
                            amount.as_str(),
                            *fee,
                        ),
                        attempt: *attempt,
                    },
                    Operation::Consolidate { target, target_address, fee } => Action::Transfer {
                        request: TransferRequest::consolidation(
                            wallet,
                            target,
                            target_address,
                            *fee,
                        ),
                        attempt: *attempt,
                    },
                    Operation::ViewBalances => Action::QueryBalance { address: address.clone() },
                }
            },
        }
    }

    /// The batch in another phase.
    fn in_phase(self, phase: Phase) -> (next: Batch)
        requires
            self@.in_phase(phase@).well_formed(),
        ensures
            next@ == self@.in_phase(phase@),
    {
        Batch { phase, ..self }
    }

    /// The batch with the wallet at hand counted and the next one at hand.
    fn settled(self, success: bool) -> (next: Batch)
        requires
            self@.phase is Working,
        ensures
            next@ == self@.settled(success),
    {
        proof {
            use_type_invariant(&self);
        }
        assert(self.wallets.deep_view().len() == self.wallets.len());
        let tally = if success {
            Tally { succeeded: self.tally.succeeded + 1, exhausted: self.tally.exhausted }
        } else {
            Tally { succeeded: self.tally.succeeded, exhausted: self.tally.exhausted + 1 }
        };
        Batch { position: self.position + 1, phase: Phase::Resolving, tally, ..self }
    }

    /// Takes what came back from the pending action, and gives the batch as it
    /// stands after that together with the line to write, if there is one.
    pub fn advance(self, completion: &Completion) -> (next: (Batch, Option<LogLine>))
        ensures
            next.0@ == self@.step(completion@),
            next.0@.well_formed(),
            match next.1 {
                Some(line) => self@.line(completion@) == Some(line@),
                None => self@.line(completion@) is None,
            },
    {
        proof {
            use_type_invariant(&self);
        }
        match &self.phase {
            Phase::Aborted { .. } => (self, None),
            Phase::Resolving => {
                if self.position < self.wallets.len() {
                    let phase = match resolve_public_key(completion) {
                        Ok(address) => Phase::Working { address, attempt: 1 },
                        Err(error) => Phase::Aborted { error: BatchError::KeyResolution(error) },
                    };
                    (self.in_phase(phase), None)
                } else {
                    (self, None)
                }
            },
            Phase::Working { address, attempt } => match completion {
                Completion::NotStarted => {
                    let phase = Phase::Aborted { error: BatchError::CollaboratorNotStarted };
                    (self.in_phase(phase), None)
                },
                Completion::Exited { success, stdout, stderr } => {
                    if self.operation.is_listing() {
                        let output = text_from_utf8_lossy(stdout);
                        let balance = trim(output.as_str());
                        let line = LogLine::balance(address.text.as_str(), balance.as_str());
                        (self.settled(true), Some(line))
                    } else {
                        let attempt = *attempt;
                        let budget = self.policy.max_attempts();
                        let after = (RetryState::Attempting { attempt }).observe(
                            &self.policy,
                            *success,
                        );
                        let diagnostic = text_from_utf8_lossy(stderr);
                        let line = attempt_line(
                            &self.operation,
                            address,
                            attempt,
                            budget,
                            after,
                            diagnostic.as_str(),
                        );
                        let next = match after {
                            RetryState::Succeeded { .. } => self.settled(true),
                            RetryState::Exhausted { .. } => self.settled(false),
                            RetryState::Attempting { attempt: next } => {
                                let address = address.clone();
                                self.in_phase(Phase::Working { address, attempt: next })
                            },
                            RetryState::Pending => self,
                        };
                        (next, line)
                    }
                },
            },
        }
    }

    /// Hands a recorded run to the batch: each of the completions in turn, as
    /// if the pending action had just come back with it. Gives the batch as
    /// it stands after the last of them, and the lines that were written on
    /// the way.
    pub fn replay(self, completions: &Vec<Completion>) -> (end: (Batch, Vec<LogLine>))
        ensures
            end.0@ == self@.after(completions.deep_view()),
            end.0@.well_formed(),
            end.1.deep_view() == self@.written(completions.deep_view()),
    {
        proof {
            use_type_invariant(&self);
        }
        let ghost start = self@;
        let ghost all = completions.deep_view();
        let mut batch = self;
        let mut lines: Vec<LogLine> = Vec::new();
        for i in 0..completions.len()
            invariant
                all == completions.deep_view(),
                batch@ == start.after(all.take(i as int)),
                batch@.well_formed(),
                lines.deep_view() == start.written(all.take(i as int)),
        {
            proof {
                assert(all.take(i + 1).drop_last() =~= all.take(i as int));
            }
            let (next, line) = batch.advance(&completions[i]);
            batch = next;
            if let Some(line) = line {
                lines.push(line);
            }
        }
        assert(all.take(completions.len() as int) =~= all);
        (batch, lines)
    }

    /// Tells whether every wallet has been dealt with.
    pub fn is_finished(&self) -> (yes: bool)
        ensures
            yes == self@.finished(),
    {
        match &self.phase {
            Phase::Resolving => self.position >= self.wallets.len(),
            _ => false,
        }
    }

    /// The reason for which the batch was ended early, if it was.
    pub fn failure(&self) -> (error: Option<BatchError>)
        ensures
            error == match self@.phase {
                PhaseModel::Aborted { error } => Some(error),
                _ => None,
            },
    {
        match &self.phase {
            Phase::Aborted { error } => Some(*error),
            _ => None,
        }
    }

    /// How many wallets have been dealt with.
    pub fn position(&self) -> (position: usize)
        ensures
            position == self@.position,
    {
        self.position
    }

    /// How many wallets the batch was set up with.
    pub fn wallet_count(&self) -> (count: usize)
        ensures
            count == self@.wallets.len(),
    {
        self.wallets.len()
    }

    /// How many wallets have been dealt with, by outcome.
    pub fn tally(&self) -> (tally: Tally)
        ensures
            tally.succeeded == self@.succeeded,
            tally.exhausted == self@.exhausted,
            tally.succeeded + tally.exhausted == self@.position,
    {
        proof {
            use_type_invariant(self);
        }
        self.tally
    }
}

} // verus!
