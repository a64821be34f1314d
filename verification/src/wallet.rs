//! The data that a funds movement is described with: wallets, addresses,
//! amounts and transfer requests.

use vstd::prelude::*;
use vstd::string::*;

verus! {

/// A keypair file on durable storage, known by its location only. The key
/// material itself is never read.
#[derive(Debug, PartialEq, Eq)]
pub struct WalletHandle {
    pub path: String,
}

impl View for WalletHandle {
    type V = Seq<char>;

    open spec fn view(&self) -> Seq<char> {
        self.path@
    }
}

impl DeepView for WalletHandle {
    type V = Seq<char>;

    open spec fn deep_view(&self) -> Seq<char> {
        self.path@
    }
}

impl Clone for WalletHandle {
    fn clone(&self) -> (copy: WalletHandle)
        ensures
            copy@ == self@,
    {
        WalletHandle { path: self.path.clone() }
    }
}

/// The public address of a wallet, as resolved from its keypair file.
#[derive(Debug, PartialEq, Eq)]
pub struct PublicKey {
    pub text: String,
}

impl View for PublicKey {
    type V = Seq<char>;

    open spec fn view(&self) -> Seq<char> {
        self.text@
    }
}

impl Clone for PublicKey {
    fn clone(&self) -> (copy: PublicKey)
        ensures
            copy@ == self@,
    {
        PublicKey { text: self.text.clone() }
    }
}

/// How much a transfer moves: a fixed amount, written as a decimal, or the
/// whole balance of the source.
#[derive(Debug, PartialEq, Eq)]
pub enum AmountSpec {
    Fixed(String),
    All,
}

/// The mathematical content of an `AmountSpec`.
pub enum AmountModel {
    Fixed(Seq<char>),
    All,
}

impl AmountModel {
    /// The token that stands for the amount on a collaborator's command line.
    pub open spec fn token(self) -> Seq<char> {
        match self {
            AmountModel::Fixed(text) => text,
            AmountModel::All => "ALL"@,
        }
    }
}

impl View for AmountSpec {
    type V = AmountModel;

    open spec fn view(&self) -> AmountModel {
        match self {
            AmountSpec::Fixed(text) => AmountModel::Fixed(text@),
            AmountSpec::All => AmountModel::All,
        }
    }
}

impl Clone for AmountSpec {
    fn clone(&self) -> (copy: AmountSpec)
        ensures
            copy@ == self@,
    {
        match self {
            AmountSpec::Fixed(text) => AmountSpec::Fixed(text.clone()),
            AmountSpec::All => AmountSpec::All,
        }
    }
}

impl AmountSpec {
    /// The token that stands for the amount on a collaborator's command line:
    /// the decimal itself, or `ALL`.
    pub fn token(&self) -> (token: String)
        ensures
            token@ == self@.token(),
    {
        match self {
            AmountSpec::Fixed(text) => text.clone(),
            AmountSpec::All => String::from_str("ALL"),
        }
    }
}

/// One movement of funds, as handed to the transfer collaborator.
#[derive(Debug, PartialEq, Eq)]
pub struct TransferRequest {
    /// The wallet that the funds leave.
    pub source: WalletHandle,
    /// The address that the funds go to.
    pub destination: PublicKey,
    pub amount: AmountSpec,
    /// The wallet that pays the transaction fee.
    pub fee_payer: WalletHandle,
    /// The priority fee, handed on as it was given.
    pub fee: Option<u64>,
    /// Whether the destination may be an address that holds nothing yet.
    pub allow_unfunded_recipient: bool,
}

/// The mathematical content of a `TransferRequest`.
pub struct TransferRequestModel {
    pub source: Seq<char>,
    pub destination: Seq<char>,
    pub amount: AmountModel,
    pub fee_payer: Seq<char>,
    pub fee: Option<u64>,
    pub allow_unfunded_recipient: bool,
}

impl View for TransferRequest {
    type V = TransferRequestModel;

    open spec fn view(&self) -> TransferRequestModel {
        TransferRequestModel {
            source: self.source@,
            destination: self.destination@,
            amount: self.amount@,
            fee_payer: self.fee_payer@,
            fee: self.fee,
            allow_unfunded_recipient: self.allow_unfunded_recipient,
        }
    }
}

impl Clone for TransferRequest {
    fn clone(&self) -> (copy: TransferRequest)
        ensures
            copy@ == self@,
    {
        TransferRequest {
            source: self.source.clone(),
            destination: self.destination.clone(),
            amount: self.amount.clone(),
            fee_payer: self.fee_payer.clone(),
            fee: self.fee,
            allow_unfunded_recipient: self.allow_unfunded_recipient,
        }
    }
}

impl TransferRequestModel {
    /// The request of a distribution: a fixed amount leaves `source` for
    /// `destination`, `source` pays the fee, and the destination may be new.
    pub open spec fn distribution(
        source: Seq<char>,
        destination: Seq<char>,
        amount: Seq<char>,
        fee: Option<u64>,
    ) -> TransferRequestModel {
        TransferRequestModel {
            source,
            destination,
            amount: AmountModel::Fixed(amount),
            fee_payer: source,
            fee,
            allow_unfunded_recipient: true,
        }
    }

    /// The request of a consolidation: everything leaves `source` for the
    /// address of `target`, and `target` pays the fee.
    pub open spec fn consolidation(
        source: Seq<char>,
        target: Seq<char>,
        target_address: Seq<char>,
        fee: Option<u64>,
    ) -> TransferRequestModel {
        TransferRequestModel {
            source,
            destination: target_address,
            amount: AmountModel::All,
            fee_payer: target,
            fee,
            allow_unfunded_recipient: false,
        }
    }
}

impl TransferRequest {
    /// Builds the request that moves `amount` from `source` to `destination`
    /// in a distribution.
    pub fn distribution(
        source: &WalletHandle,
        destination: &PublicKey,
        amount: &str,
        fee: Option<u64>,
    ) -> (request: TransferRequest)
        ensures
            request@ == TransferRequestModel::distribution(source@, destination@, amount@, fee),
    {
        TransferRequest {
            source: source.clone(),
            destination: destination.clone(),
            amount: AmountSpec::Fixed(String::from_str(amount)),
            fee_payer: source.clone(),
            fee,
            allow_unfunded_recipient: true,
        }
    }

    /// Builds the request that sweeps `source` into `target` in a
    /// consolidation.
    pub fn consolidation(
        source: &WalletHandle,
        target: &WalletHandle,
        target_address: &PublicKey,
        fee: Option<u64>,
    ) -> (request: TransferRequest)
        ensures
            request@ == TransferRequestModel::consolidation(
                source@,
                target@,
                target_address@,
                fee,
            ),
    {
        TransferRequest {
            source: source.clone(),
            destination: target_address.clone(),
            amount: AmountSpec::All,
            fee_payer: target.clone(),
            fee,
            allow_unfunded_recipient: false,
        }
    }
}

} // verus!
