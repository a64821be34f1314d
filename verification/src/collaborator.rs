//! The boundary to the external programs that do the actual work: which
//! program is run with which arguments, and what is made of what comes back.

use crate::text::{decimal, decimal_text, text_from_utf8, trim, trimmed};
use crate::wallet::{PublicKey, TransferRequest, TransferRequestModel, WalletHandle};
use vstd::prelude::*;
use vstd::string::*;
use vstd::utf8::*;

verus! {

/// The external programs that this library has work done by.
#[derive(Clone, Copy, Debug, PartialEq, Eq, Structural)]
pub enum Program {
    /// Queries balances and submits transfers.
    Wallet,
    /// Creates keypair files and derives addresses from them.
    Keygen,
}

impl Program {
    /// The name that the program is started by.
    pub open spec fn name_text(self) -> Seq<char> {
        match self {
            Program::Wallet => "solana"@,
            Program::Keygen => "solana-keygen"@,
        }
    }

    /// The name that the program is started by.
    pub fn name(&self) -> (name: &'static str)
        ensures
            name@ == self.name_text(),
    {
        match self {
            Program::Wallet => "solana",
            Program::Keygen => "solana-keygen",
        }
    }
}

/// Where and how firmly transactions are settled: the endpoint of the network
/// and the commitment level that queries and transfers wait for.
#[derive(Clone, Debug, PartialEq, Eq)]
pub struct Network {
    pub rpc_url: String,
    pub commitment: String,
}

/// The mathematical content of a `Network`.
pub struct NetworkModel {
    pub rpc_url: Seq<char>,
    pub commitment: Seq<char>,
}

impl View for Network {
    type V = NetworkModel;

    open spec fn view(&self) -> NetworkModel {
        NetworkModel { rpc_url: self.rpc_url@, commitment: self.commitment@ }
    }
}

impl Network {
    /// The network behind `rpc_url`, at the commitment level `finalized`.
    pub fn finalized(rpc_url: &str) -> (network: Network)
        ensures
            network@ == (NetworkModel { rpc_url: rpc_url@, commitment: "finalized"@ }),
    {
        Network { rpc_url: String::from_str(rpc_url), commitment: String::from_str("finalized") }
    }
}

/// One run of an external program: the program and its arguments, in order.
#[derive(Clone, Debug, PartialEq, Eq)]
pub struct Invocation {
    pub program: Program,
    pub arguments: Vec<String>,
}

/// The mathematical content of an `Invocation`.
pub struct InvocationModel {
    pub program: Program,
    pub arguments: Seq<Seq<char>>,
}

impl View for Invocation {
    type V = InvocationModel;

    open spec fn view(&self) -> InvocationModel {
        InvocationModel { program: self.program, arguments: self.arguments.deep_view() }
    }
}

/// What came back from one run of an external program.
#[derive(Clone, Debug, PartialEq, Eq)]
pub enum Completion {
    /// The program could not be started.
    NotStarted,
    /// The program ran and exited; `success` tells an exit code of zero.
    Exited { success: bool, stdout: Vec<u8>, stderr: Vec<u8> },
}

/// The mathematical content of a `Completion`.
pub enum CompletionModel {
    NotStarted,
    Exited { success: bool, stdout: Seq<u8>, stderr: Seq<u8> },
}

impl View for Completion {
    type V = CompletionModel;

    open spec fn view(&self) -> CompletionModel {
        match self {
            Completion::NotStarted => CompletionModel::NotStarted,
            Completion::Exited { success, stdout, stderr } => CompletionModel::Exited {
                success: *success,
                stdout: stdout@,
                stderr: stderr@,
            },
        }
    }
}

impl DeepView for Completion {
    type V = CompletionModel;

    open spec fn deep_view(&self) -> CompletionModel {
        self@
    }
}

/// Why the address of a wallet could not be resolved.
#[derive(Clone, Copy, Debug, PartialEq, Eq, Structural)]
pub enum KeyResolutionError {
    /// The key-to-address program could not be started.
    NotStarted,
    /// The key-to-address program exited with a failure.
    Failed,
    /// The key-to-address program printed something that is not text.
    NotText,
}

impl KeyResolutionError {
    /// What the error says to the operator.
    pub open spec fn message(self) -> Seq<char> {
        match self {
            KeyResolutionError::NotStarted => "The key program could not be started."@,
            KeyResolutionError::Failed => "The key program could not derive an address."@,
            KeyResolutionError::NotText => "The key program printed an address that is not text."@,
        }
    }

    /// What the error says to the operator.
    pub fn describe(&self) -> (text: String)
        ensures
            text@ == self.message(),
    {
        match self {
            KeyResolutionError::NotStarted => String::from_str(
                "The key program could not be started.",
            ),
            KeyResolutionError::Failed => String::from_str(
                "The key program could not derive an address.",
            ),
            KeyResolutionError::NotText => String::from_str(
                "The key program printed an address that is not text.",
            ),
        }
    }
}

/// The arguments of a transfer, in the order in which they are handed over.
pub open spec fn transfer_arguments(request: TransferRequestModel, network: NetworkModel) -> Seq<
    Seq<char>,
> {
    seq![
        "transfer"@,
        "--from"@,
        request.source,
        request.destination,
        request.amount.token(),
        "--fee-payer"@,
        request.fee_payer,
    ] + (if request.allow_unfunded_recipient {
        seq!["--allow-unfunded-recipient"@]
    } else {
        Seq::<Seq<char>>::empty()
    }) + seq!["--commitment"@, network.commitment, "--url"@, network.rpc_url] + (match request.fee {
        Some(fee) => seq!["--with-compute-unit-price"@, decimal(fee as nat)],
        None => Seq::<Seq<char>>::empty(),
    })
}

/// The arguments of a balance query.
pub open spec fn balance_arguments(address: Seq<char>, network: NetworkModel) -> Seq<Seq<char>> {
    seq!["balance"@, address, "--commitment"@, network.commitment, "--url"@, network.rpc_url]
}

/// The arguments that have the address of a keypair file derived.
pub open spec fn address_arguments(wallet: Seq<char>) -> Seq<Seq<char>> {
    seq!["pubkey"@, wallet]
}

/// The arguments that have a new keypair file written to `outfile`.
pub open spec fn keygen_arguments(outfile: Seq<char>) -> Seq<Seq<char>> {
    seq!["new"@, "--no-bip39-passphrase"@, "--outfile"@, outfile]
}

/// The name of the keypair file of the wallet with the given index.
pub open spec fn wallet_file(index: nat) -> Seq<char> {
    "wallet_"@ + decimal(index) + ".json"@
}

/// The address that the output of the key-to-address program resolves to: the
/// program must have run and succeeded, its output must be text, and the
/// address is that text without the white space around it.
pub open spec fn resolved_address(completion: CompletionModel) -> Result<
    Seq<char>,
    KeyResolutionError,
> {
    match completion {
        CompletionModel::NotStarted => Err(KeyResolutionError::NotStarted),
        CompletionModel::Exited { success, stdout, stderr } => if !success {
            Err(KeyResolutionError::Failed)
        } else if !valid_utf8(stdout) {
            Err(KeyResolutionError::NotText)
        } else {
            Ok(trimmed(decode_utf8(stdout)))
        },
    }
}

/// The run of the wallet program that submits `request` once.
pub fn transfer_invocation(request: &TransferRequest, network: &Network) -> (invocation: Invocation)
    ensures
        invocation@ == (InvocationModel {
            program: Program::Wallet,
            arguments: transfer_arguments(request@, network@),
        }),
{
    let mut arguments: Vec<String> = Vec::new();
    arguments.push(String::from_str("transfer"));
    arguments.push(String::from_str("--from"));
    arguments.push(request.source.path.clone());
    arguments.push(request.destination.text.clone());
    arguments.push(request.amount.token());
    arguments.push(String::from_str("--fee-payer"));
    arguments.push(request.fee_payer.path.clone());
    if request.allow_unfunded_recipient {
        arguments.push(String::from_str("--allow-unfunded-recipient"));
    }
    arguments.push(String::from_str("--commitment"));
    arguments.push(network.commitment.clone());
    arguments.push(String::from_str("--url"));
    arguments.push(network.rpc_url.clone());
    if let Some(fee) = request.fee {
        arguments.push(String::from_str("--with-compute-unit-price"));
        arguments.push(decimal_text(fee));
    }
    assert(arguments.deep_view() =~= transfer_arguments(request@, network@));
    Invocation { program: Program::Wallet, arguments }
}

/// The run of the wallet program that reports the balance of `address`.
pub fn balance_invocation(address: &PublicKey, network: &Network) -> (invocation: Invocation)
    ensures
        invocation@ == (InvocationModel {
            program: Program::Wallet,
            arguments: balance_arguments(address@, network@),
        }),
{
    let mut arguments: Vec<String> = Vec::new();
    arguments.push(String::from_str("balance"));
    arguments.push(address.text.clone());
    arguments.push(String::from_str("--commitment"));
    arguments.push(network.commitment.clone());
    arguments.push(String::from_str("--url"));
    arguments.push(network.rpc_url.clone());
    assert(arguments.deep_view() =~= balance_arguments(address@, network@));
    Invocation { program: Program::Wallet, arguments }
}

/// The run of the key program that prints the address of `wallet`.
pub fn address_invocation(wallet: &WalletHandle) -> (invocation: Invocation)
    ensures
        invocation@ == (InvocationModel {
            program: Program::Keygen,
            arguments: address_arguments(wallet@),
        }),
{
    let mut arguments: Vec<String> = Vec::new();
    arguments.push(String::from_str("pubkey"));
    arguments.push(wallet.path.clone());
    assert(arguments.deep_view() =~= address_arguments(wallet@));
    Invocation { program: Program::Keygen, arguments }
}

/// The run of the key program that writes a new keypair file to `outfile`.
pub fn keygen_invocation(outfile: &str) -> (invocation: Invocation)
    ensures
        invocation@ == (InvocationModel {
            program: Program::Keygen,
            arguments: keygen_arguments(outfile@),
        }),
{
    let mut arguments: Vec<String> = Vec::new();
    arguments.push(String::from_str("new"));
    arguments.push(String::from_str("--no-bip39-passphrase"));
    arguments.push(String::from_str("--outfile"));
    arguments.push(String::from_str(outfile));
    assert(arguments.deep_view() =~= keygen_arguments(outfile@));
    Invocation { program: Program::Keygen, arguments }
}

/// The name of the keypair file of the wallet with the given index.
pub fn wallet_file_name(index: usize) -> (name: String)
    ensures
        name@ == wallet_file(index as nat),
{
    let mut name = String::from_str("wallet_");
    let number = decimal_text(index as u64);
    name.append(number.as_str());
    name.append(".json");
    name
}

/// Resolves the address of a wallet from what the key-to-address program
/// returned. Fails when the program did not start, exited with a failure, or
/// printed something that is not text.
pub fn resolve_public_key(completion: &Completion) -> (resolved: Result<
    PublicKey,
    KeyResolutionError,
>)
    ensures
        match resolved {
            Ok(address) => resolved_address(completion@) == Ok::<Seq<char>, KeyResolutionError>(
                address@,
            ),
            Err(error) => resolved_address(completion@) == Err::<Seq<char>, KeyResolutionError>(
                error,
            ),
        },
{
    match completion {
        Completion::NotStarted => Err(KeyResolutionError::NotStarted),
        Completion::Exited { success, stdout, stderr } => {
            if !*success {
                Err(KeyResolutionError::Failed)
            } else {
                match text_from_utf8(stdout) {
                    None => Err(KeyResolutionError::NotText),
                    Some(output) => Ok(PublicKey { text: trim(output.as_str()) }),
                }
            }
        },
    }
}

} // verus!
