use wallet_batch::collaborator::{
    address_invocation, balance_invocation, keygen_invocation, resolve_public_key,
    transfer_invocation, wallet_file_name, Completion, Invocation, KeyResolutionError, Network,
    Program,
};
use wallet_batch::wallet::{AmountSpec, PublicKey, TransferRequest, WalletHandle};

fn handle(path: &str) -> WalletHandle {
    WalletHandle { path: path.to_string() }
}

fn key(text: &str) -> PublicKey {
    PublicKey { text: text.to_string() }
}

fn texts(words: &[&str]) -> Vec<String> {
    words.iter().map(|w| w.to_string()).collect()
}

fn exited(success: bool, stdout: &[u8]) -> Completion {
    Completion::Exited { success, stdout: stdout.to_vec(), stderr: Vec::new() }
}

#[test]
fn programs_are_started_by_their_names() {
    assert_eq!(Program::Wallet.name(), "solana");
    assert_eq!(Program::Keygen.name(), "solana-keygen");
}

#[test]
fn network_defaults_to_finalized_commitment() {
    let network = Network::finalized("http://localhost:8899");
    assert_eq!(network.rpc_url, "http://localhost:8899");
    assert_eq!(network.commitment, "finalized");
}

#[test]
fn distribution_transfer_arguments_are_in_order() {
    let source = handle("/keys/source.json");
    let request = TransferRequest::distribution(&source, &key("DestKey111"), "3", None);
    let invocation = transfer_invocation(&request, &Network::finalized("YOUR_RPC_URL_HERE"));
    assert_eq!(
        invocation,
        Invocation {
            program: Program::Wallet,
            arguments: texts(&[
                "transfer",
                "--from",
                "/keys/source.json",
                "DestKey111",
                "3",
                "--fee-payer",
                "/keys/source.json",
                "--allow-unfunded-recipient",
                "--commitment",
                "finalized",
                "--url",
                "YOUR_RPC_URL_HERE",
            ]),
        }
    );
}

#[test]
fn priority_fee_is_appended_as_written() {
    let source = handle("s.json");
    let request = TransferRequest::distribution(&source, &key("D"), "0.25", Some(1000));
    let invocation = transfer_invocation(&request, &Network::finalized("U"));
    let n = invocation.arguments.len();
    assert_eq!(n, 14);
    assert_eq!(invocation.arguments[n - 2], "--with-compute-unit-price");
    assert_eq!(invocation.arguments[n - 1], "1000");
    assert_eq!(invocation.arguments[4], "0.25");
}

#[test]
fn consolidation_transfer_sweeps_all_and_target_pays() {
    let request = TransferRequest::consolidation(
        &handle("/wallets/wallet_0.json"),
        &handle("/keys/target.json"),
        &key("TargetKey999"),
        Some(u64::MAX),
    );
    assert_eq!(request.amount, AmountSpec::All);
    assert_eq!(request.fee_payer, handle("/keys/target.json"));
    let invocation = transfer_invocation(&request, &Network::finalized("https://rpc.example"));
    assert_eq!(
        invocation,
        Invocation {
            program: Program::Wallet,
            arguments: texts(&[
                "transfer",
                "--from",
                "/wallets/wallet_0.json",
                "TargetKey999",
                "ALL",
                "--fee-payer",
                "/keys/target.json",
                "--commitment",
                "finalized",
                "--url",
                "https://rpc.example",
                "--with-compute-unit-price",
                "18446744073709551615",
            ]),
        }
    );
}

#[test]
fn amount_tokens() {
    assert_eq!(AmountSpec::All.token(), "ALL");
    assert_eq!(AmountSpec::Fixed("1.5".to_string()).token(), "1.5");
}

#[test]
fn balance_query_arguments_are_in_order() {
    let network = Network { rpc_url: "U".to_string(), commitment: "confirmed".to_string() };
    assert_eq!(
        balance_invocation(&key("Addr"), &network),
        Invocation {
            program: Program::Wallet,
            arguments: texts(&["balance", "Addr", "--commitment", "confirmed", "--url", "U"]),
        }
    );
}

#[test]
fn address_and_keygen_arguments_are_in_order() {
    assert_eq!(
        address_invocation(&handle("dir/wallet_3.json")),
        Invocation { program: Program::Keygen, arguments: texts(&["pubkey", "dir/wallet_3.json"]) }
    );
    assert_eq!(
        keygen_invocation("dir/wallet_3.json"),
        Invocation {
            program: Program::Keygen,
            arguments: texts(&["new", "--no-bip39-passphrase", "--outfile", "dir/wallet_3.json"]),
        }
    );
}

#[test]
fn wallet_files_are_numbered() {
    assert_eq!(wallet_file_name(0), "wallet_0.json");
    assert_eq!(wallet_file_name(9), "wallet_9.json");
    assert_eq!(wallet_file_name(10), "wallet_10.json");
    assert_eq!(wallet_file_name(12345), "wallet_12345.json");
}

#[test]
fn address_is_the_trimmed_output() {
    assert_eq!(resolve_public_key(&exited(true, b"7xKXtg2CW\n")), Ok(key("7xKXtg2CW")));
    assert_eq!(resolve_public_key(&exited(true, b"  Abc  \r\n")), Ok(key("Abc")));
    assert_eq!(resolve_public_key(&exited(true, b"")), Ok(key("")));
    assert_eq!(
        resolve_public_key(&exited(true, "cl\u{e9}\u{3000}".as_bytes())),
        Ok(key("cl\u{e9}"))
    );
}

#[test]
fn address_resolution_fails_when_the_program_does_not_start() {
    assert_eq!(resolve_public_key(&Completion::NotStarted), Err(KeyResolutionError::NotStarted));
}

#[test]
fn address_resolution_fails_when_the_program_fails() {
    assert_eq!(
        resolve_public_key(&exited(false, b"7xKXtg2CW\n")),
        Err(KeyResolutionError::Failed)
    );
}

#[test]
fn address_resolution_fails_on_output_that_is_not_text() {
    assert_eq!(
        resolve_public_key(&exited(true, &[0x41, 0xff, 0x42])),
        Err(KeyResolutionError::NotText)
    );
    assert_eq!(resolve_public_key(&exited(true, &[0xc3])), Err(KeyResolutionError::NotText));
    assert_eq!(
        resolve_public_key(&exited(true, &[0xed, 0xa0, 0x80])),
        Err(KeyResolutionError::NotText)
    );
}

#[test]
fn key_resolution_errors_describe_themselves() {
    assert_eq!(KeyResolutionError::NotStarted.describe(), "The key program could not be started.");
    assert_eq!(
        KeyResolutionError::Failed.describe(),
        "The key program could not derive an address."
    );
    assert_eq!(
        KeyResolutionError::NotText.describe(),
        "The key program printed an address that is not text."
    );
}
