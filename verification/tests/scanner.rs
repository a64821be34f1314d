use wallet_batch::scanner::{scan, wallets_among, DirectoryEntry, DirectoryReadError};
use wallet_batch::wallet::WalletHandle;

fn entry(path: &str, regular_file: bool) -> DirectoryEntry {
    DirectoryEntry { path: path.to_string(), regular_file }
}

fn handle(path: &str) -> WalletHandle {
    WalletHandle { path: path.to_string() }
}

#[test]
fn one_wallet_for_each_regular_file() {
    let entries = vec![
        entry("dir/wallet_1.json", true),
        entry("dir/nested", false),
        entry("dir/wallet_0.json", true),
        entry("dir/socket", false),
        entry("dir/notes.txt", true),
    ];
    assert_eq!(
        wallets_among(&entries),
        vec![handle("dir/wallet_1.json"), handle("dir/wallet_0.json"), handle("dir/notes.txt")]
    );
}

#[test]
fn empty_directory_has_no_wallets() {
    assert_eq!(wallets_among(&Vec::new()), Vec::<WalletHandle>::new());
    assert_eq!(scan(Some(Vec::new())), Ok(Vec::new()));
}

#[test]
fn directory_of_directories_has_no_wallets() {
    assert_eq!(
        wallets_among(&vec![entry("a", false), entry("b", false)]),
        Vec::<WalletHandle>::new()
    );
}

#[test]
fn unreadable_directory_is_an_error() {
    assert_eq!(scan(None), Err(DirectoryReadError));
    assert_eq!(DirectoryReadError.describe(), "The wallet directory could not be read.");
}

#[test]
fn readable_directory_gives_its_files() {
    assert_eq!(
        scan(Some(vec![entry("x/a.json", true), entry("x/sub", false)])),
        Ok(vec![handle("x/a.json")])
    );
}
