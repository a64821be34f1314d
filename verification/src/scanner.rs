//! The wallet set of a directory: one wallet for each regular file that the
//! directory holds directly, in the order in which the directory was read.

use crate::wallet::WalletHandle;
use vstd::prelude::*;
use vstd::string::*;

verus! {

/// One entry of a directory, as it was read.
#[derive(Clone, Debug, PartialEq, Eq)]
pub struct DirectoryEntry {
    pub path: String,
    /// Whether the entry is a regular file, rather than a directory or
    /// something else.
    pub regular_file: bool,
}

/// The mathematical content of a `DirectoryEntry`.
pub struct DirectoryEntryModel {
    pub path: Seq<char>,
    pub regular_file: bool,
}

impl View for DirectoryEntry {
    type V = DirectoryEntryModel;

    open spec fn view(&self) -> DirectoryEntryModel {
        DirectoryEntryModel { path: self.path@, regular_file: self.regular_file }
    }
}

impl DeepView for DirectoryEntry {
    type V = DirectoryEntryModel;

    open spec fn deep_view(&self) -> DirectoryEntryModel {
        self@
    }
}

/// The directory does not exist or could not be read.
#[derive(Clone, Copy, Debug, PartialEq, Eq, Structural)]
pub struct DirectoryReadError;

impl DirectoryReadError {
    /// What the error says to the operator.
    pub open spec fn message(self) -> Seq<char> {
        "The wallet directory could not be read."@
    }

    /// What the error says to the operator.
    pub fn describe(&self) -> (text: String)
        ensures
            text@ == self.message(),
    {
        String::from_str("The wallet directory could not be read.")
    }
}

/// The paths of the regular files among `entries`, in their order.
pub open spec fn regular_files(entries: Seq<DirectoryEntryModel>) -> Seq<Seq<char>> {
    entries.filter(|entry: DirectoryEntryModel| entry.regular_file).map_values(
        |entry: DirectoryEntryModel| entry.path,
    )
}

/// The wallets of a directory that was read as `entries`: one for each
/// regular file, in the order of the entries.
pub fn wallets_among(entries: &Vec<DirectoryEntry>) -> (wallets: Vec<WalletHandle>)
    ensures
        wallets.deep_view() == regular_files(entries.deep_view()),
        wallets@.len() <= entries@.len(),
{
    let ghost all = entries.deep_view();
    let ghost keep = |entry: DirectoryEntryModel| entry.regular_file;
    let ghost path = |entry: DirectoryEntryModel| entry.path;
    let mut wallets: Vec<WalletHandle> = Vec::new();
    proof {
        reveal(Seq::filter);
    }
    for i in 0..entries.len()
        invariant
            all == entries.deep_view(),
            keep == |entry: DirectoryEntryModel| entry.regular_file,
            path == |entry: DirectoryEntryModel| entry.path,
            wallets.deep_view() == all.take(i as int).filter(keep).map_values(path),
            wallets@.len() <= i,
    {
        let entry = &entries[i];
        proof {
            reveal(Seq::filter);
            assert(all.take(i + 1).drop_last() =~= all.take(i as int));
        }
        if entry.regular_file {
            let ghost before = wallets.deep_view();
            wallets.push(WalletHandle { path: entry.path.clone() });
            assert(wallets.deep_view() =~= before.push(entry.path@));
        }
    }
    assert(all.take(entries.len() as int) =~= all);
    wallets
}

/// The wallet set of a directory, from what reading the directory gave:
/// its entries, or nothing where it could not be read.
pub fn scan(listing: Option<Vec<DirectoryEntry>>) -> (wallets: Result<
    Vec<WalletHandle>,
    DirectoryReadError,
>)
    ensures
        wallets is Err <==> listing is None,
        wallets matches Ok(found) ==> found.deep_view() == regular_files(
            listing.unwrap().deep_view(),
        ),
{
    match listing {
        None => Err(DirectoryReadError),
        Some(entries) => Ok(wallets_among(&entries)),
    }
}

} // verus!
