//! Batch management of wallet keypairs on a blockchain network: the decisions
//! behind generating wallets, fanning a funding amount out to them, listing
//! their balances and sweeping them back into one wallet.
//!
//! The work itself is done by external programs. This library decides which
//! program is to run next and with which arguments, what is made of its
//! output, when a failed transfer is attempted again and when it is given up,
//! and what is reported. It runs nothing itself: its caller does, and hands
//! back what came of it.
//!
//! - `cli`: the command that a list of arguments asks for.
//! - `scanner`: the wallet set of a directory.
//! - `wallet`: wallets, addresses, amounts and transfer requests.
//! - `collaborator`: the runs of the external programs and their results.
//! - `retry`: the bounded retry of one transfer.
//! - `batch`: one operation carried out for every wallet of a set.
//! - `runs`: what holds of whole runs of a batch.
//! - `report`: the lines written for the operator.
//! - `text`: decimal numerals, white space and decoding.

pub mod batch;
pub mod cli;
pub mod collaborator;
pub mod report;
pub mod retry;
pub mod runs;
pub mod scanner;
pub mod text;
pub mod wallet;
