//! What a batch tells its operator: one line for each attempt that failed, one
//! for the final outcome of each wallet, and the usage summary.

use crate::text::{decimal, decimal_text};
use vstd::prelude::*;
use vstd::string::*;

verus! {

/// The output stream that a line is written to.
#[derive(Clone, Copy, Debug, PartialEq, Eq, Structural)]
pub enum Stream {
    /// Standard output: progress and success.
    Output,
    /// Standard error: failure.
    Error,
}

/// One line of output, without its line break.
#[derive(Clone, Debug, PartialEq, Eq)]
pub struct LogLine {
    pub stream: Stream,
    pub text: String,
}

/// The mathematical content of a `LogLine`.
pub struct LogLineModel {
    pub stream: Stream,
    pub text: Seq<char>,
}

impl View for LogLine {
    type V = LogLineModel;

    open spec fn view(&self) -> LogLineModel {
        LogLineModel { stream: self.stream, text: self.text@ }
    }
}

impl DeepView for LogLine {
    type V = LogLineModel;

    open spec fn deep_view(&self) -> LogLineModel {
        self@
    }
}

impl LogLineModel {
    /// A fixed amount has reached the wallet with the given address.
    pub open spec fn transferred(amount: Seq<char>, address: Seq<char>) -> LogLineModel {
        LogLineModel {
            stream: Stream::Output,
            text: "Successfully transferred "@ + amount + " SOL to "@ + address,
        }
    }

    /// The transfer to the wallet with the given address was given up after
    /// `attempts` attempts, the last of which left `diagnostic`.
    pub open spec fn transfer_failed(
        address: Seq<char>,
        attempts: u32,
        diagnostic: Seq<char>,
    ) -> LogLineModel {
        LogLineModel {
            stream: Stream::Error,
            text: "Failed to transfer to "@ + address + " after "@ + decimal(attempts as nat)
                + " attempts: "@ + diagnostic,
        }
    }

    /// The wallet with address `source` has been swept into `target`.
    pub open spec fn consolidated(source: Seq<char>, target: Seq<char>) -> LogLineModel {
        LogLineModel {
            stream: Stream::Output,
            text: "Successfully consolidated funds from "@ + source + " to "@ + target,
        }
    }

    /// Sweeping the wallet with address `source` was given up after
    /// `attempts` attempts, the last of which left `diagnostic`.
    pub open spec fn consolidation_failed(
        source: Seq<char>,
        attempts: u32,
        diagnostic: Seq<char>,
    ) -> LogLineModel {
        LogLineModel {
            stream: Stream::Error,
            text: "Failed to consolidate funds from "@ + source + " after "@ + decimal(
                attempts as nat,
            ) + " attempts: "@ + diagnostic,
        }
    }

    /// The attempt with the given number failed and another one follows.
    pub open spec fn retrying(attempt: u32) -> LogLineModel {
        LogLineModel {
            stream: Stream::Output,
            text: "Attempt "@ + decimal(attempt as nat) + " failed, retrying..."@,
        }
    }

    /// The balance of the wallet with the given address.
    pub open spec fn balance(address: Seq<char>, balance: Seq<char>) -> LogLineModel {
        LogLineModel { stream: Stream::Output, text: address + ": "@ + balance }
    }
}

impl LogLine {
    /// Reports that `amount` has reached the wallet with the given address.
    pub fn transferred(amount: &str, address: &str) -> (line: LogLine)
        ensures
            line@ == LogLineModel::transferred(amount@, address@),
    {
        let mut text = String::from_str("Successfully transferred ");
        text.append(amount);
        text.append(" SOL to ");
        text.append(address);
        LogLine { stream: Stream::Output, text }
    }

    /// Reports that the transfer to the wallet with the given address was
    /// given up.
    pub fn transfer_failed(address: &str, attempts: u32, diagnostic: &str) -> (line: LogLine)
        ensures
            line@ == LogLineModel::transfer_failed(address@, attempts, diagnostic@),
    {
        let mut text = String::from_str("Failed to transfer to ");
        text.append(address);
        text.append(" after ");
        text.append(decimal_text(attempts as u64).as_str());
        text.append(" attempts: ");
        text.append(diagnostic);
        LogLine { stream: Stream::Error, text }
    }

    /// Reports that the wallet with address `source` has been swept into
    /// `target`.
    pub fn consolidated(source: &str, target: &str) -> (line: LogLine)
        ensures
            line@ == LogLineModel::consolidated(source@, target@),
    {
        let mut text = String::from_str("Successfully consolidated funds from ");
        text.append(source);
        text.append(" to ");
        text.append(target);
        LogLine { stream: Stream::Output, text }
    }

    /// Reports that sweeping the wallet with address `source` was given up.
    pub fn consolidation_failed(source: &str, attempts: u32, diagnostic: &str) -> (line: LogLine)
        ensures
            line@ == LogLineModel::consolidation_failed(source@, attempts, diagnostic@),
    {
        let mut text = String::from_str("Failed to consolidate funds from ");
        text.append(source);
        text.append(" after ");
        text.append(decimal_text(attempts as u64).as_str());
        text.append(" attempts: ");
        text.append(diagnostic);
        LogLine { stream: Stream::Error, text }
    }

    /// Reports that the attempt with the given number failed and that another
    /// one follows.
    pub fn retrying(attempt: u32) -> (line: LogLine)
        ensures
            line@ == LogLineModel::retrying(attempt),
    {
        let mut text = String::from_str("Attempt ");
        text.append(decimal_text(attempt as u64).as_str());
        text.append(" failed, retrying...");
        LogLine { stream: Stream::Output, text }
    }

    /// Reports the balance of the wallet with the given address.
    pub fn balance(address: &str, balance: &str) -> (line: LogLine)
        ensures
            line@ == LogLineModel::balance(address@, balance@),
    {
        let mut text = String::from_str(address);
        text.append(": ");
        text.append(balance);
        LogLine { stream: Stream::Output, text }
    }
}

/// The usage summary, line by line.
pub open spec fn usage() -> Seq<Seq<char>> {
    seq![
        "Usage:"@,
        "  generate <num_wallets> <directory> - Generates new wallets"@,
        "  distribute <source_keypair> <directory> <amount> [priority_fee] - Distributes SOL"@,
        "  view_balances <directory> - Views balances of wallets"@,
        "  consolidate <source_directory> <target_keypair> [priority_fee] - Consolidates SOL back"@,
    ]
}

/// The usage summary, line by line.
pub fn usage_lines() -> (lines: Vec<String>)
    ensures
        lines.deep_view() == usage(),
{
    let mut lines: Vec<String> = Vec::new();
    lines.push(String::from_str("Usage:"));
    lines.push(String::from_str("  generate <num_wallets> <directory> - Generates new wallets"));
    lines.push(
        String::from_str(
            "  distribute <source_keypair> <directory> <amount> [priority_fee] - Distributes SOL",
        ),
    );
    lines.push(String::from_str("  view_balances <directory> - Views balances of wallets"));
    lines.push(
        String::from_str(
            "  consolidate <source_directory> <target_keypair> [priority_fee] - Consolidates SOL back",
        ),
    );
    lines
}

} // verus!
