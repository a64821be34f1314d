//! The command line: which command a list of arguments asks for, and what its
//! numeric operands denote.

use crate::text::{bounded_value, parse_unsigned};
use vstd::prelude::*;
use vstd::string::*;

verus! {

/// A command as it was typed, its operands still text.
#[derive(Clone, Debug, PartialEq, Eq)]
pub enum Command {
    /// No command was recognised: the usage summary is shown.
    Usage,
    /// Create `count` new wallets under `directory`.
    Generate { count: String, directory: String },
    /// Split `amount` evenly across the wallets in `directory`.
    Distribute {
        source_keypair: String,
        directory: String,
        amount: String,
        priority_fee: Option<String>,
    },
    /// Show the balance of each wallet in `directory`.
    ViewBalances { directory: String },
    /// Sweep the wallets in `source_directory` into `target_keypair`.
    Consolidate { source_directory: String, target_keypair: String, priority_fee: Option<String> },
}

/// The mathematical content of a `Command`.
pub enum CommandModel {
    Usage,
    Generate { count: Seq<char>, directory: Seq<char> },
    Distribute {
        source_keypair: Seq<char>,
        directory: Seq<char>,
        amount: Seq<char>,
        priority_fee: Option<Seq<char>>,
    },
    ViewBalances { directory: Seq<char> },
    Consolidate {
        source_directory: Seq<char>,
        target_keypair: Seq<char>,
        priority_fee: Option<Seq<char>>,
    },
}

impl View for Command {
    type V = CommandModel;

    open spec fn view(&self) -> CommandModel {
        match self {
            Command::Usage => CommandModel::Usage,
            Command::Generate { count, directory } => CommandModel::Generate {
                count: count@,
                directory: directory@,
            },
            Command::Distribute {
                source_keypair,
                directory,
                amount,
                priority_fee,
            } => CommandModel::Distribute {
                source_keypair: source_keypair@,
                directory: directory@,
                amount: amount@,
                priority_fee: priority_fee.deep_view(),
            },
            Command::ViewBalances { directory } => CommandModel::ViewBalances {
                directory: directory@,
            },
            Command::Consolidate {
                source_directory,
                target_keypair,
                priority_fee,
            } => CommandModel::Consolidate {
                source_directory: source_directory@,
                target_keypair: target_keypair@,
                priority_fee: priority_fee.deep_view(),
            },
        }
    }
}

/// The command that a list of arguments asks for. The first argument is the
/// name that the program was started by, the second names the command, and
/// the rest are its operands. A command is recognised by its name together
/// with the number of its operands; anything else asks for the usage summary.
pub open spec fn recognized(arguments: Seq<Seq<char>>) -> CommandModel {
    if arguments.len() < 2 {
        CommandModel::Usage
    } else if arguments[1] == "generate"@ && arguments.len() == 4 {
        CommandModel::Generate { count: arguments[2], directory: arguments[3] }
    } else if arguments[1] == "distribute"@ && (arguments.len() == 5 || arguments.len() == 6) {
        CommandModel::Distribute {
            source_keypair: arguments[2],
            directory: arguments[3],
            amount: arguments[4],
            priority_fee: if arguments.len() == 6 {
                Some(arguments[5])
            } else {
                None
            },
        }
    } else if arguments[1] == "view_balances"@ && arguments.len() == 3 {
        CommandModel::ViewBalances { directory: arguments[2] }
    } else if arguments[1] == "consolidate"@ && (arguments.len() == 4 || arguments.len() == 5) {
        CommandModel::Consolidate {
            source_directory: arguments[2],
            target_keypair: arguments[3],
            priority_fee: if arguments.len() == 5 {
                Some(arguments[4])
            } else {
                None
            },
        }
    } else {
        CommandModel::Usage
    }
}

/// Tells whether `text` reads `word`.
fn reads(text: &String, word: &str) -> (yes: bool)
    ensures
        yes == (text@ == word@),
{
    *text == String::from_str(word)
}

/// Recognises the command that `arguments` asks for.
pub fn recognize(arguments: &Vec<String>) -> (command: Command)
    ensures
        command@ == recognized(arguments.deep_view()),
{
    let n = arguments.len();
    if n < 2 {
        return Command::Usage;
    }
    let name = &arguments[1];
    if reads(name, "generate") && n == 4 {
        Command::Generate { count: arguments[2].clone(), directory: arguments[3].clone() }
    } else if reads(name, "distribute") && (n == 5 || n == 6) {
        Command::Distribute {
            source_keypair: arguments[2].clone(),
            directory: arguments[3].clone(),
            amount: arguments[4].clone(),
            priority_fee: if n == 6 {
                Some(arguments[5].clone())
            } else {
                None
            },
        }
    } else if reads(name, "view_balances") && n == 3 {
        Command::ViewBalances { directory: arguments[2].clone() }
    } else if reads(name, "consolidate") && (n == 4 || n == 5) {
        Command::Consolidate {
            source_directory: arguments[2].clone(),
            target_keypair: arguments[3].clone(),
            priority_fee: if n == 5 {
                Some(arguments[4].clone())
            } else {
                None
            },
        }
    } else {
        Command::Usage
    }
}

/// An operand that does not denote a number of the kind asked for.
#[derive(Clone, Copy, Debug, PartialEq, Eq, Structural)]
pub enum OperandError {
    /// The number of wallets is not an unsigned decimal that fits the machine.
    WalletCount,
    /// The priority fee is not an unsigned decimal of at most 64 bits.
    PriorityFee,
}

impl OperandError {
    /// What the error says to the operator.
    pub open spec fn message(self) -> Seq<char> {
        match self {
            OperandError::WalletCount => "The number of wallets is not a valid count."@,
            OperandError::PriorityFee => "The priority fee is not a valid number."@,
        }
    }

    /// What the error says to the operator.
    pub fn describe(&self) -> (text: String)
        ensures
            text@ == self.message(),
    {
        match self {
            OperandError::WalletCount => String::from_str(
                "The number of wallets is not a valid count.",
            ),
            OperandError::PriorityFee => String::from_str(
                "The priority fee is not a valid number.",
            ),
        }
    }
}

/// Reads the number of wallets to generate.
pub fn parse_wallet_count(text: &str) -> (count: Result<usize, OperandError>)
    ensures
        match count {
            Ok(n) => bounded_value(text@, usize::MAX as nat) == Some(n as nat),
            Err(error) => bounded_value(text@, usize::MAX as nat) is None && error
                == OperandError::WalletCount,
        },
{
    match parse_unsigned(text, usize::MAX as u64) {
        Some(n) => Ok(n as usize),
        None => Err(OperandError::WalletCount),
    }
}

/// The priority fee that an optional operand denotes: none where there is no
/// operand, and otherwise the number that it writes.
pub open spec fn priority_fee(text: Option<Seq<char>>) -> Result<Option<u64>, OperandError> {
    match text {
        None => Ok(None),
        Some(t) => match bounded_value(t, u64::MAX as nat) {
            Some(fee) => Ok(Some(fee as u64)),
            None => Err(OperandError::PriorityFee),
        },
    }
}

/// Reads the optional priority fee.
pub fn parse_priority_fee(text: Option<&str>) -> (fee: Result<Option<u64>, OperandError>)
    ensures
        fee == priority_fee(
            match text {
                Some(t) => Some(t@),
                None => None,
            },
        ),
{
    match text {
        None => Ok(None),
        Some(t) => match parse_unsigned(t, u64::MAX) {
            Some(fee) => Ok(Some(fee)),
            None => Err(OperandError::PriorityFee),
        },
    }
}

} // verus!
