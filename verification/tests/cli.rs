use wallet_batch::cli::{
    parse_priority_fee, parse_wallet_count, recognize, Command, OperandError,
};

fn arguments(words: &[&str]) -> Vec<String> {
    words.iter().map(|w| w.to_string()).collect()
}

#[test]
fn no_command_asks_for_usage() {
    assert_eq!(recognize(&arguments(&[])), Command::Usage);
    assert_eq!(recognize(&arguments(&["tool"])), Command::Usage);
}

#[test]
fn unknown_command_asks_for_usage() {
    assert_eq!(recognize(&arguments(&["tool", "sweep", "dir"])), Command::Usage);
    assert_eq!(recognize(&arguments(&["tool", "Generate", "3", "dir"])), Command::Usage);
    assert_eq!(recognize(&arguments(&["tool", "", "3", "dir"])), Command::Usage);
}

#[test]
fn generate_takes_two_operands() {
    assert_eq!(
        recognize(&arguments(&["tool", "generate", "3", "wallets"])),
        Command::Generate { count: "3".to_string(), directory: "wallets".to_string() }
    );
    assert_eq!(recognize(&arguments(&["tool", "generate", "3"])), Command::Usage);
    assert_eq!(recognize(&arguments(&["tool", "generate", "3", "wallets", "x"])), Command::Usage);
}

#[test]
fn distribute_takes_three_or_four_operands() {
    assert_eq!(
        recognize(&arguments(&["tool", "distribute", "source.json", "wallets", "9.0"])),
        Command::Distribute {
            source_keypair: "source.json".to_string(),
            directory: "wallets".to_string(),
            amount: "9.0".to_string(),
            priority_fee: None,
        }
    );
    assert_eq!(
        recognize(&arguments(&["tool", "distribute", "source.json", "wallets", "9.0", "1000"])),
        Command::Distribute {
            source_keypair: "source.json".to_string(),
            directory: "wallets".to_string(),
            amount: "9.0".to_string(),
            priority_fee: Some("1000".to_string()),
        }
    );
    assert_eq!(recognize(&arguments(&["tool", "distribute", "source.json", "wallets"])), Command::Usage);
    assert_eq!(
        recognize(&arguments(&["tool", "distribute", "a", "b", "c", "d", "e"])),
        Command::Usage
    );
}

#[test]
fn view_balances_takes_one_operand() {
    assert_eq!(
        recognize(&arguments(&["tool", "view_balances", "wallets"])),
        Command::ViewBalances { directory: "wallets".to_string() }
    );
    assert_eq!(recognize(&arguments(&["tool", "view_balances"])), Command::Usage);
    assert_eq!(recognize(&arguments(&["tool", "view_balances", "a", "b"])), Command::Usage);
}

#[test]
fn consolidate_takes_two_or_three_operands() {
    assert_eq!(
        recognize(&arguments(&["tool", "consolidate", "wallets", "target.json"])),
        Command::Consolidate {
            source_directory: "wallets".to_string(),
            target_keypair: "target.json".to_string(),
            priority_fee: None,
        }
    );
    assert_eq!(
        recognize(&arguments(&["tool", "consolidate", "wallets", "target.json", "1000"])),
        Command::Consolidate {
            source_directory: "wallets".to_string(),
            target_keypair: "target.json".to_string(),
            priority_fee: Some("1000".to_string()),
        }
    );
    assert_eq!(recognize(&arguments(&["tool", "consolidate", "wallets"])), Command::Usage);
    assert_eq!(
        recognize(&arguments(&["tool", "consolidate", "a", "b", "c", "d"])),
        Command::Usage
    );
}

#[test]
fn wallet_count_is_an_unsigned_number() {
    assert_eq!(parse_wallet_count("0"), Ok(0));
    assert_eq!(parse_wallet_count("25"), Ok(25));
    assert_eq!(parse_wallet_count("+25"), Ok(25));
    assert_eq!(parse_wallet_count(&usize::MAX.to_string()), Ok(usize::MAX));
    assert_eq!(parse_wallet_count("-1"), Err(OperandError::WalletCount));
    assert_eq!(parse_wallet_count("three"), Err(OperandError::WalletCount));
    assert_eq!(parse_wallet_count(""), Err(OperandError::WalletCount));
    assert_eq!(parse_wallet_count("2.5"), Err(OperandError::WalletCount));
    assert_eq!(
        parse_wallet_count("340282366920938463463374607431768211456"),
        Err(OperandError::WalletCount)
    );
}

#[test]
fn priority_fee_is_optional() {
    assert_eq!(parse_priority_fee(None), Ok(None));
    assert_eq!(parse_priority_fee(Some("1000")), Ok(Some(1000)));
    assert_eq!(parse_priority_fee(Some("0")), Ok(Some(0)));
    assert_eq!(parse_priority_fee(Some("18446744073709551615")), Ok(Some(u64::MAX)));
    assert_eq!(parse_priority_fee(Some("18446744073709551616")), Err(OperandError::PriorityFee));
    assert_eq!(parse_priority_fee(Some("-5")), Err(OperandError::PriorityFee));
    assert_eq!(parse_priority_fee(Some("1k")), Err(OperandError::PriorityFee));
    assert_eq!(parse_priority_fee(Some("")), Err(OperandError::PriorityFee));
}

#[test]
fn operand_errors_describe_themselves() {
    assert_eq!(
        OperandError::WalletCount.describe(),
        "The number of wallets is not a valid count."
    );
    assert_eq!(OperandError::PriorityFee.describe(), "The priority fee is not a valid number.");
}
