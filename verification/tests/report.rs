use wallet_batch::report::{usage_lines, LogLine, Stream};

#[test]
fn transfer_success_line() {
    assert_eq!(
        LogLine::transferred("3", "DestKey111"),
        LogLine {
            stream: Stream::Output,
            text: "Successfully transferred 3 SOL to DestKey111".to_string()
        }
    );
}

#[test]
fn transfer_failure_line() {
    assert_eq!(
        LogLine::transfer_failed("DestKey111", 5, "Error: insufficient funds\n"),
        LogLine {
            stream: Stream::Error,
            text: "Failed to transfer to DestKey111 after 5 attempts: Error: insufficient funds\n"
                .to_string()
        }
    );
}

#[test]
fn consolidation_lines() {
    assert_eq!(
        LogLine::consolidated("SrcKey", "TargetKey"),
        LogLine {
            stream: Stream::Output,
            text: "Successfully consolidated funds from SrcKey to TargetKey".to_string()
        }
    );
    assert_eq!(
        LogLine::consolidation_failed("SrcKey", 12, "rpc down"),
        LogLine {
            stream: Stream::Error,
            text: "Failed to consolidate funds from SrcKey after 12 attempts: rpc down".to_string()
        }
    );
}

#[test]
fn retry_line() {
    assert_eq!(
        LogLine::retrying(2),
        LogLine { stream: Stream::Output, text: "Attempt 2 failed, retrying...".to_string() }
    );
}

#[test]
fn balance_line() {
    assert_eq!(
        LogLine::balance("Addr", "1.5 SOL"),
        LogLine { stream: Stream::Output, text: "Addr: 1.5 SOL".to_string() }
    );
    assert_eq!(
        LogLine::balance("Addr", ""),
        LogLine { stream: Stream::Output, text: "Addr: ".to_string() }
    );
}

#[test]
fn usage_summary() {
    assert_eq!(
        usage_lines(),
        vec![
            "Usage:".to_string(),
            "  generate <num_wallets> <directory> - Generates new wallets".to_string(),
            "  distribute <source_keypair> <directory> <amount> [priority_fee] - Distributes SOL"
                .to_string(),
            "  view_balances <directory> - Views balances of wallets".to_string(),
            "  consolidate <source_directory> <target_keypair> [priority_fee] - Consolidates SOL back"
                .to_string(),
        ]
    );
}
