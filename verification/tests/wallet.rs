use predict_agent::json::Json;
use predict_agent::wallet::{has_keystore_entry, is_keystore_indicator, wallet_check_output, WalletStatus};

fn status(cli: bool, dir: bool, keystore: bool, receive: bool) -> WalletStatus {
    WalletStatus {
        cli_installed: cli,
        cli_path: if cli { Some("/usr/bin/awp-wallet".to_string()) } else { None },
        wallet_dir_exists: dir,
        has_keystore: keystore,
        can_receive: receive,
        address: if receive { Some("0xabc".to_string()) } else { None },
        human_status: String::new(),
    }
}

#[test]
fn test_wallet_dir() {
    let dir = WalletStatus::wallet_dir(None);
    assert!(dir.contains(".awp-wallet"));
}

#[test]
fn wallet_dir_joins_home() {
    assert_eq!(WalletStatus::wallet_dir(Some("/home/agent")), "/home/agent/.awp-wallet");
    assert_eq!(WalletStatus::wallet_dir(Some("/home/agent/")), "/home/agent/.awp-wallet");
    assert_eq!(WalletStatus::wallet_dir(None), "/root/.awp-wallet");
}

#[test]
fn init_is_safe_only_without_wallet_data() {
    assert!(status(true, false, false, false).safe_to_init());
    assert!(!status(true, true, false, false).safe_to_init());
    assert!(!status(true, false, true, false).safe_to_init());
    assert!(!status(true, true, true, true).safe_to_init());
    // A wallet that `awp-wallet receive` can read exists, whatever the directory shows.
    assert!(!status(true, false, false, true).safe_to_init());
}

#[test]
fn setup_command_by_state() {
    assert_eq!(status(true, true, true, true).setup_command(), "predict-agent preflight");
    assert_eq!(
        status(true, true, false, false).setup_command(),
        "export AWP_WALLET_TOKEN=$(awp-wallet unlock --duration 86400 --scope full --raw)"
    );
    assert_eq!(
        status(true, false, false, false).setup_command(),
        "awp-wallet init && export AWP_WALLET_TOKEN=$(awp-wallet unlock --duration 86400 --scope full --raw)"
    );
    assert_eq!(
        status(false, false, false, false).setup_command(),
        "curl -sSL https://raw.githubusercontent.com/predictAworknet/prediction-skill/main/install.sh | sh"
    );
}

#[test]
fn existing_wallet_is_never_told_to_init() {
    for dir in [false, true] {
        for ks in [false, true] {
            for cli in [false, true] {
                let s = status(cli, dir, ks, false);
                if dir || ks {
                    assert!(!s.setup_command().contains("init"));
                    assert!(s.suggestion().contains("Do NOT run awp-wallet init"));
                }
            }
        }
    }
}

#[test]
fn suggestion_by_state() {
    assert_eq!(status(true, true, true, true).suggestion(), "Wallet is ready. Run: predict-agent preflight");
    assert_eq!(
        status(true, false, false, false).suggestion(),
        "No wallet found. Run: awp-wallet init && export AWP_WALLET_TOKEN=$(awp-wallet unlock --duration 86400 --scope full --raw)"
    );
    assert_eq!(status(false, false, false, false).suggestion(), "awp-wallet not installed. Install it first, then run init.");
}

#[test]
fn keystore_indicators() {
    assert!(is_keystore_indicator("wallet.json", false));
    assert!(is_keystore_indicator("keystore-1", false));
    assert!(is_keystore_indicator("UTC--2024", false));
    assert!(is_keystore_indicator("anything", true));
    assert!(!is_keystore_indicator("notes.txt", false));
    assert!(!has_keystore_entry(&[("a.txt".to_string(), false)]));
    assert!(has_keystore_entry(&[("a.txt".to_string(), false), ("b.json".to_string(), false)]));
}

#[test]
fn assess_without_cli() {
    let s = WalletStatus::assess(None, true, true, Some("{\"address\":\"0xAB\"}"));
    assert!(!s.cli_installed);
    assert!(s.cli_path.is_none());
    assert!(s.wallet_dir_exists);
    assert!(s.has_keystore);
    assert!(!s.can_receive);
    assert!(s.address.is_none());
    assert_eq!(s.human_status, "awp-wallet CLI not installed");
    assert!(!s.safe_to_init());
    assert_eq!(s.setup_command(), "export AWP_WALLET_TOKEN=$(awp-wallet unlock --duration 86400 --scope full --raw)");
}

#[test]
fn keystore_counts_only_inside_the_directory() {
    let s = WalletStatus::assess(Some("/bin/awp-wallet".to_string()), false, true, None);
    assert!(!s.wallet_dir_exists);
    assert!(!s.has_keystore);
    assert!(s.safe_to_init());
    let t = WalletStatus::assess(None, false, true, None);
    assert!(!t.has_keystore);
    assert!(t.safe_to_init());
}

#[test]
fn wallet_without_cli_is_never_offered_init() {
    let s = WalletStatus::assess(None, true, true, None);
    let out = wallet_check_output(&s, "/root/.awp-wallet");
    assert!(!out.ok);
    let err = out.error.as_ref().unwrap();
    assert_eq!(err.code, "CLI_NOT_INSTALLED");
    assert_eq!(out.user_message, "Wallet exists but locked. Run unlock command (see suggestion). DO NOT run init.");
    let debug = err.debug.as_ref().unwrap();
    assert!(matches!(debug.get("safe_to_init"), Some(Json::Bool(false))));
    assert!(matches!(debug.get("wallet_dir_exists"), Some(Json::Bool(true))));
    assert!(matches!(debug.get("has_keystore"), Some(Json::Bool(true))));
    assert!(!out._internal.next_command.as_deref().unwrap().contains("init"));
}

#[test]
fn assess_with_receive_output() {
    let s = WalletStatus::assess(Some("/bin/awp-wallet".to_string()), true, true, Some("{\"eoaAddress\":\"0xABcd\"}"));
    assert!(s.can_receive);
    assert_eq!(s.address.as_deref(), Some("0xabcd"));
    assert_eq!(s.human_status, "Wallet ready: 0xabcd");
    let locked = WalletStatus::assess(Some("/bin/awp-wallet".to_string()), true, true, None);
    assert_eq!(locked.human_status, "Wallet exists but locked \u{2014} run awp-wallet unlock (DO NOT run init)");
    let empty = WalletStatus::assess(Some("/bin/awp-wallet".to_string()), true, false, Some("not json"));
    assert!(!empty.can_receive);
    assert_eq!(empty.human_status, "Wallet directory exists but empty \u{2014} may need init or recovery");
    let none = WalletStatus::assess(Some("/bin/awp-wallet".to_string()), false, false, None);
    assert_eq!(none.human_status, "No wallet \u{2014} safe to run awp-wallet init");
}

#[test]
fn wallet_check_reports_ready_and_locked() {
    let ready = WalletStatus::assess(Some("/bin/awp-wallet".to_string()), true, true, Some("{\"address\":\"0x1\"}"));
    let out = wallet_check_output(&ready, "/root/.awp-wallet");
    assert!(out.ok);
    assert_eq!(out.user_message, "Wallet ready: 0x1");
    let data = out.data.as_ref().unwrap();
    assert_eq!(data.get("status").and_then(|v| v.as_str()), Some("ready"));
    assert_eq!(data.get("safe_to_init").and_then(|v| v.as_bool()), Some(false));
    assert_eq!(out._internal.progress.as_deref(), Some("1/4"));

    let locked = WalletStatus::assess(Some("/bin/awp-wallet".to_string()), true, true, None);
    let out = wallet_check_output(&locked, "/root/.awp-wallet");
    assert!(!out.ok);
    let err = out.error.as_ref().unwrap();
    assert_eq!(err.code, "WALLET_LOCKED");
    assert_eq!(out._internal.next_action, "configure_wallet");
    assert_eq!(out._internal.progress.as_deref(), Some("0/4"));
    let debug = err.debug.as_ref().unwrap();
    assert_eq!(debug.get("wallet_dir").and_then(|v| v.as_str()), Some("/root/.awp-wallet"));
    assert!(matches!(debug.get("can_receive"), Some(Json::Bool(false))));

    let missing = WalletStatus::assess(None, false, false, None);
    let out = wallet_check_output(&missing, "/root/.awp-wallet");
    assert_eq!(out.error.as_ref().unwrap().code, "CLI_NOT_INSTALLED");
    assert_eq!(out.user_message, "awp-wallet CLI not installed.");
}

#[test]
fn suggestion_names_the_setup_command() {
    for cli in [false, true] {
        for dir in [false, true] {
            for ks in [false, true] {
                for rcv in [false, true] {
                    let s = status(cli, dir, ks, rcv);
                    if dir || ks || rcv {
                        assert!(!s.setup_command().contains("init"));
                    }
                    if cli || dir || ks || rcv {
                        assert!(s.suggestion().contains(s.setup_command()));
                    } else {
                        assert_eq!(s.suggestion(), "awp-wallet not installed. Install it first, then run init.");
                    }
                }
            }
        }
    }
}
