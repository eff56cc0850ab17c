use relayer::config::{AWSConfig, RelayerConfig};

fn texts(chain_id: &str, version_id: &str) -> AWSConfig {
    AWSConfig {
        smtp_server: "http://smtp.local".to_string(),
        relayer_email_addr: "relayer@example.com".to_string(),
        db_path: "postgres://db".to_string(),
        web_server_address: "127.0.0.1:4500".to_string(),
        regex_json_dir_path: "./regex".to_string(),
        prover_address: "http://prover.local".to_string(),
        chain_rpc_provider: "http://rpc.local".to_string(),
        chain_rpc_explorer: "http://explorer.local".to_string(),
        chain_id: chain_id.to_string(),
        private_key: "key".to_string(),
        email_account_recovery_version_id: version_id.to_string(),
        email_templates: "./templates".to_string(),
        error_email_addr: "errors@example.com".to_string(),
        dkim_canister_id: "dkim".to_string(),
        wallet_canister_id: "wallet".to_string(),
        pem_path: "./id.pem".to_string(),
        ic_replica_url: "http://ic.local".to_string(),
    }
}

fn expected(chain_id: u32, version_id: u8, explorer: &str) -> RelayerConfig {
    RelayerConfig {
        smtp_server: "http://smtp.local".to_string(),
        relayer_email_addr: "relayer@example.com".to_string(),
        db_path: "postgres://db".to_string(),
        web_server_address: "127.0.0.1:4500".to_string(),
        regex_json_dir_path: "./regex".to_string(),
        prover_address: "http://prover.local".to_string(),
        chain_rpc_provider: "http://rpc.local".to_string(),
        chain_rpc_explorer: explorer.to_string(),
        chain_id,
        private_key: "key".to_string(),
        email_account_recovery_version_id: version_id,
        email_templates: "./templates".to_string(),
        error_email_addr: "errors@example.com".to_string(),
        dkim_canister_id: "dkim".to_string(),
        wallet_canister_id: "wallet".to_string(),
        pem_path: "./id.pem".to_string(),
        ic_replica_url: "http://ic.local".to_string(),
    }
}

#[test]
fn environment_values_are_taken_as_they_are() {
    let read = RelayerConfig::from_env_values(&texts("8453", "1"));
    assert!(read == Some(expected(8453, 1, "http://explorer.local")));
}

#[test]
fn secret_takes_the_provider_as_explorer() {
    let read = RelayerConfig::from_secret(&texts("8453", "1"));
    assert!(read == Some(expected(8453, 1, "http://rpc.local")));
    assert!(read != Some(expected(8453, 1, "http://explorer.local")));
}

#[test]
fn numbers_are_read_in_decimal() {
    let read = |c: &str, v: &str| {
        RelayerConfig::from_env_values(&texts(c, v))
            .map(|r| (r.chain_id, r.email_account_recovery_version_id))
    };
    assert_eq!(read("0", "0"), Some((0, 0)));
    assert_eq!(read("+7", "+9"), Some((7, 9)));
    assert_eq!(read("007", "010"), Some((7, 10)));
    assert_eq!(read("4294967295", "255"), Some((u32::MAX, 255)));
}

#[test]
fn unreadable_numbers_give_no_settings() {
    let fails = |c: &str, v: &str| RelayerConfig::from_env_values(&texts(c, v)).is_none();
    assert!(fails("4294967296", "1"));
    assert!(fails("1", "256"));
    assert!(fails("", "1"));
    assert!(fails("1", ""));
    assert!(fails("+", "1"));
    assert!(fails("-1", "1"));
    assert!(fails(" 1", "1"));
    assert!(fails("1 ", "1"));
    assert!(fails("0x10", "1"));
    assert!(fails("1_000", "1"));
    assert!(fails("1", "one"));
    assert!(fails("++1", "1"));
    assert!(RelayerConfig::from_secret(&texts("x", "1")).is_none());
}
