//! The settings of the relayer, as read from the environment or from the
//! secrets manager.

use vstd::prelude::*;

verus! {

/// The settings as the secrets manager holds them: every value is a text.
/// They hold a secret and are not printable.
#[derive(Clone, PartialEq, Eq)]
pub struct AWSConfig {
    pub smtp_server: String,
    pub relayer_email_addr: String,
    pub db_path: String,
    pub web_server_address: String,
    pub regex_json_dir_path: String,
    pub prover_address: String,
    pub chain_rpc_provider: String,
    pub chain_rpc_explorer: String,
    pub chain_id: String,
    pub private_key: String,
    pub email_account_recovery_version_id: String,
    pub email_templates: String,
    pub error_email_addr: String,
    pub dkim_canister_id: String,
    pub wallet_canister_id: String,
    pub pem_path: String,
    pub ic_replica_url: String,
}

/// The settings of the relayer. They hold a secret and are not printable.
#[derive(Clone, PartialEq, Eq)]
pub struct RelayerConfig {
    pub smtp_server: String,
    pub relayer_email_addr: String,
    pub db_path: String,
    pub web_server_address: String,
    pub regex_json_dir_path: String,
    pub prover_address: String,
    pub chain_rpc_provider: String,
    pub chain_rpc_explorer: String,
    pub chain_id: u32,
    pub private_key: String,
    pub email_account_recovery_version_id: u8,
    pub email_templates: String,
    pub error_email_addr: String,
    pub dkim_canister_id: String,
    pub wallet_canister_id: String,
    pub pem_path: String,
    pub ic_replica_url: String,
}

/// Whether every character is a decimal digit.
pub open spec fn all_digits(text: Seq<char>) -> bool {
    forall|i: int| 0 <= i < text.len() ==> '0' <= #[trigger] text[i] <= '9'
}

/// The number that a row of decimal digits spells.
pub open spec fn digits_value(digits: Seq<char>) -> nat
    decreases digits.len(),
{
    if digits.len() == 0 {
        0
    } else {
        digits_value(digits.drop_last()) * 10 + (digits.last() as nat - '0' as nat) as nat
    }
}

/// The number up to `max` that a text spells: one or more decimal digits,
/// with or without a `+` before them.
pub open spec fn decimal(text: Seq<char>, max: nat) -> Option<nat> {
    let digits = if text.len() > 0 && text[0] == '+' {
        text.skip(1)
    } else {
        text
    };
    if digits.len() > 0 && all_digits(digits) && digits_value(digits) <= max {
        Some(digits_value(digits))
    } else {
        None
    }
}

/// `str::parse::<u32>`: the number that the text spells in decimal digits,
/// with or without a `+` before them, where it fits 32 bits.
#[verifier::external_body]
fn parse_u32(text: &str) -> (number: Option<u32>)
    ensures
        match number {
            Some(n) => decimal(text@, u32::MAX as nat) == Some(n as nat),
            None => decimal(text@, u32::MAX as nat) is None,
        },
{
    text.parse::<u32>().ok()
}

/// `str::parse::<u8>`: the number that the text spells in decimal digits,
/// with or without a `+` before them, where it fits 8 bits.
#[verifier::external_body]
fn parse_u8(text: &str) -> (number: Option<u8>)
    ensures
        match number {
            Some(n) => decimal(text@, u8::MAX as nat) == Some(n as nat),
            None => decimal(text@, u8::MAX as nat) is None,
        },
{
    text.parse::<u8>().ok()
}

/// Whether settings hold what texts say, with the given explorer address.
pub open spec fn config_of(config: RelayerConfig, texts: AWSConfig, explorer: Seq<char>) -> bool {
    &&& config.smtp_server@ == texts.smtp_server@
    &&& config.relayer_email_addr@ == texts.relayer_email_addr@
    &&& config.db_path@ == texts.db_path@
    &&& config.web_server_address@ == texts.web_server_address@
    &&& config.regex_json_dir_path@ == texts.regex_json_dir_path@
    &&& config.prover_address@ == texts.prover_address@
    &&& config.chain_rpc_provider@ == texts.chain_rpc_provider@
    &&& config.chain_rpc_explorer@ == explorer
    &&& decimal(texts.chain_id@, u32::MAX as nat) == Some(config.chain_id as nat)
    &&& config.private_key@ == texts.private_key@
    &&& decimal(texts.email_account_recovery_version_id@, u8::MAX as nat) == Some(
        config.email_account_recovery_version_id as nat,
    )
    &&& config.email_templates@ == texts.email_templates@
    &&& config.error_email_addr@ == texts.error_email_addr@
    &&& config.dkim_canister_id@ == texts.dkim_canister_id@
    &&& config.wallet_canister_id@ == texts.wallet_canister_id@
    &&& config.pem_path@ == texts.pem_path@
    &&& config.ic_replica_url@ == texts.ic_replica_url@
}

/// Whether the two numbers among the texts can be read.
pub open spec fn readable(texts: AWSConfig) -> bool {
    decimal(texts.chain_id@, u32::MAX as nat) is Some && decimal(
        texts.email_account_recovery_version_id@,
        u8::MAX as nat,
    ) is Some
}

impl RelayerConfig {
    /// The settings that texts say, with the given explorer address, or `None`
    /// where the chain id or the version id is no number of its width.
    fn from_texts(texts: &AWSConfig, explorer: &String) -> (outcome: Option<RelayerConfig>)
        ensures
            match outcome {
                Some(config) => config_of(config, *texts, explorer@),
                None => !readable(*texts),
            },
    {
        let chain_id = match parse_u32(texts.chain_id.as_str()) {
            Some(n) => n,
            None => {
                return None;
            },
        };
        let version_id = match parse_u8(texts.email_account_recovery_version_id.as_str()) {
            Some(n) => n,
            None => {
                return None;
            },
        };
        Some(
            RelayerConfig {
                smtp_server: texts.smtp_server.clone(),
                relayer_email_addr: texts.relayer_email_addr.clone(),
                db_path: texts.db_path.clone(),
                web_server_address: texts.web_server_address.clone(),
                regex_json_dir_path: texts.regex_json_dir_path.clone(),
                prover_address: texts.prover_address.clone(),
                chain_rpc_provider: texts.chain_rpc_provider.clone(),
                chain_rpc_explorer: explorer.clone(),
                chain_id,
                private_key: texts.private_key.clone(),
                email_account_recovery_version_id: version_id,
                email_templates: texts.email_templates.clone(),
                error_email_addr: texts.error_email_addr.clone(),
                dkim_canister_id: texts.dkim_canister_id.clone(),
                wallet_canister_id: texts.wallet_canister_id.clone(),
                pem_path: texts.pem_path.clone(),
                ic_replica_url: texts.ic_replica_url.clone(),
            },
        )
    }

    /// The settings that the values of the environment say.
    pub fn from_env_values(values: &AWSConfig) -> (outcome: Option<RelayerConfig>)
        ensures
            match outcome {
                Some(config) => config_of(config, *values, values.chain_rpc_explorer@),
                None => !readable(*values),
            },
    {
        Self::from_texts(values, &values.chain_rpc_explorer)
    }

    /// The settings that a secret says. The explorer address is the
    /// provider's: the secret's own explorer address is not read.
    pub fn from_secret(secret: &AWSConfig) -> (outcome: Option<RelayerConfig>)
        ensures
            match outcome {
                Some(config) => config_of(config, *secret, secret.chain_rpc_provider@),
                None => !readable(*secret),
            },
    {
        Self::from_texts(secret, &secret.chain_rpc_provider)
    }
}

} // verus!
