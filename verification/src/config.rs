//! The deployment configuration.
//!
//! A contract instance is initialized exactly once; the initialization call
//! carries a fixed record: the owner identity, the prover identity, the
//! chain identifier of the test environment, and an optional
//! prover-verification configuration (a custodian address and a validating
//! account).  The builders here produce that record for the environment's
//! well-known identities, and their contracts pin every field down.
//!
//! Whether a second initialization is rejected is the deployed contract's
//! own guard, not a rule of this crate: the driver only inspects the status
//! the transaction comes back with.

use vstd::pervasive::unreached;
use vstd::prelude::*;

use crate::account::{valid_account_id, AccountId};

verus! {

/// The account the engine contract is deployed to in the test environment.
pub const EVM_ACCOUNT_ID: &'static str = "aurora.test.near";

/// The owner identity the contract is initialized with.
pub const OWNER_ACCOUNT_ID: &'static str = "owner.test.near";

/// The prover identity the contract is initialized with.
pub const PROVER_ACCOUNT_ID: &'static str = "prover.test.near";

/// The chain identifier of the local test network.
pub const AURORA_LOCAL_CHAIN_ID: u64 = 1313161556;

/// The custodian address of the default prover configuration: twenty zero
/// bytes, written as hex digits.
pub const ZERO_CUSTODIAN_ADDRESS: &'static str = "0000000000000000000000000000000000000000";

/// A lowercase hexadecimal digit.
pub open spec fn is_hex_digit(c: char) -> bool {
    ||| '0' as u32 <= c as u32 <= '9' as u32
    ||| 'a' as u32 <= c as u32 <= 'f' as u32
}

/// A well-formed custodian address: twenty bytes written as forty lowercase
/// hexadecimal digits.
pub open spec fn valid_custodian_address(s: Seq<char>) -> bool {
    &&& s.len() == 40
    &&& forall|i: int| 0 <= i < s.len() ==> is_hex_digit(s[i])
}

/// The well-known identities of the test environment are valid account
/// identifiers, and the zero custodian address is well formed.
pub proof fn lemma_well_known_ids_valid()
    ensures
        valid_account_id(EVM_ACCOUNT_ID@),
        valid_account_id(OWNER_ACCOUNT_ID@),
        valid_account_id(PROVER_ACCOUNT_ID@),
        valid_custodian_address(ZERO_CUSTODIAN_ADDRESS@),
{
    reveal_strlit("aurora.test.near");
    reveal_strlit("owner.test.near");
    reveal_strlit("prover.test.near");
    reveal_strlit("0000000000000000000000000000000000000000");
}

/// The prover-verification configuration optionally supplied at
/// initialization.
#[derive(Debug)]
pub struct ProverConfig {
    /// The EVM custodian address, as forty lowercase hexadecimal digits.
    pub custodian_address: String,
    /// The account that validates prover results.
    pub validating_account: AccountId,
}

impl ProverConfig {
    /// Well-formedness: the address is a custodian address and the
    /// validating account is a valid identifier.
    pub open spec fn wf(&self) -> bool {
        &&& valid_custodian_address(self.custodian_address@)
        &&& self.validating_account.wf()
    }
}

impl Clone for ProverConfig {
    /// Cloning keeps both fields.
    fn clone(&self) -> (r: Self)
        ensures
            r.custodian_address@ == self.custodian_address@,
            r.validating_account@ == self.validating_account@,
    {
        ProverConfig {
            custodian_address: self.custodian_address.clone(),
            validating_account: self.validating_account.clone(),
        }
    }
}

/// The record consumed by the one-time initialization call.
#[derive(Debug)]
pub struct InitConfig {
    /// The account that may issue administrative calls.
    pub owner_id: AccountId,
    /// The account trusted as prover.
    pub prover_id: AccountId,
    /// The chain the deployed instance answers for.
    pub chain_id: u64,
    /// The optional prover-verification configuration.
    pub prover_config: Option<ProverConfig>,
}

impl InitConfig {
    /// Well-formedness: every identifier in the record is valid.
    pub open spec fn wf(&self) -> bool {
        &&& self.owner_id.wf()
        &&& self.prover_id.wf()
        &&& (self.prover_config matches Some(p) ==> p.wf())
    }
}

/// Wrap an identifier already known to be valid.
fn parse_valid(id: &str) -> (r: AccountId)
    requires
        valid_account_id(id@),
    ensures
        r.wf(),
        r@ == id@,
{
    match AccountId::parse(id) {
        Ok(a) => a,
        Err(_) => unreached(),
    }
}

/// The configuration every deployment helper hands to the initialization
/// call: the well-known owner and prover identities, the local chain
/// identifier, and the default prover configuration (zero custodian
/// address, validated by the prover account).
pub fn default_init_config() -> (c: InitConfig)
    ensures
        c.wf(),
        c.owner_id@ == OWNER_ACCOUNT_ID@,
        c.prover_id@ == PROVER_ACCOUNT_ID@,
        c.chain_id == AURORA_LOCAL_CHAIN_ID,
        c.prover_config matches Some(p) && p.custodian_address@ == ZERO_CUSTODIAN_ADDRESS@
            && p.validating_account@ == PROVER_ACCOUNT_ID@,
{
    proof {
        lemma_well_known_ids_valid();
    }
    let owner_id = parse_valid(OWNER_ACCOUNT_ID);
    let prover_id = parse_valid(PROVER_ACCOUNT_ID);
    let validating_account = parse_valid(PROVER_ACCOUNT_ID);
    let prover_config = ProverConfig {
        custodian_address: ZERO_CUSTODIAN_ADDRESS.to_owned(),
        validating_account,
    };
    InitConfig {
        owner_id,
        prover_id,
        chain_id: AURORA_LOCAL_CHAIN_ID,
        prover_config: Some(prover_config),
    }
}

/// The account the deployment helper creates and deploys to: the engine's
/// own account normally, or the owner's account for the admin-change
/// scenario, whose generated key must later re-authenticate as the owner.
pub fn deploy_account_id(admin_change: bool) -> (r: AccountId)
    ensures
        r.wf(),
        r@ == if admin_change {
            OWNER_ACCOUNT_ID@
        } else {
            EVM_ACCOUNT_ID@
        },
{
    proof {
        lemma_well_known_ids_valid();
    }
    if admin_change {
        parse_valid(OWNER_ACCOUNT_ID)
    } else {
        parse_valid(EVM_ACCOUNT_ID)
    }
}

} // verus!
