//! Protocol upgrades: their configuration, the migration of the system
//! contracts, and the run that validates, applies and commits an upgrade.

use vstd::prelude::*;
use crate::store::{lookup, Digest, GlobalState};
use num_rational::Ratio;
use vstd::string::StringExecFns;
use crate::tracking_copy::{ExecutionEffect, Op, TrackingCopy};
use crate::types::{
    disabled_view, version_lt, has_enabled, inserted_view, Contract, ContractModel, Key, ProtocolVersion,
    StoredValue, ValueModel, VersionEntry,
};

verus! {

/// Name of the currency-issuance contract.
pub const MINT: &'static str = "mint";

/// Name of the validator-auction contract.
pub const AUCTION: &'static str = "auction";

/// Name of the fee-handling contract.
pub const HANDLE_PAYMENT: &'static str = "handle payment";

/// Name of the payment contract.
pub const STANDARD_PAYMENT: &'static str = "standard payment";

/// Represents outcomes of a failed protocol upgrade.
#[derive(Debug)]
pub enum ProtocolUpgradeError {
    /// Error validating a protocol upgrade config.
    InvalidUpgradeConfig,
    /// Unable to retrieve a system contract.
    UnableToRetrieveSystemContract(String),
    /// Unable to retrieve a system contract package.
    UnableToRetrieveSystemContractPackage(String),
    /// Unable to disable previous version of a system contract.
    FailedToDisablePreviousVersion(String),
    /// Failed to create system contract registry.
    FailedToCreateSystemRegistry,
}

/// The text that reports `e`.
pub open spec fn error_message(e: ProtocolUpgradeError) -> Seq<char> {
    match e {
        ProtocolUpgradeError::InvalidUpgradeConfig => "Invalid upgrade config"@,
        ProtocolUpgradeError::UnableToRetrieveSystemContract(n) => "Unable to retrieve system contract: "@
            + n@,
        ProtocolUpgradeError::UnableToRetrieveSystemContractPackage(n) =>
            "Unable to retrieve system contract package: "@ + n@,
        ProtocolUpgradeError::FailedToDisablePreviousVersion(n) =>
            "Failed to disable previous version of system contract: "@ + n@,
        ProtocolUpgradeError::FailedToCreateSystemRegistry =>
            "Failed to insert system contract registry"@,
    }
}

impl ProtocolUpgradeError {
    /// The text that reports this error.
    pub fn message(&self) -> (r: String)
        ensures
            r@ == error_message(*self),
    {
        match self {
            ProtocolUpgradeError::InvalidUpgradeConfig => "Invalid upgrade config".to_owned(),
            ProtocolUpgradeError::UnableToRetrieveSystemContract(n) => "Unable to retrieve system contract: ".to_owned().concat(n.as_str()),
            ProtocolUpgradeError::UnableToRetrieveSystemContractPackage(n) => "Unable to retrieve system contract package: ".to_owned().concat(n.as_str()),
            ProtocolUpgradeError::FailedToDisablePreviousVersion(n) => "Failed to disable previous version of system contract: ".to_owned().concat(n.as_str()),
            ProtocolUpgradeError::FailedToCreateSystemRegistry => "Failed to insert system contract registry".to_owned(),
        }
    }
}

/// The step at which the migration of one system contract stops.
pub enum MigrationFailure {
    ContractMissing,
    PackageMissing,
    NotEnabled,
}

/// `e` reports the failure `f` for the contract called `name`.
pub open spec fn reports(e: ProtocolUpgradeError, f: MigrationFailure, name: Seq<char>) -> bool {
    match (e, f) {
        (
            ProtocolUpgradeError::UnableToRetrieveSystemContract(n),
            MigrationFailure::ContractMissing,
        ) => n@ == name,
        (
            ProtocolUpgradeError::UnableToRetrieveSystemContractPackage(n),
            MigrationFailure::PackageMissing,
        ) => n@ == name,
        (
            ProtocolUpgradeError::FailedToDisablePreviousVersion(n),
            MigrationFailure::NotEnabled,
        ) => n@ == name,
        _ => false,
    }
}

/// The migrated contract and package of the system contract at `h`, as seen in
/// `view`, or the step at which that fails.
pub open spec fn migration(
    view: spec_fn(Key) -> Option<ValueModel>,
    h: u64,
    entry_points: Seq<String>,
    v: ProtocolVersion,
) -> Result<(ContractModel, Seq<VersionEntry>), MigrationFailure> {
    match view(Key::Hash(h)) {
        Some(ValueModel::Contract(c)) => match view(Key::Hash(c.contract_package_hash)) {
            Some(ValueModel::ContractPackage(s)) => if has_enabled(s, h) {
                Ok(
                    (
                        ContractModel {
                            contract_package_hash: c.contract_package_hash,
                            contract_wasm_hash: c.contract_wasm_hash,
                            named_keys: c.named_keys,
                            entry_points,
                            protocol_version: v,
                        },
                        inserted_view(disabled_view(s, h), v.major, h),
                    ),
                )
            } else {
                Err(MigrationFailure::NotEnabled)
            },
            _ => Err(MigrationFailure::PackageMissing),
        },
        _ => Err(MigrationFailure::ContractMissing),
    }
}

/// `view` after the system contract at `h` was migrated, where that succeeds.
pub open spec fn migrated_view(
    view: spec_fn(Key) -> Option<ValueModel>,
    h: u64,
    entry_points: Seq<String>,
    v: ProtocolVersion,
) -> spec_fn(Key) -> Option<ValueModel> {
    match migration(view, h, entry_points, v) {
        Ok((c, p)) => |k: Key|
            if k == Key::Hash(c.contract_package_hash) {
                Some(ValueModel::ContractPackage(p))
            } else if k == Key::Hash(h) {
                Some(ValueModel::Contract(c))
            } else {
                view(k)
            },
        Err(_) => view,
    }
}

/// An era of the consensus layer.
#[derive(PartialEq, Eq, Structural, Clone, Copy, Debug)]
pub struct EraId {
    pub value: u64,
}

/// A rate kept in the config as it was given; the upgrade never reads it.
#[verifier::external_type_specification]
#[verifier::external_body]
#[verifier::reject_recursive_types(T)]
pub struct ExRatio<T>(num_rational::Ratio<T>);

/// Represents the configuration of a protocol upgrade.
#[derive(Debug)]
pub struct UpgradeConfig {
    pub pre_state_hash: Digest,
    pub current_protocol_version: ProtocolVersion,
    pub new_protocol_version: ProtocolVersion,
    pub activation_point: Option<EraId>,
    pub new_validator_slots: Option<u32>,
    pub new_auction_delay: Option<u64>,
    pub new_locked_funds_period_millis: Option<u64>,
    pub new_round_seigniorage_rate: Option<Ratio<u64>>,
    pub new_unbonding_delay: Option<u64>,
    pub global_state_update: Vec<(Key, StoredValue)>,
}

impl UpgradeConfig {
    /// Create new upgrade config.
    pub fn new(
        pre_state_hash: Digest,
        current_protocol_version: ProtocolVersion,
        new_protocol_version: ProtocolVersion,
        activation_point: Option<EraId>,
        new_validator_slots: Option<u32>,
        new_auction_delay: Option<u64>,
        new_locked_funds_period_millis: Option<u64>,
        new_round_seigniorage_rate: Option<Ratio<u64>>,
        new_unbonding_delay: Option<u64>,
        global_state_update: Vec<(Key, StoredValue)>,
    ) -> (r: UpgradeConfig)
        requires
            keys_unique(global_state_update@),
        ensures
            r.pre_state_hash == pre_state_hash,
            r.current_protocol_version == current_protocol_version,
            r.new_protocol_version == new_protocol_version,
            r.activation_point == activation_point,
            r.new_validator_slots == new_validator_slots,
            r.new_auction_delay == new_auction_delay,
            r.new_locked_funds_period_millis == new_locked_funds_period_millis,
            r.new_round_seigniorage_rate == new_round_seigniorage_rate,
            r.new_unbonding_delay == new_unbonding_delay,
            r.global_state_update == global_state_update,
    {
        UpgradeConfig {
            pre_state_hash,
            current_protocol_version,
            new_protocol_version,
            activation_point,
            new_validator_slots,
            new_auction_delay,
            new_locked_funds_period_millis,
            new_round_seigniorage_rate,
            new_unbonding_delay,
            global_state_update,
        }
    }

    /// Returns the current state root state hash.
    pub fn pre_state_hash(&self) -> (r: Digest)
        ensures
            r == self.pre_state_hash,
    {
        self.pre_state_hash
    }

    /// Returns current protocol version of this upgrade.
    pub fn current_protocol_version(&self) -> (r: ProtocolVersion)
        ensures
            r == self.current_protocol_version,
    {
        self.current_protocol_version
    }

    /// Returns new protocol version of this upgrade.
    pub fn new_protocol_version(&self) -> (r: ProtocolVersion)
        ensures
            r == self.new_protocol_version,
    {
        self.new_protocol_version
    }

    /// Returns activation point in eras.
    pub fn activation_point(&self) -> (r: Option<EraId>)
        ensures
            r == self.activation_point,
    {
        self.activation_point
    }

    /// Returns new validator slots if specified.
    pub fn new_validator_slots(&self) -> (r: Option<u32>)
        ensures
            r == self.new_validator_slots,
    {
        self.new_validator_slots
    }

    /// Returns new auction delay if specified.
    pub fn new_auction_delay(&self) -> (r: Option<u64>)
        ensures
            r == self.new_auction_delay,
    {
        self.new_auction_delay
    }

    /// Returns new locked funds period if specified.
    pub fn new_locked_funds_period_millis(&self) -> (r: Option<u64>)
        ensures
            r == self.new_locked_funds_period_millis,
    {
        self.new_locked_funds_period_millis
    }

    /// Returns new round seigniorage rate if specified.
    pub fn new_round_seigniorage_rate(&self) -> (r: Option<Ratio<u64>>)
        ensures
            r == self.new_round_seigniorage_rate,
    {
        self.new_round_seigniorage_rate
    }

    /// Returns new unbonding delay if specified.
    pub fn new_unbonding_delay(&self) -> (r: Option<u64>)
        ensures
            r == self.new_unbonding_delay,
    {
        self.new_unbonding_delay
    }

    /// Returns the explicit key/value overrides of this upgrade.
    pub fn global_state_update(&self) -> (r: &Vec<(Key, StoredValue)>)
        ensures
            r == &self.global_state_update,
    {
        &self.global_state_update
    }

    /// Sets new pre state hash.
    pub fn with_pre_state_hash(&mut self, pre_state_hash: Digest)
        ensures
            *final(self) == (UpgradeConfig { pre_state_hash, ..*old(self) }),
    {
        self.pre_state_hash = pre_state_hash;
    }
}

/// Represents a successfully executed upgrade.
#[derive(Debug)]
pub struct UpgradeSuccess {
    /// New state root hash generated after effects were applied.
    pub post_state_hash: Digest,
    /// Effects of executing an upgrade request.
    pub execution_effect: ExecutionEffect,
}

/// The text of the decimal digit `d`.
pub open spec fn digit_text(d: int) -> Seq<char> {
    if d == 0 {
        "0"@
    } else if d == 1 {
        "1"@
    } else if d == 2 {
        "2"@
    } else if d == 3 {
        "3"@
    } else if d == 4 {
        "4"@
    } else if d == 5 {
        "5"@
    } else if d == 6 {
        "6"@
    } else if d == 7 {
        "7"@
    } else if d == 8 {
        "8"@
    } else if d == 9 {
        "9"@
    } else {
        Seq::empty()
    }
}

/// The decimal text of `n`, without leading zeros.
pub open spec fn decimal_text(n: nat) -> Seq<char>
    decreases n,
{
    if n < 10 {
        digit_text(n as int)
    } else {
        decimal_text(n / 10) + digit_text((n % 10) as int)
    }
}

fn digit_str(d: u64) -> (r: &'static str)
    requires
        d < 10,
    ensures
        r@ == digit_text(d as int),
{
    match d {
        0 => "0",
        1 => "1",
        2 => "2",
        3 => "3",
        4 => "4",
        5 => "5",
        6 => "6",
        7 => "7",
        8 => "8",
        9 => "9",
        _ => "9",
    }
}

/// The decimal text of `n`.
pub fn decimal(n: u64) -> (r: String)
    ensures
        r@ == decimal_text(n as nat),
    decreases n,
{
    if n < 10 {
        digit_str(n).to_owned()
    } else {
        decimal(n / 10).concat(digit_str(n % 10))
    }
}

impl UpgradeSuccess {
    /// The text that reports this upgrade: its new root and how many
    /// accesses it logged.
    pub fn message(&self) -> (r: String)
        ensures
            r@ == "Success: "@ + decimal_text(self.post_state_hash.value as nat) + " with "@
                + decimal_text(self.execution_effect.ops@.len()) + " effects"@,
    {
        let n = self.execution_effect.ops.len() as u64;
        "Success: ".to_owned().concat(decimal(self.post_state_hash.value).as_str()).concat(
            " with ",
        ).concat(decimal(n).as_str()).concat(" effects")
    }
}

/// No two pairs of `w` are for the same key.
pub open spec fn keys_unique(w: Seq<(Key, StoredValue)>) -> bool {
    forall|i: int, j: int| 0 <= i < j < w.len() ==> #[trigger] w[i].0 != #[trigger] w[j].0
}

/// The writes that applying the overrides `w` logs, one per pair, in order.
pub open spec fn override_ops(w: Seq<(Key, StoredValue)>) -> Seq<Op> {
    Seq::new(w.len(), |i: int| Op::Write(w[i].0))
}

/// The config can be applied to `store`: its pre-state root exists, was
/// committed under its current version, and its new version is newer.
pub open spec fn config_valid(store: &GlobalState, c: &UpgradeConfig) -> bool {
    &&& store.has_root(c.pre_state_hash)
    &&& store.layers@[c.pre_state_hash.value as int].protocol_version == c.current_protocol_version
    &&& version_lt(c.current_protocol_version, c.new_protocol_version)
}

/// The upgrade changes the major version, and so migrates the system contracts.
pub open spec fn major_changed(c: &UpgradeConfig) -> bool {
    c.current_protocol_version.major != c.new_protocol_version.major
}

/// The state at the config's pre-state root with its overrides written over it.
pub open spec fn overlay_view(store: &GlobalState, c: &UpgradeConfig) -> spec_fn(Key) -> Option<
    ValueModel,
> {
    |k: Key|
        match lookup(c.global_state_update@, k) {
            Some(v) => Some(v),
            None => store.state_read(c.pre_state_hash, k),
        }
}

/// Checks the config against the state it is to be applied to.
pub fn validate(store: &GlobalState, config: &UpgradeConfig) -> (r: Result<(), ProtocolUpgradeError>)
    ensures
        r is Ok <==> config_valid(store, config),
        r is Err ==> r matches Err(ProtocolUpgradeError::InvalidUpgradeConfig),
{
    match store.protocol_version_at(config.pre_state_hash) {
        Some(v) => {
            if v == config.current_protocol_version && config.new_protocol_version.is_newer_than(
                &config.current_protocol_version,
            ) {
                Ok(())
            } else {
                Err(ProtocolUpgradeError::InvalidUpgradeConfig)
            }
        },
        None => Err(ProtocolUpgradeError::InvalidUpgradeConfig),
    }
}

/// Writes every override through the tracking copy, in order.
pub fn apply_global_state_update(tc: &mut TrackingCopy, updates: &Vec<(Key, StoredValue)>)
    ensures
        final(tc).root == old(tc).root,
        final(tc).ops@ == old(tc).ops@ + override_ops(updates@),
        forall|s: &GlobalState, k: Key| #[trigger]
            final(tc).read_view(s, k) == match lookup(updates@, k) {
                Some(v) => Some(v),
                None => old(tc).read_view(s, k),
            },
{
    let ghost t0 = *tc;
    let mut i: usize = 0;
    while i < updates.len()
        invariant
            i <= updates@.len(),
            tc.root == t0.root,
            tc.ops@ == t0.ops@ + override_ops(updates@.subrange(0, i as int)),
            forall|s: &GlobalState, k: Key| #[trigger]
                tc.read_view(s, k) == match lookup(updates@.subrange(0, i as int), k) {
                    Some(v) => Some(v),
                    None => t0.read_view(s, k),
                },
        decreases updates@.len() - i,
    {
        let key = updates[i].0;
        let value = updates[i].1.duplicate();
        tc.write(key, value);
        assert(updates@.subrange(0, i + 1).drop_last() =~= updates@.subrange(0, i as int));
        assert(t0.ops@ + override_ops(updates@.subrange(0, i + 1)) =~= t0.ops@ + override_ops(
            updates@.subrange(0, i as int),
        ) + seq![Op::Write(key)]);
        i = i + 1;
    }
    assert(updates@.subrange(0, updates@.len() as int) =~= updates@);
}

/// The addresses of the four system contracts.
#[derive(PartialEq, Eq, Structural, Clone, Copy, Debug)]
pub struct SystemContractHashes {
    pub mint: u64,
    pub auction: u64,
    pub handle_payment: u64,
    pub standard_payment: u64,
}

/// The entry-point tables that the system contracts get on a major upgrade.
#[derive(Debug)]
pub struct SystemEntryPoints {
    pub mint: Vec<String>,
    pub auction: Vec<String>,
    pub handle_payment: Vec<String>,
    pub standard_payment: Vec<String>,
}

/// The names in a list of entry-point names, as text.
pub open spec fn names_of(s: Seq<String>) -> Seq<Seq<char>> {
    s.map_values(|n: String| n@)
}

/// The names of the mint's entry points, in ascending order.
pub open spec fn mint_names() -> Seq<Seq<char>> {
    seq!["balance"@, "create"@, "mint"@, "mint_into_existing_purse"@, "read_base_round_reward"@, "reduce_total_supply"@, "transfer"@]
}

/// The names of the auction's entry points, in ascending order.
pub open spec fn auction_names() -> Seq<Seq<char>> {
    seq!["activate_bid"@, "add_bid"@, "delegate"@, "distribute"@, "get_era_validators"@, "read_era_id"@, "run_auction"@, "slash"@, "undelegate"@, "withdraw_bid"@]
}

/// The names of the fee handler's entry points, in ascending order.
pub open spec fn handle_payment_names() -> Seq<Seq<char>> {
    seq!["finalize_payment"@, "get_payment_purse"@, "get_refund_purse"@, "set_refund_purse"@]
}

/// The names of the payment contract's entry points.
pub open spec fn standard_payment_names() -> Seq<Seq<char>> {
    seq!["pay"@]
}

/// Relies on casper_types' `mint_entry_points`, the mint's table, listed by
/// `EntryPoints::keys` as the names of its entry points: the keys of a
/// `BTreeMap`, so in ascending order.
#[verifier::external_body]
fn mint_entry_point_names() -> (r: Vec<String>)
    ensures
        names_of(r@) == mint_names(),
{
    casper_types::system::mint::mint_entry_points().keys().cloned().collect()
}

/// Relies on casper_types' `auction_entry_points`, the auction's table, listed
/// by `EntryPoints::keys` as the names of its entry points.
#[verifier::external_body]
fn auction_entry_point_names() -> (r: Vec<String>)
    ensures
        names_of(r@) == auction_names(),
{
    casper_types::system::auction::auction_entry_points().keys().cloned().collect()
}

/// Relies on casper_types' `handle_payment_entry_points`, the fee handler's
/// table, listed by `EntryPoints::keys` as the names of its entry points.
#[verifier::external_body]
fn handle_payment_entry_point_names() -> (r: Vec<String>)
    ensures
        names_of(r@) == handle_payment_names(),
{
    casper_types::system::handle_payment::handle_payment_entry_points().keys().cloned().collect()
}

/// Relies on casper_types' `standard_payment_entry_points`, the payment
/// contract's table, listed by `EntryPoints::keys` as the names of its entry
/// points.
#[verifier::external_body]
fn standard_payment_entry_point_names() -> (r: Vec<String>)
    ensures
        names_of(r@) == standard_payment_names(),
{
    casper_types::system::standard_payment::standard_payment_entry_points().keys().cloned().collect()
}

impl SystemEntryPoints {
    /// The entry-point tables of the current system contracts.
    pub fn current() -> (r: SystemEntryPoints)
        ensures
            names_of(r.mint@) == mint_names(),
            names_of(r.auction@) == auction_names(),
            names_of(r.handle_payment@) == handle_payment_names(),
            names_of(r.standard_payment@) == standard_payment_names(),
    {
        SystemEntryPoints {
            mint: mint_entry_point_names(),
            auction: auction_entry_point_names(),
            handle_payment: handle_payment_entry_point_names(),
            standard_payment: standard_payment_entry_point_names(),
        }
    }
}

/// The entry-point tables as values.
pub struct EntryPointsModel {
    pub mint: Seq<String>,
    pub auction: Seq<String>,
    pub handle_payment: Seq<String>,
    pub standard_payment: Seq<String>,
}

impl View for SystemEntryPoints {
    type V = EntryPointsModel;

    open spec fn view(&self) -> EntryPointsModel {
        EntryPointsModel {
            mint: self.mint@,
            auction: self.auction@,
            handle_payment: self.handle_payment@,
            standard_payment: self.standard_payment@,
        }
    }
}

/// The first failure, with the name of its contract, when the four system
/// contracts are migrated one after the other over `view`; `None` when all
/// four succeed.
pub open spec fn system_failure(
    view: spec_fn(Key) -> Option<ValueModel>,
    h: SystemContractHashes,
    e: EntryPointsModel,
    v: ProtocolVersion,
) -> Option<(MigrationFailure, Seq<char>)> {
    let v1 = migrated_view(view, h.mint, e.mint, v);
    let v2 = migrated_view(v1, h.auction, e.auction, v);
    let v3 = migrated_view(v2, h.handle_payment, e.handle_payment, v);
    match migration(view, h.mint, e.mint, v) {
        Err(f) => Some((f, MINT@)),
        Ok(_) => match migration(v1, h.auction, e.auction, v) {
            Err(f) => Some((f, AUCTION@)),
            Ok(_) => match migration(v2, h.handle_payment, e.handle_payment, v) {
                Err(f) => Some((f, HANDLE_PAYMENT@)),
                Ok(_) => match migration(v3, h.standard_payment, e.standard_payment, v) {
                    Err(f) => Some((f, STANDARD_PAYMENT@)),
                    Ok(_) => None,
                },
            },
        },
    }
}

/// `view` after the four system contracts were migrated one after the other,
/// up to the first that fails.
pub open spec fn system_migrated_view(
    view: spec_fn(Key) -> Option<ValueModel>,
    h: SystemContractHashes,
    e: EntryPointsModel,
    v: ProtocolVersion,
) -> spec_fn(Key) -> Option<ValueModel> {
    let v1 = migrated_view(view, h.mint, e.mint, v);
    let v2 = migrated_view(v1, h.auction, e.auction, v);
    let v3 = migrated_view(v2, h.handle_payment, e.handle_payment, v);
    if migration(view, h.mint, e.mint, v) is Err {
        view
    } else if migration(v1, h.auction, e.auction, v) is Err {
        v1
    } else if migration(v2, h.handle_payment, e.handle_payment, v) is Err {
        v2
    } else {
        migrated_view(v3, h.standard_payment, e.standard_payment, v)
    }
}

/// The accesses that migrating the four system contracts logs, in order, up
/// to and including the first that fails.
pub open spec fn system_ops(
    view: spec_fn(Key) -> Option<ValueModel>,
    h: SystemContractHashes,
    e: EntryPointsModel,
    v: ProtocolVersion,
) -> Seq<Op> {
    let v1 = migrated_view(view, h.mint, e.mint, v);
    let v2 = migrated_view(v1, h.auction, e.auction, v);
    let v3 = migrated_view(v2, h.handle_payment, e.handle_payment, v);
    let o1 = migration_ops(view, h.mint, e.mint, v);
    let o2 = migration_ops(v1, h.auction, e.auction, v);
    let o3 = migration_ops(v2, h.handle_payment, e.handle_payment, v);
    let o4 = migration_ops(v3, h.standard_payment, e.standard_payment, v);
    if migration(view, h.mint, e.mint, v) is Err {
        o1
    } else if migration(v1, h.auction, e.auction, v) is Err {
        o1 + o2
    } else if migration(v2, h.handle_payment, e.handle_payment, v) is Err {
        o1 + o2 + o3
    } else {
        o1 + o2 + o3 + o4
    }
}

/// The accesses that migrating the system contract at `h` logs: the read of
/// the contract, then the read of its package where a contract was found, then
/// on success the writes of both.
pub open spec fn migration_ops(
    view: spec_fn(Key) -> Option<ValueModel>,
    h: u64,
    entry_points: Seq<String>,
    v: ProtocolVersion,
) -> Seq<Op> {
    match view(Key::Hash(h)) {
        Some(ValueModel::Contract(c)) => match migration(view, h, entry_points, v) {
            Ok(_) => seq![
                Op::Read(Key::Hash(h)),
                Op::Read(Key::Hash(c.contract_package_hash)),
                Op::Write(Key::Hash(h)),
                Op::Write(Key::Hash(c.contract_package_hash)),
            ],
            Err(_) => seq![Op::Read(Key::Hash(h)), Op::Read(Key::Hash(c.contract_package_hash))],
        },
        _ => seq![Op::Read(Key::Hash(h))],
    }
}

/// The system upgrader deals with conducting an actual protocol upgrade.
pub struct SystemUpgrader {
    pub new_protocol_version: ProtocolVersion,
}

impl SystemUpgrader {
    /// Creates new system upgrader instance.
    pub fn new(new_protocol_version: ProtocolVersion) -> (r: SystemUpgrader)
        ensures
            r.new_protocol_version == new_protocol_version,
    {
        SystemUpgrader { new_protocol_version }
    }

    /// Migrates the system contract at `contract_hash` to the new protocol
    /// version: the contract, rewritten at the same key with `entry_points`,
    /// and its package, where the contract's slots are disabled and the new
    /// major version's slot enabled for it.
    pub fn store_contract(
        &self,
        tc: &mut TrackingCopy,
        store: &GlobalState,
        contract_hash: u64,
        contract_name: &str,
        entry_points: Vec<String>,
    ) -> (r: Result<(), ProtocolUpgradeError>)
        requires
            store.wf(),
        ensures
            final(tc).root == old(tc).root,
            match migration(
                |k: Key| old(tc).read_view(store, k),
                contract_hash,
                entry_points@,
                self.new_protocol_version,
            ) {
                Ok(_) => r is Ok,
                Err(f) => r matches Err(e) && reports(e, f, contract_name@),
            },
            r is Err ==> final(tc).writes@ == old(tc).writes@,
            final(tc).ops@ == old(tc).ops@ + migration_ops(
                |k: Key| old(tc).read_view(store, k),
                contract_hash,
                entry_points@,
                self.new_protocol_version,
            ),
            forall|k: Key| #[trigger]
                final(tc).read_view(store, k) == (migrated_view(
                    |k: Key| old(tc).read_view(store, k),
                    contract_hash,
                    entry_points@,
                    self.new_protocol_version,
                ))(k),
    {
        let ghost ops0 = tc.ops@;
        let contract_key = Key::Hash(contract_hash);
        let contract = match tc.read(store, &contract_key) {
            Some(StoredValue::Contract(c)) => c,
            _ => {
                assert(tc.ops@ =~= ops0 + seq![Op::Read(contract_key)]);
                return Err(ProtocolUpgradeError::UnableToRetrieveSystemContract(contract_name.to_owned()));
            },
        };
        let contract_package_key = Key::Hash(contract.contract_package_hash);
        let mut contract_package = match tc.read(store, &contract_package_key) {
            Some(StoredValue::ContractPackage(p)) => p,
            _ => {
                assert(tc.ops@ =~= ops0 + seq![Op::Read(contract_key), Op::Read(contract_package_key)]);
                return Err(ProtocolUpgradeError::UnableToRetrieveSystemContractPackage(contract_name.to_owned()));
            },
        };
        match contract_package.disable_contract_version(contract_hash) {
            Ok(()) => {},
            Err(_) => {
                assert(tc.ops@ =~= ops0 + seq![Op::Read(contract_key), Op::Read(contract_package_key)]);
                return Err(ProtocolUpgradeError::FailedToDisablePreviousVersion(contract_name.to_owned()));
            },
        }
        let new_contract = Contract::new(
            contract.contract_package_hash,
            contract.contract_wasm_hash,
            contract.named_keys,
            entry_points,
            self.new_protocol_version,
        );
        tc.write(contract_key, StoredValue::Contract(new_contract));
        contract_package.insert_contract_version(self.new_protocol_version.major, contract_hash);
        tc.write(contract_package_key, StoredValue::ContractPackage(contract_package));
        assert(tc.ops@ =~= ops0 + seq![
            Op::Read(contract_key),
            Op::Read(contract_package_key),
            Op::Write(contract_key),
            Op::Write(contract_package_key),
        ]);
        Ok(())
    }

    /// Bump major version for system contracts, in the order mint, auction,
    /// handle payment, standard payment; stops at the first failure.
    pub fn upgrade_system_contracts_major_version(
        &self,
        tc: &mut TrackingCopy,
        store: &GlobalState,
        hashes: &SystemContractHashes,
        entry_points: SystemEntryPoints,
    ) -> (r: Result<(), ProtocolUpgradeError>)
        requires
            store.wf(),
        ensures
            final(tc).root == old(tc).root,
            match system_failure(
                |k: Key| old(tc).read_view(store, k),
                *hashes,
                entry_points@,
                self.new_protocol_version,
            ) {
                None => r is Ok,
                Some((f, n)) => r matches Err(e) && reports(e, f, n),
            },
            forall|k: Key| #[trigger]
                final(tc).read_view(store, k) == (system_migrated_view(
                    |k: Key| old(tc).read_view(store, k),
                    *hashes,
                    entry_points@,
                    self.new_protocol_version,
                ))(k),
            final(tc).ops@ == old(tc).ops@ + system_ops(
                |k: Key| old(tc).read_view(store, k),
                *hashes,
                entry_points@,
                self.new_protocol_version,
            ),
    {
        let ghost v0 = |k: Key| tc.read_view(store, k);
        let ghost e = entry_points@;
        let ghost v = self.new_protocol_version;
        let ghost ops0 = tc.ops@;
        let SystemEntryPoints { mint, auction, handle_payment, standard_payment } = entry_points;
        let ghost o1 = migration_ops(v0, hashes.mint, e.mint, v);
        if let Err(err) = self.store_contract(tc, store, hashes.mint, MINT, mint) {
            return Err(err);
        }
        let ghost v1 = |k: Key| tc.read_view(store, k);
        assert(v1 == migrated_view(v0, hashes.mint, e.mint, v));
        let ghost o2 = migration_ops(v1, hashes.auction, e.auction, v);
        if let Err(err) = self.store_contract(tc, store, hashes.auction, AUCTION, auction) {
            assert(tc.ops@ =~= ops0 + (o1 + o2));
            return Err(err);
        }
        let ghost v2 = |k: Key| tc.read_view(store, k);
        assert(v2 == migrated_view(v1, hashes.auction, e.auction, v));
        let ghost o3 = migration_ops(v2, hashes.handle_payment, e.handle_payment, v);
        if let Err(err) = self.store_contract(tc, store, hashes.handle_payment, HANDLE_PAYMENT, handle_payment) {
            assert(tc.ops@ =~= ops0 + (o1 + o2 + o3));
            return Err(err);
        }
        let ghost v3 = |k: Key| tc.read_view(store, k);
        assert(v3 == migrated_view(v2, hashes.handle_payment, e.handle_payment, v));
        let ghost o4 = migration_ops(v3, hashes.standard_payment, e.standard_payment, v);
        if let Err(err) = self.store_contract(tc, store, hashes.standard_payment, STANDARD_PAYMENT, standard_payment) {
            assert(tc.ops@ =~= ops0 + (o1 + o2 + o3 + o4));
            return Err(err);
        }
        let ghost v4 = |k: Key| tc.read_view(store, k);
        assert(v4 == migrated_view(v3, hashes.standard_payment, e.standard_payment, v));
        assert(tc.ops@ =~= ops0 + (o1 + o2 + o3 + o4));
        Ok(())
    }
}

/// Runs one upgrade: validates the config against `store`, writes its
/// overrides, migrates the system contracts where the major version changes,
/// and commits everything as one new state. On failure `store` is unchanged.
pub fn commit_upgrade(
    store: &mut GlobalState,
    config: &UpgradeConfig,
    hashes: &SystemContractHashes,
    entry_points: SystemEntryPoints,
) -> (r: Result<UpgradeSuccess, ProtocolUpgradeError>)
    requires
        old(store).wf(),
        old(store).layers@.len() < u64::MAX,
    ensures
        final(store).wf(),
        r is Err ==> *final(store) == *old(store),
        !config_valid(old(store), config) ==> r matches Err(
            ProtocolUpgradeError::InvalidUpgradeConfig,
        ),
        config_valid(old(store), config) && !major_changed(config) ==> r is Ok,
        config_valid(old(store), config) && major_changed(config) ==> match system_failure(
            overlay_view(old(store), config),
            *hashes,
            entry_points@,
            config.new_protocol_version,
        ) {
            None => r is Ok,
            Some((f, n)) => r matches Err(e) && reports(e, f, n),
        },
        r matches Ok(success) ==> {
            &&& success.post_state_hash.value == old(store).layers@.len()
            &&& final(store).layers@.len() == old(store).layers@.len() + 1
            &&& final(store).layers@[success.post_state_hash.value as int].protocol_version
                == config.new_protocol_version
            &&& forall|k: Key| #[trigger]
                final(store).state_read(success.post_state_hash, k) == if major_changed(config) {
                    (system_migrated_view(
                        overlay_view(old(store), config),
                        *hashes,
                        entry_points@,
                        config.new_protocol_version,
                    ))(k)
                } else {
                    (overlay_view(old(store), config))(k)
                }
            &&& forall|d: Digest, k: Key|
                old(store).has_root(d) ==> #[trigger] final(store).state_read(d, k) == old(
                    store,
                ).state_read(d, k)
            &&& success.execution_effect.ops@ == override_ops(config.global_state_update@) + if major_changed(config) {
                system_ops(
                    overlay_view(old(store), config),
                    *hashes,
                    entry_points@,
                    config.new_protocol_version,
                )
            } else {
                Seq::<Op>::empty()
            }
            &&& keys_unique(config.global_state_update@) ==> forall|i: int|
                0 <= i < config.global_state_update@.len() && (!major_changed(config)
                    || !(config.global_state_update@[i].0 is Hash)) ==> final(store).state_read(
                    success.post_state_hash,
                    #[trigger] config.global_state_update@[i].0,
                ) == Some(config.global_state_update@[i].1@)
        },
{
    let ghost s0 = *store;
    validate(store, config)?;
    let mut tc = TrackingCopy::new(config.pre_state_hash);
    apply_global_state_update(&mut tc, &config.global_state_update);
    assert(tc.ops@ =~= override_ops(config.global_state_update@));
    let ghost after_overrides = |k: Key| tc.read_view(store, k);
    assert(after_overrides == overlay_view(store, config));
    let major = config.new_protocol_version.major != config.current_protocol_version.major;
    if major {
        let upgrader = SystemUpgrader::new(config.new_protocol_version);
        upgrader.upgrade_system_contracts_major_version(&mut tc, store, hashes, entry_points)?;
    }
    let ghost tc_final = tc;
    let (post_state_hash, execution_effect) = tc.commit(store, config.new_protocol_version);
    assert forall|k: Key| #[trigger] store.state_read(post_state_hash, k) == tc_final.read_view(
        old(store),
        k,
    ) by {}
    if !major {
        assert(tc_final.ops@ =~= override_ops(config.global_state_update@) + Seq::<Op>::empty());
    }
    assert forall|i: int|
        keys_unique(config.global_state_update@) && 0 <= i < config.global_state_update@.len() && (
        !major_changed(config) || !(config.global_state_update@[i].0 is Hash)) implies store.state_read(
        post_state_hash,
        #[trigger] config.global_state_update@[i].0,
    ) == Some(config.global_state_update@[i].1@) by {
        crate::laws::lemma_override_fidelity(&s0, config, i);
    }
    Ok(UpgradeSuccess { post_state_hash, execution_effect })
}

} // verus!
