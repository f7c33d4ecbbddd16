use execution_engine::store::{Digest, GlobalState};
use execution_engine::tracking_copy::{Op, TrackingCopy};
use execution_engine::types::{
    Contract, ContractPackage, Key, NamedKey, PackageError, ProtocolVersion, StoredValue,
    VersionEntry,
};
use execution_engine::upgrade::{
    apply_global_state_update, commit_upgrade, validate, ProtocolUpgradeError, SystemContractHashes,
    SystemEntryPoints, SystemUpgrader, UpgradeConfig, UpgradeSuccess, decimal,
};
use execution_engine::tracking_copy::ExecutionEffect;

fn v(major: u32, minor: u32, patch: u32) -> ProtocolVersion {
    ProtocolVersion::from_parts(major, minor, patch)
}

fn names(list: &[&str]) -> Vec<String> {
    list.iter().map(|s| s.to_string()).collect()
}

fn system_contract(hash: u64, version: ProtocolVersion) -> Vec<(Key, StoredValue)> {
    let package_hash = hash + 100;
    let contract = Contract::new(
        package_hash,
        hash + 200,
        vec![NamedKey { name: "purse".to_string(), key: Key::URef(hash + 300) }],
        names(&["old_entry"]),
        version,
    );
    let package = ContractPackage::new(vec![VersionEntry {
        major: version.major,
        contract_hash: hash,
        enabled: true,
    }]);
    vec![
        (Key::Hash(hash), StoredValue::Contract(contract)),
        (Key::Hash(package_hash), StoredValue::ContractPackage(package)),
    ]
}

fn hashes() -> SystemContractHashes {
    SystemContractHashes { mint: 1, auction: 2, handle_payment: 3, standard_payment: 4 }
}

fn genesis() -> GlobalState {
    let mut values = Vec::new();
    for h in 1..=4u64 {
        values.extend(system_contract(h, v(1, 0, 0)));
    }
    values.push((Key::Account(50), StoredValue::Bytes(vec![1, 2, 3])));
    GlobalState::new(v(1, 0, 0), values)
}

fn entry_points() -> SystemEntryPoints {
    SystemEntryPoints {
        mint: names(&["mint", "balance"]),
        auction: names(&["bid", "withdraw_bid"]),
        handle_payment: names(&["get_payment_purse"]),
        standard_payment: names(&["pay"]),
    }
}

fn config(pre: Digest, current: ProtocolVersion, new: ProtocolVersion, updates: Vec<(Key, StoredValue)>) -> UpgradeConfig {
    UpgradeConfig::new(pre, current, new, None, None, None, None, None, None, updates)
}

fn contract_at(store: &GlobalState, root: Digest, key: Key) -> Contract {
    match store.read(root, &key) {
        Some(StoredValue::Contract(c)) => c,
        other => panic!("no contract at {:?}: {:?}", key, other),
    }
}

fn package_at(store: &GlobalState, root: Digest, key: Key) -> Vec<VersionEntry> {
    match store.read(root, &key) {
        Some(StoredValue::ContractPackage(p)) => p.versions,
        other => panic!("no package at {:?}: {:?}", key, other),
    }
}

fn bytes_at(store: &GlobalState, root: Digest, key: Key) -> Option<Vec<u8>> {
    match store.read(root, &key) {
        Some(StoredValue::Bytes(b)) => Some(b),
        None => None,
        other => panic!("unexpected value at {:?}: {:?}", key, other),
    }
}

#[test]
fn major_upgrade_migrates_contract_and_package() {
    let mut store = genesis();
    let pre = store.genesis_root();
    let cfg = config(pre, v(1, 0, 0), v(2, 0, 0), Vec::new());
    let success = commit_upgrade(&mut store, &cfg, &hashes(), entry_points()).unwrap();
    let post = success.post_state_hash;
    assert_ne!(post, pre);

    let c = contract_at(&store, post, Key::Hash(1));
    assert_eq!(c.protocol_version, v(2, 0, 0));
    assert_eq!(c.entry_points, names(&["mint", "balance"]));
    assert_eq!(c.contract_package_hash, 101);
    assert_eq!(c.contract_wasm_hash, 201);
    assert_eq!(c.named_keys.len(), 1);
    assert_eq!(c.named_keys[0].name, "purse");
    assert_eq!(c.named_keys[0].key, Key::URef(301));

    let p = package_at(&store, post, Key::Hash(101));
    assert_eq!(
        p,
        vec![
            VersionEntry { major: 1, contract_hash: 1, enabled: false },
            VersionEntry { major: 2, contract_hash: 1, enabled: true },
        ]
    );

    let ops = &success.execution_effect.ops;
    for key in [Key::Hash(1), Key::Hash(101)] {
        assert_eq!(ops.iter().filter(|o| **o == Op::Read(key)).count(), 1);
        assert_eq!(ops.iter().filter(|o| **o == Op::Write(key)).count(), 1);
    }
    for h in 2..=4u64 {
        let c = contract_at(&store, post, Key::Hash(h));
        assert_eq!(c.protocol_version, v(2, 0, 0));
        assert_eq!(c.contract_package_hash, h + 100);
    }
    assert_eq!(contract_at(&store, post, Key::Hash(4)).entry_points, names(&["pay"]));
}

#[test]
fn pre_state_stays_readable_after_upgrade() {
    let mut store = genesis();
    let pre = store.genesis_root();
    let cfg = config(pre, v(1, 0, 0), v(2, 0, 0), Vec::new());
    commit_upgrade(&mut store, &cfg, &hashes(), entry_points()).unwrap();
    let c = contract_at(&store, pre, Key::Hash(1));
    assert_eq!(c.protocol_version, v(1, 0, 0));
    assert_eq!(c.entry_points, names(&["old_entry"]));
}

#[test]
fn minor_upgrade_leaves_contracts_and_applies_overrides() {
    let mut store = genesis();
    let pre = store.genesis_root();
    let updates = vec![(Key::Account(50), StoredValue::Bytes(vec![9]))];
    let cfg = config(pre, v(1, 0, 0), v(1, 1, 0), updates);
    let success = commit_upgrade(&mut store, &cfg, &hashes(), entry_points()).unwrap();
    let post = success.post_state_hash;
    for h in 1..=4u64 {
        let c = contract_at(&store, post, Key::Hash(h));
        assert_eq!(c.protocol_version, v(1, 0, 0));
        assert_eq!(c.entry_points, names(&["old_entry"]));
        assert_eq!(
            package_at(&store, post, Key::Hash(h + 100)),
            vec![VersionEntry { major: 1, contract_hash: h, enabled: true }]
        );
    }
    assert_eq!(bytes_at(&store, post, Key::Account(50)), Some(vec![9]));
    assert_eq!(store.protocol_version_at(post), Some(v(1, 1, 0)));
}

#[test]
fn overrides_are_read_back_after_commit() {
    let mut store = genesis();
    let pre = store.genesis_root();
    let updates = vec![
        (Key::Account(50), StoredValue::Bytes(vec![4, 5])),
        (Key::URef(77), StoredValue::Bytes(vec![6])),
    ];
    assert_eq!(bytes_at(&store, pre, Key::URef(77)), None);
    let cfg = config(pre, v(1, 0, 0), v(2, 0, 0), updates);
    let post = commit_upgrade(&mut store, &cfg, &hashes(), entry_points()).unwrap().post_state_hash;
    assert_eq!(bytes_at(&store, post, Key::Account(50)), Some(vec![4, 5]));
    assert_eq!(bytes_at(&store, post, Key::URef(77)), Some(vec![6]));
    assert_eq!(bytes_at(&store, pre, Key::URef(77)), None);
}

#[test]
fn failed_upgrade_leaves_store_unchanged() {
    let mut store = genesis();
    let pre = store.genesis_root();
    let updates = vec![(Key::Account(50), StoredValue::Bytes(vec![0]))];
    let mut bad = hashes();
    bad.auction = 999;
    let cfg = config(pre, v(1, 0, 0), v(2, 0, 0), updates);
    let err = commit_upgrade(&mut store, &cfg, &bad, entry_points()).unwrap_err();
    assert!(matches!(err, ProtocolUpgradeError::UnableToRetrieveSystemContract(ref n) if n == "auction"));
    assert_eq!(store.layers.len(), 1);
    assert_eq!(bytes_at(&store, pre, Key::Account(50)), Some(vec![1, 2, 3]));
    assert_eq!(contract_at(&store, pre, Key::Hash(1)).protocol_version, v(1, 0, 0));
}

#[test]
fn invalid_config_fails_the_same_way_twice() {
    let mut store = genesis();
    let pre = store.genesis_root();
    let cfg = config(pre, v(1, 2, 0), v(2, 0, 0), Vec::new());
    for _ in 0..2 {
        let err = commit_upgrade(&mut store, &cfg, &hashes(), entry_points()).unwrap_err();
        assert!(matches!(err, ProtocolUpgradeError::InvalidUpgradeConfig));
        assert_eq!(store.layers.len(), 1);
    }
    assert!(matches!(validate(&store, &cfg), Err(ProtocolUpgradeError::InvalidUpgradeConfig)));
    assert!(matches!(validate(&store, &cfg), Err(ProtocolUpgradeError::InvalidUpgradeConfig)));
}

#[test]
fn validation_rules() {
    let store = genesis();
    let pre = store.genesis_root();
    assert!(validate(&store, &config(pre, v(1, 0, 0), v(1, 0, 1), Vec::new())).is_ok());
    assert!(validate(&store, &config(pre, v(1, 0, 0), v(1, 0, 0), Vec::new())).is_err());
    assert!(validate(&store, &config(pre, v(1, 0, 0), v(0, 9, 0), Vec::new())).is_err());
    assert!(validate(&store, &config(Digest { value: 5 }, v(1, 0, 0), v(2, 0, 0), Vec::new())).is_err());
}

#[test]
fn missing_package_is_reported() {
    let mut values = system_contract(1, v(1, 0, 0));
    values.truncate(1);
    let store = GlobalState::new(v(1, 0, 0), values);
    let mut tc = TrackingCopy::new(store.genesis_root());
    let upgrader = SystemUpgrader::new(v(2, 0, 0));
    let err = upgrader.store_contract(&mut tc, &store, 1, "mint", names(&["x"])).unwrap_err();
    assert!(matches!(err, ProtocolUpgradeError::UnableToRetrieveSystemContractPackage(ref n) if n == "mint"));
}

#[test]
fn wrong_variant_is_reported_as_missing_contract() {
    let store = GlobalState::new(v(1, 0, 0), vec![(Key::Hash(1), StoredValue::Bytes(vec![1]))]);
    let mut tc = TrackingCopy::new(store.genesis_root());
    let upgrader = SystemUpgrader::new(v(2, 0, 0));
    let err = upgrader.store_contract(&mut tc, &store, 1, "mint", names(&["x"])).unwrap_err();
    assert!(matches!(err, ProtocolUpgradeError::UnableToRetrieveSystemContract(ref n) if n == "mint"));
}

#[test]
fn disabled_version_cannot_be_disabled_again() {
    let mut values = system_contract(1, v(1, 0, 0));
    values[1] = (
        Key::Hash(101),
        StoredValue::ContractPackage(ContractPackage::new(vec![VersionEntry {
            major: 1,
            contract_hash: 1,
            enabled: false,
        }])),
    );
    let store = GlobalState::new(v(1, 0, 0), values);
    let mut tc = TrackingCopy::new(store.genesis_root());
    let upgrader = SystemUpgrader::new(v(2, 0, 0));
    let err = upgrader.store_contract(&mut tc, &store, 1, "mint", names(&["x"])).unwrap_err();
    assert!(matches!(err, ProtocolUpgradeError::FailedToDisablePreviousVersion(ref n) if n == "mint"));
}

#[test]
fn second_major_upgrade_keeps_history() {
    let mut store = genesis();
    let pre = store.genesis_root();
    let post = commit_upgrade(&mut store, &config(pre, v(1, 0, 0), v(2, 0, 0), Vec::new()), &hashes(), entry_points())
        .unwrap()
        .post_state_hash;
    let post2 = commit_upgrade(&mut store, &config(post, v(2, 0, 0), v(3, 0, 0), Vec::new()), &hashes(), entry_points())
        .unwrap()
        .post_state_hash;
    assert_eq!(
        package_at(&store, post2, Key::Hash(102)),
        vec![
            VersionEntry { major: 1, contract_hash: 2, enabled: false },
            VersionEntry { major: 2, contract_hash: 2, enabled: false },
            VersionEntry { major: 3, contract_hash: 2, enabled: true },
        ]
    );
}

#[test]
fn package_disable_and_insert() {
    let mut p = ContractPackage::new(vec![
        VersionEntry { major: 1, contract_hash: 7, enabled: true },
        VersionEntry { major: 2, contract_hash: 8, enabled: true },
    ]);
    assert_eq!(p.disable_contract_version(9), Err(PackageError::ContractNotFound));
    assert_eq!(p.disable_contract_version(7), Ok(()));
    assert_eq!(p.disable_contract_version(7), Err(PackageError::ContractNotFound));
    p.insert_contract_version(2, 7);
    assert_eq!(
        p.versions,
        vec![
            VersionEntry { major: 1, contract_hash: 7, enabled: false },
            VersionEntry { major: 2, contract_hash: 8, enabled: true },
            VersionEntry { major: 2, contract_hash: 7, enabled: true },
        ]
    );
    p.insert_contract_version(3, 8);
    assert_eq!(p.versions.len(), 4);
    assert_eq!(p.versions[3], VersionEntry { major: 3, contract_hash: 8, enabled: true });
}

#[test]
fn tracking_copy_buffers_until_commit() {
    let mut store = genesis();
    let pre = store.genesis_root();
    let mut tc = TrackingCopy::new(pre);
    tc.write(Key::URef(1), StoredValue::Bytes(vec![1]));
    tc.write(Key::URef(1), StoredValue::Bytes(vec![2]));
    assert!(store.read(pre, &Key::URef(1)).is_none());
    assert!(matches!(tc.read(&store, &Key::URef(1)), Some(StoredValue::Bytes(ref b)) if *b == vec![2]));
    assert!(tc.read(&store, &Key::URef(2)).is_none());
    let (root, effect) = tc.commit(&mut store, v(1, 0, 0));
    assert_eq!(
        effect.ops,
        vec![Op::Write(Key::URef(1)), Op::Write(Key::URef(1)), Op::Read(Key::URef(1)), Op::Read(Key::URef(2))]
    );
    assert_eq!(root, Digest { value: 1 });
    assert_eq!(bytes_at(&store, root, Key::URef(1)), Some(vec![2]));
    assert_eq!(bytes_at(&store, pre, Key::URef(1)), None);
}

#[test]
fn overrides_applier_writes_every_pair() {
    let store = genesis();
    let mut tc = TrackingCopy::new(store.genesis_root());
    let updates = vec![
        (Key::URef(5), StoredValue::Bytes(vec![5])),
        (Key::Account(50), StoredValue::Bytes(vec![])),
    ];
    apply_global_state_update(&mut tc, &updates);
    assert!(matches!(tc.read(&store, &Key::URef(5)), Some(StoredValue::Bytes(ref b)) if *b == vec![5]));
    assert!(matches!(tc.read(&store, &Key::Account(50)), Some(StoredValue::Bytes(ref b)) if b.is_empty()));
}

#[test]
fn version_ordering() {
    assert!(v(2, 0, 0).is_newer_than(&v(1, 9, 9)));
    assert!(v(1, 2, 0).is_newer_than(&v(1, 1, 7)));
    assert!(v(1, 1, 8).is_newer_than(&v(1, 1, 7)));
    assert!(!v(1, 1, 7).is_newer_than(&v(1, 1, 7)));
    assert!(!v(0, 9, 9).is_newer_than(&v(1, 0, 0)));
}

#[test]
fn config_accessors_and_rebase() {
    let mut cfg = UpgradeConfig::new(
        Digest { value: 0 },
        v(1, 0, 0),
        v(2, 0, 0),
        Some(execution_engine::upgrade::EraId { value: 10 }),
        Some(100),
        Some(3),
        Some(1000),
        Some(num_rational::Ratio::new(1u64, 20u64)),
        Some(7),
        vec![(Key::URef(1), StoredValue::Bytes(vec![1]))],
    );
    assert_eq!(cfg.pre_state_hash(), Digest { value: 0 });
    assert_eq!(cfg.current_protocol_version(), v(1, 0, 0));
    assert_eq!(cfg.new_protocol_version(), v(2, 0, 0));
    assert_eq!(cfg.activation_point().unwrap().value, 10);
    assert_eq!(cfg.new_validator_slots(), Some(100));
    assert_eq!(cfg.new_auction_delay(), Some(3));
    assert_eq!(cfg.new_locked_funds_period_millis(), Some(1000));
    assert_eq!(*cfg.new_round_seigniorage_rate().unwrap().denom(), 20);
    assert_eq!(cfg.new_unbonding_delay(), Some(7));
    assert_eq!(cfg.global_state_update().len(), 1);
    cfg.with_pre_state_hash(Digest { value: 4 });
    assert_eq!(cfg.pre_state_hash(), Digest { value: 4 });
    assert_eq!(cfg.new_protocol_version(), v(2, 0, 0));
}

#[test]
fn current_entry_point_tables() {
    let tables = SystemEntryPoints::current();
    assert_eq!(
        tables.mint,
        names(&[
            "balance",
            "create",
            "mint",
            "mint_into_existing_purse",
            "read_base_round_reward",
            "reduce_total_supply",
            "transfer",
        ])
    );
    assert_eq!(
        tables.auction,
        names(&[
            "activate_bid",
            "add_bid",
            "delegate",
            "distribute",
            "get_era_validators",
            "read_era_id",
            "run_auction",
            "slash",
            "undelegate",
            "withdraw_bid",
        ])
    );
    assert_eq!(
        tables.handle_payment,
        names(&["finalize_payment", "get_payment_purse", "get_refund_purse", "set_refund_purse"])
    );
    assert_eq!(tables.standard_payment, names(&["pay"]));
}

#[test]
fn major_upgrade_installs_current_tables() {
    let mut store = genesis();
    let pre = store.genesis_root();
    let cfg = config(pre, v(1, 0, 0), v(2, 0, 0), Vec::new());
    let post = commit_upgrade(&mut store, &cfg, &hashes(), SystemEntryPoints::current())
        .unwrap()
        .post_state_hash;
    assert_eq!(contract_at(&store, post, Key::Hash(4)).entry_points, names(&["pay"]));
    assert_eq!(contract_at(&store, post, Key::Hash(1)).entry_points, SystemEntryPoints::current().mint);
}

#[test]
fn error_messages() {
    assert_eq!(ProtocolUpgradeError::InvalidUpgradeConfig.message(), "Invalid upgrade config");
    assert_eq!(
        ProtocolUpgradeError::UnableToRetrieveSystemContract("mint".to_string()).message(),
        "Unable to retrieve system contract: mint"
    );
    assert_eq!(
        ProtocolUpgradeError::UnableToRetrieveSystemContractPackage("auction".to_string()).message(),
        "Unable to retrieve system contract package: auction"
    );
    assert_eq!(
        ProtocolUpgradeError::FailedToDisablePreviousVersion("handle payment".to_string()).message(),
        "Failed to disable previous version of system contract: handle payment"
    );
    assert_eq!(
        ProtocolUpgradeError::FailedToCreateSystemRegistry.message(),
        "Failed to insert system contract registry"
    );
}

#[test]
fn migration_touches_only_contract_and_package() {
    let mut values = system_contract(1, v(1, 0, 0));
    values.push((Key::Hash(555), StoredValue::Bytes(vec![5])));
    let store = GlobalState::new(v(1, 0, 0), values);
    let mut tc = TrackingCopy::new(store.genesis_root());
    let upgrader = SystemUpgrader::new(v(2, 0, 0));
    upgrader.store_contract(&mut tc, &store, 1, "mint", names(&["x"])).unwrap();
    assert_eq!(
        tc.ops,
        vec![Op::Read(Key::Hash(1)), Op::Read(Key::Hash(101)), Op::Write(Key::Hash(1)), Op::Write(Key::Hash(101))]
    );
    assert!(matches!(tc.read(&store, &Key::Hash(555)), Some(StoredValue::Bytes(ref b)) if *b == vec![5]));
}

#[test]
fn package_with_a_slot_of_the_new_major_keeps_it() {
    let mut values = system_contract(1, v(1, 0, 0));
    values[1] = (
        Key::Hash(101),
        StoredValue::ContractPackage(ContractPackage::new(vec![
            VersionEntry { major: 1, contract_hash: 1, enabled: true },
            VersionEntry { major: 2, contract_hash: 9, enabled: true },
        ])),
    );
    let store = GlobalState::new(v(1, 0, 0), values);
    let mut tc = TrackingCopy::new(store.genesis_root());
    let upgrader = SystemUpgrader::new(v(2, 0, 0));
    upgrader.store_contract(&mut tc, &store, 1, "mint", names(&["x"])).unwrap();
    match tc.read(&store, &Key::Hash(101)) {
        Some(StoredValue::ContractPackage(p)) => assert_eq!(
            p.versions,
            vec![
                VersionEntry { major: 1, contract_hash: 1, enabled: false },
                VersionEntry { major: 2, contract_hash: 9, enabled: true },
                VersionEntry { major: 2, contract_hash: 1, enabled: true },
            ]
        ),
        other => panic!("no package: {:?}", other),
    }
}

#[test]
fn effect_log_of_a_major_upgrade() {
    let mut store = genesis();
    let pre = store.genesis_root();
    let updates = vec![(Key::URef(9), StoredValue::Bytes(vec![1]))];
    let cfg = config(pre, v(1, 0, 0), v(2, 0, 0), updates);
    let success = commit_upgrade(&mut store, &cfg, &hashes(), entry_points()).unwrap();
    let mut expected = vec![Op::Write(Key::URef(9))];
    for h in 1..=4u64 {
        expected.extend([
            Op::Read(Key::Hash(h)),
            Op::Read(Key::Hash(h + 100)),
            Op::Write(Key::Hash(h)),
            Op::Write(Key::Hash(h + 100)),
        ]);
    }
    assert_eq!(success.execution_effect.ops, expected);
}

#[test]
fn effect_log_of_a_minor_upgrade() {
    let mut store = genesis();
    let pre = store.genesis_root();
    let updates = vec![
        (Key::URef(9), StoredValue::Bytes(vec![1])),
        (Key::Account(50), StoredValue::Bytes(vec![2])),
    ];
    let cfg = config(pre, v(1, 0, 0), v(1, 0, 1), updates);
    let success = commit_upgrade(&mut store, &cfg, &hashes(), entry_points()).unwrap();
    assert_eq!(success.execution_effect.ops, vec![Op::Write(Key::URef(9)), Op::Write(Key::Account(50))]);
}

#[test]
fn failed_migration_stops_before_later_contracts() {
    let store = genesis();
    let mut tc = TrackingCopy::new(store.genesis_root());
    let upgrader = SystemUpgrader::new(v(2, 0, 0));
    let mut bad = hashes();
    bad.auction = 999;
    let err = upgrader.upgrade_system_contracts_major_version(&mut tc, &store, &bad, entry_points()).unwrap_err();
    assert_eq!(err.message(), "Unable to retrieve system contract: auction");
    assert_eq!(
        tc.ops,
        vec![
            Op::Read(Key::Hash(1)),
            Op::Read(Key::Hash(101)),
            Op::Write(Key::Hash(1)),
            Op::Write(Key::Hash(101)),
            Op::Read(Key::Hash(999)),
        ]
    );
    assert!(matches!(tc.read(&store, &Key::Hash(3)), Some(StoredValue::Contract(ref c)) if c.protocol_version == v(1, 0, 0)));
}

#[test]
fn decimal_text_of_numbers() {
    assert_eq!(decimal(0), "0");
    assert_eq!(decimal(7), "7");
    assert_eq!(decimal(10), "10");
    assert_eq!(decimal(1203), "1203");
    assert_eq!(decimal(u64::MAX), "18446744073709551615");
}

#[test]
fn upgrade_success_message() {
    let success = UpgradeSuccess {
        post_state_hash: Digest { value: 12 },
        execution_effect: ExecutionEffect { ops: vec![Op::Read(Key::Hash(1)), Op::Write(Key::Hash(1))] },
    };
    assert_eq!(success.message(), "Success: 12 with 2 effects");
}
