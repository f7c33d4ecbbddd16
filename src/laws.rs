//! Properties that hold of every upgrade.

use vstd::prelude::*;
use crate::store::{lookup, GlobalState};
use crate::types::{ContractModel, Key, ProtocolVersion, StoredValue, ValueModel, VersionEntry};
use crate::upgrade::{keys_unique, migrated_view, migration, overlay_view, UpgradeConfig};

verus! {

/// `p`, the package `s` after the contract at `h` moved to major version
/// `m`: every slot of `s` stays, for the same major version and address, and
/// only the slots of `h` are turned off; one slot is added, for `m` and `h`,
/// and it is the one enabled slot of `h`.
pub open spec fn slots_after_migration(
    s: Seq<VersionEntry>,
    p: Seq<VersionEntry>,
    h: u64,
    m: u32,
) -> bool {
    &&& p.len() == s.len() + 1
    &&& forall|i: int|
        0 <= i < s.len() ==> #[trigger] p[i] == (VersionEntry {
            major: s[i].major,
            contract_hash: s[i].contract_hash,
            enabled: s[i].enabled && s[i].contract_hash != h,
        })
    &&& p[s.len() as int] == (VersionEntry { major: m, contract_hash: h, enabled: true })
    &&& forall|j: int|
        0 <= j < p.len() && #[trigger] p[j].contract_hash == h && p[j].enabled ==> j == s.len()
}

/// A migrated system contract stays at its address, with its package, code
/// and named keys; only its protocol version and entry points change.
pub proof fn lemma_migration_keeps_address(
    view: spec_fn(Key) -> Option<ValueModel>,
    h: u64,
    entry_points: Seq<String>,
    v: ProtocolVersion,
)
    requires
        migration(view, h, entry_points, v) is Ok,
    ensures
        match view(Key::Hash(h)) {
            Some(ValueModel::Contract(c)) => (migrated_view(view, h, entry_points, v))(Key::Hash(h))
                == Some(
                ValueModel::Contract(
                    ContractModel {
                        contract_package_hash: c.contract_package_hash,
                        contract_wasm_hash: c.contract_wasm_hash,
                        named_keys: c.named_keys,
                        entry_points,
                        protocol_version: v,
                    },
                ),
            ),
            _ => false,
        },
{
}

/// After a migration, the contract's package keeps every slot it had, with
/// the contract's own slots disabled, and gains one slot for the new major
/// version, enabled for the same address: the only enabled slot of it.
pub proof fn lemma_migration_version_slots(
    view: spec_fn(Key) -> Option<ValueModel>,
    h: u64,
    entry_points: Seq<String>,
    v: ProtocolVersion,
)
    requires
        migration(view, h, entry_points, v) is Ok,
    ensures
        match view(Key::Hash(h)) {
            Some(ValueModel::Contract(c)) => match (
                view(Key::Hash(c.contract_package_hash)),
                (migrated_view(view, h, entry_points, v))(Key::Hash(c.contract_package_hash)),
            ) {
                (
                    Some(ValueModel::ContractPackage(s)),
                    Some(ValueModel::ContractPackage(p)),
                ) => slots_after_migration(s, p, h, v.major),
                _ => false,
            },
            _ => false,
        },
{
    let c = match view(Key::Hash(h)) {
        Some(ValueModel::Contract(c)) => c,
        _ => arbitrary(),
    };
    let s = match view(Key::Hash(c.contract_package_hash)) {
        Some(ValueModel::ContractPackage(s)) => s,
        _ => arbitrary(),
    };
    let p = crate::types::inserted_view(crate::types::disabled_view(s, h), v.major, h);
    assert((migrated_view(view, h, entry_points, v))(Key::Hash(c.contract_package_hash)) == Some(
        ValueModel::ContractPackage(p),
    ));
    assert(slots_after_migration(s, p, h, v.major));
}

/// The last pair of a list with unique keys is what `lookup` finds for its key.
proof fn lemma_lookup_unique(w: Seq<(Key, StoredValue)>, i: int)
    requires
        keys_unique(w),
        0 <= i < w.len(),
    ensures
        lookup(w, w[i].0) == Some(w[i].1@),
    decreases w.len(),
{
    if i != w.len() - 1 {
        assert(w[i].0 != w[w.len() - 1].0);
        assert(w.drop_last()[i] == w[i]);
        assert(keys_unique(w.drop_last()));
        lemma_lookup_unique(w.drop_last(), i);
    }
}

/// Every override of a config is what its key holds once the overrides are
/// written over the pre-state, whether or not the key held a value before.
pub proof fn lemma_override_fidelity(store: &GlobalState, config: &UpgradeConfig, i: int)
    requires
        keys_unique(config.global_state_update@),
        0 <= i < config.global_state_update@.len(),
    ensures
        (overlay_view(store, config))(config.global_state_update@[i].0) == Some(
            config.global_state_update@[i].1@,
        ),
{
    lemma_lookup_unique(config.global_state_update@, i);
}

/// A migration changes what two keys hold, the contract's and its package's,
/// and no other.
pub proof fn lemma_migration_frame(
    view: spec_fn(Key) -> Option<ValueModel>,
    h: u64,
    entry_points: Seq<String>,
    v: ProtocolVersion,
    k: Key,
)
    requires
        k != Key::Hash(h),
        view(Key::Hash(h)) matches Some(ValueModel::Contract(c)) ==> k != Key::Hash(
            c.contract_package_hash,
        ),
    ensures
        (migrated_view(view, h, entry_points, v))(k) == view(k),
{
}

} // verus!
