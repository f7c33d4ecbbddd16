//! Values held in the global state.

use vstd::prelude::*;

verus! {

/// A semantic protocol version.
#[derive(PartialEq, Eq, Structural, Clone, Copy, Debug)]
pub struct ProtocolVersion {
    pub major: u32,
    pub minor: u32,
    pub patch: u32,
}

/// `a` orders strictly before `b`, component by component.
pub open spec fn version_lt(a: ProtocolVersion, b: ProtocolVersion) -> bool {
    a.major < b.major || (a.major == b.major && (a.minor < b.minor || (a.minor == b.minor
        && a.patch < b.patch)))
}

impl ProtocolVersion {
    pub fn from_parts(major: u32, minor: u32, patch: u32) -> (r: ProtocolVersion)
        ensures
            r.major == major,
            r.minor == minor,
            r.patch == patch,
    {
        ProtocolVersion { major, minor, patch }
    }

    /// Whether `self` is strictly newer than `other`.
    pub fn is_newer_than(&self, other: &ProtocolVersion) -> (r: bool)
        ensures
            r == version_lt(*other, *self),
    {
        if self.major != other.major {
            self.major > other.major
        } else if self.minor != other.minor {
            self.minor > other.minor
        } else {
            self.patch > other.patch
        }
    }
}

/// An address in the global state.
#[derive(PartialEq, Eq, Structural, Clone, Copy, Debug)]
pub enum Key {
    /// A contract, a contract package or another hash-addressed value.
    Hash(u64),
    /// An account.
    Account(u64),
    /// A reference to a stored value.
    URef(u64),
}

/// A name bound to a key in a contract's context.
#[derive(Debug)]
pub struct NamedKey {
    pub name: String,
    pub key: Key,
}

/// One version slot of a contract package.
#[derive(PartialEq, Eq, Structural, Clone, Copy, Debug)]
pub struct VersionEntry {
    /// The protocol major version that the slot belongs to.
    pub major: u32,
    /// The address of the contract registered in the slot.
    pub contract_hash: u64,
    /// Whether the slot may be invoked.
    pub enabled: bool,
}

/// A stored contract.
#[derive(Debug)]
pub struct Contract {
    pub contract_package_hash: u64,
    pub contract_wasm_hash: u64,
    pub named_keys: Vec<NamedKey>,
    /// The names of the contract's entry points.
    pub entry_points: Vec<String>,
    pub protocol_version: ProtocolVersion,
}

/// The registry of the versions of one logical contract.
#[derive(Debug)]
pub struct ContractPackage {
    pub versions: Vec<VersionEntry>,
}

/// Everything that can be stored under a key.
#[derive(Debug)]
pub enum StoredValue {
    Contract(Contract),
    ContractPackage(ContractPackage),
    /// Any other value, as its serialized bytes.
    Bytes(Vec<u8>),
}

pub fn copy_strings(v: &Vec<String>) -> (r: Vec<String>)
    ensures
        r@ == v@,
{
    let mut r: Vec<String> = Vec::new();
    let mut i: usize = 0;
    while i < v.len()
        invariant
            i <= v.len(),
            r@ == v@.subrange(0, i as int),
        decreases v.len() - i,
    {
        r.push(v[i].clone());
        i = i + 1;
    }
    assert(v@.subrange(0, v.len() as int) =~= v@);
    r
}

pub fn copy_named_keys(v: &Vec<NamedKey>) -> (r: Vec<NamedKey>)
    ensures
        r@ == v@,
{
    let mut r: Vec<NamedKey> = Vec::new();
    let mut i: usize = 0;
    while i < v.len()
        invariant
            i <= v.len(),
            r@ == v@.subrange(0, i as int),
        decreases v.len() - i,
    {
        r.push(NamedKey { name: v[i].name.clone(), key: v[i].key });
        i = i + 1;
    }
    assert(v@.subrange(0, v.len() as int) =~= v@);
    r
}

pub fn copy_bytes(v: &Vec<u8>) -> (r: Vec<u8>)
    ensures
        r@ == v@,
{
    let mut r: Vec<u8> = Vec::new();
    let mut i: usize = 0;
    while i < v.len()
        invariant
            i <= v.len(),
            r@ == v@.subrange(0, i as int),
        decreases v.len() - i,
    {
        r.push(v[i]);
        i = i + 1;
    }
    assert(v@.subrange(0, v.len() as int) =~= v@);
    r
}

pub fn copy_versions(v: &Vec<VersionEntry>) -> (r: Vec<VersionEntry>)
    ensures
        r@ == v@,
{
    let mut r: Vec<VersionEntry> = Vec::new();
    let mut i: usize = 0;
    while i < v.len()
        invariant
            i <= v.len(),
            r@ == v@.subrange(0, i as int),
        decreases v.len() - i,
    {
        r.push(v[i]);
        i = i + 1;
    }
    assert(v@.subrange(0, v.len() as int) =~= v@);
    r
}

/// What a contract holds, as values.
pub struct ContractModel {
    pub contract_package_hash: u64,
    pub contract_wasm_hash: u64,
    pub named_keys: Seq<NamedKey>,
    pub entry_points: Seq<String>,
    pub protocol_version: ProtocolVersion,
}

/// What a stored value holds, as values.
pub enum ValueModel {
    Contract(ContractModel),
    ContractPackage(Seq<VersionEntry>),
    Bytes(Seq<u8>),
}

impl View for Contract {
    type V = ContractModel;

    open spec fn view(&self) -> ContractModel {
        ContractModel {
            contract_package_hash: self.contract_package_hash,
            contract_wasm_hash: self.contract_wasm_hash,
            named_keys: self.named_keys@,
            entry_points: self.entry_points@,
            protocol_version: self.protocol_version,
        }
    }
}

impl View for ContractPackage {
    type V = Seq<VersionEntry>;

    open spec fn view(&self) -> Seq<VersionEntry> {
        self.versions@
    }
}

impl View for StoredValue {
    type V = ValueModel;

    open spec fn view(&self) -> ValueModel {
        match self {
            StoredValue::Contract(c) => ValueModel::Contract(c@),
            StoredValue::ContractPackage(p) => ValueModel::ContractPackage(p@),
            StoredValue::Bytes(b) => ValueModel::Bytes(b@),
        }
    }
}

impl Contract {
    pub fn new(
        contract_package_hash: u64,
        contract_wasm_hash: u64,
        named_keys: Vec<NamedKey>,
        entry_points: Vec<String>,
        protocol_version: ProtocolVersion,
    ) -> (r: Contract)
        ensures
            r@ == (ContractModel {
                contract_package_hash,
                contract_wasm_hash,
                named_keys: named_keys@,
                entry_points: entry_points@,
                protocol_version,
            }),
    {
        Contract {
            contract_package_hash,
            contract_wasm_hash,
            named_keys,
            entry_points,
            protocol_version,
        }
    }

    /// A copy with the same contents.
    pub fn duplicate(&self) -> (r: Contract)
        ensures
            r@ == self@,
    {
        Contract {
            contract_package_hash: self.contract_package_hash,
            contract_wasm_hash: self.contract_wasm_hash,
            named_keys: copy_named_keys(&self.named_keys),
            entry_points: copy_strings(&self.entry_points),
            protocol_version: self.protocol_version,
        }
    }
}

impl StoredValue {
    /// A copy with the same contents.
    pub fn duplicate(&self) -> (r: StoredValue)
        ensures
            r@ == self@,
    {
        match self {
            StoredValue::Contract(c) => StoredValue::Contract(c.duplicate()),
            StoredValue::ContractPackage(p) => StoredValue::ContractPackage(
                ContractPackage { versions: copy_versions(&p.versions) },
            ),
            StoredValue::Bytes(b) => StoredValue::Bytes(copy_bytes(b)),
        }
    }
}

/// The package holds an enabled slot for the contract at `h`.
pub open spec fn has_enabled(s: Seq<VersionEntry>, h: u64) -> bool {
    exists|i: int| 0 <= i < s.len() && #[trigger] s[i].contract_hash == h && s[i].enabled
}

/// Every slot of the contract at `h` turned off; the rest as it was.
pub open spec fn disabled_view(s: Seq<VersionEntry>, h: u64) -> Seq<VersionEntry> {
    Seq::new(
        s.len(),
        |i: int|
            VersionEntry {
                major: s[i].major,
                contract_hash: s[i].contract_hash,
                enabled: s[i].enabled && s[i].contract_hash != h,
            },
    )
}

/// A new slot appended for major version `m`, enabled for the contract at
/// `h`; every earlier slot is kept as it was.
pub open spec fn inserted_view(s: Seq<VersionEntry>, m: u32, h: u64) -> Seq<VersionEntry> {
    s.push(VersionEntry { major: m, contract_hash: h, enabled: true })
}

/// Why a package refused a change.
#[derive(PartialEq, Eq, Structural, Clone, Copy, Debug)]
pub enum PackageError {
    /// The contract is not an enabled version of the package.
    ContractNotFound,
}

impl ContractPackage {
    pub fn new(versions: Vec<VersionEntry>) -> (r: ContractPackage)
        ensures
            r@ == versions@,
    {
        ContractPackage { versions }
    }

    /// Turns off every slot of the contract at `contract_hash`. Fails, and
    /// changes nothing, where none of its slots is enabled.
    pub fn disable_contract_version(&mut self, contract_hash: u64) -> (r: Result<(), PackageError>)
        ensures
            r is Ok <==> has_enabled(old(self)@, contract_hash),
            r is Ok ==> final(self)@ == disabled_view(old(self)@, contract_hash),
            r is Err ==> final(self)@ == old(self)@,
    {
        let mut found = false;
        let mut i: usize = 0;
        while i < self.versions.len()
            invariant
                i <= self.versions.len(),
                found <==> exists|j: int|
                    0 <= j < i && #[trigger] self.versions@[j].contract_hash == contract_hash
                        && self.versions@[j].enabled,
            decreases self.versions.len() - i,
        {
            if self.versions[i].contract_hash == contract_hash && self.versions[i].enabled {
                found = true;
            }
            i = i + 1;
        }
        if !found {
            return Err(PackageError::ContractNotFound);
        }
        let ghost before = self.versions@;
        let mut k: usize = 0;
        while k < self.versions.len()
            invariant
                self.versions@.len() == before.len(),
                k <= before.len(),
                forall|j: int|
                    0 <= j < k ==> #[trigger] self.versions@[j] == disabled_view(before, contract_hash)[j],
                forall|j: int| k <= j < before.len() ==> #[trigger] self.versions@[j] == before[j],
            decreases before.len() - k,
        {
            let e = self.versions[k];
            if e.contract_hash == contract_hash {
                self.versions.set(k, VersionEntry { major: e.major, contract_hash: e.contract_hash, enabled: false });
            }
            k = k + 1;
        }
        assert(self.versions@ =~= disabled_view(before, contract_hash));
        Ok(())
    }

    /// Registers the contract at `contract_hash` as a new enabled version of
    /// major version `major`, after every version registered before.
    pub fn insert_contract_version(&mut self, major: u32, contract_hash: u64)
        ensures
            final(self)@ == inserted_view(old(self)@, major, contract_hash),
    {
        self.versions.push(VersionEntry { major, contract_hash, enabled: true });
    }
}

} // verus!
