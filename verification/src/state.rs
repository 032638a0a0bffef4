//! The versioned state store: a key-value namespace persisted per contract
//! instance, with one reserved, protected key that holds the contract name
//! and semantic version. The record is written exactly once at instantiation
//! and changed only through a guarded, exact-match migration.
//!
//! The store is backed by `cosmwasm_std::MemoryStorage`; every read and
//! write goes through a small trusted wrapper whose contract states what the
//! storage does to its contents. The version record itself is written
//! through `cw2`, under the key `"contract_info"` that cw2 reserves.

use vstd::prelude::*;

use crate::error::ContractError;
use crate::ContractResult;

verus! {

/// The contract name and semantic-version string recorded in the store's
/// protected key.
#[derive(Debug, PartialEq)]
pub struct ContractVersion {
    pub name: String,
    pub version: String,
}

/// Mathematical image of a [`ContractVersion`]: both strings as character
/// sequences.
pub ghost struct ContractVersionView {
    pub name: Seq<char>,
    pub version: Seq<char>,
}

impl View for ContractVersion {
    type V = ContractVersionView;

    open spec fn view(&self) -> ContractVersionView {
        ContractVersionView { name: self.name@, version: self.version@ }
    }
}

impl Clone for ContractVersion {
    fn clone(&self) -> (r: Self)
        ensures
            r@ == self@,
    {
        ContractVersion { name: self.name.clone(), version: self.version.clone() }
    }
}

/// The image of an optional version record.
pub open spec fn version_view_of(o: Option<ContractVersion>) -> Option<ContractVersionView> {
    match o {
        Some(cv) => Some(cv@),
        None => None,
    }
}

/// The reserved key of the version record: the bytes of `"contract_info"`,
/// the key under which cw2 stores the record.
pub open spec fn version_key() -> Seq<u8> {
    seq![
        0x63u8,
        0x6fu8,
        0x6eu8,
        0x74u8,
        0x72u8,
        0x61u8,
        0x63u8,
        0x74u8,
        0x5fu8,
        0x69u8,
        0x6eu8,
        0x66u8,
        0x6fu8,
    ]
}

/// The reserved key as a vector, for callers that read the record back.
pub fn version_key_bytes() -> (r: Vec<u8>)
    ensures
        r@ == version_key(),
{
    let r: Vec<u8> = vec![
        0x63u8,
        0x6fu8,
        0x6eu8,
        0x74u8,
        0x72u8,
        0x61u8,
        0x63u8,
        0x74u8,
        0x5fu8,
        0x69u8,
        0x6eu8,
        0x66u8,
        0x6fu8,
    ];
    proof {
        assert(r@ =~= version_key());
    }
    r
}

/// Whether `key` is the protected version key.
pub fn is_version_key(key: &Vec<u8>) -> (r: bool)
    ensures
        r == (key@ == version_key()),
{
    let vk = version_key_bytes();
    if key.len() != vk.len() {
        return false;
    }
    let mut i: usize = 0;
    while i < vk.len()
        invariant
            0 <= i <= vk.len(),
            vk@ == version_key(),
            key@.len() == vk@.len(),
            forall|j: int| 0 <= j < i ==> key@[j] == vk@[j],
        decreases vk@.len() - i,
    {
        if key[i] != vk[i] {
            return false;
        }
        i += 1;
    }
    proof {
        assert(key@ =~= version_key());
    }
    true
}

#[verifier::external_type_specification]
#[verifier::external_body]
pub struct ExMemoryStorage(cosmwasm_std::MemoryStorage);

#[verifier::external_type_specification]
#[verifier::external_body]
pub struct ExStdError(cosmwasm_std::StdError);

/// What the backing storage holds: its full key-value contents.
pub uninterp spec fn storage_contents(s: cosmwasm_std::MemoryStorage) -> Map<Seq<u8>, Seq<u8>>;

/// The serialized version record that cw2 writes for a contract name and
/// version: a function of the two strings alone.
pub uninterp spec fn version_record_bytes(name: Seq<char>, version: Seq<char>) -> Seq<u8>;

/// Relies on `cosmwasm_std::MemoryStorage::new`: a fresh storage holds an
/// empty map.
#[verifier::external_body]
fn storage_new() -> (r: cosmwasm_std::MemoryStorage)
    ensures
        forall|k: Seq<u8>| !storage_contents(r).contains_key(k),
{
    cosmwasm_std::MemoryStorage::new()
}

/// Relies on `cosmwasm_std::Storage::get` on `MemoryStorage`: returns a copy
/// of the value stored under the key, or `None` when the key is absent.
#[verifier::external_body]
fn storage_get(s: &cosmwasm_std::MemoryStorage, key: &Vec<u8>) -> (r: Option<Vec<u8>>)
    ensures
        r matches Some(v) ==> storage_contents(*s).contains_key(key@) && storage_contents(*s)[key@]
            == v@,
        r is None ==> !storage_contents(*s).contains_key(key@),
{
    cosmwasm_std::Storage::get(s, key.as_slice())
}

/// Relies on `cosmwasm_std::Storage::set` on `MemoryStorage`: stores the
/// pair, overwriting any prior value under the key. The storage refuses an
/// empty value (it panics), so the wrapper requires a non-empty one.
#[verifier::external_body]
fn storage_set(s: &mut cosmwasm_std::MemoryStorage, key: &Vec<u8>, value: &Vec<u8>)
    requires
        value@.len() > 0,
    ensures
        storage_contents(*final(s)) == storage_contents(*old(s)).insert(key@, value@),
{
    cosmwasm_std::Storage::set(s, key.as_slice(), value.as_slice())
}

/// Relies on `cw2::set_contract_version`: serializes the record
/// `{contract, version}` from the two strings alone and stores it under the
/// key `"contract_info"`. Its only fallible step is serializing a struct of
/// two plain strings, which the serializer writes into a growable buffer
/// with no failure path, so the call returns `Ok` and the record is stored.
#[verifier::external_body]
fn cw2_set_version(s: &mut cosmwasm_std::MemoryStorage, name: &str, version: &str) -> (r: Result<
    (),
    cosmwasm_std::StdError,
>)
    ensures
        r is Ok,
        storage_contents(*final(s)) == storage_contents(*old(s)).insert(
            version_key(),
            version_record_bytes(name@, version@),
        ),
{
    cw2::set_contract_version(s, name, version)
}

/// Mathematical image of the store: the full key-value contents of the
/// backing storage, and the version record if one was written.
pub ghost struct StateStoreView {
    pub entries: Map<Seq<u8>, Seq<u8>>,
    pub version: Option<ContractVersionView>,
}

/// The persisted key-value state of one contract instance.
pub struct StateStore {
    backing: cosmwasm_std::MemoryStorage,
    version: Option<ContractVersion>,
}

impl View for StateStore {
    type V = StateStoreView;

    closed spec fn view(&self) -> StateStoreView {
        StateStoreView {
            entries: storage_contents(self.backing),
            version: version_view_of(self.version),
        }
    }
}

impl StateStore {
    /// Internal consistency: the typed version record mirrors the protected
    /// key of the backing storage exactly — present with the serialized
    /// record when set, absent otherwise.
    pub closed spec fn wf(&self) -> bool {
        match self.version {
            Some(cv) => storage_contents(self.backing).contains_key(version_key())
                && storage_contents(self.backing)[version_key()] == version_record_bytes(
                cv.name@,
                cv.version@,
            ),
            None => !storage_contents(self.backing).contains_key(version_key()),
        }
    }

    /// A fresh, empty store with no version record.
    pub fn new() -> (r: StateStore)
        ensures
            r.wf(),
            r@.entries == Map::<Seq<u8>, Seq<u8>>::empty(),
            r@.version is None,
    {
        let backing = storage_new();
        proof {
            assert(storage_contents(backing) =~= Map::<Seq<u8>, Seq<u8>>::empty());
        }
        StateStore { backing, version: None }
    }

    /// The version record, if one was written.
    pub fn version(&self) -> (r: &Option<ContractVersion>)
        ensures
            version_view_of(*r) == self@.version,
    {
        &self.version
    }

    /// Reads one key: the stored value, or `NotFound` carrying the key.
    pub fn get(&self, key: &Vec<u8>) -> (r: ContractResult<Vec<u8>>)
        ensures
            self@.entries.contains_key(key@) ==> (r matches Ok(v) && v@ == self@.entries[key@]),
            !self@.entries.contains_key(key@) ==> (r matches Err(e) && e matches
                ContractError::NotFound(k) && k@ == key@),
    {
        match storage_get(&self.backing, key) {
            Some(v) => Ok(v),
            None => {
                let k = crate::codec::read_bytes(key, 0, key.len());
                proof {
                    assert(k@ =~= key@);
                }
                Err(ContractError::NotFound(k))
            },
        }
    }

    /// Unconditional overwrite of one contract-defined key. The protected
    /// version key is refused, and so is an empty value (the backing storage
    /// does not support empty values).
    pub fn set(&mut self, key: &Vec<u8>, value: &Vec<u8>) -> (r: ContractResult<()>)
        requires
            old(self).wf(),
        ensures
            final(self).wf(),
            key@ == version_key() ==> (r matches Err(e) && e matches
                ContractError::InvalidArgument(d) && d@ == "the version key is protected"@
                && final(self)@ == old(self)@),
            key@ != version_key() && value@.len() == 0 ==> (r matches Err(e) && e matches
                ContractError::InvalidArgument(d) && d@ == "an empty value cannot be stored"@
                && final(self)@ == old(self)@),
            key@ != version_key() && value@.len() > 0 ==> (r matches Ok(u)
                && final(self)@.entries == old(self)@.entries.insert(key@, value@)
                && final(self)@.version == old(self)@.version),
    {
        if is_version_key(key) {
            return Err(
                ContractError::InvalidArgument("the version key is protected".to_owned()),
            );
        }
        if value.len() == 0 {
            return Err(
                ContractError::InvalidArgument("an empty value cannot be stored".to_owned()),
            );
        }
        storage_set(&mut self.backing, key, value);
        Ok(())
    }

    /// The exactly-once write of the protected version record. Fails with
    /// `AlreadyInitialized` when a record exists; otherwise it writes the
    /// record through cw2 and succeeds.
    pub fn initialize_version(&mut self, config: &ContractVersion) -> (r: ContractResult<()>)
        requires
            old(self).wf(),
        ensures
            final(self).wf(),
            old(self)@.version is Some ==> (r matches Err(e) && e is AlreadyInitialized
                && final(self)@ == old(self)@),
            old(self)@.version is None ==> (r matches Ok(u)
                && final(self)@.version == Some(config@)
                && final(self)@.entries == old(self)@.entries.insert(
                    version_key(),
                    version_record_bytes(config@.name, config@.version),
                )),
    {
        if self.version.is_some() {
            return Err(ContractError::AlreadyInitialized);
        }
        let name = config.name.as_str();
        let ver = config.version.as_str();
        match cw2_set_version(&mut self.backing, name, ver) {
            Ok(_) => {
                self.version = Some(config.clone());
                Ok(())
            },
            // Unreachable: the wrapper's contract owes Ok. Kept for
            // exhaustiveness, converting the fault at the boundary.
            Err(_) => Err(
                ContractError::StateInvariantViolated(
                    "the version record could not be written".to_owned(),
                ),
            ),
        }
    }

    /// Guarded, exact-match migration: the only sanctioned path that changes
    /// a previously recorded version. Unless the stored record equals
    /// `expected_prior` exactly, it fails with `VersionMismatch` carrying
    /// the expected and the stored version, and changes nothing.
    pub fn migrate(
        &mut self,
        expected_prior: &ContractVersion,
        new_version: &ContractVersion,
    ) -> (r: ContractResult<()>)
        requires
            old(self).wf(),
        ensures
            final(self).wf(),
            old(self)@.version != Some(expected_prior@) ==> final(self)@ == old(self)@ && (
            r matches Err(e) && e matches ContractError::VersionMismatch(exp, found) && exp@
                == expected_prior@ && version_view_of(found) == old(self)@.version),
            old(self)@.version == Some(expected_prior@) ==> (r matches Ok(u)
                && final(self)@.version == Some(new_version@)
                && final(self)@.entries == old(self)@.entries.insert(
                    version_key(),
                    version_record_bytes(new_version@.name, new_version@.version),
                )),
    {
        let stored_matches = match &self.version {
            Some(cv) => cv.name == expected_prior.name && cv.version == expected_prior.version,
            None => false,
        };
        if !stored_matches {
            let found = match &self.version {
                Some(cv) => Some(cv.clone()),
                None => None,
            };
            return Err(ContractError::VersionMismatch(expected_prior.clone(), found));
        }
        let name = new_version.name.as_str();
        let ver = new_version.version.as_str();
        match cw2_set_version(&mut self.backing, name, ver) {
            Ok(_) => {
                self.version = Some(new_version.clone());
                Ok(())
            },
            // Unreachable: the wrapper's contract owes Ok. Kept for
            // exhaustiveness, converting the fault at the boundary.
            Err(_) => Err(
                ContractError::StateInvariantViolated(
                    "the version record could not be rewritten".to_owned(),
                ),
            ),
        }
    }
}

} // verus!
