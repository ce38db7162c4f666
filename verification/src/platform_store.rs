//! Names under which the native secret store keeps a credential: an opaque,
//! bounded identity of the project, provider, account and reference, never
//! the secret itself.
use crate::text::{contains_control, has_control, text_len, utf8_len};
use vstd::prelude::*;
use vstd::string::StrSliceExecFns;
use vstd::string::StringExecFns;

verus! {

pub const TARGET_PREFIX: &'static str = "Hank/credential/v1";

/// Longest target name, in UTF-8 bytes.
pub const MAX_TARGET_BYTES: usize = 512;

/// How the secret store refused a request.
#[derive(Debug, Clone, Copy, PartialEq, Eq, Structural)]
pub enum SecretStoreError {
    InvalidReference,
    InvalidMaterial,
    Missing,
    Unavailable,
    Unauthorized,
    Cancelled,
    Backend,
}

/// The desktop's native secret store.
#[derive(Debug, Clone, Copy, Default)]
pub struct PlatformSecretBackend;

/// The target text of a credential: the prefix, then the project, provider,
/// account and reference, separated by slashes.
pub open spec fn target_text(project: Seq<char>, provider: Seq<char>, account: Seq<char>, reference: Seq<char>) -> Seq<char> {
    TARGET_PREFIX@ + "/"@ + project + "/"@ + provider + "/"@ + account + "/"@ + reference
}

/// The UTF-16 code units of a character.
pub open spec fn utf16_units(c: char) -> Seq<u16> {
    let v = c as u32;
    if v < 0x10000 {
        seq![v as u16]
    } else {
        seq![(0xD800 + (v - 0x10000) / 1024) as u16, (0xDC00 + (v - 0x10000) % 1024) as u16]
    }
}

/// The UTF-16 code units of a text.
pub open spec fn utf16(s: Seq<char>) -> Seq<u16>
    decreases s.len(),
{
    if s.len() == 0 {
        seq![]
    } else {
        utf16(s.drop_last()) + utf16_units(s.last())
    }
}

impl PlatformSecretBackend {
    /// The key of a credential: its target text, refused when longer than
    /// the bound or holding a control character.
    pub fn fixture_key(project: &str, provider: &str, account: &str, reference: &str) -> (r: Result<
        String,
        SecretStoreError,
    >)
        ensures
            ({
                let t = target_text(project@, provider@, account@, reference@);
                if utf8_len(t) > MAX_TARGET_BYTES || has_control(t) {
                    r == Err::<String, SecretStoreError>(SecretStoreError::InvalidReference)
                } else {
                    r matches Ok(k) && k@ == t
                }
            }),
    {
        let mut target = TARGET_PREFIX.to_string();
        target.append("/");
        target.append(project);
        target.append("/");
        target.append(provider);
        target.append("/");
        target.append(account);
        target.append("/");
        target.append(reference);
        if text_len(target.as_str()) > MAX_TARGET_BYTES || contains_control(target.as_str()) {
            return Err(SecretStoreError::InvalidReference);
        }
        Ok(target)
    }

    /// The target name the native store is given: the key in UTF-16, ended
    /// by a zero unit.
    pub fn target_name(project: &str, provider: &str, account: &str, reference: &str) -> (r: Result<
        Vec<u16>,
        SecretStoreError,
    >)
        ensures
            ({
                let t = target_text(project@, provider@, account@, reference@);
                if utf8_len(t) > MAX_TARGET_BYTES || has_control(t) {
                    r == Err::<Vec<u16>, SecretStoreError>(SecretStoreError::InvalidReference)
                } else {
                    r matches Ok(units) && units@ == utf16(t).push(0u16)
                }
            }),
    {
        let target = PlatformSecretBackend::fixture_key(project, provider, account, reference)?;
        let s = target.as_str();
        let n = s.unicode_len();
        let mut units: Vec<u16> = Vec::new();
        let mut i: usize = 0;
        assert(s@.take(0) =~= Seq::<char>::empty());
        while i < n
            invariant
                n == s@.len(),
                i <= n,
                units@ == utf16(s@.take(i as int)),
            decreases n - i,
        {
            let c = s.get_char(i);
            let v = c as u32;
            assert(v <= 0x10FFFF) by {
                assert(c as u32 <= 0x10FFFF);
            }
            if v < 0x10000 {
                units.push(v as u16);
            } else {
                let w = v - 0x10000;
                units.push((0xD800 + w / 1024) as u16);
                units.push((0xDC00 + w % 1024) as u16);
            }
            assert(s@.take(i + 1).drop_last() =~= s@.take(i as int));
            assert(s@.take(i + 1).last() == c);
            i = i + 1;
        }
        assert(s@.take(i as int) =~= s@);
        units.push(0);
        Ok(units)
    }
}

/// Largest secret the native store keeps, in bytes.
pub const MAX_MATERIAL_BYTES: usize = 2_560;

/// The native store's code for a credential it does not hold.
pub const ERROR_NOT_FOUND: i32 = 1168;

/// Which kind of store serves secrets.
#[derive(Debug, Clone, Copy, PartialEq, Eq, Structural)]
pub enum BackendKind {
    Mock,
    OsKeychain,
}

/// Whether the store can serve.
#[derive(Debug, Clone, Copy, PartialEq, Eq, Structural)]
pub enum BackendStatus {
    Available,
    Unavailable,
}

/// The kind of store: the fixture map only off the native platform with the
/// fixture switched on, else the operating system's keychain.
pub fn backend_kind(native: bool, fixture: bool) -> (r: BackendKind)
    ensures
        r == (if !native && fixture { BackendKind::Mock } else { BackendKind::OsKeychain }),
{
    if !native && fixture {
        BackendKind::Mock
    } else {
        BackendKind::OsKeychain
    }
}

/// Whether the store serves: on the native platform, or with the fixture
/// switched on; nowhere else, since there is no plaintext fallback.
pub fn backend_status(native: bool, fixture: bool) -> (r: BackendStatus)
    ensures
        r == (if native || fixture { BackendStatus::Available } else { BackendStatus::Unavailable }),
{
    if native || fixture {
        BackendStatus::Available
    } else {
        BackendStatus::Unavailable
    }
}

/// A secret larger than the bound is refused.
pub fn check_material(len: usize) -> (r: Result<(), SecretStoreError>)
    ensures
        r is Ok <==> len <= MAX_MATERIAL_BYTES,
        r is Err ==> r == Err::<(), SecretStoreError>(SecretStoreError::InvalidMaterial),
{
    if len > MAX_MATERIAL_BYTES {
        Err(SecretStoreError::InvalidMaterial)
    } else {
        Ok(())
    }
}

/// The failure of a native read or delete: a credential it does not hold is
/// missing; anything else is a backend failure.
pub fn native_failure(os_error: Option<i32>) -> (r: SecretStoreError)
    ensures
        r == (if os_error == Some(ERROR_NOT_FOUND) {
            SecretStoreError::Missing
        } else {
            SecretStoreError::Backend
        }),
{
    match os_error {
        Some(code) => if code == ERROR_NOT_FOUND {
            SecretStoreError::Missing
        } else {
            SecretStoreError::Backend
        },
        None => SecretStoreError::Backend,
    }
}

/// A secret the native store handed back is accepted only when present,
/// not empty and within the bound.
pub fn check_blob(present: bool, size: usize) -> (r: Result<(), SecretStoreError>)
    ensures
        r is Ok <==> (present && 0 < size <= MAX_MATERIAL_BYTES),
        r is Err ==> r == Err::<(), SecretStoreError>(SecretStoreError::Backend),
{
    if !present || size == 0 || size > MAX_MATERIAL_BYTES {
        Err(SecretStoreError::Backend)
    } else {
        Ok(())
    }
}

/// Overwrites every byte with zero.
pub fn wipe(bytes: &mut Vec<u8>)
    ensures
        final(bytes)@.len() == old(bytes)@.len(),
        forall|i: int| 0 <= i < final(bytes)@.len() ==> final(bytes)@[i] == 0,
{
    let n = bytes.len();
    let mut i: usize = 0;
    while i < n
        invariant
            n == bytes@.len(),
            i <= n,
            forall|j: int| 0 <= j < i ==> bytes@[j] == 0,
        decreases n - i,
    {
        bytes.set(i, 0);
        i = i + 1;
    }
}

/// What a read of the fixture store gives for a key: the secret kept under
/// it, or that it is missing.
pub open spec fn fixture_read(secrets: Map<Seq<char>, Seq<u8>>, key: Seq<char>) -> Result<
    Seq<u8>,
    SecretStoreError,
> {
    if secrets.contains_key(key) {
        Ok(secrets[key])
    } else {
        Err(SecretStoreError::Missing)
    }
}

struct FixtureEntry {
    key: String,
    bytes: Vec<u8>,
}

/// Each key is kept once, and the map holds exactly what the entries keep.
spec fn store_wf(entries: Seq<FixtureEntry>, secrets: Map<Seq<char>, Seq<u8>>) -> bool {
    &&& forall|i: int, j: int|
        0 <= i < entries.len() && 0 <= j < entries.len() && i != j
            ==> #[trigger] entries[i].key@ != #[trigger] entries[j].key@
    &&& forall|i: int|
        0 <= i < entries.len() ==> secrets.contains_key(#[trigger] entries[i].key@)
            && secrets[entries[i].key@] == entries[i].bytes@
    &&& forall|k: Seq<char>|
        #[trigger] secrets.contains_key(k) ==> exists|i: int|
            0 <= i < entries.len() && #[trigger] entries[i].key@ == k
}

/// The process-local secret map the fixture serves from, keyed by target
/// text. Replaced and deleted secrets are wiped before they are dropped.
pub struct FixtureSecretStore {
    entries: Vec<FixtureEntry>,
    secrets: Ghost<Map<Seq<char>, Seq<u8>>>,
}

impl FixtureSecretStore {
    /// The secrets kept, by key.
    pub closed spec fn view_secrets(&self) -> Map<Seq<char>, Seq<u8>> {
        self.secrets@
    }

    /// Each key is kept once, and the view holds exactly what is kept;
    /// every store keeps this.
    #[verifier::type_invariant]
    pub closed spec fn wf(&self) -> bool {
        store_wf(self.entries@, self.secrets@)
    }

    /// An empty store.
    pub fn new() -> (r: Self)
        ensures
            r.view_secrets() == Map::<Seq<char>, Seq<u8>>::empty(),
    {
        FixtureSecretStore { entries: Vec::new(), secrets: Ghost(Map::empty()) }
    }

    fn find(&self, key: &str) -> (r: Option<usize>)
        ensures
            match r {
                Some(i) => i < self.entries@.len() && self.entries@[i as int].key@ == key@
                    && self.view_secrets().contains_key(key@),
                None => !self.view_secrets().contains_key(key@),
            },
    {
        proof {
            use_type_invariant(self);
        }
        let mut i: usize = 0;
        while i < self.entries.len()
            invariant
                self.wf(),
                i <= self.entries@.len(),
                forall|j: int| 0 <= j < i ==> self.entries@[j].key@ != key@,
            decreases self.entries@.len() - i,
        {
            if crate::text::same_text(self.entries[i].key.as_str(), key) {
                return Some(i);
            }
            i = i + 1;
        }
        None
    }

    /// Takes the entry of a key out of the store, if it holds one.
    fn take(&mut self, key: &str) -> (r: Option<Vec<u8>>)
        ensures
            final(self).view_secrets() == old(self).view_secrets().remove(key@),
            r matches Some(b) ==> old(self).view_secrets().contains_key(key@) && b@
                == old(self).view_secrets()[key@],
            r is None ==> !old(self).view_secrets().contains_key(key@),
    {
        proof {
            use_type_invariant(&*self);
        }
        match self.find(key) {
            None => {
                proof {
                    assert(self.secrets@.remove(key@) =~= self.secrets@);
                }
                None
            },
            Some(i) => {
                let mut store = FixtureSecretStore::new();
                std::mem::swap(&mut store, self);
                proof {
                    use_type_invariant(&store);
                }
                let ghost before = store.entries@;
                let ghost old_secrets = store.secrets@;
                let mut entries = store.entries;
                let entry = entries.remove(i);
                let ghost secrets = old_secrets.remove(key@);
                proof {
                    assert forall|a: int, b: int|
                        0 <= a < entries@.len() && 0 <= b < entries@.len() && a != b
                            implies #[trigger] entries@[a].key@ != #[trigger] entries@[b].key@ by {
                        let oa = if a < i { a } else { a + 1 };
                        let ob = if b < i { b } else { b + 1 };
                        assert(entries@[a] == before[oa]);
                        assert(entries@[b] == before[ob]);
                    }
                    assert forall|a: int| 0 <= a < entries@.len() implies secrets.contains_key(
                        #[trigger] entries@[a].key@,
                    ) && secrets[entries@[a].key@] == entries@[a].bytes@ by {
                        let oa = if a < i { a } else { a + 1 };
                        assert(entries@[a] == before[oa]);
                        assert(before[oa].key@ != before[i as int].key@);
                    }
                    assert forall|k: Seq<char>| #[trigger] secrets.contains_key(k) implies exists|a: int|
                        0 <= a < entries@.len() && #[trigger] entries@[a].key@ == k by {
                        assert(old_secrets.contains_key(k));
                        let o = choose|o: int| 0 <= o < before.len() && #[trigger] before[o].key@ == k;
                        assert(o != i);
                        let a = if o < i { o } else { o - 1 };
                        assert(entries@[a] == before[o]);
                    }
                }
                assert(store_wf(entries@, secrets));
                *self = FixtureSecretStore { entries, secrets: Ghost(secrets) };
                Some(entry.bytes)
            },
        }
    }

    /// Keeps a secret under a key, wiping the one it replaces.
    pub fn put(&mut self, key: &str, material: Vec<u8>)
        ensures
            final(self).view_secrets() == old(self).view_secrets().insert(key@, material@),
    {
        match self.take(key) {
            Some(previous) => {
                let mut previous = previous;
                wipe(&mut previous);
            },
            None => {},
        }
        proof {
            use_type_invariant(&*self);
        }
        let mut store = FixtureSecretStore::new();
        std::mem::swap(&mut store, self);
        proof {
            use_type_invariant(&store);
        }
        let ghost before = store.entries@;
        let ghost mid = store.secrets@;
        let mut entries = store.entries;
        entries.push(FixtureEntry { key: key.to_string(), bytes: material });
        let ghost secrets = mid.insert(key@, entries@.last().bytes@);
        proof {
            assert(!mid.contains_key(key@));
            assert forall|a: int| 0 <= a < before.len() implies before[a].key@ != key@ by {
                assert(mid.contains_key(before[a].key@));
            }
            assert forall|k: Seq<char>| #[trigger] secrets.contains_key(k) implies exists|a: int|
                0 <= a < entries@.len() && #[trigger] entries@[a].key@ == k by {
                if k == key@ {
                    assert(entries@[before.len() as int].key@ == k);
                } else {
                    assert(mid.contains_key(k));
                    let o = choose|o: int| 0 <= o < before.len() && #[trigger] before[o].key@ == k;
                    assert(entries@[o] == before[o]);
                }
            }
            assert(secrets =~= old(self).secrets@.insert(key@, material@));
            assert(store_wf(entries@, secrets));
        }
        *self = FixtureSecretStore { entries, secrets: Ghost(secrets) };
    }

    /// Rotating a secret keeps the new one under the key, as a put does.
    pub fn rotate(&mut self, key: &str, material: Vec<u8>)
        ensures
            final(self).view_secrets() == old(self).view_secrets().insert(key@, material@),
    {
        self.put(key, material)
    }

    /// The secret kept under a key.
    pub fn get(&self, key: &str) -> (r: Result<Vec<u8>, SecretStoreError>)
        ensures
            match fixture_read(self.view_secrets(), key@) {
                Ok(b) => r matches Ok(v) && v@ == b,
                Err(e) => r == Err::<Vec<u8>, SecretStoreError>(e),
            },
    {
        proof {
            use_type_invariant(self);
        }
        match self.find(key) {
            Some(i) => {
                let v = self.entries[i].bytes.clone();
                assert(v@ =~= self.entries@[i as int].bytes@);
                Ok(v)
            },
            None => Err(SecretStoreError::Missing),
        }
    }

    /// Deletes the secret kept under a key, wiping it; a key with none is
    /// missing.
    pub fn delete(&mut self, key: &str) -> (r: Result<(), SecretStoreError>)
        ensures
            final(self).view_secrets() == old(self).view_secrets().remove(key@),
            r is Ok <==> old(self).view_secrets().contains_key(key@),
            r is Err ==> r == Err::<(), SecretStoreError>(SecretStoreError::Missing),
    {
        match self.take(key) {
            Some(previous) => {
                let mut previous = previous;
                wipe(&mut previous);
                Ok(())
            },
            None => Err(SecretStoreError::Missing),
        }
    }
}

/// A read gives back the last secret written under its key, and a write
/// under one key leaves every other key's read as it was.
pub proof fn law_read_returns_last_write(
    secrets: Map<Seq<char>, Seq<u8>>,
    key: Seq<char>,
    material: Seq<u8>,
    other: Seq<char>,
)
    requires
        other != key,
    ensures
        fixture_read(secrets.insert(key, material), key) == Ok::<Seq<u8>, SecretStoreError>(material),
        fixture_read(secrets.insert(key, material), other) == fixture_read(secrets, other),
{
}

/// After a delete the key reads as missing, and other keys read as before.
pub proof fn law_deleted_secret_is_missing(
    secrets: Map<Seq<char>, Seq<u8>>,
    key: Seq<char>,
    other: Seq<char>,
)
    requires
        other != key,
    ensures
        fixture_read(secrets.remove(key), key) == Err::<Seq<u8>, SecretStoreError>(
            SecretStoreError::Missing,
        ),
        fixture_read(secrets.remove(key), other) == fixture_read(secrets, other),
{
}

} // verus!
