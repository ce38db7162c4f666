//! Fail-closed checks of signed updates: policy, version, expiry, size,
//! artifact digest, attestation identity and signature.
//!
//! Writing, renaming and removing the staging and activation slots is the
//! caller's part; the checks that decide it are here.
use crate::digest::{decimal, hex_bytes, hex_char, lower_hex, sha256, sha256_of, to_decimal_u64};
use crate::text::{
    blank, contains_control, has_control, hex_of_len, is_blank, is_hex_of_len, same_text, text_len,
    utf8_len,
};
use base64::Engine;
use vstd::prelude::*;
use vstd::string::StringSliceAdditionalSpecFns;
use vstd::string::StrSliceExecFns;

verus! {

pub const ATTESTATION_SCHEMA_V1: u32 = 1;

pub const ATTESTATION_SCHEMA_V2: u32 = 2;

pub const UPDATE_SCHEMA: u32 = 1;

/// The longest identity text, in bytes.
pub const MAX_IDENTITY_TEXT: usize = 256;

/// The longest encoded signature, in bytes.
pub const MAX_SIGNATURE_TEXT: usize = 512;

#[verifier::external_type_specification]
#[verifier::external_body]
pub struct ExPathBuf(std::path::PathBuf);

#[derive(Debug, Clone)]
pub struct UpdatePolicy {
    pub channel: String,
    pub os: String,
    pub arch: String,
    pub current_version: u64,
    pub minimum_version: u64,
    pub max_bytes: u64,
    pub now: u64,
    pub repository: String,
    pub event: String,
    pub workflow: String,
    pub policy: String,
    pub trusted_key_id: String,
    /// DER-encoded SubjectPublicKeyInfo, base64 encoded like release signing.
    pub trusted_public_key_der_b64: String,
}

#[derive(Debug, Clone)]
pub struct UpdateMetadata {
    pub schema_version: u32,
    pub version: u64,
    pub channel: String,
    pub os: String,
    pub arch: String,
    pub size: u64,
    pub expires_at: u64,
    pub bytes: Vec<u8>,
    pub attestation: UpdateAttestation,
}

#[derive(Debug, Clone)]
pub struct UpdateAttestation {
    pub schema_version: u32,
    pub artifact: ArtifactIdentity,
    pub identity: BuildIdentity,
    pub signer: SignerIdentity,
    pub update: Option<UpdateBinding>,
    pub signature: SignatureEnvelope,
}

#[derive(Debug, Clone)]
pub struct ArtifactIdentity {
    pub name: String,
    pub digest: String,
    pub size: u64,
}

#[derive(Debug, Clone)]
pub struct BuildIdentity {
    pub repository: String,
    pub event: String,
    pub ref_name: String,
    pub commit: String,
    pub tree: String,
    pub workflow: String,
    pub policy: String,
    pub channel: String,
    pub os: String,
}

#[derive(Debug, Clone)]
pub struct SignerIdentity {
    pub key_id: String,
}

#[derive(Debug, Clone)]
pub struct UpdateBinding {
    pub version: u64,
    pub expires_at: u64,
    pub os: String,
    pub arch: String,
}

#[derive(Debug, Clone)]
pub struct SignatureEnvelope {
    pub algorithm: String,
    pub value: String,
}

#[derive(Debug, Clone, PartialEq, Eq)]
pub struct StageMarker {
    pub schema_version: u32,
    pub version: u64,
    pub channel: String,
    pub digest: String,
    pub size: u64,
}

#[derive(Debug, Clone, PartialEq, Eq)]
pub struct StageResult {
    pub version: u64,
    pub digest: String,
}

#[derive(Debug, Clone, Copy, PartialEq, Eq, Structural)]
pub enum RecoveryResult {
    Clean,
    RestoredPrevious,
}

#[derive(Debug, Clone, Copy, PartialEq, Eq, Structural)]
pub enum UpdateError {
    ConsentRequired,
    PolicyMismatch,
    Downgrade,
    Expired,
    SizeLimit,
    DigestMismatch,
    InvalidSignature,
    UntrustedSigner,
    MalformedAttestation,
    IncompleteStaging,
    ActivationUnavailable,
    Filesystem,
}

pub open spec fn update_error_message(e: UpdateError) -> Seq<char> {
    match e {
        UpdateError::ConsentRequired => "update consent is required"@,
        UpdateError::PolicyMismatch => "update metadata policy mismatch"@,
        UpdateError::Downgrade => "update version is not an upgrade"@,
        UpdateError::Expired => "update metadata is expired"@,
        UpdateError::SizeLimit => "update exceeds bounded size"@,
        UpdateError::DigestMismatch => "update artifact digest mismatch"@,
        UpdateError::InvalidSignature => "update signature is invalid"@,
        UpdateError::UntrustedSigner => "update signer is not trusted"@,
        UpdateError::MalformedAttestation => "update attestation is malformed"@,
        UpdateError::IncompleteStaging => "update staging is incomplete"@,
        UpdateError::ActivationUnavailable => "update activation is unavailable"@,
        UpdateError::Filesystem => "update filesystem operation failed"@,
    }
}

impl UpdateError {
    /// The human-readable description of the error.
    pub fn message(&self) -> (r: &'static str)
        ensures
            r@ == update_error_message(*self),
    {
        match self {
            UpdateError::ConsentRequired => "update consent is required",
            UpdateError::PolicyMismatch => "update metadata policy mismatch",
            UpdateError::Downgrade => "update version is not an upgrade",
            UpdateError::Expired => "update metadata is expired",
            UpdateError::SizeLimit => "update exceeds bounded size",
            UpdateError::DigestMismatch => "update artifact digest mismatch",
            UpdateError::InvalidSignature => "update signature is invalid",
            UpdateError::UntrustedSigner => "update signer is not trusted",
            UpdateError::MalformedAttestation => "update attestation is malformed",
            UpdateError::IncompleteStaging => "update staging is incomplete",
            UpdateError::ActivationUnavailable => "update activation is unavailable",
            UpdateError::Filesystem => "update filesystem operation failed",
        }
    }
}

#[derive(Debug, Clone, Copy, PartialEq, Eq, Structural)]
pub enum UpdateBridgeErrorCode {
    Unavailable,
    ConsentRequired,
    PolicyMismatch,
    Downgrade,
    Expired,
    SizeLimit,
    DigestMismatch,
    InvalidSignature,
    UntrustedSigner,
    MalformedAttestation,
    IncompleteStaging,
    ActivationUnavailable,
    Filesystem,
}

#[derive(Debug, Clone)]
pub struct UpdateBridgeError {
    pub code: UpdateBridgeErrorCode,
    pub message: &'static str,
}

/// The bridge code and message an update error is answered with.
pub open spec fn bridge_answer(e: UpdateError) -> (UpdateBridgeErrorCode, Seq<char>) {
    match e {
        UpdateError::ConsentRequired => (
            UpdateBridgeErrorCode::ConsentRequired,
            "explicit update consent is required"@,
        ),
        UpdateError::PolicyMismatch => (UpdateBridgeErrorCode::PolicyMismatch, "update policy mismatch"@),
        UpdateError::Downgrade => (UpdateBridgeErrorCode::Downgrade, "update version is not an upgrade"@),
        UpdateError::Expired => (UpdateBridgeErrorCode::Expired, "update metadata is expired"@),
        UpdateError::SizeLimit => (UpdateBridgeErrorCode::SizeLimit, "update exceeds bounded size"@),
        UpdateError::DigestMismatch => (
            UpdateBridgeErrorCode::DigestMismatch,
            "update artifact digest mismatch"@,
        ),
        UpdateError::InvalidSignature => (
            UpdateBridgeErrorCode::InvalidSignature,
            "update signature is invalid"@,
        ),
        UpdateError::UntrustedSigner => (
            UpdateBridgeErrorCode::UntrustedSigner,
            "update signer is not trusted"@,
        ),
        UpdateError::MalformedAttestation => (
            UpdateBridgeErrorCode::MalformedAttestation,
            "update attestation is malformed"@,
        ),
        UpdateError::IncompleteStaging => (
            UpdateBridgeErrorCode::IncompleteStaging,
            "update staging is incomplete"@,
        ),
        UpdateError::ActivationUnavailable => (
            UpdateBridgeErrorCode::ActivationUnavailable,
            "update activation is unavailable"@,
        ),
        UpdateError::Filesystem => (
            UpdateBridgeErrorCode::Filesystem,
            "updater filesystem operation failed"@,
        ),
    }
}

impl UpdateBridgeError {
    /// The answer when no updater is configured.
    pub fn unavailable() -> (r: Self)
        ensures
            r.code == UpdateBridgeErrorCode::Unavailable,
            r.message@ == "updater is unavailable"@,
    {
        UpdateBridgeError { code: UpdateBridgeErrorCode::Unavailable, message: "updater is unavailable" }
    }

    /// The message shown for the error.
    pub fn message(&self) -> (r: &'static str)
        ensures
            r == self.message,
    {
        self.message
    }
}

impl UpdateBridgeError {
    /// The bridge error an update error is answered with.
    pub fn of(error: UpdateError) -> (r: Self)
        ensures
            (r.code, r.message@) == bridge_answer(error),
    {
        let (code, message) = match error {
            UpdateError::ConsentRequired => (
                UpdateBridgeErrorCode::ConsentRequired,
                "explicit update consent is required",
            ),
            UpdateError::PolicyMismatch => (UpdateBridgeErrorCode::PolicyMismatch, "update policy mismatch"),
            UpdateError::Downgrade => (UpdateBridgeErrorCode::Downgrade, "update version is not an upgrade"),
            UpdateError::Expired => (UpdateBridgeErrorCode::Expired, "update metadata is expired"),
            UpdateError::SizeLimit => (UpdateBridgeErrorCode::SizeLimit, "update exceeds bounded size"),
            UpdateError::DigestMismatch => (
                UpdateBridgeErrorCode::DigestMismatch,
                "update artifact digest mismatch",
            ),
            UpdateError::InvalidSignature => (
                UpdateBridgeErrorCode::InvalidSignature,
                "update signature is invalid",
            ),
            UpdateError::UntrustedSigner => (
                UpdateBridgeErrorCode::UntrustedSigner,
                "update signer is not trusted",
            ),
            UpdateError::MalformedAttestation => (
                UpdateBridgeErrorCode::MalformedAttestation,
                "update attestation is malformed",
            ),
            UpdateError::IncompleteStaging => (
                UpdateBridgeErrorCode::IncompleteStaging,
                "update staging is incomplete",
            ),
            UpdateError::ActivationUnavailable => (
                UpdateBridgeErrorCode::ActivationUnavailable,
                "update activation is unavailable",
            ),
            UpdateError::Filesystem => (
                UpdateBridgeErrorCode::Filesystem,
                "updater filesystem operation failed",
            ),
        };
        UpdateBridgeError { code, message }
    }
}

#[derive(Debug, Clone)]
pub struct StageUpdateInput {
    pub schema_version: u32,
    pub version: u64,
    pub channel: String,
    pub os: String,
    pub arch: String,
    pub size: u64,
    pub expires_at: u64,
    pub bytes: Vec<u8>,
    pub attestation: UpdateAttestation,
    pub consent: bool,
}

impl StageUpdateInput {
    /// The update metadata the input carries.
    pub fn metadata(self) -> (r: UpdateMetadata)
        ensures
            r.schema_version == self.schema_version,
            r.version == self.version,
            r.channel == self.channel,
            r.os == self.os,
            r.arch == self.arch,
            r.size == self.size,
            r.expires_at == self.expires_at,
            r.bytes == self.bytes,
            r.attestation == self.attestation,
    {
        UpdateMetadata {
            schema_version: self.schema_version,
            version: self.version,
            channel: self.channel,
            os: self.os,
            arch: self.arch,
            size: self.size,
            expires_at: self.expires_at,
            bytes: self.bytes,
            attestation: self.attestation,
        }
    }
}

// ---------------------------------------------------------------------------
// Outside computations
// ---------------------------------------------------------------------------
/// What the standard base64 engine decodes a text's bytes to, if it
/// decodes them at all.
pub uninterp spec fn base64_decoded(text: Seq<u8>) -> Option<Seq<u8>>;

/// Whether an Ed25519 public key accepts a signature of a message.
pub uninterp spec fn ed25519_verifies(key: Seq<u8>, message: Seq<u8>, signature: Seq<u8>) -> bool;

/// How serde_json writes one character inside a JSON string: the quote,
/// the backslash and the control characters below U+0020 are escaped, with
/// JSON's short forms where it has them and `\u00` and two lower-case hex
/// digits otherwise; every other character stands for itself.
pub open spec fn json_char_escape(c: char) -> Seq<char> {
    let code = c as u32;
    if c == '"' {
        seq!['\\', '"']
    } else if c == '\\' {
        seq!['\\', '\\']
    } else if code == 0x08 {
        seq!['\\', 'b']
    } else if code == 0x09 {
        seq!['\\', 't']
    } else if code == 0x0A {
        seq!['\\', 'n']
    } else if code == 0x0C {
        seq!['\\', 'f']
    } else if code == 0x0D {
        seq!['\\', 'r']
    } else if code < 0x20 {
        seq!['\\', 'u', '0', '0', hex_char((code / 16) as u64), hex_char((code % 16) as u64)]
    } else {
        seq![c]
    }
}

/// The escaped contents of a JSON string.
pub open spec fn json_escaped(s: Seq<char>) -> Seq<char>
    decreases s.len(),
{
    if s.len() == 0 {
        seq![]
    } else {
        json_escaped(s.drop_last()) + json_char_escape(s.last())
    }
}

/// What `serde_json::to_string` gives for a string: its escaped contents
/// between double quotes. Writing a string into memory cannot fail, so
/// there is always a result.
#[verifier::opaque]
pub open spec fn json_quoted(s: Seq<char>) -> Option<Seq<char>> {
    Some(seq!['"'] + json_escaped(s) + seq!['"'])
}

/// Calls base64's standard engine `decode`; the decoded bytes, or `None`
/// where the engine refuses the text.
#[verifier::external_body]
fn base64_decode(text: &str) -> (r: Option<Vec<u8>>)
    ensures
        match r {
            Some(v) => base64_decoded(text.spec_bytes()) == Some(v@),
            None => base64_decoded(text.spec_bytes()) is None,
        },
{
    match base64::engine::general_purpose::STANDARD.decode(text) {
        Ok(v) => Some(v),
        Err(_) => None,
    }
}

/// Calls ring's Ed25519 `UnparsedPublicKey::verify`; whether the key
/// accepts the signature of the message.
#[verifier::external_body]
fn ed25519_verify(key: &[u8], message: &[u8], signature: &[u8]) -> (r: bool)
    ensures
        r == ed25519_verifies(key@, message@, signature@),
{
    ring::signature::UnparsedPublicKey::new(&ring::signature::ED25519, key).verify(
        message,
        signature,
    ).is_ok()
}

/// Calls `serde_json::to_string` on a string: its JSON string literal. The
/// error arm only converts serde_json's result type; for a string it is
/// never taken.
#[verifier::external_body]
fn json_string(s: &str) -> (r: Option<String>)
    ensures
        match r {
            Some(t) => json_quoted(s@) == Some(t@),
            None => json_quoted(s@) is None,
        },
{
    match serde_json::to_string(s) {
        Ok(t) => Some(t),
        Err(_) => None,
    }
}

// ---------------------------------------------------------------------------
// Checks
// ---------------------------------------------------------------------------
/// The digest label of an artifact: `sha256:` and its hash in hexadecimal.
pub open spec fn digest_label(bytes: Seq<u8>) -> Seq<char> {
    "sha256:"@ + hex_bytes(sha256_of(bytes))
}

/// The digest label of an artifact, as attestations carry it.
pub fn digest(bytes: &[u8]) -> (r: String)
    ensures
        r@ == digest_label(bytes@),
{
    let hash = sha256(bytes);
    let mut out = String::new();
    out.append("sha256:");
    let hex = lower_hex(hash.as_slice());
    out.append(hex.as_str());
    out
}

/// Non-blank, at most 256 bytes, no control character.
pub open spec fn identity_text_ok(s: Seq<char>) -> bool {
    !is_blank(s) && utf8_len(s) <= MAX_IDENTITY_TEXT && !has_control(s)
}

fn bounded_text(value: &str) -> (r: bool)
    ensures
        r == identity_text_ok(value@),
{
    !blank(value) && text_len(value) <= MAX_IDENTITY_TEXT && !contains_control(value)
}

/// A git object id: 40 or 64 hexadecimal digits.
pub open spec fn git_id_ok(s: Seq<char>) -> bool {
    hex_of_len(s, 40) || hex_of_len(s, 64)
}

fn valid_git_id(value: &str) -> (r: bool)
    ensures
        r == git_id_ok(value@),
{
    is_hex_of_len(value, 40) || is_hex_of_len(value, 64)
}

/// The fixed DER prefix of an Ed25519 SubjectPublicKeyInfo.
pub open spec fn spki_prefix() -> Seq<u8> {
    seq![0x30u8, 0x2a, 0x30, 0x05, 0x06, 0x03, 0x2b, 0x65, 0x70, 0x03, 0x21, 0x00]
}

/// The raw 32-byte key in a raw or DER-encoded Ed25519 public key.
pub open spec fn raw_public_key(encoded: Seq<u8>) -> Option<Seq<u8>> {
    if encoded.len() == 32 {
        Some(encoded)
    } else if encoded.len() == 44 && encoded.take(12) == spki_prefix() {
        Some(encoded.skip(12))
    } else {
        None
    }
}

fn ed25519_raw_public_key(encoded: &[u8]) -> (r: Option<Vec<u8>>)
    ensures
        match r {
            Some(v) => raw_public_key(encoded@) == Some(v@),
            None => raw_public_key(encoded@) is None,
        },
{
    if encoded.len() == 32 {
        let mut v: Vec<u8> = Vec::new();
        let mut i: usize = 0;
        while i < 32
            invariant
                encoded@.len() == 32,
                i <= 32,
                v@ == encoded@.take(i as int),
            decreases 32 - i,
        {
            v.push(encoded[i]);
            assert(v@ =~= encoded@.take(i + 1));
            i = i + 1;
        }
        assert(encoded@.take(32) =~= encoded@);
        return Some(v);
    }
    let prefix: [u8; 12] = [0x30, 0x2a, 0x30, 0x05, 0x06, 0x03, 0x2b, 0x65, 0x70, 0x03, 0x21, 0x00];
    assert(prefix@ =~= spki_prefix());
    if encoded.len() != 44 {
        return None;
    }
    let mut j: usize = 0;
    while j < 12
        invariant
            encoded@.len() == 44,
            prefix@ == spki_prefix(),
            j <= 12,
            forall|k: int| 0 <= k < j ==> encoded@[k] == spki_prefix()[k],
        decreases 12 - j,
    {
        if encoded[j] != prefix[j] {
            assert(encoded@.take(12)[j as int] != spki_prefix()[j as int]);
            return None;
        }
        j = j + 1;
    }
    assert(encoded@.take(12) =~= spki_prefix());
    let mut v: Vec<u8> = Vec::new();
    let mut i: usize = 12;
    while i < 44
        invariant
            encoded@.len() == 44,
            12 <= i <= 44,
            v@ == encoded@.subrange(12, i as int),
        decreases 44 - i,
    {
        v.push(encoded[i]);
        assert(v@ =~= encoded@.subrange(12, i + 1));
        i = i + 1;
    }
    assert(v@ =~= encoded@.skip(12));
    Some(v)
}

/// The first failed check of an update's metadata and attestation against
/// the policy, before its signature is examined.
pub open spec fn metadata_fault(p: UpdatePolicy, m: UpdateMetadata) -> Option<UpdateError> {
    let a = m.attestation;
    let id = a.identity;
    if m.schema_version != UPDATE_SCHEMA || m.channel@ != p.channel@ || m.os@ != p.os@ || m.arch@
        != p.arch@ {
        Some(UpdateError::PolicyMismatch)
    } else if m.version <= p.current_version || m.version < p.minimum_version {
        Some(UpdateError::Downgrade)
    } else if m.expires_at <= p.now {
        Some(UpdateError::Expired)
    } else if m.size != m.bytes@.len() || m.size > p.max_bytes {
        Some(UpdateError::SizeLimit)
    } else if a.artifact.digest@ != digest_label(m.bytes@) || a.artifact.size != m.size {
        Some(UpdateError::DigestMismatch)
    } else if !(a.schema_version == ATTESTATION_SCHEMA_V1 || a.schema_version == ATTESTATION_SCHEMA_V2)
        || !identity_text_ok(a.artifact.name@) || !identity_text_ok(id.repository@)
        || !identity_text_ok(id.event@) || !identity_text_ok(id.ref_name@) || !identity_text_ok(
        id.workflow@,
    ) || !identity_text_ok(id.policy@) || !identity_text_ok(id.channel@) || !identity_text_ok(
        id.os@,
    ) || !git_id_ok(id.commit@) || !git_id_ok(id.tree@) || utf8_len(id.commit@) != utf8_len(
        id.tree@,
    ) || id.repository@ != p.repository@ || id.event@ != p.event@ || id.workflow@ != p.workflow@
        || id.policy@ != p.policy@ || id.channel@ != m.channel@ || id.os@ != m.os@ + "-"@ + m.arch@
        || a.signer.key_id@ != p.trusted_key_id@ || a.signature.algorithm@ != "ed25519"@
        || a.signature.value@.len() == 0 || utf8_len(a.signature.value@) > MAX_SIGNATURE_TEXT {
        Some(UpdateError::PolicyMismatch)
    } else if a.schema_version >= ATTESTATION_SCHEMA_V2 && match a.update {
        None => true,
        Some(b) => b.version != m.version || b.expires_at != m.expires_at || b.os@ != m.os@ || b.arch@
            != m.arch@,
    } {
        Some(UpdateError::PolicyMismatch)
    } else {
        None
    }
}

/// The JSON members of an update binding.
pub open spec fn binding_json(b: UpdateBinding, os: Seq<char>, arch: Seq<char>) -> Seq<char> {
    "{\"version\":"@ + decimal(b.version as nat) + ",\"expiresAt\":"@ + decimal(b.expires_at as nat)
        + ",\"os\":"@ + os + ",\"arch\":"@ + arch + "}"@
}

/// The canonical JSON text an attestation's signature covers, if every
/// string in it can be written as JSON.
pub open spec fn canonical_text(a: UpdateAttestation) -> Option<Seq<char>> {
    let q = |s: String| json_quoted(s@);
    let binding = signed_binding(a);
    let all = canonical_strings(a);
    if exists|k: int| 0 <= k < all.len() && #[trigger] q(all[k]) is None {
        None
    } else {
        let j = |k: int| q(all[k])->Some_0;
        let head = canonical_head(a, j(0), j(1), j(2), j(3), j(4), j(5), j(6), j(7), j(8), j(9), j(10), j(11));
        match binding {
            Some(b) => Some(head + ",\"update\":"@ + binding_json(b, j(12), j(13)) + "}"@),
            None => Some(head + "}"@),
        }
    }
}

/// The binding an attestation's signature covers: only schema 2 signs one.
pub open spec fn signed_binding(a: UpdateAttestation) -> Option<UpdateBinding> {
    if a.schema_version >= ATTESTATION_SCHEMA_V2 {
        a.update
    } else {
        None
    }
}

/// The JSON text of an attestation up to its binding, from its quoted
/// strings.
pub open spec fn canonical_head(
    a: UpdateAttestation,
    name: Seq<char>,
    digest: Seq<char>,
    repository: Seq<char>,
    event: Seq<char>,
    ref_name: Seq<char>,
    commit: Seq<char>,
    tree: Seq<char>,
    workflow: Seq<char>,
    policy: Seq<char>,
    channel: Seq<char>,
    os: Seq<char>,
    key_id: Seq<char>,
) -> Seq<char> {
    "{\"schemaVersion\":"@ + decimal(a.schema_version as nat) + ",\"artifact\":{\"name\":"@ + name
        + ",\"digest\":"@ + digest + ",\"size\":"@ + decimal(a.artifact.size as nat)
        + "},\"identity\":{\"repository\":"@ + repository + ",\"event\":"@ + event + ",\"ref\":"@
        + ref_name + ",\"commit\":"@ + commit + ",\"tree\":"@ + tree + ",\"workflow\":"@ + workflow
        + ",\"policy\":"@ + policy + ",\"channel\":"@ + channel + ",\"os\":"@ + os
        + "},\"signer\":{\"keyId\":"@ + key_id + "}"@
}

/// Every string the canonical text quotes, in order.
pub open spec fn canonical_strings(a: UpdateAttestation) -> Seq<String> {
    let id = a.identity;
    let strings = seq![
        a.artifact.name,
        a.artifact.digest,
        id.repository,
        id.event,
        id.ref_name,
        id.commit,
        id.tree,
        id.workflow,
        id.policy,
        id.channel,
        id.os,
        a.signer.key_id,
    ];
    let extra = match signed_binding(a) {
        Some(b) => seq![b.os, b.arch],
        None => seq![],
    };
    strings + extra
}

/// The UTF-8 bytes of a text.
pub open spec fn utf8(s: Seq<char>) -> Seq<u8> {
    vstd::utf8::encode_utf8(s)
}

/// The outcome of checking an update against the policy: the first failed
/// check, or `None` when the update may be staged.
pub open spec fn validate_fault(p: UpdatePolicy, m: UpdateMetadata) -> Option<UpdateError> {
    let a = m.attestation;
    if metadata_fault(p, m) is Some {
        metadata_fault(p, m)
    } else if base64_decoded(utf8(p.trusted_public_key_der_b64@)) is None {
        Some(UpdateError::UntrustedSigner)
    } else if raw_public_key(base64_decoded(utf8(p.trusted_public_key_der_b64@))->Some_0)
        is None {
        Some(UpdateError::UntrustedSigner)
    } else if base64_decoded(utf8(a.signature.value@)) is None {
        Some(UpdateError::InvalidSignature)
    } else if canonical_text(a) is None {
        Some(UpdateError::MalformedAttestation)
    } else if !ed25519_verifies(
        raw_public_key(base64_decoded(utf8(p.trusted_public_key_der_b64@))->Some_0)->Some_0,
        vstd::utf8::encode_utf8(canonical_text(a)->Some_0),
        base64_decoded(utf8(a.signature.value@))->Some_0,
    ) {
        Some(UpdateError::InvalidSignature)
    } else {
        None
    }
}

fn quote_each(v: &Vec<String>) -> (r: Option<Vec<String>>)
    ensures
        match r {
            Some(out) => out@.len() == v@.len() && forall|k: int|
                0 <= k < v@.len() ==> json_quoted(#[trigger] v@[k]@) == Some(out@[k]@),
            None => exists|k: int| 0 <= k < v@.len() && #[trigger] json_quoted(v@[k]@) is None,
        },
{
    let mut out: Vec<String> = Vec::new();
    let mut i: usize = 0;
    while i < v.len()
        invariant
            i <= v@.len(),
            out@.len() == i,
            forall|k: int| 0 <= k < i ==> json_quoted(#[trigger] v@[k]@) == Some(out@[k]@),
        decreases v@.len() - i,
    {
        match json_string(v[i].as_str()) {
            Some(t) => out.push(t),
            None => {
                assert(json_quoted(v@[i as int]@) is None);
                return None;
            },
        }
        i = i + 1;
    }
    Some(out)
}

/// The canonical JSON bytes an attestation's signature covers.
#[verifier::spinoff_prover]
#[verifier::rlimit(50)]
pub fn canonical_payload(attestation: &UpdateAttestation) -> (r: Result<Vec<u8>, UpdateError>)
    ensures
        match canonical_text(*attestation) {
            Some(t) => r matches Ok(v) && v@ == utf8(t),
            None => r == Err::<Vec<u8>, UpdateError>(UpdateError::MalformedAttestation),
        },
{
    let a = attestation;
    let id = &a.identity;
    let binding: Option<&UpdateBinding> = if a.schema_version >= ATTESTATION_SCHEMA_V2 {
        match &a.update {
            Some(b) => Some(b),
            None => None,
        }
    } else {
        None
    };
    let mut all: Vec<String> = Vec::new();
    all.push(a.artifact.name.clone());
    all.push(a.artifact.digest.clone());
    all.push(id.repository.clone());
    all.push(id.event.clone());
    all.push(id.ref_name.clone());
    all.push(id.commit.clone());
    all.push(id.tree.clone());
    all.push(id.workflow.clone());
    all.push(id.policy.clone());
    all.push(id.channel.clone());
    all.push(id.os.clone());
    all.push(a.signer.key_id.clone());
    match binding {
        Some(b) => {
            all.push(b.os.clone());
            all.push(b.arch.clone());
        },
        None => {},
    }
    assert(all@ =~= canonical_strings(*a));
    let quoted = match quote_each(&all) {
        Some(q) => q,
        None => {
            return Err(UpdateError::MalformedAttestation);
        },
    };
    let ghost spec_all = canonical_strings(*a);
    assert(forall|k: int| 0 <= k < spec_all.len() ==> json_quoted(#[trigger] spec_all[k]@) == Some(quoted@[k]@));
    let mut text = String::new();
    text.append("{\"schemaVersion\":");
    let sv = to_decimal_u64(a.schema_version as u64);
    text.append(sv.as_str());
    text.append(",\"artifact\":{\"name\":");
    text.append(quoted[0].as_str());
    text.append(",\"digest\":");
    text.append(quoted[1].as_str());
    text.append(",\"size\":");
    let size = to_decimal_u64(a.artifact.size);
    text.append(size.as_str());
    text.append("},\"identity\":{\"repository\":");
    text.append(quoted[2].as_str());
    text.append(",\"event\":");
    text.append(quoted[3].as_str());
    text.append(",\"ref\":");
    text.append(quoted[4].as_str());
    text.append(",\"commit\":");
    text.append(quoted[5].as_str());
    text.append(",\"tree\":");
    text.append(quoted[6].as_str());
    text.append(",\"workflow\":");
    text.append(quoted[7].as_str());
    text.append(",\"policy\":");
    text.append(quoted[8].as_str());
    text.append(",\"channel\":");
    text.append(quoted[9].as_str());
    text.append(",\"os\":");
    text.append(quoted[10].as_str());
    text.append("},\"signer\":{\"keyId\":");
    text.append(quoted[11].as_str());
    text.append("}");
    let ghost j = |k: int| json_quoted(spec_all[k]@)->Some_0;
    assert(text@ =~= canonical_head(
        *a,
        j(0),
        j(1),
        j(2),
        j(3),
        j(4),
        j(5),
        j(6),
        j(7),
        j(8),
        j(9),
        j(10),
        j(11),
    ));
    match binding {
        Some(b) => {
            text.append(",\"update\":");
            text.append("{\"version\":");
            let v = to_decimal_u64(b.version);
            text.append(v.as_str());
            text.append(",\"expiresAt\":");
            let e = to_decimal_u64(b.expires_at);
            text.append(e.as_str());
            text.append(",\"os\":");
            text.append(quoted[12].as_str());
            text.append(",\"arch\":");
            text.append(quoted[13].as_str());
            text.append("}");
        },
        None => {},
    }
    text.append("}");
    assert(text@ =~= canonical_text(*a)->Some_0);
    Ok(text.as_str().as_bytes_vec())
}

pub struct UpdateManager {
    root: std::path::PathBuf,
    policy: UpdatePolicy,
}

impl UpdateManager {
    pub closed spec fn policy_of(&self) -> UpdatePolicy {
        self.policy
    }

    pub closed spec fn root_of(&self) -> std::path::PathBuf {
        self.root
    }

    pub fn new(root: std::path::PathBuf, policy: UpdatePolicy) -> (r: Self)
        ensures
            r.root_of() == root,
            r.policy_of() == policy,
    {
        UpdateManager { root, policy }
    }

    pub fn root(&self) -> (r: &std::path::PathBuf)
        ensures
            *r == self.root_of(),
    {
        &self.root
    }

    /// Checks an update against the policy: channel and platform, an
    /// upgrade, not expired, bounded and matching size and digest, a
    /// well-formed attestation from the trusted build and signer, and a
    /// valid Ed25519 signature over its canonical text.
    pub fn validate(&self, metadata: &UpdateMetadata) -> (r: Result<(), UpdateError>)
        ensures
            match validate_fault(self.policy_of(), *metadata) {
                Some(e) => r == Err::<(), UpdateError>(e),
                None => r is Ok,
            },
    {
        let p = &self.policy;
        let m = metadata;
        if m.schema_version != UPDATE_SCHEMA || m.channel != p.channel || m.os != p.os || m.arch
            != p.arch {
            return Err(UpdateError::PolicyMismatch);
        }
        if m.version <= p.current_version || m.version < p.minimum_version {
            return Err(UpdateError::Downgrade);
        }
        if m.expires_at <= p.now {
            return Err(UpdateError::Expired);
        }
        if m.size != m.bytes.len() as u64 || m.size > p.max_bytes {
            return Err(UpdateError::SizeLimit);
        }
        let d = digest(m.bytes.as_slice());
        let a = &m.attestation;
        if a.artifact.digest != d || a.artifact.size != m.size {
            return Err(UpdateError::DigestMismatch);
        }
        let id = &a.identity;
        let mut os_arch = String::new();
        os_arch.append(m.os.as_str());
        os_arch.append("-");
        os_arch.append(m.arch.as_str());
        if !(a.schema_version == ATTESTATION_SCHEMA_V1 || a.schema_version == ATTESTATION_SCHEMA_V2)
            || !bounded_text(a.artifact.name.as_str()) || !bounded_text(id.repository.as_str())
            || !bounded_text(id.event.as_str()) || !bounded_text(id.ref_name.as_str())
            || !bounded_text(id.workflow.as_str()) || !bounded_text(id.policy.as_str())
            || !bounded_text(id.channel.as_str()) || !bounded_text(id.os.as_str()) || !valid_git_id(
            id.commit.as_str(),
        ) || !valid_git_id(id.tree.as_str()) || text_len(id.commit.as_str()) != text_len(
            id.tree.as_str(),
        ) || id.repository != p.repository || id.event != p.event || id.workflow != p.workflow
            || id.policy != p.policy || id.channel != m.channel || id.os != os_arch
            || a.signer.key_id != p.trusted_key_id || !same_text(
            a.signature.algorithm.as_str(),
            "ed25519",
        ) || a.signature.value.as_str().unicode_len() == 0 || text_len(a.signature.value.as_str())
            > MAX_SIGNATURE_TEXT {
            return Err(UpdateError::PolicyMismatch);
        }
        if a.schema_version >= ATTESTATION_SCHEMA_V2 {
            let unbound = match &a.update {
                None => true,
                Some(b) => b.version != m.version || b.expires_at != m.expires_at || b.os != m.os
                    || b.arch != m.arch,
            };
            if unbound {
                return Err(UpdateError::PolicyMismatch);
            }
        }
        let der = match base64_decode(p.trusted_public_key_der_b64.as_str()) {
            Some(v) => v,
            None => {
                return Err(UpdateError::UntrustedSigner);
            },
        };
        let key = match ed25519_raw_public_key(der.as_slice()) {
            Some(k) => k,
            None => {
                return Err(UpdateError::UntrustedSigner);
            },
        };
        let signature_bytes = match base64_decode(a.signature.value.as_str()) {
            Some(v) => v,
            None => {
                return Err(UpdateError::InvalidSignature);
            },
        };
        let payload = match canonical_payload(a) {
            Ok(v) => v,
            Err(e) => {
                return Err(e);
            },
        };
        if !ed25519_verify(key.as_slice(), payload.as_slice(), signature_bytes.as_slice()) {
            return Err(UpdateError::InvalidSignature);
        }
        Ok(())
    }

    /// The marker to stage for an update the caller has consented to and
    /// that passes validation.
    pub fn stage_marker(&self, metadata: &UpdateMetadata, consent: bool) -> (r: Result<
        StageMarker,
        UpdateError,
    >)
        ensures
            !consent ==> r == Err::<StageMarker, UpdateError>(UpdateError::ConsentRequired),
            consent ==> match validate_fault(self.policy_of(), *metadata) {
                Some(e) => r == Err::<StageMarker, UpdateError>(e),
                None => r matches Ok(k) && k.schema_version == UPDATE_SCHEMA && k.version
                    == metadata.version && k.channel == metadata.channel && k.digest
                    == metadata.attestation.artifact.digest && k.size == metadata.size,
            },
    {
        if !consent {
            return Err(UpdateError::ConsentRequired);
        }
        self.validate(metadata)?;
        Ok(
            StageMarker {
                schema_version: UPDATE_SCHEMA,
                version: metadata.version,
                channel: metadata.channel.clone(),
                digest: metadata.attestation.artifact.digest.clone(),
                size: metadata.size,
            },
        )
    }

    /// The marker left at the root while slots are swapped, so that an
    /// interrupted activation can be recovered.
    pub fn pending_marker(&self) -> (r: StageMarker)
        ensures
            r.schema_version == UPDATE_SCHEMA,
            r.version == 0,
            r.channel == self.policy_of().channel,
            r.digest@ == "pending"@,
            r.size == 0,
    {
        StageMarker {
            schema_version: UPDATE_SCHEMA,
            version: 0,
            channel: self.policy.channel.clone(),
            digest: "pending".to_string(),
            size: 0,
        }
    }

    /// Re-checks a staged artifact against its marker before activation:
    /// the digest must match, then the size must match and stay bounded.
    pub fn check_staged(&self, marker: &StageMarker, artifact: &[u8]) -> (r: Result<(), UpdateError>)
        ensures
            match staged_fault(self.policy_of(), *marker, artifact@) {
                Some(e) => r == Err::<(), UpdateError>(e),
                None => r is Ok,
            },
    {
        let d = digest(artifact);
        if d != marker.digest {
            return Err(UpdateError::DigestMismatch);
        }
        let size = artifact.len() as u64;
        if size != marker.size || size > self.policy.max_bytes {
            return Err(UpdateError::SizeLimit);
        }
        Ok(())
    }
}

/// The updater the desktop's commands reach: absent when no trusted key is
/// configured, so that every command is then answered as unavailable.
pub struct UpdaterBridgeState {
    manager: Option<UpdateManager>,
}

impl UpdaterBridgeState {
    pub closed spec fn manager_of(&self) -> Option<UpdateManager> {
        self.manager
    }

    pub fn new(manager: Option<UpdateManager>) -> (r: Self)
        ensures
            r.manager_of() == manager,
    {
        UpdaterBridgeState { manager }
    }

    /// The configured updater a command runs on, or the unavailable answer
    /// when there is none.
    pub fn manager(&self) -> (r: Result<&UpdateManager, UpdateBridgeError>)
        ensures
            match self.manager_of() {
                None => r matches Err(e) && e.code == UpdateBridgeErrorCode::Unavailable
                    && e.message@ == "updater is unavailable"@,
                Some(m) => r matches Ok(k) && *k == m,
            },
    {
        match &self.manager {
            Some(m) => Ok(m),
            None => Err(UpdateBridgeError::unavailable()),
        }
    }

    /// A command's outcome as the bridge answers it: a result passes
    /// through, an update error becomes its bridge code and message.
    pub fn answer<T>(outcome: Result<T, UpdateError>) -> (r: Result<T, UpdateBridgeError>)
        ensures
            match outcome {
                Ok(v) => r matches Ok(w) && w == v,
                Err(e) => r matches Err(b) && (b.code, b.message@) == bridge_answer(e),
            },
    {
        match outcome {
            Ok(v) => Ok(v),
            Err(e) => Err(UpdateBridgeError::of(e)),
        }
    }
}

/// The bridge state for a configured updater, or for none.
pub fn bridge_state(manager: Option<UpdateManager>) -> (r: UpdaterBridgeState)
    ensures
        r.manager_of() == manager,
{
    UpdaterBridgeState::new(manager)
}

/// What recovery does with the slots it finds under the root.
#[derive(Debug, Clone, Copy, PartialEq, Eq, Structural)]
pub enum RecoveryPlan {
    /// No activation was interrupted: nothing to do.
    Clean,
    /// An activation was interrupted: clear its marker, first moving the
    /// previous slot back into place when it is there and the current one
    /// is missing.
    Restore { move_previous_back: bool },
}

/// The recovery plan for the slots found: whether an activation marker is
/// pending, and whether the current and previous slots exist.
pub fn recovery_plan(pending: bool, current: bool, previous: bool) -> (r: RecoveryPlan)
    ensures
        r == (if !pending {
            RecoveryPlan::Clean
        } else {
            RecoveryPlan::Restore { move_previous_back: !current && previous }
        }),
{
    if !pending {
        RecoveryPlan::Clean
    } else {
        RecoveryPlan::Restore { move_previous_back: !current && previous }
    }
}

/// The answer recovery gives for its plan.
pub fn recovery_result(plan: RecoveryPlan) -> (r: RecoveryResult)
    ensures
        r == (match plan {
            RecoveryPlan::Clean => RecoveryResult::Clean,
            RecoveryPlan::Restore { .. } => RecoveryResult::RestoredPrevious,
        }),
{
    match plan {
        RecoveryPlan::Clean => RecoveryResult::Clean,
        RecoveryPlan::Restore { .. } => RecoveryResult::RestoredPrevious,
    }
}

/// How activation moves the slots once the staged artifact is checked:
/// an old previous slot is cleared, the current slot becomes the previous
/// one, and the staging slot becomes current.
#[derive(Debug, Clone, Copy, PartialEq, Eq, Structural)]
pub struct ActivationPlan {
    pub clear_previous: bool,
    pub demote_current: bool,
}

/// The activation plan: refused as incomplete staging unless both the
/// staged artifact and its marker are there; otherwise the previous slot
/// is cleared when it exists and the current one demoted when it exists.
pub fn activation_plan(artifact: bool, marker: bool, current: bool, previous: bool) -> (r: Result<
    ActivationPlan,
    UpdateError,
>)
    ensures
        !(artifact && marker) ==> r == Err::<ActivationPlan, UpdateError>(
            UpdateError::IncompleteStaging,
        ),
        artifact && marker ==> r == Ok::<ActivationPlan, UpdateError>(
            ActivationPlan { clear_previous: previous, demote_current: current },
        ),
{
    if !artifact || !marker {
        return Err(UpdateError::IncompleteStaging);
    }
    Ok(ActivationPlan { clear_previous: previous, demote_current: current })
}

/// A rollback swaps the current and previous slots, and needs both.
pub fn rollback_check(current: bool, previous: bool) -> (r: Result<(), UpdateError>)
    ensures
        r is Ok <==> current && previous,
        r matches Err(e) ==> e == UpdateError::ActivationUnavailable,
{
    if !current || !previous {
        return Err(UpdateError::ActivationUnavailable);
    }
    Ok(())
}

/// Why a staged artifact may not be activated, if it may not.
pub open spec fn staged_fault(p: UpdatePolicy, marker: StageMarker, artifact: Seq<u8>) -> Option<
    UpdateError,
> {
    if digest_label(artifact) != marker.digest@ {
        Some(UpdateError::DigestMismatch)
    } else if artifact.len() != marker.size || artifact.len() > p.max_bytes {
        Some(UpdateError::SizeLimit)
    } else {
        None
    }
}

/// An update passes validation only as a signed, unexpired upgrade for the
/// policy's channel and platform whose bytes match the attested digest and
/// size within the bound.
pub proof fn law_valid_updates_are_signed_upgrades(p: UpdatePolicy, m: UpdateMetadata)
    requires
        validate_fault(p, m) is None,
    ensures
        m.version > p.current_version && m.version >= p.minimum_version,
        m.expires_at > p.now,
        m.channel@ == p.channel@ && m.os@ == p.os@ && m.arch@ == p.arch@,
        m.size == m.bytes@.len() && m.size <= p.max_bytes,
        m.attestation.artifact.digest@ == digest_label(m.bytes@),
        m.attestation.signer.key_id@ == p.trusted_key_id@,
        canonical_text(m.attestation) is Some,
        ed25519_verifies(
            raw_public_key(base64_decoded(utf8(p.trusted_public_key_der_b64@))->Some_0)->Some_0,
            utf8(canonical_text(m.attestation)->Some_0),
            base64_decoded(utf8(m.attestation.signature.value@))->Some_0,
        ),
{
}

/// What is staged for a valid update is accepted again at activation when
/// the staged bytes are the update's own: staging and activation agree.
pub proof fn law_staged_update_activates(p: UpdatePolicy, m: UpdateMetadata, marker: StageMarker)
    requires
        validate_fault(p, m) is None,
        marker.digest == m.attestation.artifact.digest,
        marker.size == m.size,
    ensures
        staged_fault(p, marker, m.bytes@) is None,
{
}

/// Any change to the staged bytes that changes their digest is refused at
/// activation.
pub proof fn law_tampered_artifact_is_refused(p: UpdatePolicy, marker: StageMarker, artifact: Seq<u8>)
    requires
        digest_label(artifact) != marker.digest@,
    ensures
        staged_fault(p, marker, artifact) == Some(UpdateError::DigestMismatch),
{
}

} // verus!
