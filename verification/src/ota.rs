//! Firmware update: what the updater decides from the metadata that the
//! firmware server publishes.
//!
//! The caller fetches the metadata and the image; this module checks the
//! metadata field by field, compares versions, and checks the digest of the
//! image against the published one.

use vstd::prelude::*;

verus! {

/// A semantic version, as parsed by the `semver` crate.
#[verifier::external_type_specification]
#[verifier::external_body]
pub struct ExVersion(semver::Version);

/// Whether a text parses as a semantic version.
pub uninterp spec fn is_semver(text: Seq<char>) -> bool;

/// A text without its leading and trailing white space.
pub uninterp spec fn trim_of(text: Seq<char>) -> Seq<char>;

/// Whether a character is a hexadecimal digit, in either case.
pub open spec fn is_hex_digit(c: char) -> bool {
    ('0' <= c && c <= '9') || ('a' <= c && c <= 'f') || ('A' <= c && c <= 'F')
}

/// The value of a hexadecimal digit.
pub open spec fn hex_value(c: char) -> int {
    if '0' <= c && c <= '9' {
        c as int - '0' as int
    } else if 'a' <= c && c <= 'f' {
        c as int - 'a' as int + 10
    } else {
        c as int - 'A' as int + 10
    }
}

/// Whether a text is an even number of hexadecimal digits.
pub open spec fn is_hex_text(text: Seq<char>) -> bool {
    text.len() % 2 == 0 && forall|i: int| 0 <= i < text.len() ==> is_hex_digit(#[trigger] text[i])
}

/// The bytes that a hexadecimal text stands for, two digits to the byte.
pub open spec fn hex_bytes(text: Seq<char>) -> Seq<u8> {
    Seq::new(
        text.len() / 2,
        |i: int| (16 * hex_value(text[2 * i]) + hex_value(text[2 * i + 1])) as u8,
    )
}

/// Number of bytes of a text in UTF-8, as a machine word.
pub open spec fn byte_len(text: Seq<char>) -> usize {
    vstd::utf8::encode_utf8(text).len() as usize
}

/// Calls `semver::Version::parse`. The contract claims only that the call
/// succeeds on exactly the texts that `is_semver` names; nothing is said of
/// the version that comes back.
#[verifier::external_body]
fn parse_version(text: &str) -> (version: Option<semver::Version>)
    ensures
        version.is_some() == is_semver(text@),
{
    match semver::Version::parse(text) {
        Ok(version) => Some(version),
        Err(_) => None,
    }
}

/// Compares two versions with the ordering of `semver::Version`: whether
/// `remote` has higher precedence than `current`. Nothing is claimed of the
/// result.
#[verifier::external_body]
fn version_newer(remote: &semver::Version, current: &semver::Version) -> (newer: bool) {
    remote > current
}

/// Calls `str::trim` and copies the result. The contract names the result.
#[verifier::external_body]
fn trimmed(text: &str) -> (out: String)
    ensures
        out@ == trim_of(text@),
{
    text.trim().to_string()
}

/// Calls `hex::decode`. The call succeeds exactly on an even number of
/// hexadecimal digits in either case, and then gives one byte for every two
/// digits, the first digit being the high half.
#[verifier::external_body]
fn decode_hex(text: &str) -> (bytes: Option<Vec<u8>>)
    ensures
        bytes.is_some() == is_hex_text(text@),
        bytes.is_some() ==> bytes.unwrap()@ == hex_bytes(text@),
{
    match hex::decode(text) {
        Ok(bytes) => Some(bytes),
        Err(_) => None,
    }
}

/// Length of a published SHA-256 digest, in hexadecimal digits.
pub const SHA256_HEX_LEN: usize = 64;

/// Number of attempts to fetch the metadata.
pub const MAX_FETCH_ATTEMPTS: u32 = 3;

/// Pause between two attempts, in milliseconds.
pub const RETRY_DELAY_MS: u64 = 2000;

/// Time between two runs of the updater, in milliseconds.
pub const CHECK_INTERVAL_MS: u64 = 7_200_000;

/// The fields of the published metadata; `None` is a field that is missing or
/// of the wrong type.
pub struct RemoteMetadata {
    /// Field `version`.
    pub version: Option<String>,
    /// Field `size`.
    pub size: Option<u64>,
    /// Field `download_url`.
    pub download_url: Option<String>,
    /// Field `sha256`.
    pub sha256: Option<String>,
}

/// Why the metadata is not accepted.
#[derive(Clone, Copy, Debug, PartialEq, Eq, Structural)]
pub enum OtaError {
    /// No `version` field.
    MissingVersion,
    /// The version is not a semantic version.
    InvalidVersion,
    /// No `size` field.
    MissingSize,
    /// The size is zero.
    ZeroSize,
    /// No `download_url` field.
    MissingUrl,
    /// The download URL is empty.
    EmptyUrl,
    /// No `sha256` field.
    MissingSha256,
    /// The digest is not 64 characters long.
    Sha256Length,
    /// The digest is not hexadecimal.
    Sha256NotHex,
}

/// An image to download.
pub struct UpdateRequest {
    /// Where to get the image.
    pub download_url: String,
    /// The SHA-256 digest of the image, in hexadecimal.
    pub sha256: String,
    /// Size of the image in bytes.
    pub size: u64,
}

/// What the updater does after it has read the metadata.
pub enum UpdateDecision {
    /// The running firmware is not older than the published one.
    UpToDate,
    /// The published firmware is newer: download and install it.
    Update(UpdateRequest),
}

/// The first fault of the metadata, in the order version, size, URL, digest;
/// `None` when the metadata is accepted.
pub open spec fn metadata_error(meta: RemoteMetadata) -> Option<OtaError> {
    if meta.version.is_none() {
        Some(OtaError::MissingVersion)
    } else if !is_semver(trim_of(meta.version.unwrap()@)) {
        Some(OtaError::InvalidVersion)
    } else if meta.size.is_none() {
        Some(OtaError::MissingSize)
    } else if meta.size.unwrap() == 0 {
        Some(OtaError::ZeroSize)
    } else if meta.download_url.is_none() {
        Some(OtaError::MissingUrl)
    } else if trim_of(meta.download_url.unwrap()@).len() == 0 {
        Some(OtaError::EmptyUrl)
    } else if meta.sha256.is_none() {
        Some(OtaError::MissingSha256)
    } else if byte_len(trim_of(meta.sha256.unwrap()@)) != SHA256_HEX_LEN {
        Some(OtaError::Sha256Length)
    } else if !is_hex_text(trim_of(meta.sha256.unwrap()@)) {
        Some(OtaError::Sha256NotHex)
    } else {
        None
    }
}

/// Whether `request` is the image that accepted metadata describe.
pub open spec fn request_of(meta: RemoteMetadata, request: UpdateRequest) -> bool {
    &&& request.download_url@ == trim_of(meta.download_url.unwrap()@)
    &&& request.sha256@ == trim_of(meta.sha256.unwrap()@)
    &&& request.size == meta.size.unwrap()
}

/// The decision once the versions have been compared: an update when the
/// published version is newer, nothing otherwise.
pub fn decide_update(newer: bool, request: UpdateRequest) -> (decision: UpdateDecision)
    ensures
        newer ==> decision == UpdateDecision::Update(request),
        !newer ==> decision matches UpdateDecision::UpToDate,
{
    if newer {
        UpdateDecision::Update(request)
    } else {
        UpdateDecision::UpToDate
    }
}

/// Whether an HTTP status is a success.
pub fn is_success_status(status: u16) -> (ok: bool)
    ensures
        ok == (200 <= status < 300),
{
    200 <= status && status < 300
}

/// How an attempt to fetch the metadata ended.
#[derive(Clone, Copy, Debug, PartialEq, Eq, Structural)]
pub enum FetchOutcome {
    /// The request could not be built or sent.
    RequestFailed,
    /// The server answered with this status, which is not a success.
    BadStatus(u16),
    /// The body could not be read.
    ReadFailed,
    /// The body was read; `well_formed` says whether it is UTF-8 and JSON.
    Body {
        /// Whether the body decoded.
        well_formed: bool,
    },
}

/// What follows an attempt to fetch the metadata.
#[derive(Clone, Copy, Debug, PartialEq, Eq, Structural)]
pub enum FetchAction {
    /// Take the body as the metadata.
    Accept,
    /// Pause, then try again.
    Retry {
        /// Pause in milliseconds.
        delay_ms: u64,
    },
    /// Give up.
    Fail,
}

/// Whether an outcome may be cured by another attempt.
pub open spec fn is_transient(outcome: FetchOutcome) -> bool {
    match outcome {
        FetchOutcome::Body { .. } => false,
        _ => true,
    }
}

/// What follows attempt number `attempt` (counted from one) with the given
/// outcome: a body that decodes is accepted, one that does not is final, and
/// anything else is tried again until three attempts have been made.
pub fn fetch_step(attempt: u32, outcome: FetchOutcome) -> (action: FetchAction)
    ensures
        outcome == (FetchOutcome::Body { well_formed: true }) ==> action == FetchAction::Accept,
        outcome == (FetchOutcome::Body { well_formed: false }) ==> action == FetchAction::Fail,
        is_transient(outcome) && attempt < MAX_FETCH_ATTEMPTS ==> action == (FetchAction::Retry {
            delay_ms: RETRY_DELAY_MS,
        }),
        is_transient(outcome) && attempt >= MAX_FETCH_ATTEMPTS ==> action == FetchAction::Fail,
{
    match outcome {
        FetchOutcome::Body { well_formed } => {
            if well_formed {
                FetchAction::Accept
            } else {
                FetchAction::Fail
            }
        },
        _ => {
            if attempt < MAX_FETCH_ATTEMPTS {
                FetchAction::Retry { delay_ms: RETRY_DELAY_MS }
            } else {
                FetchAction::Fail
            }
        },
    }
}

/// Whether the digest computed over the downloaded image is the published
/// one: the published text must be hexadecimal and stand for the same bytes.
pub fn checksum_matches(calculated: &[u8], expected_hex: &str) -> (ok: bool)
    ensures
        ok == (is_hex_text(expected_hex@) && hex_bytes(expected_hex@) == calculated@),
{
    match decode_hex(expected_hex) {
        None => false,
        Some(expected) => {
            if expected.len() != calculated.len() {
                return false;
            }
            let mut i: usize = 0;
            while i < expected.len()
                invariant
                    i <= expected.len(),
                    expected.len() == calculated.len(),
                    is_hex_text(expected_hex@),
                    expected@ == hex_bytes(expected_hex@),
                    forall|j: int| 0 <= j < i ==> expected@[j] == calculated@[j],
                decreases expected.len() - i,
            {
                if expected[i] != calculated[i] {
                    assert(expected@[i as int] != calculated@[i as int]);
                    return false;
                }
                i = i + 1;
            }
            assert(expected@ =~= calculated@);
            true
        },
    }
}

/// The firmware updater: it knows the version that is running.
pub struct OtaUpdater {
    current_version: semver::Version,
}

impl OtaUpdater {
    /// The version that is running.
    pub closed spec fn current(&self) -> semver::Version {
        self.current_version
    }

    /// An updater for firmware that runs `current_version`.
    pub fn new_ota(current_version: semver::Version) -> (updater: Self)
        ensures
            updater.current() == current_version,
    {
        OtaUpdater { current_version }
    }

    /// An updater for firmware whose version is given as text; `None` when the
    /// text is not a semantic version.
    pub fn from_version_text(text: &str) -> (updater: Option<Self>)
        ensures
            updater.is_some() == is_semver(text@),
    {
        match parse_version(text) {
            Some(version) => Some(OtaUpdater { current_version: version }),
            None => None,
        }
    }

    /// Checks the published metadata and compares the published version with
    /// the running one. Faulty metadata are rejected with their first fault.
    /// Accepted metadata give either no update or the request for the image
    /// that they describe, according to the comparison of the two versions;
    /// `decide_update` says which.
    pub fn run_version_compare(&self, meta: &RemoteMetadata) -> (result: Result<
        UpdateDecision,
        OtaError,
    >)
        ensures
            metadata_error(*meta) matches Some(e) ==> result matches Err(r) && r == e,
            metadata_error(*meta).is_none() ==> result.is_ok(),
            result matches Ok(UpdateDecision::Update(request)) ==> request_of(*meta, request),
    {
        let version_text: String = match &meta.version {
            Some(text) => trimmed(text.as_str()),
            None => {
                return Err(OtaError::MissingVersion);
            },
        };
        let remote_version: semver::Version = match parse_version(version_text.as_str()) {
            Some(version) => version,
            None => {
                return Err(OtaError::InvalidVersion);
            },
        };
        let size: u64 = match meta.size {
            Some(size) => size,
            None => {
                return Err(OtaError::MissingSize);
            },
        };
        if size == 0 {
            return Err(OtaError::ZeroSize);
        }
        let url: String = match &meta.download_url {
            Some(text) => trimmed(text.as_str()),
            None => {
                return Err(OtaError::MissingUrl);
            },
        };
        if url.as_str().is_empty() {
            return Err(OtaError::EmptyUrl);
        }
        let sha256: String = match &meta.sha256 {
            Some(text) => trimmed(text.as_str()),
            None => {
                return Err(OtaError::MissingSha256);
            },
        };
        if sha256.as_str().len() != SHA256_HEX_LEN {
            return Err(OtaError::Sha256Length);
        }
        if decode_hex(sha256.as_str()).is_none() {
            return Err(OtaError::Sha256NotHex);
        }
        let newer: bool = version_newer(&remote_version, &self.current_version);
        Ok(decide_update(newer, UpdateRequest { download_url: url, sha256, size }))
    }
}

} // verus!
