//! Position store: the persistent snapshot of the encoder position and the
//! rate limit on its writes.
//!
//! The non-volatile keys are modelled by [`StoredKeys`]; the caller copies
//! them from and to the storage device. [`PositionStore`] is the volatile
//! part: whether the snapshot has been read since boot, and when the keys were
//! last written.

use vstd::prelude::*;
use crate::units::HOME_ENCODER_COUNT;

verus! {

/// Schema version that this build reads and writes.
pub const SCHEMA_VERSION: u32 = 1;

/// Shortest time, in milliseconds, between two writes.
pub const MIN_WRITE_INTERVAL_MS: u64 = 1000;

/// The persistent snapshot: a schema version and the encoder ticks in the
/// frame where zero is the limit switch.
#[derive(Clone, Copy, Debug, PartialEq, Eq, Structural)]
pub struct Snapshot {
    /// Version of the layout of the stored keys.
    pub schema_version: u32,
    /// Encoder ticks relative to the home reference.
    pub encoder_ticks_adjusted: i32,
}

/// The keys that the core owns in persistent storage; `None` is an absent key.
#[derive(Clone, Copy, Debug, PartialEq, Eq, Structural)]
pub struct StoredKeys {
    /// Key `enc_snapshot_v`.
    pub schema_version: Option<u32>,
    /// Key `enc_ticks_adj`.
    pub encoder_ticks_adjusted: Option<i32>,
    /// Key `heading`: the bit pattern of the last committed azimuth.
    pub heading: Option<u32>,
}

/// The snapshot that a set of stored keys holds: present when the schema
/// version is the one of this build and the ticks are there, absent otherwise.
pub open spec fn decoded(keys: StoredKeys) -> Option<Snapshot> {
    if keys.schema_version == Some(SCHEMA_VERSION) && keys.encoder_ticks_adjusted.is_some() {
        Some(
            Snapshot {
                schema_version: SCHEMA_VERSION,
                encoder_ticks_adjusted: keys.encoder_ticks_adjusted.unwrap(),
            },
        )
    } else {
        None
    }
}

/// The keys as written for the given ticks and heading.
pub open spec fn encoded(ticks: i32, heading_bits: u32) -> StoredKeys {
    StoredKeys {
        schema_version: Some(SCHEMA_VERSION),
        encoder_ticks_adjusted: Some(ticks),
        heading: Some(heading_bits),
    }
}

/// A raw encoder count in the home-relative frame, held within 32 bits.
pub open spec fn adjusted_of(count: int) -> int {
    let shifted = count - HOME_ENCODER_COUNT;
    if shifted < i32::MIN {
        i32::MIN as int
    } else if shifted > i32::MAX {
        i32::MAX as int
    } else {
        shifted
    }
}

/// Reads the snapshot out of the stored keys.
pub fn decode_snapshot(keys: &StoredKeys) -> (snapshot: Option<Snapshot>)
    ensures
        snapshot == decoded(*keys),
{
    match (keys.schema_version, keys.encoder_ticks_adjusted) {
        (Some(version), Some(ticks)) => {
            if version == SCHEMA_VERSION {
                Some(Snapshot { schema_version: version, encoder_ticks_adjusted: ticks })
            } else {
                None
            }
        },
        _ => None,
    }
}

/// Converts a raw encoder count to the home-relative frame, saturating at the
/// ends of the 32-bit range.
pub fn adjusted_ticks(count: i64) -> (ticks: i32)
    ensures
        ticks == adjusted_of(count as int),
{
    let shifted: i128 = count as i128 - HOME_ENCODER_COUNT as i128;
    if shifted < i32::MIN as i128 {
        i32::MIN
    } else if shifted > i32::MAX as i128 {
        i32::MAX
    } else {
        shifted as i32
    }
}

/// Converts home-relative ticks back to a raw encoder count.
pub fn raw_count(ticks: i32) -> (count: i64)
    ensures
        count == ticks + HOME_ENCODER_COUNT,
        adjusted_of(count as int) == ticks,
{
    ticks as i64 + HOME_ENCODER_COUNT
}

/// Mathematical state of the store.
pub struct StoreModel {
    /// Whether the snapshot has been read since boot.
    pub loaded: bool,
    /// Time of the last write, or of boot or load when nothing was written yet.
    pub last_write_ms: u64,
}

impl StoreModel {
    /// Whether a write at `now_ms` is allowed by the rate limit.
    pub open spec fn persist_due(self, now_ms: u64) -> bool {
        now_ms >= self.last_write_ms && now_ms - self.last_write_ms >= MIN_WRITE_INTERVAL_MS
    }

    /// The state after a call of `persist` at `now_ms`.
    pub open spec fn persisted(self, now_ms: u64) -> StoreModel {
        if self.persist_due(now_ms) {
            StoreModel { last_write_ms: now_ms, ..self }
        } else {
            self
        }
    }

    /// Number of writes made by calls of `persist` at the given times, in order.
    pub open spec fn writes(self, times: Seq<u64>) -> int
        decreases times.len(),
    {
        if times.len() == 0 {
            0
        } else {
            (if self.persist_due(times[0]) { 1int } else { 0int }) + self.persisted(
                times[0],
            ).writes(times.skip(1))
        }
    }
}

/// Volatile state of the position store.
#[derive(Clone, Copy, Debug)]
pub struct PositionStore {
    loaded: bool,
    last_write_ms: u64,
}

impl View for PositionStore {
    type V = StoreModel;

    closed spec fn view(&self) -> StoreModel {
        StoreModel { loaded: self.loaded, last_write_ms: self.last_write_ms }
    }
}

impl PositionStore {
    /// The store as it is after boot at time `now_ms`: nothing loaded yet.
    pub fn new(now_ms: u64) -> (store: Self)
        ensures
            store@ == (StoreModel { loaded: false, last_write_ms: now_ms }),
    {
        PositionStore { loaded: false, last_write_ms: now_ms }
    }

    /// Whether the snapshot has been read since boot.
    pub fn is_loaded(&self) -> (loaded: bool)
        ensures
            loaded == self@.loaded,
    {
        self.loaded
    }

    /// Time of the last write.
    pub fn last_write_ms(&self) -> (ts: u64)
        ensures
            ts == self@.last_write_ms,
    {
        self.last_write_ms
    }

    /// Reads the snapshot once per boot. The first call returns what the keys
    /// hold, or `None` when they hold no snapshot of this schema; it also
    /// restarts the rate limit at `now_ms`. Later calls return `None` and
    /// change nothing.
    pub fn load(&mut self, keys: &StoredKeys, now_ms: u64) -> (snapshot: Option<Snapshot>)
        ensures
            old(self)@.loaded ==> snapshot.is_none() && final(self)@ == old(self)@,
            !old(self)@.loaded ==> snapshot == decoded(*keys) && final(self)@ == (StoreModel {
                loaded: true,
                last_write_ms: now_ms,
            }),
    {
        if self.loaded {
            return None;
        }
        self.loaded = true;
        self.last_write_ms = now_ms;
        decode_snapshot(keys)
    }

    /// Whether a write at `now_ms` is allowed by the rate limit.
    pub fn persist_due(&self, now_ms: u64) -> (due: bool)
        ensures
            due == self@.persist_due(now_ms),
    {
        now_ms >= self.last_write_ms && now_ms - self.last_write_ms >= MIN_WRITE_INTERVAL_MS
    }

    /// Writes the snapshot into `keys` unless less than one second has passed
    /// since the last write; returns whether it wrote.
    pub fn persist(
        &mut self,
        keys: &mut StoredKeys,
        ticks: i32,
        heading_bits: u32,
        now_ms: u64,
    ) -> (written: bool)
        ensures
            written == old(self)@.persist_due(now_ms),
            final(self)@ == old(self)@.persisted(now_ms),
            written ==> *final(keys) == encoded(ticks, heading_bits),
            !written ==> *final(keys) == *old(keys),
    {
        if !self.persist_due(now_ms) {
            return false;
        }
        keys.schema_version = Some(SCHEMA_VERSION);
        keys.encoder_ticks_adjusted = Some(ticks);
        keys.heading = Some(heading_bits);
        self.last_write_ms = now_ms;
        true
    }
}

/// Persistence round trip: what `persist` writes, a fresh store reads back
/// after a reboot, with the same schema version and the same ticks.
pub proof fn lemma_persist_round_trip(ticks: i32, heading_bits: u32)
    ensures
        decoded(encoded(ticks, heading_bits)) == Some(
            Snapshot { schema_version: SCHEMA_VERSION, encoder_ticks_adjusted: ticks },
        ),
{
}

/// Keys with another schema version, or none, hold no snapshot.
pub proof fn lemma_schema_mismatch_is_uninitialised(keys: StoredKeys)
    requires
        keys.schema_version != Some(SCHEMA_VERSION),
    ensures
        decoded(keys).is_none(),
{
}

/// While every call comes less than one second after the last write, nothing
/// is written.
pub proof fn lemma_no_write_within_interval(store: StoreModel, times: Seq<u64>)
    requires
        forall|i: int| 0 <= i < times.len() ==> times[i] < store.last_write_ms
            + MIN_WRITE_INTERVAL_MS,
    ensures
        store.writes(times) == 0,
    decreases times.len(),
{
    if times.len() > 0 {
        assert(times[0] < store.last_write_ms + MIN_WRITE_INTERVAL_MS);
        assert forall|i: int| 0 <= i < times.skip(1).len() implies times.skip(1)[i]
            < store.persisted(times[0]).last_write_ms + MIN_WRITE_INTERVAL_MS by {
            assert(times.skip(1)[i] == times[i + 1]);
        }
        lemma_no_write_within_interval(store.persisted(times[0]), times.skip(1));
    }
}

/// Rate limit: calls of `persist` that all fall within less than one second of
/// each other make at most one write, however many they are.
pub proof fn lemma_rate_limit(store: StoreModel, times: Seq<u64>)
    requires
        forall|i: int, j: int|
            0 <= i < times.len() && 0 <= j < times.len() ==> times[j] < times[i]
                + MIN_WRITE_INTERVAL_MS,
    ensures
        0 <= store.writes(times) <= 1,
    decreases times.len(),
{
    if times.len() > 0 {
        let rest = times.skip(1);
        assert forall|i: int, j: int| 0 <= i < rest.len() && 0 <= j < rest.len() implies rest[j]
            < rest[i] + MIN_WRITE_INTERVAL_MS by {
            assert(rest[i] == times[i + 1]);
            assert(rest[j] == times[j + 1]);
        }
        if store.persist_due(times[0]) {
            assert forall|i: int| 0 <= i < rest.len() implies rest[i] < store.persisted(
                times[0],
            ).last_write_ms + MIN_WRITE_INTERVAL_MS by {
                assert(rest[i] == times[i + 1]);
            }
            lemma_no_write_within_interval(store.persisted(times[0]), rest);
        } else {
            lemma_rate_limit(store.persisted(times[0]), rest);
        }
    }
}

} // verus!
