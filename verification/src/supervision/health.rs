//! The record through which the overload tells the loader how it fares.

use vstd::bytes::{
    lemma_auto_spec_u32_to_from_le_bytes,
    lemma_auto_spec_u64_to_from_le_bytes,
    spec_u32_from_le_bytes,
    spec_u32_to_le_bytes,
    spec_u64_from_le_bytes,
    spec_u64_to_le_bytes,
    u32_from_le_bytes,
    u32_to_le_bytes,
    u64_from_le_bytes,
    u64_to_le_bytes,
};
use vstd::prelude::*;
use vstd::slice::slice_subrange;
use vstd::string::StringExecFns;
use crate::text::{decimal, render_decimal};

verus! {

/// The state of the overload as it shares it with the loader.
///
/// Each field has one writer. The overload writes `last_success_timestamp`,
/// `consecutive_failures`, `is_alive` and `should_kill_base`; the loader's monitor writes
/// `parent_requests_kill`. Nothing is locked: a reader may see a value that is one
/// polling interval old.
#[derive(Debug, Clone, Copy, PartialEq, Eq, Structural)]
pub struct HealthRecord {
    /// When the overload last succeeded, in seconds since the Unix epoch.
    pub last_success_timestamp: i64,
    /// How many checks of the overload failed in a row.
    pub consecutive_failures: i32,
    /// The overload's heartbeat. Cleared when it crashed or hangs.
    pub is_alive: bool,
    /// Set by the overload to have the base ended.
    pub should_kill_base: bool,
    /// Set by the loader to have the overload end the base itself.
    pub parent_requests_kill: bool,
}

/// The environment variable in which the loader hands the overload the name of the
/// shared region.
pub const HEALTH_REGION_VARIABLE: &'static str = "KILLCODE_HEALTH_SHM";

/// What every region's name begins with.
pub const HEALTH_REGION_PREFIX: &'static str = "Local\\OverloadHealth_";

/// The name of the region that the loader with the given process id shares.
pub open spec fn region_name_text(process_id: u32) -> Seq<char> {
    HEALTH_REGION_PREFIX@ + decimal(process_id as nat)
}

/// The name of the region that the loader with the given process id shares: one loader,
/// one region.
pub fn health_region_name(process_id: u32) -> (name: String)
    ensures
        name@ == region_name_text(process_id),
{
    let mut name = String::from_str(HEALTH_REGION_PREFIX);
    let number = render_decimal(process_id);
    name.append(number.as_str());
    name
}

/// The size of a record in shared memory, in bytes.
pub const HEALTH_RECORD_SIZE: usize = 24;

/// A flag as the 32-bit number that stands for it in shared memory.
pub open spec fn flag_word(set: bool) -> u32 {
    if set {
        1
    } else {
        0
    }
}

fn flag(set: bool) -> (word: u32)
    ensures
        word == flag_word(set),
{
    if set {
        1
    } else {
        0
    }
}

impl HealthRecord {
    /// The record as it lies in shared memory: the timestamp as eight bytes, then the
    /// failure count and the three flags as four bytes each, all little-endian and
    /// without gaps. A flag is written as 1 or 0.
    pub open spec fn wire_image(self) -> Seq<u8> {
        spec_u64_to_le_bytes(self.last_success_timestamp as u64) + spec_u32_to_le_bytes(
            self.consecutive_failures as u32,
        ) + spec_u32_to_le_bytes(flag_word(self.is_alive)) + spec_u32_to_le_bytes(
            flag_word(self.should_kill_base),
        ) + spec_u32_to_le_bytes(flag_word(self.parent_requests_kill))
    }

    /// The record that a region of shared memory holds. A flag is set by any number
    /// but zero.
    pub open spec fn read_image(bytes: Seq<u8>) -> HealthRecord
        recommends
            bytes.len() == HEALTH_RECORD_SIZE,
    {
        HealthRecord {
            last_success_timestamp: spec_u64_from_le_bytes(bytes.subrange(0, 8)) as i64,
            consecutive_failures: spec_u32_from_le_bytes(bytes.subrange(8, 12)) as i32,
            is_alive: spec_u32_from_le_bytes(bytes.subrange(12, 16)) != 0,
            should_kill_base: spec_u32_from_le_bytes(bytes.subrange(16, 20)) != 0,
            parent_requests_kill: spec_u32_from_le_bytes(bytes.subrange(20, 24)) != 0,
        }
    }

    /// Writes the record as it lies in shared memory.
    pub fn to_bytes(&self) -> (bytes: Vec<u8>)
        ensures
            bytes@ == self.wire_image(),
            bytes@.len() == HEALTH_RECORD_SIZE,
    {
        let mut bytes = u64_to_le_bytes(
            #[verifier::truncate]
            (self.last_success_timestamp as u64),
        );
        let mut failures = u32_to_le_bytes(
            #[verifier::truncate]
            (self.consecutive_failures as u32),
        );
        let mut alive = u32_to_le_bytes(flag(self.is_alive));
        let mut kill_base = u32_to_le_bytes(flag(self.should_kill_base));
        let mut kill_request = u32_to_le_bytes(flag(self.parent_requests_kill));
        bytes.append(&mut failures);
        bytes.append(&mut alive);
        bytes.append(&mut kill_base);
        bytes.append(&mut kill_request);
        bytes
    }

    /// Reads a record from a region of shared memory; `None` unless the region has
    /// exactly the size of a record.
    pub fn from_bytes(bytes: &[u8]) -> (record: Option<HealthRecord>)
        ensures
            record == if bytes@.len() == HEALTH_RECORD_SIZE {
                Some(HealthRecord::read_image(bytes@))
            } else {
                None
            },
    {
        if bytes.len() != HEALTH_RECORD_SIZE {
            return None;
        }
        let stamp: u64 = u64_from_le_bytes(slice_subrange(bytes, 0, 8));
        let failures: u32 = u32_from_le_bytes(slice_subrange(bytes, 8, 12));
        let alive: u32 = u32_from_le_bytes(slice_subrange(bytes, 12, 16));
        let kill_base: u32 = u32_from_le_bytes(slice_subrange(bytes, 16, 20));
        let kill_request: u32 = u32_from_le_bytes(slice_subrange(bytes, 20, 24));
        Some(
            HealthRecord {
                last_success_timestamp: #[verifier::truncate]
                (stamp as i64),
                consecutive_failures: #[verifier::truncate]
                (failures as i32),
                is_alive: alive != 0,
                should_kill_base: kill_base != 0,
                parent_requests_kill: kill_request != 0,
            },
        )
    }

    /// The record as the loader sets it up before it starts the overload: alive, without
    /// failures or requests, and successful as of `now`.
    pub fn fresh(now: i64) -> (record: HealthRecord)
        ensures
            record == (HealthRecord {
                last_success_timestamp: now,
                consecutive_failures: 0,
                is_alive: true,
                should_kill_base: false,
                parent_requests_kill: false,
            }),
    {
        HealthRecord {
            last_success_timestamp: now,
            consecutive_failures: 0,
            is_alive: true,
            should_kill_base: false,
            parent_requests_kill: false,
        }
    }
}

/// What is written to shared memory reads back as the same record, and every record
/// takes up the same number of bytes.
pub proof fn lemma_wire_image_reads_back(record: HealthRecord)
    ensures
        record.wire_image().len() == HEALTH_RECORD_SIZE,
        HealthRecord::read_image(record.wire_image()) == record,
{
    lemma_auto_spec_u32_to_from_le_bytes();
    lemma_auto_spec_u64_to_from_le_bytes();
    let stamp = spec_u64_to_le_bytes(record.last_success_timestamp as u64);
    let failures = spec_u32_to_le_bytes(record.consecutive_failures as u32);
    let alive = spec_u32_to_le_bytes(flag_word(record.is_alive));
    let kill_base = spec_u32_to_le_bytes(flag_word(record.should_kill_base));
    let kill_request = spec_u32_to_le_bytes(flag_word(record.parent_requests_kill));
    let image = record.wire_image();
    assert(image.len() == 24);
    assert(image.subrange(0, 8) =~= stamp);
    assert(image.subrange(8, 12) =~= failures);
    assert(image.subrange(12, 16) =~= alive);
    assert(image.subrange(16, 20) =~= kill_base);
    assert(image.subrange(20, 24) =~= kill_request);
    let seconds = record.last_success_timestamp;
    assert((seconds as u64) as i64 == seconds) by (bit_vector);
    let count = record.consecutive_failures;
    assert((count as u32) as i32 == count) by (bit_vector);
}

} // verus!
