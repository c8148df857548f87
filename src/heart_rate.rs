//! Translation of heart-rate notifications into bounded percentages.
//!
//! A percentage is held exactly as a level out of `MAX_HEART_RATE`: the level
//! `l` stands for the fraction `l / MAX_HEART_RATE`, which lies in [0, 1].
use vstd::prelude::*;

verus! {

/// The heart rate, in beats per minute, that maps to a full percentage.
pub const MAX_HEART_RATE: u8 = 200;

/// The level of a reading: `min(bpm, MAX_HEART_RATE)`.
pub open spec fn spec_percent_level(bpm: int) -> int {
    if bpm < MAX_HEART_RATE as int {
        bpm
    } else {
        MAX_HEART_RATE as int
    }
}

/// The percentage of a reading, `min(bpm / MAX_HEART_RATE, 1)`, as a level out
/// of `MAX_HEART_RATE`.
pub fn percent_level(bpm: u8) -> (r: u8)
    ensures
        r as int == spec_percent_level(bpm as int),
        bpm <= MAX_HEART_RATE ==> r == bpm,
        bpm > MAX_HEART_RATE ==> r == MAX_HEART_RATE,
        r <= MAX_HEART_RATE,
{
    if bpm < MAX_HEART_RATE {
        bpm
    } else {
        MAX_HEART_RATE
    }
}

/// The level never decreases as the heart rate grows.
pub proof fn lemma_percent_level_monotonic(a: int, b: int)
    requires
        a <= b,
    ensures
        spec_percent_level(a) <= spec_percent_level(b),
{
}

/// Below the maximum the level is the heart rate itself, so the percentage is
/// `bpm / MAX_HEART_RATE`; above it the level is the maximum, a full percentage.
pub proof fn lemma_percent_level_clamps(bpm: int)
    ensures
        0 <= bpm <= MAX_HEART_RATE ==> spec_percent_level(bpm) == bpm,
        bpm > MAX_HEART_RATE ==> spec_percent_level(bpm) == MAX_HEART_RATE,
{
}

/// The heart rate carried by a measurement payload: byte 0 holds the flags,
/// byte 1 the rate in beats per minute (8-bit format).
pub open spec fn spec_bpm_of(payload: Seq<u8>) -> u8
    recommends
        payload.len() >= 2,
{
    payload[1]
}

/// Reads the heart rate of a measurement payload.
pub fn bpm_of(payload: &Vec<u8>) -> (r: u8)
    requires
        payload@.len() >= 2,
    ensures
        r == spec_bpm_of(payload@),
{
    payload[1]
}

/// The level of a notification when it comes from the characteristic
/// `expected`; a notification of any other characteristic is ignored.
pub open spec fn spec_sample_level(expected: u128, characteristic: u128, payload: Seq<u8>) -> Option<u8> {
    if characteristic == expected {
        Some(spec_percent_level(spec_bpm_of(payload) as int) as u8)
    } else {
        None
    }
}

/// Translates one notification into a level, or `None` when it comes from
/// another characteristic than `expected`.
pub fn sample_level(expected: u128, characteristic: u128, payload: &Vec<u8>) -> (r: Option<u8>)
    requires
        characteristic == expected ==> payload@.len() >= 2,
    ensures
        r == spec_sample_level(expected, characteristic, payload@),
{
    if characteristic == expected {
        Some(percent_level(bpm_of(payload)))
    } else {
        None
    }
}

} // verus!
