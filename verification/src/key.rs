//! The key: one byte, derived once from the wall clock and then kept.

use std::time::{Duration, SystemTime, SystemTimeError, UNIX_EPOCH};
use vstd::prelude::*;

verus! {

/// A point in time as the system clock reports it, carried through as an
/// opaque value.
#[verifier::external_type_specification]
#[verifier::external_body]
pub struct ExSystemTime(SystemTime);

/// The error of `SystemTime::duration_since`, carried through as an opaque
/// value.
#[verifier::external_type_specification]
#[verifier::external_body]
pub struct ExSystemTimeError(SystemTimeError);

/// `SystemTime::now` reads the system clock. Nothing is claimed of the time
/// that it returns.
pub assume_specification[ SystemTime::now ]() -> SystemTime;

/// Calls `SystemTime::duration_since` with the Unix epoch as the earlier
/// time: the time from the epoch to `time`, or an error if `time` lies before
/// the epoch. Nothing is claimed of what it returns.
#[verifier::external_body]
fn since_epoch(time: &SystemTime) -> Result<Duration, SystemTimeError> {
    time.duration_since(UNIX_EPOCH)
}

/// `Duration::as_secs` gives the whole seconds of a duration. Nothing is
/// claimed of the number.
pub assume_specification[ Duration::as_secs ](duration: &Duration) -> u64;

/// The key that belongs to a clock reading of `seconds` since the Unix epoch:
/// `seconds mod 255`, a value from 0 to 254.
pub open spec fn key_of_seconds(seconds: u64) -> u8 {
    (seconds % 255) as u8
}

/// Derives the key from a clock reading in seconds since the Unix epoch.
pub fn key_from_seconds(seconds: u64) -> (key: u8)
    ensures
        key == key_of_seconds(seconds),
        key == seconds % 255,
        key < 255,
{
    (seconds % 255) as u8
}

/// The whole seconds since the Unix epoch on the system clock, or `None` if
/// the clock reads a time before the epoch.
fn seconds_since_epoch() -> Option<u64> {
    let now = SystemTime::now();
    match since_epoch(&now) {
        Ok(elapsed) => Some(elapsed.as_secs()),
        Err(_) => None,
    }
}

/// The system clock reads a time before the Unix epoch, so no key can be
/// derived from it.
#[derive(Clone, Copy, Debug, PartialEq, Eq)]
pub struct ClockError;

/// Hands out the key: derived from the clock when it is first asked for, and
/// the same value ever after.
///
/// The view is the key that the provider holds, `None` until the first call
/// that succeeds.
#[derive(Debug)]
pub struct KeyProvider {
    key: Option<u8>,
}

impl View for KeyProvider {
    type V = Option<u8>;

    closed spec fn view(&self) -> Option<u8> {
        self.key
    }
}

impl KeyProvider {
    /// A key that the provider holds is one that a clock reading gives: it
    /// lies in 0..=254.
    #[verifier::type_invariant]
    spec fn key_in_range(&self) -> bool {
        self.key matches Some(key) ==> key < 255
    }

    /// The key that a provider holding `held` hands out when the clock reads
    /// `seconds`: the key it holds, or else the key of that reading.
    pub open spec fn key_at(held: Option<u8>, seconds: u64) -> u8 {
        match held {
            Some(key) => key,
            None => key_of_seconds(seconds),
        }
    }

    /// A provider that holds no key yet.
    pub fn new() -> (provider: Self)
        ensures
            provider@ is None,
    {
        KeyProvider { key: None }
    }

    /// The key, given that the clock reads `seconds` since the Unix epoch.
    /// The reading counts only if the provider holds no key yet.
    pub fn get_key_at(&mut self, seconds: u64) -> (key: u8)
        ensures
            key == Self::key_at(old(self)@, seconds),
            final(self)@ == Some(key),
            key < 255,
    {
        proof {
            use_type_invariant(&*self);
        }
        match self.key {
            Some(key) => key,
            None => {
                let key = key_from_seconds(seconds);
                self.key = Some(key);
                key
            },
        }
    }

    /// The key. The first call that succeeds reads the system clock and
    /// derives the key; from then on the clock is not read again and every
    /// call returns that key. A call fails only if no key is held and the
    /// clock reads a time before the Unix epoch; the provider then still
    /// holds none.
    pub fn get_key(&mut self) -> (r: Result<u8, ClockError>)
        ensures
            old(self)@ matches Some(held) ==> r == Ok::<u8, ClockError>(held),
            match r {
                Ok(key) => key < 255 && final(self)@ == Some(key),
                Err(_) => old(self)@ is None && final(self)@ is None,
            },
    {
        proof {
            use_type_invariant(&*self);
        }
        match self.key {
            Some(key) => Ok(key),
            None => match seconds_since_epoch() {
                Some(seconds) => Ok(self.get_key_at(seconds)),
                None => Err(ClockError),
            },
        }
    }
}

/// Once a provider has handed out a key, the next call hands out the same
/// key, whatever the clock reads by then.
pub proof fn lemma_key_is_stable(held: Option<u8>, first: u64, second: u64)
    ensures
        KeyProvider::key_at(Some(KeyProvider::key_at(held, first)), second) == KeyProvider::key_at(
            held,
            first,
        ),
{
}

} // verus!
