//! One-time passcodes: fixed-length digit codes with an expiry, and the store
//! that keeps at most one of them per mail address.

use crate::clock::{unix_now, CLOCK_BOUND};
use rand::rngs::ThreadRng;
use rand::seq::SliceRandom;
use vstd::hash_map::StringHashMap;
use vstd::prelude::*;

verus! {

/// The characters a code is drawn from.
pub const OTP_DIGITS: [char; 10] = ['0', '1', '2', '3', '4', '5', '6', '7', '8', '9'];

/// `rand::rngs::ThreadRng`, the thread-local random number generator.
#[verifier::external_type_specification]
#[verifier::external_body]
pub struct ExThreadRng(ThreadRng);

/// `rand::thread_rng`: a handle to the thread-local generator.
pub assume_specification[ rand::thread_rng ]() -> ThreadRng;

/// `SliceRandom::choose` on a slice of characters: one of its elements, picked
/// at random, or `None` when the slice is empty.
#[verifier::external_body]
fn pick(items: &[char], rng: &mut ThreadRng) -> (picked: Option<char>)
    ensures
        items@.len() == 0 ==> picked is None,
        items@.len() > 0 ==> picked is Some && items@.contains(picked->0),
{
    items.choose(rng).copied()
}

/// Whether `c` is an ASCII decimal digit.
pub open spec fn is_digit(c: char) -> bool {
    '0' <= c && c <= '9'
}

/// Whether `code` consists of `length` decimal digits.
pub open spec fn is_code(code: Seq<char>, length: nat) -> bool {
    code.len() == length && forall|i: int| 0 <= i < code.len() ==> is_digit(#[trigger] code[i])
}

/// A random code of exactly `length` decimal digits.
pub fn generate_otp_code(length: usize) -> (code: String)
    ensures
        is_code(code@, length as nat),
{
    let mut buffer = String::new();
    let mut randomizer = rand::thread_rng();
    let mut drawn: usize = 0;
    while drawn < length
        invariant
            drawn <= length,
            is_code(buffer@, drawn as nat),
        decreases length - drawn,
    {
        let digit = pick(OTP_DIGITS.as_slice(), &mut randomizer).unwrap();
        buffer.push(digit);
        drawn += 1;
    }
    buffer
}

/// A one-time passcode and the moment it stops being valid.
#[derive(Debug, Clone, PartialEq, Eq)]
pub struct Otp {
    pub code: String,
    /// Unix time, in seconds, of the last moment at which the code is valid.
    pub expires_on: i64,
}

impl Otp {
    /// Whether the code is no longer valid at `now`.
    pub open spec fn expired_at(&self, now: i64) -> bool {
        now > self.expires_on
    }

    /// Whether `code` is the code of this record.
    pub open spec fn matches(&self, code: Seq<char>) -> bool {
        self.code@ == code
    }

    /// The record for `code` that is valid from `now` for `ttl_seconds` seconds.
    pub fn expiring(code: String, now: i64, ttl_seconds: u32) -> (otp: Otp)
        requires
            now + ttl_seconds <= i64::MAX,
        ensures
            otp.code == code,
            otp.expires_on == now + ttl_seconds,
    {
        Otp { code, expires_on: now + ttl_seconds as i64 }
    }

    /// A fresh code of `length` digits that is valid for `ttl_seconds` seconds from now.
    pub fn new_expirable_code(length: usize, ttl_seconds: u32) -> (otp: Otp)
        ensures
            is_code(otp.code@, length as nat),
            0 <= otp.expires_on - ttl_seconds < CLOCK_BOUND,
    {
        let code = generate_otp_code(length);
        let now = unix_now();
        Otp::expiring(code, now, ttl_seconds)
    }

    /// Whether the code is no longer valid at `now`.
    pub fn is_expired_at(&self, now: i64) -> (expired: bool)
        ensures
            expired == self.expired_at(now),
    {
        now > self.expires_on
    }

    /// Whether the code is no longer valid by the clock's present reading.
    pub fn is_expired(&self) -> (expired: bool)
        ensures
            self.expires_on >= CLOCK_BOUND ==> !expired,
            self.expires_on < 0 ==> expired,
    {
        self.is_expired_at(unix_now())
    }

    /// Whether `other_code` is the code of this record.
    pub fn check(&self, other_code: &String) -> (same: bool)
        ensures
            same == self.matches(other_code@),
    {
        self.code == *other_code
    }

    /// A copy of this record.
    pub fn duplicate(&self) -> (copy: Otp)
        ensures
            copy == *self,
    {
        Otp { code: self.code.clone(), expires_on: self.expires_on }
    }
}

/// The passcodes in force, one per mail address at most.
pub struct OtpStore {
    codes: StringHashMap<Otp>,
}

/// What `get` finds under `email` in a store whose content is `codes`.
pub open spec fn lookup(codes: Map<Seq<char>, Otp>, email: Seq<char>) -> Option<Otp> {
    if codes.contains_key(email) {
        Some(codes[email])
    } else {
        None
    }
}

impl View for OtpStore {
    type V = Map<Seq<char>, Otp>;

    closed spec fn view(&self) -> Map<Seq<char>, Otp> {
        self.codes@
    }
}

impl OtpStore {
    /// A store that holds no code.
    pub fn new() -> (store: OtpStore)
        ensures
            store@ == Map::<Seq<char>, Otp>::empty(),
    {
        OtpStore { codes: StringHashMap::new() }
    }

    /// Records `record` for `email`, in place of whatever was recorded for it before.
    pub fn put(&mut self, email: String, record: Otp)
        ensures
            final(self)@ == old(self)@.insert(email@, record),
    {
        self.codes.insert(email, record);
    }

    /// The record for `email`, if there is one; the store is left as it is.
    pub fn get(&self, email: &str) -> (found: Option<Otp>)
        ensures
            found == lookup(self@, email@),
    {
        match self.codes.get(email) {
            Some(record) => Some(record.duplicate()),
            None => None,
        }
    }

    /// Forgets the record for `email`, if there is one.
    pub fn remove(&mut self, email: &str)
        ensures
            final(self)@ == old(self)@.remove(email@),
    {
        self.codes.remove(email);
    }

    /// The number of addresses that have a record.
    pub fn len(&self) -> (count: usize)
        ensures
            count == self@.len(),
    {
        self.codes.len()
    }
}

/// A record that was put is the record that is got; once removed, none is got.
pub proof fn law_put_get_remove(codes: Map<Seq<char>, Otp>, email: Seq<char>, record: Otp)
    ensures
        lookup(codes.insert(email, record), email) == Some(record),
        lookup(codes.insert(email, record).remove(email), email) is None,
        lookup(codes.remove(email), email) is None,
{
}

/// A second put for the same address replaces the first: the store is what it
/// would be had the first never happened, and other addresses are untouched.
pub proof fn law_put_overwrites(
    codes: Map<Seq<char>, Otp>,
    email: Seq<char>,
    first: Otp,
    second: Otp,
    other: Seq<char>,
)
    ensures
        codes.insert(email, first).insert(email, second) == codes.insert(email, second),
        lookup(codes.insert(email, first).insert(email, second), email) == Some(second),
        other != email ==> lookup(codes.insert(email, first).insert(email, second), other)
            == lookup(codes, other),
{
}

/// A record whose expiry lies in the past is expired, stays expired at every
/// later moment, and reading it from a store does not change that.
pub proof fn law_expiry_is_lasting(
    codes: Map<Seq<char>, Otp>,
    email: Seq<char>,
    record: Otp,
    now: i64,
    later: i64,
)
    requires
        record.expires_on < now <= later,
    ensures
        record.expired_at(now),
        record.expired_at(later),
        lookup(codes.insert(email, record), email)->0.expired_at(later),
{
}

} // verus!
