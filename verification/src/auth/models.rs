//! The records of an account: its identifier, its credentials and its profile.

use vstd::prelude::*;

verus! {

/// The identifier of an account: a 128-bit UUID.
#[derive(Debug, Clone, Copy, PartialEq, Eq, Hash, Structural)]
pub struct UserId {
    pub value: u128,
}

/// The credentials of an account, as the `auth` table holds them.
#[derive(Debug, Clone, PartialEq, Eq)]
pub struct AuthUser {
    pub id: UserId,
    /// The canonical mail address; no two accounts share one.
    pub mail: String,
    /// The hash of the password, never the password itself.
    pub password: String,
}

/// The profile of an account, as the `users` table holds it.
#[derive(Debug, Clone, PartialEq, Eq)]
pub struct User {
    /// The canonical name; no two accounts share one.
    pub name: String,
    pub display_name: String,
    pub id: UserId,
    pub bio: Option<String>,
    /// Unix time of creation, in seconds.
    pub created_at: i64,
    /// Unix time of the last change, in seconds.
    pub updated_at: i64,
    /// Role and permission bits.
    pub flags: i32,
}

/// Whether `value` carries the version and variant marks of a random (version 4) UUID.
pub open spec fn is_version_4(value: u128) -> bool {
    (value >> 76) & 0xf == 4 && (value >> 62) & 0x3 == 2
}

/// `uuid::Uuid::new_v4().as_u128()`: a random UUID. Whatever the random bits,
/// the version nibble is 4 and the variant bits are `10`.
#[verifier::external_body]
fn random_uuid() -> (value: u128)
    ensures
        is_version_4(value),
{
    uuid::Uuid::new_v4().as_u128()
}

/// The lower-case hexadecimal digit for `nibble`.
pub open spec fn hex_char(nibble: u8) -> char {
    if nibble < 10 {
        (0x30 + nibble) as char
    } else {
        (0x57 + nibble) as char
    }
}

/// The `index`-th group of four bits of `value`, counted from the most significant.
pub open spec fn nibble_of(value: u128, index: int) -> u8 {
    ((value >> (((31 - index) * 4) as u128)) & 0xf) as u8
}

/// The hexadecimal digits of the nibbles `from..to` of `value`.
pub open spec fn hex_digits(value: u128, from: int, to: int) -> Seq<char> {
    Seq::new((to - from) as nat, |i: int| hex_char(nibble_of(value, from + i)))
}

/// The usual text form of a UUID: 32 lower-case hexadecimal digits in groups
/// of 8, 4, 4, 4 and 12, separated by hyphens.
pub open spec fn hyphenated(value: u128) -> Seq<char> {
    hex_digits(value, 0, 8) + seq!['-'] + hex_digits(value, 8, 12) + seq!['-'] + hex_digits(
        value,
        12,
        16,
    ) + seq!['-'] + hex_digits(value, 16, 20) + seq!['-'] + hex_digits(value, 20, 32)
}

fn hex_digit(nibble: u8) -> (c: char)
    requires
        nibble < 16,
    ensures
        c == hex_char(nibble),
{
    if nibble < 10 {
        (0x30 + nibble) as char
    } else {
        (0x57 + nibble) as char
    }
}

fn push_hex(text: &mut String, value: u128, from: u32, to: u32)
    requires
        from <= to <= 32,
    ensures
        final(text)@ == old(text)@ + hex_digits(value, from as int, to as int),
{
    let mut index: u32 = from;
    while index < to
        invariant
            from <= index <= to <= 32,
            text@ == old(text)@ + hex_digits(value, from as int, index as int),
        decreases to - index,
    {
        let shift: u128 = ((31 - index) * 4) as u128;
        let bits: u128 = (value >> shift) & 0xf;
        assert(bits < 16) by (bit_vector)
            requires
                bits == (value >> shift) & 0xf,
        ;
        let c = hex_digit(bits as u8);
        text.push(c);
        index += 1;
    }
}

impl UserId {
    /// A fresh identifier, drawn at random.
    pub fn generate() -> (id: UserId)
        ensures
            is_version_4(id.value),
    {
        UserId { value: random_uuid() }
    }

    /// The identifier in its usual text form.
    pub fn to_text(&self) -> (text: String)
        ensures
            text@ == hyphenated(self.value),
    {
        let mut text = String::new();
        push_hex(&mut text, self.value, 0, 8);
        text.push('-');
        push_hex(&mut text, self.value, 8, 12);
        text.push('-');
        push_hex(&mut text, self.value, 12, 16);
        text.push('-');
        push_hex(&mut text, self.value, 16, 20);
        text.push('-');
        push_hex(&mut text, self.value, 20, 32);
        text
    }
}

} // verus!
