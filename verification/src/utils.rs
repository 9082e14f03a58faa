//! Validators for the fields a member submits: account name, mail address,
//! password, display name and description.
//!
//! Each validator returns the canonical value, or the message shown to the
//! member when the value is refused.

use crate::text::{
    chars_of, ends_with, has_suffix, is_white_space, lowercase, lowercase_of, string_of_range,
    trim, trim_bounds, trimmed,
};
use vstd::prelude::*;
use vstd::utf8::encode_utf8;

verus! {

pub const NAME_MIN_CHARS: usize = 3;

pub const NAME_MAX_CHARS: usize = 48;

pub const DISPLAY_NAME_MIN_CHARS: usize = 3;

pub const DISPLAY_NAME_MAX_CHARS: usize = 40;

pub const DESCRIPTION_MAX_CHARS: usize = 100;

pub const PASSWORD_MIN_CHARS: usize = 8;

pub const NAME_TOO_SHORT: &'static str = "Nazwa musi mieć conajmniej 3 znaki.";

pub const NAME_TOO_LONG: &'static str = "Nazwa może mieć maksymalnie 48 znaków.";

pub const NAME_LEADING_DASH: &'static str = "Nazwa nie może zaczynać się znakiem '-'";

pub const NAME_TRAILING_DASH: &'static str = "Nazwa nie może kończyć się znakiem '-'";

pub const NAME_ILLEGAL_CHAR: &'static str = "Nazwa zawiera nielegalny znak '";

pub const MAIL_TOO_SHORT: &'static str = "Mail jest za krótki";

pub const MAIL_FOREIGN_DOMAIN: &'static str = "Mail nie należy do dozwolonej domeny";

pub const PASSWORD_TOO_SHORT: &'static str = "Hasło musi mieć conajmniej 8 znaków";

pub const PASSWORD_HAS_WHITESPACE: &'static str = "Hasło nie może mieć spacji i znaków białych";

pub const DISPLAY_NAME_TOO_SHORT: &'static str =
    "Wyświetlana nazwa musi posiadać conajmniej 3 znaki.";

pub const DISPLAY_NAME_TOO_LONG: &'static str =
    "Wyświetlana nazwa nie może przekraczać długości 40 znaków.";

pub const DESCRIPTION_TOO_LONG: &'static str = "Opis nie może przekraczać 100 znaków.";

/// What a validator decides about a text: the canonical value or the refusal message.
pub type Verdict = Result<Seq<char>, Seq<char>>;

/// `outcome` carries exactly the value or the message of `verdict`.
pub open spec fn carries(outcome: Result<String, String>, verdict: Verdict) -> bool {
    match verdict {
        Ok(value) => outcome matches Ok(s) && s@ == value,
        Err(message) => outcome matches Err(s) && s@ == message,
    }
}

/// The ASCII stand-in for a character of the diacritic table; other characters
/// stand for themselves.
pub open spec fn folded(c: char) -> char {
    if c == ' ' {
        '-'
    } else if c == 'ą' {
        'a'
    } else if c == 'ć' {
        'c'
    } else if c == 'ę' {
        'e'
    } else if c == 'ó' {
        'o'
    } else if c == 'ś' {
        's'
    } else if c == 'ł' {
        'l'
    } else if c == 'ź' {
        'z'
    } else if c == 'ń' {
        'n'
    } else {
        c
    }
}

/// The characters a canonical name may hold: ASCII letters, ASCII digits and `-`.
pub open spec fn is_name_char(c: char) -> bool {
    ('a' <= c && c <= 'z') || ('A' <= c && c <= 'Z') || ('0' <= c && c <= '9') || c == '-'
}

/// The position of the first character of `s` whose stand-in is not a name character,
/// or `s.len()` when there is none.
pub open spec fn first_illegal(s: Seq<char>) -> int
    decreases s.len(),
{
    if s.len() == 0 || !is_name_char(folded(s[0])) {
        0
    } else {
        1 + first_illegal(s.drop_first())
    }
}

/// The message that names the refused character `c`.
pub open spec fn illegal_char_message(c: char) -> Seq<char> {
    NAME_ILLEGAL_CHAR@.push(c).push('\'')
}

/// The rules for an account name that is already trimmed and lower-cased.
pub open spec fn name_verdict(s: Seq<char>) -> Verdict {
    if s.len() < NAME_MIN_CHARS {
        Err(NAME_TOO_SHORT@)
    } else if s.len() > NAME_MAX_CHARS {
        Err(NAME_TOO_LONG@)
    } else if s[0] == '-' {
        Err(NAME_LEADING_DASH@)
    } else if s.last() == '-' {
        Err(NAME_TRAILING_DASH@)
    } else if first_illegal(s) < s.len() {
        Err(illegal_char_message(folded(s[first_illegal(s)])))
    } else {
        Ok(s.map_values(|c: char| folded(c)))
    }
}

/// The form in which an account name is judged: trimmed, then lower-cased.
pub open spec fn canonical_name(raw: Seq<char>) -> Seq<char> {
    lowercase_of(trimmed(raw))
}

/// The form in which a mail address is judged and stored: lower-cased, then trimmed.
pub open spec fn canonical_mail(raw: Seq<char>) -> Seq<char> {
    trimmed(lowercase_of(raw))
}

/// The length of `s` in bytes once encoded as UTF-8, as `str::len` reports it.
pub open spec fn byte_len(s: Seq<char>) -> usize {
    encode_utf8(s).len() as usize
}

/// Which mail addresses may hold an account: those of one domain, and a list of exceptions.
pub struct MailPolicy {
    /// The suffix every ordinary address ends with.
    pub domain: String,
    /// Addresses accepted whatever their domain, in canonical form.
    pub allowed: Vec<String>,
}

impl MailPolicy {
    /// Whether `mail` is one of the listed exceptions.
    pub open spec fn lists(&self, mail: Seq<char>) -> bool {
        exists|i: int| 0 <= i < self.allowed@.len() && (#[trigger] self.allowed@[i])@ == mail
    }

    /// The rules for a mail address in canonical form.
    pub open spec fn verdict(&self, mail: Seq<char>) -> Verdict {
        if self.lists(mail) {
            Ok(mail)
        } else if byte_len(mail) <= byte_len(self.domain@) {
            Err(MAIL_TOO_SHORT@)
        } else if !has_suffix(mail, self.domain@) {
            Err(MAIL_FOREIGN_DOMAIN@)
        } else {
            Ok(mail)
        }
    }

    /// The policy that accepts the addresses of `domain` and no others.
    pub fn of_domain(domain: String) -> (policy: MailPolicy)
        ensures
            policy.domain == domain,
            policy.allowed@.len() == 0,
    {
        MailPolicy { domain, allowed: Vec::new() }
    }

    /// Whether `mail` is one of the listed exceptions.
    pub fn is_listed(&self, mail: &String) -> (listed: bool)
        ensures
            listed == self.lists(mail@),
    {
        let mut i: usize = 0;
        while i < self.allowed.len()
            invariant
                i <= self.allowed.len(),
                forall|j: int| 0 <= j < i ==> (#[trigger] self.allowed@[j])@ != mail@,
            decreases self.allowed.len() - i,
        {
            if self.allowed[i] == *mail {
                return true;
            }
            i += 1;
        }
        false
    }

    /// Applies the policy to an address that is already in canonical form.
    pub fn check(&self, mail: String) -> (outcome: Result<String, String>)
        ensures
            carries(outcome, self.verdict(mail@)),
    {
        if self.is_listed(&mail) {
            return Ok(mail);
        }
        if mail.as_str().len() <= self.domain.as_str().len() {
            return Err(MAIL_TOO_SHORT.to_owned());
        }
        let chars = chars_of(mail.as_str());
        let domain = chars_of(self.domain.as_str());
        if !ends_with(&chars, &domain) {
            return Err(MAIL_FOREIGN_DOMAIN.to_owned());
        }
        Ok(mail)
    }
}

/// The ASCII stand-in for `c`.
pub fn fold(c: char) -> (f: char)
    ensures
        f == folded(c),
{
    if c == ' ' {
        '-'
    } else if c == 'ą' {
        'a'
    } else if c == 'ć' {
        'c'
    } else if c == 'ę' {
        'e'
    } else if c == 'ó' {
        'o'
    } else if c == 'ś' {
        's'
    } else if c == 'ł' {
        'l'
    } else if c == 'ź' {
        'z'
    } else if c == 'ń' {
        'n'
    } else {
        c
    }
}

/// Whether a canonical name may hold `c`.
pub fn name_char(c: char) -> (legal: bool)
    ensures
        legal == is_name_char(c),
{
    ('a' <= c && c <= 'z') || ('A' <= c && c <= 'Z') || ('0' <= c && c <= '9') || c == '-'
}

proof fn lemma_first_illegal_step(s: Seq<char>, i: int)
    requires
        0 <= i < s.len(),
        first_illegal(s) == i + first_illegal(s.skip(i)),
        is_name_char(folded(s[i])),
    ensures
        first_illegal(s) == i + 1 + first_illegal(s.skip(i + 1)),
{
    assert(s.skip(i).drop_first() == s.skip(i + 1));
}

/// Applies the name rules to a name that is already trimmed and lower-cased.
pub fn check_name(canonical: &str) -> (outcome: Result<String, String>)
    ensures
        carries(outcome, name_verdict(canonical@)),
{
    let chars = chars_of(canonical);
    let n = chars.len();
    if n < NAME_MIN_CHARS {
        return Err(NAME_TOO_SHORT.to_owned());
    }
    if n > NAME_MAX_CHARS {
        return Err(NAME_TOO_LONG.to_owned());
    }
    if chars[0] == '-' {
        return Err(NAME_LEADING_DASH.to_owned());
    }
    if chars[n - 1] == '-' {
        return Err(NAME_TRAILING_DASH.to_owned());
    }
    let mut name = String::new();
    let mut i: usize = 0;
    assert(chars@.skip(0) == chars@);
    while i < n
        invariant
            i <= n == chars.len(),
            chars@ == canonical@,
            NAME_MIN_CHARS <= n <= NAME_MAX_CHARS,
            chars@[0] != '-',
            chars@.last() != '-',
            first_illegal(chars@) == i + first_illegal(chars@.skip(i as int)),
            name@ == chars@.take(i as int).map_values(|c: char| folded(c)),
        decreases n - i,
    {
        let c = fold(chars[i]);
        if !name_char(c) {
            let mut message = NAME_ILLEGAL_CHAR.to_owned();
            message.push(c);
            message.push('\'');
            return Err(message);
        }
        proof {
            lemma_first_illegal_step(chars@, i as int);
        }
        name.push(c);
        i += 1;
    }
    Ok(name)
}

/// Canonicalises an account name and applies the name rules to it.
pub fn validate_name(name: String) -> (outcome: Result<String, String>)
    ensures
        carries(outcome, name_verdict(canonical_name(name@))),
{
    let canonical = lowercase(trim(name.as_str()).as_str());
    check_name(canonical.as_str())
}

/// Canonicalises a mail address and applies `policy` to it.
pub fn validate_mail(mail: String, policy: &MailPolicy) -> (outcome: Result<String, String>)
    ensures
        carries(outcome, policy.verdict(canonical_mail(mail@))),
{
    let canonical = trim(lowercase(mail.as_str()).as_str());
    policy.check(canonical)
}

/// The rules for a password: at least eight characters, none of them whitespace.
pub open spec fn password_verdict(s: Seq<char>) -> Verdict {
    if s.len() < PASSWORD_MIN_CHARS {
        Err(PASSWORD_TOO_SHORT@)
    } else if exists|i: int| 0 <= i < s.len() && is_white_space(#[trigger] s[i]) {
        Err(PASSWORD_HAS_WHITESPACE@)
    } else {
        Ok(s)
    }
}

/// Applies the password rules; an accepted password is returned as it came.
pub fn validate_password(password: String) -> (outcome: Result<String, String>)
    ensures
        carries(outcome, password_verdict(password@)),
        outcome is Ok ==> outcome == Ok::<String, String>(password),
{
    let chars = chars_of(password.as_str());
    if chars.len() < PASSWORD_MIN_CHARS {
        return Err(PASSWORD_TOO_SHORT.to_owned());
    }
    let mut i: usize = 0;
    while i < chars.len()
        invariant
            i <= chars.len(),
            chars@ == password@,
            chars.len() >= PASSWORD_MIN_CHARS,
            forall|j: int| 0 <= j < i ==> !is_white_space(#[trigger] chars@[j]),
        decreases chars.len() - i,
    {
        if chars[i].is_whitespace() {
            return Err(PASSWORD_HAS_WHITESPACE.to_owned());
        }
        i += 1;
    }
    Ok(password)
}

/// The rules for a display name: trimmed, three to forty characters.
pub open spec fn display_name_verdict(raw: Seq<char>) -> Verdict {
    let s = trimmed(raw);
    if s.len() < DISPLAY_NAME_MIN_CHARS {
        Err(DISPLAY_NAME_TOO_SHORT@)
    } else if s.len() > DISPLAY_NAME_MAX_CHARS {
        Err(DISPLAY_NAME_TOO_LONG@)
    } else {
        Ok(s)
    }
}

/// Trims a display name and applies the length rules to it.
pub fn validate_display_name(display_name: String) -> (outcome: Result<String, String>)
    ensures
        carries(outcome, display_name_verdict(display_name@)),
{
    let chars = chars_of(display_name.as_str());
    let (start, end) = trim_bounds(&chars);
    let len = end - start;
    if len < DISPLAY_NAME_MIN_CHARS {
        return Err(DISPLAY_NAME_TOO_SHORT.to_owned());
    }
    if len > DISPLAY_NAME_MAX_CHARS {
        return Err(DISPLAY_NAME_TOO_LONG.to_owned());
    }
    Ok(string_of_range(&chars, start, end))
}

/// The rules for an optional description: trimmed, at most a hundred characters.
pub open spec fn description_verdict(raw: Option<Seq<char>>) -> Result<
    Option<Seq<char>>,
    Seq<char>,
> {
    match raw {
        None => Ok(None),
        Some(text) => if trimmed(text).len() > DESCRIPTION_MAX_CHARS {
            Err(DESCRIPTION_TOO_LONG@)
        } else {
            Ok(Some(trimmed(text)))
        },
    }
}

/// The view of an optional text.
pub open spec fn text_of(value: Option<String>) -> Option<Seq<char>> {
    match value {
        None => None,
        Some(text) => Some(text@),
    }
}

/// Trims a description, if there is one, and applies the length rule to it.
pub fn validate_description(description: Option<String>) -> (outcome: Result<
    Option<String>,
    String,
>)
    ensures
        match description_verdict(text_of(description)) {
            Ok(value) => outcome matches Ok(kept) && text_of(kept) == value,
            Err(message) => outcome matches Err(s) && s@ == message,
        },
{
    match description {
        None => Ok(None),
        Some(text) => {
            let chars = chars_of(text.as_str());
            let (start, end) = trim_bounds(&chars);
            if end - start > DESCRIPTION_MAX_CHARS {
                return Err(DESCRIPTION_TOO_LONG.to_owned());
            }
            Ok(Some(string_of_range(&chars, start, end)))
        },
    }
}

} // verus!
