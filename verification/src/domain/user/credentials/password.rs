//! The password policy and the stored form of a password.
//!
//! A password is accepted when it has 8 to 64 grapheme clusters and holds
//! at least one lowercase ASCII letter, one uppercase ASCII letter, one ASCII
//! digit and one of the special characters in [`ALLOWED_PASSWORD_CHARS`].
//! An accepted password is kept only as its Argon2 hash (a PHC string).

use vstd::prelude::*;

use argon2::password_hash::rand_core::OsRng;
use argon2::password_hash::{PasswordHash, PasswordHasher, PasswordVerifier, SaltString};
use argon2::Argon2;
use unicode_segmentation::UnicodeSegmentation;

use crate::text::chars_of;

verus! {

/// The special characters of which a password must hold at least one.
pub const ALLOWED_PASSWORD_CHARS: &'static str = "!\"#$%&'()*+,-./:;<=>?@[\\]^_`{|}~";

#[verifier::external_type_specification]
#[verifier::external_body]
pub struct ExPasswordHashError(argon2::password_hash::Error);

/// The number of extended grapheme clusters of a text (Unicode UAX #29).
pub uninterp spec fn grapheme_count(s: Seq<char>) -> nat;

/// Whether Argon2 verifies `password` against the PHC string `phc`.
pub uninterp spec fn argon2_verifies(password: Seq<char>, phc: Seq<char>) -> bool;

/// All characters of `s` are ASCII.
pub open spec fn is_ascii_text(s: Seq<char>) -> bool {
    forall|i: int| 0 <= i < s.len() ==> (#[trigger] s[i] as int) < 128
}

/// `s` holds a carriage return directly followed by a line feed.
pub open spec fn has_crlf(s: Seq<char>) -> bool {
    exists|i: int| 0 <= i < s.len() - 1 && #[trigger] s[i] == '\r' && s[i + 1] == '\n'
}

/// Calls `unicode_segmentation::UnicodeSegmentation::graphemes` (extended)
/// and counts the clusters: the result is the named count of `s`. Under
/// UAX #29 the only ASCII characters that share a cluster are a carriage
/// return followed by a line feed, so other ASCII texts have one cluster per
/// character.
#[verifier::external_body]
fn count_graphemes(s: &str) -> (n: usize)
    ensures
        n as nat == grapheme_count(s@),
        is_ascii_text(s@) && !has_crlf(s@) ==> n == s@.len(),
{
    s.graphemes(true).count()
}

/// Calls `PasswordHasher::hash_password` of `Argon2::default()` with a salt
/// from `SaltString::generate` on the operating system's random source, and
/// renders the hash as a PHC string. The contract claims what the crates show:
/// a hash that it produced verifies against the password it was made from,
/// and hashing fails only for a password over `u32::MAX` bytes or a salt under
/// 8 bytes (a generated salt has 16), so a password of fewer than 2^30
/// characters (at most 4 bytes each) is hashed. The hash itself is not stated:
/// it depends on the random salt.
#[verifier::external_body]
fn argon2_hash(password: &str) -> (r: Result<String, argon2::password_hash::Error>)
    ensures
        r matches Ok(phc) ==> argon2_verifies(password@, phc@),
        password@.len() < 0x4000_0000 ==> r is Ok,
{
    let salt = SaltString::generate(&mut OsRng);
    match Argon2::default().hash_password(password.as_bytes(), &salt) {
        Ok(hash) => Ok(hash.to_string()),
        Err(e) => Err(e),
    }
}

/// Calls `PasswordVerifier::verify_password` of `Argon2::default()` on `phc`
/// parsed by `PasswordHash::new`; a string that does not parse verifies nothing.
/// The result is the named verdict on the two texts.
#[verifier::external_body]
fn argon2_check(password: &str, phc: &str) -> (r: bool)
    ensures
        r == argon2_verifies(password@, phc@),
{
    match PasswordHash::new(phc) {
        Ok(parsed) => Argon2::default().verify_password(password.as_bytes(), &parsed).is_ok(),
        Err(_) => false,
    }
}

/// Why a password was refused.
#[derive(Debug)]
pub enum PasswordValidationErr {
    PwdTooShort,
    PwdTooLong,
    PwdMissingLowercase,
    PwdMissingUppercase,
    PwdMissingNumber,
    PwdMissingChar,
    /// Hashing the accepted password failed.
    ArgonErr(argon2::password_hash::Error),
}

pub open spec fn is_lowercase(c: char) -> bool {
    'a' <= c && c <= 'z'
}

pub open spec fn is_uppercase(c: char) -> bool {
    'A' <= c && c <= 'Z'
}

pub open spec fn is_number(c: char) -> bool {
    '0' <= c && c <= '9'
}

pub open spec fn is_special(c: char) -> bool {
    ALLOWED_PASSWORD_CHARS@.contains(c)
}

pub open spec fn has_lowercase(s: Seq<char>) -> bool {
    exists|i: int| 0 <= i < s.len() && is_lowercase(#[trigger] s[i])
}

pub open spec fn has_uppercase(s: Seq<char>) -> bool {
    exists|i: int| 0 <= i < s.len() && is_uppercase(#[trigger] s[i])
}

pub open spec fn has_number(s: Seq<char>) -> bool {
    exists|i: int| 0 <= i < s.len() && is_number(#[trigger] s[i])
}

pub open spec fn has_special(s: Seq<char>) -> bool {
    exists|i: int| 0 <= i < s.len() && is_special(#[trigger] s[i])
}

/// The outcome of the policy on `raw` of `n` graphemes, the first failing
/// rule deciding the error.
pub open spec fn password_rules(raw: Seq<char>, n: nat) -> Result<(), PasswordValidationErr> {
    if n < 8 {
        Err(PasswordValidationErr::PwdTooShort)
    } else if n > 64 {
        Err(PasswordValidationErr::PwdTooLong)
    } else if !has_lowercase(raw) {
        Err(PasswordValidationErr::PwdMissingLowercase)
    } else if !has_uppercase(raw) {
        Err(PasswordValidationErr::PwdMissingUppercase)
    } else if !has_number(raw) {
        Err(PasswordValidationErr::PwdMissingNumber)
    } else if !has_special(raw) {
        Err(PasswordValidationErr::PwdMissingChar)
    } else {
        Ok(())
    }
}

/// The outcome of the policy on `raw`.
pub open spec fn password_check(raw: Seq<char>) -> Result<(), PasswordValidationErr> {
    password_rules(raw, grapheme_count(raw))
}

/// The special characters are exactly the ASCII punctuation marks.
pub proof fn law_special_chars(c: char)
    ensures
        is_special(c) <==> (('!' <= c && c <= '/') || (':' <= c && c <= '@') || ('[' <= c
            && c <= '`') || ('{' <= c && c <= '~')),
{
    reveal_strlit("!\"#$%&'()*+,-./:;<=>?@[\\]^_`{|}~");
    let s = ALLOWED_PASSWORD_CHARS@;
    assert(s.len() == 32);
    if ('!' <= c && c <= '/') || (':' <= c && c <= '@') || ('[' <= c && c <= '`') || ('{' <= c
        && c <= '~') {
        if c == '!' {
            assert(s[0] == c);
        }
        if c == '"' {
            assert(s[1] == c);
        }
        if c == '#' {
            assert(s[2] == c);
        }
        if c == '$' {
            assert(s[3] == c);
        }
        if c == '%' {
            assert(s[4] == c);
        }
        if c == '&' {
            assert(s[5] == c);
        }
        if c == '\'' {
            assert(s[6] == c);
        }
        if c == '(' {
            assert(s[7] == c);
        }
        if c == ')' {
            assert(s[8] == c);
        }
        if c == '*' {
            assert(s[9] == c);
        }
        if c == '+' {
            assert(s[10] == c);
        }
        if c == ',' {
            assert(s[11] == c);
        }
        if c == '-' {
            assert(s[12] == c);
        }
        if c == '.' {
            assert(s[13] == c);
        }
        if c == '/' {
            assert(s[14] == c);
        }
        if c == ':' {
            assert(s[15] == c);
        }
        if c == ';' {
            assert(s[16] == c);
        }
        if c == '<' {
            assert(s[17] == c);
        }
        if c == '=' {
            assert(s[18] == c);
        }
        if c == '>' {
            assert(s[19] == c);
        }
        if c == '?' {
            assert(s[20] == c);
        }
        if c == '@' {
            assert(s[21] == c);
        }
        if c == '[' {
            assert(s[22] == c);
        }
        if c == '\\' {
            assert(s[23] == c);
        }
        if c == ']' {
            assert(s[24] == c);
        }
        if c == '^' {
            assert(s[25] == c);
        }
        if c == '_' {
            assert(s[26] == c);
        }
        if c == '`' {
            assert(s[27] == c);
        }
        if c == '{' {
            assert(s[28] == c);
        }
        if c == '|' {
            assert(s[29] == c);
        }
        if c == '}' {
            assert(s[30] == c);
        }
        if c == '~' {
            assert(s[31] == c);
        }
    }
    if s.contains(c) {
        let k = choose|k: int| 0 <= k < s.len() && s[k] == c;
        assert(0 <= k < 32);
    }
}

/// The policy on a text of `n` graphemes, stated over the characters
/// themselves: too few or too many graphemes first, then the first missing
/// kind among lowercase letter, uppercase letter, digit and special character.
pub proof fn law_password_rules(raw: Seq<char>, n: nat)
    ensures
        n < 8 ==> password_rules(raw, n) matches Err(PasswordValidationErr::PwdTooShort),
        n > 64 ==> password_rules(raw, n) matches Err(PasswordValidationErr::PwdTooLong),
        8 <= n <= 64 && !(exists|i: int| 0 <= i < raw.len() && 'a' <= #[trigger] raw[i] && raw[i] <= 'z')
            ==> password_rules(raw, n) matches Err(PasswordValidationErr::PwdMissingLowercase),
        8 <= n <= 64 && (exists|i: int| 0 <= i < raw.len() && 'a' <= #[trigger] raw[i] && raw[i] <= 'z')
            && !(exists|i: int| 0 <= i < raw.len() && 'A' <= #[trigger] raw[i] && raw[i] <= 'Z')
            ==> password_rules(raw, n) matches Err(PasswordValidationErr::PwdMissingUppercase),
        8 <= n <= 64 && (exists|i: int| 0 <= i < raw.len() && 'a' <= #[trigger] raw[i] && raw[i] <= 'z')
            && (exists|i: int| 0 <= i < raw.len() && 'A' <= #[trigger] raw[i] && raw[i] <= 'Z')
            && !(exists|i: int| 0 <= i < raw.len() && '0' <= #[trigger] raw[i] && raw[i] <= '9')
            ==> password_rules(raw, n) matches Err(PasswordValidationErr::PwdMissingNumber),
        password_rules(raw, n) is Ok <==> {
            &&& 8 <= n <= 64
            &&& exists|i: int| 0 <= i < raw.len() && 'a' <= #[trigger] raw[i] && raw[i] <= 'z'
            &&& exists|i: int| 0 <= i < raw.len() && 'A' <= #[trigger] raw[i] && raw[i] <= 'Z'
            &&& exists|i: int| 0 <= i < raw.len() && '0' <= #[trigger] raw[i] && raw[i] <= '9'
            &&& exists|i: int| 0 <= i < raw.len() && ALLOWED_PASSWORD_CHARS@.contains(#[trigger] raw[i])
        },
{
}

/// A digit counts as a number, a lowercase or an uppercase ASCII letter as
/// such, whichever it is.
pub proof fn law_char_kinds(c: char)
    ensures
        is_number(c) <==> ('0' <= c && c <= '9'),
        is_lowercase(c) <==> ('a' <= c && c <= 'z'),
        is_uppercase(c) <==> ('A' <= c && c <= 'Z'),
{
}

fn special(c: char, specials: &Vec<char>) -> (r: bool)
    requires
        specials@ == ALLOWED_PASSWORD_CHARS@,
    ensures
        r == is_special(c),
{
    let mut i: usize = 0;
    while i < specials.len()
        invariant
            i <= specials@.len(),
            specials@ == ALLOWED_PASSWORD_CHARS@,
            forall|k: int| 0 <= k < i ==> specials@[k] != c,
        decreases specials@.len() - i,
    {
        if specials[i] == c {
            return true;
        }
        i += 1;
    }
    false
}

/// Applies the policy to `raw`, whose grapheme count is `graphemes`, without hashing.
pub fn check_rules(raw: &str, graphemes: usize) -> (r: Result<(), PasswordValidationErr>)
    ensures
        match r {
            Ok(()) => password_rules(raw@, graphemes as nat) is Ok,
            Err(e) => password_rules(raw@, graphemes as nat) == Err::<(), PasswordValidationErr>(e),
        },
{
    let n = graphemes;
    if n < 8 {
        return Err(PasswordValidationErr::PwdTooShort);
    }
    if n > 64 {
        return Err(PasswordValidationErr::PwdTooLong);
    }
    let v = chars_of(raw);
    let specials = chars_of(ALLOWED_PASSWORD_CHARS);
    let mut lower = false;
    let mut upper = false;
    let mut number = false;
    let mut spec_char = false;
    let mut i: usize = 0;
    while i < v.len()
        invariant
            i <= v@.len(),
            v@ == raw@,
            specials@ == ALLOWED_PASSWORD_CHARS@,
            lower == exists|k: int| 0 <= k < i && is_lowercase(#[trigger] v@[k]),
            upper == exists|k: int| 0 <= k < i && is_uppercase(#[trigger] v@[k]),
            number == exists|k: int| 0 <= k < i && is_number(#[trigger] v@[k]),
            spec_char == exists|k: int| 0 <= k < i && is_special(#[trigger] v@[k]),
        decreases v@.len() - i,
    {
        let c = v[i];
        if 'a' <= c && c <= 'z' {
            lower = true;
        }
        if 'A' <= c && c <= 'Z' {
            upper = true;
        }
        if '0' <= c && c <= '9' {
            number = true;
        }
        if special(c, &specials) {
            spec_char = true;
        }
        i += 1;
    }
    if !lower {
        return Err(PasswordValidationErr::PwdMissingLowercase);
    }
    if !upper {
        return Err(PasswordValidationErr::PwdMissingUppercase);
    }
    if !number {
        return Err(PasswordValidationErr::PwdMissingNumber);
    }
    if !spec_char {
        return Err(PasswordValidationErr::PwdMissingChar);
    }
    Ok(())
}

/// Applies the policy to `raw`, without hashing. An ASCII text with no
/// carriage return before a line feed counts one grapheme per character.
pub fn check_policy(raw: &str) -> (r: Result<(), PasswordValidationErr>)
    ensures
        is_ascii_text(raw@) && !has_crlf(raw@) ==> password_check(raw@) == password_rules(
            raw@,
            raw@.len(),
        ),
        match r {
            Ok(()) => password_check(raw@) is Ok,
            Err(e) => password_check(raw@) == Err::<(), PasswordValidationErr>(e),
        },
{
    let n = count_graphemes(raw);
    check_rules(raw, n)
}

/// A password as it is stored: its Argon2 hash in PHC form.
#[derive(Debug)]
pub struct Password {
    hash: String,
}

impl View for Password {
    type V = Seq<char>;

    /// The PHC string.
    closed spec fn view(&self) -> Seq<char> {
        self.hash@
    }
}

impl Password {
    /// Whether this stored password is the one whose text is `raw`.
    pub open spec fn matches(&self, raw: Seq<char>) -> bool {
        argon2_verifies(raw, self@)
    }

    /// Applies the policy to `raw` and, when it passes, hashes it with a fresh salt.
    pub fn from_text(raw: &str) -> (r: Result<Password, PasswordValidationErr>)
        ensures
            is_ascii_text(raw@) && !has_crlf(raw@) ==> password_check(raw@) == password_rules(
                raw@,
                raw@.len(),
            ),
            password_check(raw@) is Ok && raw@.len() < 0x4000_0000 ==> r is Ok,
            match r {
                Ok(p) => password_check(raw@) is Ok && p.matches(raw@),
                Err(PasswordValidationErr::ArgonErr(_)) => password_check(raw@) is Ok,
                Err(e) => password_check(raw@) == Err::<(), PasswordValidationErr>(e),
            },
    {
        match check_policy(raw) {
            Err(e) => Err(e),
            Ok(()) => {
                match argon2_hash(raw) {
                    Ok(hash) => Ok(Password { hash }),
                    Err(e) => Err(PasswordValidationErr::ArgonErr(e)),
                }
            },
        }
    }

    /// Keeps a PHC string read back from storage, as it is.
    pub fn from_raw(hash: String) -> (p: Password)
        ensures
            p@ == hash@,
    {
        Password { hash }
    }

    /// Whether `raw` is this password.
    pub fn compare(&self, raw: &str) -> (r: bool)
        ensures
            r == self.matches(raw@),
    {
        argon2_check(raw, self.hash.as_str())
    }

    /// The PHC string.
    pub fn as_ref(&self) -> (r: &str)
        ensures
            r@ == self@,
    {
        self.hash.as_str()
    }
}

impl Clone for Password {
    fn clone(&self) -> (r: Password)
        ensures
            r == *self,
    {
        Password { hash: self.hash.clone() }
    }
}

} // verus!
