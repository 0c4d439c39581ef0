//! E-mail addresses accepted at sign-up.
//!
//! An address is `local@host.tld` where
//! - `local` is one or more ASCII letters or digits, joined by single
//!   separators `.`, `_`, `-` or `+` (it neither starts nor ends with one);
//! - `host` is one or more ASCII letters or digits, joined by single `.` or `-`;
//! - `tld` is two to six ASCII letters.

use vstd::prelude::*;

use crate::text::chars_of;

verus! {

/// Why an address was refused.
#[derive(Debug, Clone, Copy, PartialEq, Eq, Structural)]
pub enum EmailValidationErr {
    /// The text does not hold exactly one `@`.
    NoSingleAtSign,
    /// The part before `@` is empty or badly formed.
    InvalidLocalPart,
    /// The part after `@` has no `.`, or what precedes its last `.` is badly formed.
    InvalidDomain,
    /// What follows the last `.` is not two to six ASCII letters.
    InvalidTopLevelDomain,
}

pub open spec fn is_ascii_letter(c: char) -> bool {
    ('a' <= c && c <= 'z') || ('A' <= c && c <= 'Z')
}

pub open spec fn is_ascii_alnum(c: char) -> bool {
    is_ascii_letter(c) || ('0' <= c && c <= '9')
}

/// The characters that may join two runs of letters and digits: in the
/// local part (`in_local`) or in the host.
pub open spec fn is_separator(c: char, in_local: bool) -> bool {
    if in_local {
        c == '.' || c == '_' || c == '-' || c == '+'
    } else {
        c == '.' || c == '-'
    }
}

/// `s` is runs of ASCII letters and digits joined by single separators.
#[verifier::opaque]
pub open spec fn well_joined(s: Seq<char>, in_local: bool) -> bool {
    &&& s.len() > 0
    &&& is_ascii_alnum(s[0])
    &&& is_ascii_alnum(s[s.len() - 1])
    &&& forall|i: int| 0 <= i < s.len() ==> is_ascii_alnum(s[i]) || is_separator(s[i], in_local)
    &&& forall|i: int|
        0 <= i < s.len() - 1 && #[trigger] is_separator(s[i], in_local) ==> is_ascii_alnum(s[i + 1])
}

#[verifier::opaque]
pub open spec fn is_top_level_domain(s: Seq<char>) -> bool {
    &&& 2 <= s.len() <= 6
    &&& forall|i: int| 0 <= i < s.len() ==> is_ascii_letter(#[trigger] s[i])
}

/// Index of the last occurrence of `c` in `s`, or -1.
pub open spec fn last_index_of(s: Seq<char>, c: char) -> int
    decreases s.len(),
{
    if s.len() == 0 {
        -1
    } else if s[s.len() - 1] == c {
        s.len() - 1
    } else {
        last_index_of(s.drop_last(), c)
    }
}

/// The outcome of checking `s` as an address, the first failing rule deciding the error.
pub open spec fn email_check(s: Seq<char>) -> Result<(), EmailValidationErr> {
    let at = last_index_of(s, '@');
    if at < 0 || s.take(at).contains('@') {
        Err(EmailValidationErr::NoSingleAtSign)
    } else if !well_joined(s.take(at), true) {
        Err(EmailValidationErr::InvalidLocalPart)
    } else {
        let domain = s.skip(at + 1);
        let dot = last_index_of(domain, '.');
        if dot < 0 || !well_joined(domain.take(dot), false) {
            Err(EmailValidationErr::InvalidDomain)
        } else if !is_top_level_domain(domain.skip(dot + 1)) {
            Err(EmailValidationErr::InvalidTopLevelDomain)
        } else {
            Ok(())
        }
    }
}

pub open spec fn is_valid_email(s: Seq<char>) -> bool {
    email_check(s) is Ok
}

proof fn lemma_last_index_bounds(s: Seq<char>, c: char)
    ensures
        -1 <= last_index_of(s, c) < s.len(),
        last_index_of(s, c) >= 0 ==> s[last_index_of(s, c)] == c,
        forall|k: int| last_index_of(s, c) < k < s.len() ==> s[k] != c,
    decreases s.len(),
{
    if s.len() > 0 && s[s.len() - 1] != c {
        lemma_last_index_bounds(s.drop_last(), c);
        assert forall|k: int| last_index_of(s, c) < k < s.len() implies s[k] != c by {
            if k < s.len() - 1 {
                assert(s[k] == s.drop_last()[k]);
            }
        }
    }
}

/// The address assembled from a local part, a host and a top-level domain.
pub open spec fn assembled(local: Seq<char>, host: Seq<char>, tld: Seq<char>) -> Seq<char> {
    local + seq!['@'] + host + seq!['.'] + tld
}

proof fn lemma_last_index_after(a: Seq<char>, c: char, b: Seq<char>)
    requires
        !b.contains(c),
    ensures
        last_index_of(a + seq![c] + b, c) == a.len(),
    decreases b.len(),
{
    let s = a + seq![c] + b;
    if b.len() == 0 {
        assert(s[s.len() - 1] == c);
    } else {
        assert(s[s.len() - 1] == b[b.len() - 1]);
        assert(!b.drop_last().contains(c)) by {
            if b.drop_last().contains(c) {
                let k = choose|k: int| 0 <= k < b.drop_last().len() && b.drop_last()[k] == c;
                assert(b[k] == c);
            }
        }
        lemma_last_index_after(a, c, b.drop_last());
        assert(s.drop_last() =~= a + seq![c] + b.drop_last());
    }
}

proof fn lemma_joined_has_no(s: Seq<char>, in_local: bool, c: char)
    requires
        well_joined(s, in_local),
        c == '@',
    ensures
        !s.contains(c),
{
    reveal(well_joined);
    if s.contains(c) {
        let k = choose|k: int| 0 <= k < s.len() && s[k] == c;
        assert(is_ascii_alnum(s[k]) || is_separator(s[k], in_local));
    }
}

proof fn lemma_tld_has_no(t: Seq<char>, c: char)
    requires
        is_top_level_domain(t),
        !is_ascii_letter(c),
    ensures
        !t.contains(c),
{
    reveal(is_top_level_domain);
    if t.contains(c) {
        let k = choose|k: int| 0 <= k < t.len() && t[k] == c;
        assert(is_ascii_letter(t[k]));
    }
}

/// An address is accepted exactly when it is `local@host.tld` with a well
/// formed local part, a well formed host and a top-level domain.
pub proof fn law_email_shape(s: Seq<char>)
    ensures
        is_valid_email(s) <==> exists|local: Seq<char>, host: Seq<char>, tld: Seq<char>|
            well_joined(local, true) && well_joined(host, false) && is_top_level_domain(tld)
                && s == #[trigger] assembled(local, host, tld),
{
    if is_valid_email(s) {
        let at = last_index_of(s, '@');
        lemma_last_index_bounds(s, '@');
        let domain = s.skip(at + 1);
        let dot = last_index_of(domain, '.');
        lemma_last_index_bounds(domain, '.');
        let local = s.take(at);
        let host = domain.take(dot);
        let tld = domain.skip(dot + 1);
        assert(s =~= assembled(local, host, tld));
    }
    if exists|local: Seq<char>, host: Seq<char>, tld: Seq<char>|
        well_joined(local, true) && well_joined(host, false) && is_top_level_domain(tld)
            && s == #[trigger] assembled(local, host, tld) {
        let (local, host, tld) = choose|local: Seq<char>, host: Seq<char>, tld: Seq<char>|
            well_joined(local, true) && well_joined(host, false) && is_top_level_domain(tld)
                && s == #[trigger] assembled(local, host, tld);
        let rest = host + seq!['.'] + tld;
        lemma_joined_has_no(local, true, '@');
        lemma_joined_has_no(host, false, '@');
        lemma_tld_has_no(tld, '@');
        lemma_tld_has_no(tld, '.');
        assert(!rest.contains('@')) by {
            if rest.contains('@') {
                let k = choose|k: int| 0 <= k < rest.len() && rest[k] == '@';
                if k < host.len() {
                    assert(host[k] == '@');
                } else if k > host.len() {
                    assert(tld[k - host.len() - 1] == '@');
                }
            }
        }
        assert(s =~= local + seq!['@'] + rest);
        lemma_last_index_after(local, '@', rest);
        let at = last_index_of(s, '@');
        assert(s.take(at) =~= local);
        let domain = s.skip(at + 1);
        assert(domain =~= host + seq!['.'] + tld);
        lemma_last_index_after(host, '.', tld);
        let dot = last_index_of(domain, '.');
        assert(domain.take(dot) =~= host);
        assert(domain.skip(dot + 1) =~= tld);
    }
}

/// What a well joined part is, character by character: nonempty; made only of
/// ASCII letters, digits and the part's separators (`.` `_` `-` `+` in the
/// local part, `.` `-` in the host); starting and ending with a letter or a
/// digit; and every separator followed by a letter or a digit.
pub proof fn law_well_joined(s: Seq<char>, in_local: bool)
    ensures
        well_joined(s, in_local) <==> {
            &&& s.len() > 0
            &&& forall|i: int|
                0 <= i < s.len() ==> {
                    let c = #[trigger] s[i];
                    ||| 'a' <= c && c <= 'z'
                    ||| 'A' <= c && c <= 'Z'
                    ||| '0' <= c && c <= '9'
                    ||| c == '.'
                    ||| c == '-'
                    ||| in_local && (c == '_' || c == '+')
                }
            &&& ('a' <= s[0] && s[0] <= 'z') || ('A' <= s[0] && s[0] <= 'Z') || ('0' <= s[0]
                && s[0] <= '9')
            &&& ('a' <= s[s.len() - 1] && s[s.len() - 1] <= 'z') || ('A' <= s[s.len() - 1]
                && s[s.len() - 1] <= 'Z') || ('0' <= s[s.len() - 1] && s[s.len() - 1] <= '9')
            &&& forall|i: int|
                0 <= i < s.len() - 1 && (s[i] == '.' || s[i] == '-' || s[i] == '_' || s[i] == '+')
                    ==> {
                    let d = #[trigger] s[i + 1];
                    ('a' <= d && d <= 'z') || ('A' <= d && d <= 'Z') || ('0' <= d && d <= '9')
                }
        },
{
    reveal(well_joined);
    if well_joined(s, in_local) {
        assert forall|i: int|
            0 <= i < s.len() - 1 && (s[i] == '.' || s[i] == '-' || s[i] == '_' || s[i] == '+')
                implies {
                let d = #[trigger] s[i + 1];
                ('a' <= d && d <= 'z') || ('A' <= d && d <= 'Z') || ('0' <= d && d <= '9')
            } by {
            assert(is_ascii_alnum(s[i]) || is_separator(s[i], in_local));
            assert(is_separator(s[i], in_local));
        }
    }
    if s.len() > 0 && (forall|i: int|
        0 <= i < s.len() ==> {
            let c = #[trigger] s[i];
            ||| 'a' <= c && c <= 'z'
            ||| 'A' <= c && c <= 'Z'
            ||| '0' <= c && c <= '9'
            ||| c == '.'
            ||| c == '-'
            ||| in_local && (c == '_' || c == '+')
        }) && (forall|i: int|
        0 <= i < s.len() - 1 && (s[i] == '.' || s[i] == '-' || s[i] == '_' || s[i] == '+') ==> {
            let d = #[trigger] s[i + 1];
            ('a' <= d && d <= 'z') || ('A' <= d && d <= 'Z') || ('0' <= d && d <= '9')
        }) {
        assert forall|i: int| 0 <= i < s.len() - 1 && #[trigger] is_separator(s[i], in_local) implies is_ascii_alnum(s[i + 1]) by {
            let d = s[i + 1];
            assert(('a' <= d && d <= 'z') || ('A' <= d && d <= 'Z') || ('0' <= d && d <= '9'));
        }
    }
}

/// A top-level domain is two to six ASCII letters.
pub proof fn law_top_level_domain(t: Seq<char>)
    ensures
        is_top_level_domain(t) <==> 2 <= t.len() <= 6 && forall|i: int|
            0 <= i < t.len() ==> ('a' <= #[trigger] t[i] && t[i] <= 'z') || ('A' <= t[i] && t[i]
                <= 'Z'),
{
    reveal(is_top_level_domain);
}

proof fn lemma_last_index_absent(s: Seq<char>, c: char)
    requires
        !s.contains(c),
    ensures
        last_index_of(s, c) == -1,
    decreases s.len(),
{
    if s.len() > 0 {
        assert(s[s.len() - 1] != c);
        assert(!s.drop_last().contains(c)) by {
            if s.drop_last().contains(c) {
                let k = choose|k: int| 0 <= k < s.drop_last().len() && s.drop_last()[k] == c;
                assert(s[k] == c);
            }
        }
        lemma_last_index_absent(s.drop_last(), c);
    }
}

/// A text without `@`, or with two, is refused for want of a single `@`.
pub proof fn law_email_at_sign(s: Seq<char>)
    ensures
        !s.contains('@') ==> email_check(s) == Err::<(), EmailValidationErr>(
            EmailValidationErr::NoSingleAtSign,
        ),
        (exists|i: int, j: int| 0 <= i < j < s.len() && s[i] == '@' && s[j] == '@')
            ==> email_check(s) == Err::<(), EmailValidationErr>(
            EmailValidationErr::NoSingleAtSign,
        ),
{
    if !s.contains('@') {
        lemma_last_index_absent(s, '@');
    }
    if exists|i: int, j: int| 0 <= i < j < s.len() && s[i] == '@' && s[j] == '@' {
        let (i, j) = choose|i: int, j: int| 0 <= i < j < s.len() && s[i] == '@' && s[j] == '@';
        lemma_last_index_bounds(s, '@');
        let at = last_index_of(s, '@');
        assert(at >= j);
        assert(s.take(at)[i] == '@');
    }
}

/// With a single `@`, a badly formed local part is refused as such, and
/// otherwise a domain without `.` is refused as a bad domain.
pub proof fn law_email_local_part(local: Seq<char>, domain: Seq<char>)
    requires
        !local.contains('@'),
        !domain.contains('@'),
    ensures
        !well_joined(local, true) ==> email_check(local + seq!['@'] + domain) == Err::<
            (),
            EmailValidationErr,
        >(EmailValidationErr::InvalidLocalPart),
        well_joined(local, true) && !domain.contains('.') ==> email_check(
            local + seq!['@'] + domain,
        ) == Err::<(), EmailValidationErr>(EmailValidationErr::InvalidDomain),
{
    let s = local + seq!['@'] + domain;
    lemma_last_index_after(local, '@', domain);
    assert(s.take(local.len() as int) =~= local);
    assert(s.skip(local.len() as int + 1) =~= domain);
    if !domain.contains('.') {
        lemma_last_index_absent(domain, '.');
    }
}

/// With a single `@`, a good local part and a domain `host.tld` where `tld`
/// holds no `.`: a bad host is refused as a bad domain, a good host with a
/// bad top-level domain as a bad top-level domain, and otherwise the address
/// is accepted.
pub proof fn law_email_domain(local: Seq<char>, host: Seq<char>, tld: Seq<char>)
    requires
        !local.contains('@'),
        well_joined(local, true),
        !host.contains('@'),
        !tld.contains('@'),
        !tld.contains('.'),
    ensures
        !well_joined(host, false) ==> email_check(assembled(local, host, tld)) == Err::<
            (),
            EmailValidationErr,
        >(EmailValidationErr::InvalidDomain),
        well_joined(host, false) && !is_top_level_domain(tld) ==> email_check(
            assembled(local, host, tld),
        ) == Err::<(), EmailValidationErr>(EmailValidationErr::InvalidTopLevelDomain),
        well_joined(host, false) && is_top_level_domain(tld) ==> email_check(
            assembled(local, host, tld),
        ) == Ok::<(), EmailValidationErr>(()),
{
    let s = assembled(local, host, tld);
    let domain = host + seq!['.'] + tld;
    assert(!domain.contains('@')) by {
        if domain.contains('@') {
            let k = choose|k: int| 0 <= k < domain.len() && domain[k] == '@';
            if k < host.len() {
                assert(host[k] == '@');
            } else if k > host.len() {
                assert(tld[k - host.len() - 1] == '@');
            }
        }
    }
    assert(s =~= local + seq!['@'] + domain);
    lemma_last_index_after(local, '@', domain);
    assert(s.take(local.len() as int) =~= local);
    assert(s.skip(local.len() as int + 1) =~= domain);
    lemma_last_index_after(host, '.', tld);
    assert(domain.take(host.len() as int) =~= host);
    assert(domain.skip(host.len() as int + 1) =~= tld);
}

fn ascii_letter(c: char) -> (r: bool)
    ensures
        r == is_ascii_letter(c),
{
    ('a' <= c && c <= 'z') || ('A' <= c && c <= 'Z')
}

fn ascii_alnum(c: char) -> (r: bool)
    ensures
        r == is_ascii_alnum(c),
{
    ascii_letter(c) || ('0' <= c && c <= '9')
}

fn separator(c: char, in_local: bool) -> (r: bool)
    ensures
        r == is_separator(c, in_local),
{
    if in_local {
        c == '.' || c == '_' || c == '-' || c == '+'
    } else {
        c == '.' || c == '-'
    }
}

/// Last index of `c` in `v[lo..hi]`, counted from `lo`.
fn last_index_in(v: &Vec<char>, lo: usize, hi: usize, c: char) -> (r: Option<usize>)
    requires
        lo <= hi <= v@.len(),
    ensures
        match r {
            Some(k) => k as int == last_index_of(v@.subrange(lo as int, hi as int), c),
            None => last_index_of(v@.subrange(lo as int, hi as int), c) == -1,
        },
{
    let mut j = hi;
    while j > lo
        invariant
            lo <= j <= hi <= v@.len(),
            last_index_of(v@.subrange(lo as int, hi as int), c) == last_index_of(
                v@.subrange(lo as int, j as int),
                c,
            ),
        decreases j,
    {
        if v[j - 1] == c {
            return Some(j - 1 - lo);
        }
        assert(v@.subrange(lo as int, j as int).drop_last() =~= v@.subrange(
            lo as int,
            (j - 1) as int,
        ));
        j -= 1;
    }
    None
}

/// Whether `c` occurs in `v[lo..hi]`.
fn occurs_in(v: &Vec<char>, lo: usize, hi: usize, c: char) -> (r: bool)
    requires
        lo <= hi <= v@.len(),
    ensures
        r == v@.subrange(lo as int, hi as int).contains(c),
{
    let ghost s = v@.subrange(lo as int, hi as int);
    let mut i = lo;
    while i < hi
        invariant
            lo <= i <= hi <= v@.len(),
            s == v@.subrange(lo as int, hi as int),
            forall|k: int| lo <= k < i ==> v@[k] != c,
        decreases hi - i,
    {
        if v[i] == c {
            assert(s[i - lo] == c);
            return true;
        }
        i += 1;
    }
    assert forall|k: int| 0 <= k < s.len() implies s[k] != c by {
        assert(s[k] == v@[lo + k]);
    }
    false
}

/// Whether `v[lo..hi]` is well joined.
fn well_joined_in(v: &Vec<char>, lo: usize, hi: usize, in_local: bool) -> (r: bool)
    requires
        lo <= hi <= v@.len(),
    ensures
        r == well_joined(v@.subrange(lo as int, hi as int), in_local),
{
    reveal(well_joined);
    let ghost s = v@.subrange(lo as int, hi as int);
    if lo == hi {
        return false;
    }
    if !ascii_alnum(v[lo]) || !ascii_alnum(v[hi - 1]) {
        return false;
    }
    let mut i = lo;
    while i < hi
        invariant
            lo < hi <= v@.len(),
            lo <= i <= hi,
            s == v@.subrange(lo as int, hi as int),
            forall|k: int| 0 <= k < i - lo ==> is_ascii_alnum(s[k]) || is_separator(s[k], in_local),
            forall|k: int|
                0 <= k < i - lo && k < s.len() - 1 && #[trigger] is_separator(s[k], in_local)
                    ==> is_ascii_alnum(s[k + 1]),
        decreases hi - i,
    {
        let c = v[i];
        assert(s[i - lo] == c);
        let is_sep = separator(c, in_local);
        if !ascii_alnum(c) && !is_sep {
            proof {
                reveal(well_joined);
            }
            return false;
        }
        if is_sep && i + 1 < hi {
            let d = v[i + 1];
            assert(s[i - lo + 1] == d);
            if !ascii_alnum(d) {
                proof {
                    reveal(well_joined);
                    assert(is_separator(s[i - lo], in_local));
                }
                return false;
            }
        }
        i += 1;
    }
    true
}

/// Whether `v[lo..hi]` is a top-level domain.
fn top_level_domain_in(v: &Vec<char>, lo: usize, hi: usize) -> (r: bool)
    requires
        lo <= hi <= v@.len(),
    ensures
        r == is_top_level_domain(v@.subrange(lo as int, hi as int)),
{
    reveal(is_top_level_domain);
    let ghost s = v@.subrange(lo as int, hi as int);
    if hi - lo < 2 || hi - lo > 6 {
        return false;
    }
    let mut i = lo;
    while i < hi
        invariant
            lo <= i <= hi <= v@.len(),
            s == v@.subrange(lo as int, hi as int),
            forall|k: int| 0 <= k < i - lo ==> is_ascii_letter(#[trigger] s[k]),
        decreases hi - i,
    {
        assert(s[i - lo] == v@[i as int]);
        if !ascii_letter(v[i]) {
            proof {
                reveal(is_top_level_domain);
            }
            return false;
        }
        i += 1;
    }
    true
}

/// Checks the characters of an address.
fn check_chars(v: &Vec<char>) -> (r: Result<(), EmailValidationErr>)
    ensures
        r == email_check(v@),
{
    let n = v.len();
    let ghost s = v@;
    assert(s.subrange(0, n as int) =~= s);
    let at = match last_index_in(v, 0, n, '@') {
        None => return Err(EmailValidationErr::NoSingleAtSign),
        Some(at) => at,
    };
    proof {
        lemma_last_index_bounds(s, '@');
    }
    assert(s.take(at as int) =~= s.subrange(0, at as int));
    if occurs_in(v, 0, at, '@') {
        return Err(EmailValidationErr::NoSingleAtSign);
    }
    if !well_joined_in(v, 0, at, true) {
        return Err(EmailValidationErr::InvalidLocalPart);
    }
    let ghost domain = s.skip(at + 1);
    assert(domain =~= s.subrange(at + 1, n as int));
    let dot = match last_index_in(v, at + 1, n, '.') {
        None => return Err(EmailValidationErr::InvalidDomain),
        Some(dot) => dot,
    };
    proof {
        lemma_last_index_bounds(domain, '.');
    }
    assert(domain.take(dot as int) =~= s.subrange(at + 1, at + 1 + dot));
    if !well_joined_in(v, at + 1, at + 1 + dot, false) {
        return Err(EmailValidationErr::InvalidDomain);
    }
    assert(domain.skip(dot + 1) =~= s.subrange(at + 1 + dot + 1, n as int));
    if !top_level_domain_in(v, at + 1 + dot + 1, n) {
        return Err(EmailValidationErr::InvalidTopLevelDomain);
    }
    Ok(())
}

/// A checked e-mail address.
#[derive(Debug)]
pub struct Email {
    value: String,
}

impl View for Email {
    type V = Seq<char>;

    closed spec fn view(&self) -> Seq<char> {
        self.value@
    }
}

impl Email {
    #[verifier::type_invariant]
    spec fn inv(self) -> bool {
        is_valid_email(self.value@)
    }

    /// Checks `s` and keeps it as an address when it is one.
    pub fn parse(s: &str) -> (r: Result<Email, EmailValidationErr>)
        ensures
            match r {
                Ok(e) => e@ == s@ && is_valid_email(s@),
                Err(err) => email_check(s@) == Err::<(), EmailValidationErr>(err),
            },
    {
        let v = chars_of(s);
        match check_chars(&v) {
            Ok(()) => Ok(Email { value: s.to_owned() }),
            Err(e) => Err(e),
        }
    }

    /// The address as text.
    pub fn as_ref(&self) -> (r: &str)
        ensures
            r@ == self@,
    {
        self.value.as_str()
    }
}

impl Clone for Email {
    fn clone(&self) -> (r: Email)
        ensures
            r@ == self@,
    {
        proof {
            use_type_invariant(self);
        }
        Email { value: self.value.clone() }
    }
}

impl PartialEq for Email {
    fn eq(&self, other: &Email) -> (r: bool) {
        self.value == other.value
    }
}

impl vstd::std_specs::cmp::PartialEqSpecImpl for Email {
    open spec fn obeys_eq_spec() -> bool {
        true
    }

    open spec fn eq_spec(&self, other: &Email) -> bool {
        self@ == other@
    }
}

} // verus!
