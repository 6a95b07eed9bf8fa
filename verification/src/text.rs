//! Text primitives shared by the rest of the library.
//!
//! Strings are modelled by their sequence of characters (`s@`); where byte
//! order matters, by their UTF-8 bytes (`s.spec_bytes()`).

use vstd::prelude::*;
use vstd::string::*;
use vstd::utf8::*;

verus! {

/// Strict lexicographic order on byte sequences.
pub open spec fn bytes_before(a: Seq<u8>, b: Seq<u8>) -> bool
    decreases a.len(),
{
    if b.len() == 0 {
        false
    } else if a.len() == 0 {
        true
    } else if a[0] != b[0] {
        a[0] < b[0]
    } else {
        bytes_before(a.drop_first(), b.drop_first())
    }
}

/// Two sequences that agree on their first `i` items are ordered as their
/// remainders are.
proof fn lemma_bytes_before_skip(a: Seq<u8>, b: Seq<u8>, i: int)
    requires
        0 <= i <= a.len(),
        i <= b.len(),
        forall|k: int| 0 <= k < i ==> a[k] == b[k],
    ensures
        bytes_before(a, b) == bytes_before(a.skip(i), b.skip(i)),
    decreases i,
{
    if i == 0 {
        assert(a.skip(0) =~= a);
        assert(b.skip(0) =~= b);
    } else {
        assert forall|k: int| 0 <= k < i - 1 implies a.drop_first()[k] == b.drop_first()[k] by {
            assert(a.drop_first()[k] == a[k + 1]);
            assert(b.drop_first()[k] == b[k + 1]);
        }
        lemma_bytes_before_skip(a.drop_first(), b.drop_first(), i - 1);
        assert(a.drop_first().skip(i - 1) =~= a.skip(i));
        assert(b.drop_first().skip(i - 1) =~= b.skip(i));
    }
}

/// No byte sequence stands before itself.
pub proof fn lemma_bytes_before_irreflexive(a: Seq<u8>)
    ensures
        !bytes_before(a, a),
    decreases a.len(),
{
    if a.len() > 0 {
        lemma_bytes_before_irreflexive(a.drop_first());
    }
}

/// What stands before a sequence stands before everything behind it.
pub proof fn lemma_bytes_before_transitive(a: Seq<u8>, b: Seq<u8>, c: Seq<u8>)
    requires
        bytes_before(a, b),
        bytes_before(b, c),
    ensures
        bytes_before(a, c),
    decreases a.len(),
{
    if a.len() > 0 && a[0] == b[0] && b[0] == c[0] {
        lemma_bytes_before_transitive(a.drop_first(), b.drop_first(), c.drop_first());
    }
}

/// Whether two strings hold the same characters.
pub fn text_eq(a: &str, b: &str) -> (same: bool)
    ensures
        same == (a@ == b@),
{
    let x = a.as_bytes();
    let y = b.as_bytes();
    if x.len() != y.len() {
        return false;
    }
    let mut i: usize = 0;
    while i < x.len()
        invariant
            i <= x.len(),
            x.len() == y.len(),
            x@ == a.spec_bytes(),
            y@ == b.spec_bytes(),
            forall|k: int| 0 <= k < i ==> x@[k] == y@[k],
        decreases x.len() - i,
    {
        if x[i] != y[i] {
            return false;
        }
        i += 1;
    }
    proof {
        assert(x@ =~= y@);
        encode_utf8_decode_utf8(a@);
        encode_utf8_decode_utf8(b@);
    }
    true
}

/// Whether `a` sorts strictly before `b`, byte by byte.
pub fn text_before(a: &str, b: &str) -> (before: bool)
    ensures
        before == bytes_before(a.spec_bytes(), b.spec_bytes()),
{
    let x = a.as_bytes();
    let y = b.as_bytes();
    let mut i: usize = 0;
    while i < x.len() && i < y.len()
        invariant
            i <= x.len(),
            i <= y.len(),
            x@ == a.spec_bytes(),
            y@ == b.spec_bytes(),
            forall|k: int| 0 <= k < i ==> x@[k] == y@[k],
        decreases x.len() - i,
    {
        if x[i] != y[i] {
            proof {
                lemma_bytes_before_skip(x@, y@, i as int);
            }
            return x[i] < y[i];
        }
        i += 1;
    }
    proof {
        lemma_bytes_before_skip(x@, y@, i as int);
    }
    i < y.len()
}

/// The characters of a string.
pub fn chars_of(s: &str) -> (chars: Vec<char>)
    ensures
        chars@ == s@,
{
    let mut chars: Vec<char> = Vec::new();
    for c in it: s.chars()
        invariant
            it.seq() == s@,
            chars@ == s@.take(it.index() as int),
    {
        chars.push(c);
        assert(chars@ =~= s@.take(it.index() + 1));
    }
    assert(s@.take(s@.len() as int) =~= s@);
    chars
}

/// Whether `pat` stands in `hay` from the place `at` on.
fn matches_at(hay: &Vec<char>, at: usize, pat: &Vec<char>) -> (yes: bool)
    requires
        at <= hay.len(),
    ensures
        yes == pat@.is_prefix_of(hay@.skip(at as int)),
{
    if pat.len() > hay.len() - at {
        return false;
    }
    let mut k: usize = 0;
    while k < pat.len()
        invariant
            k <= pat.len(),
            at + pat.len() <= hay.len(),
            forall|j: int| 0 <= j < k ==> pat@[j] == hay@[at + j],
        decreases pat.len() - k,
    {
        if pat[k] != hay[at + k] {
            assert(hay@.skip(at as int).subrange(0, pat@.len() as int)[k as int] == hay@[at + k]);
            return false;
        }
        k += 1;
    }
    assert(pat@ =~= hay@.skip(at as int).subrange(0, pat@.len() as int));
    true
}

/// The rest of `s` after `prefix` where `s` starts with it, nothing where
/// it does not.
pub fn strip_prefix<'a>(s: &'a str, prefix: &str) -> (rest: Option<&'a str>)
    ensures
        match rest {
            Some(r) => s@ == prefix@ + r@,
            None => !prefix@.is_prefix_of(s@),
        },
{
    let hay = chars_of(s);
    let pat = chars_of(prefix);
    proof {
        assert(hay@.skip(0) =~= hay@);
    }
    if matches_at(&hay, 0, &pat) {
        let rest = s.substring_char(pat.len(), hay.len());
        assert(s@ =~= prefix@ + rest@);
        Some(rest)
    } else {
        None
    }
}

/// Whether `pat` occurs in `s` as a run of consecutive characters.
pub open spec fn occurs_in(pat: Seq<char>, s: Seq<char>) -> bool {
    exists|i: int| 0 <= i && i + pat.len() <= s.len() && #[trigger] s.subrange(i, i + pat.len()) == pat
}

/// The lower-case form of a string, as `str::to_lowercase` gives it.
pub uninterp spec fn lowercase_of(s: Seq<char>) -> Seq<char>;

/// `str::to_lowercase`.
#[verifier::external_body]
pub(crate) fn to_lowercase(s: &str) -> (lower: String)
    ensures
        lower@ == lowercase_of(s@),
{
    s.to_lowercase()
}

/// The place of the first occurrence of `pat` in `s`: the least number of
/// characters of `s` behind which `pat` stands.
pub open spec fn first_occurrence(s: Seq<char>, pat: Seq<char>) -> Option<int>
    decreases s.len(),
{
    if pat.is_prefix_of(s) {
        Some(0)
    } else if s.len() == 0 {
        None
    } else {
        match first_occurrence(s.drop_first(), pat) {
            Some(i) => Some(i + 1),
            None => None,
        }
    }
}

/// The first occurrence of a pattern is an occurrence, and the first: the
/// pattern stands at its place and at no place ahead of it. A pattern
/// without first occurrence does not occur.
pub proof fn lemma_first_occurrence(s: Seq<char>, pat: Seq<char>)
    ensures
        match first_occurrence(s, pat) {
            Some(i) => {
                &&& 0 <= i
                &&& i + pat.len() <= s.len()
                &&& s.subrange(i, i + pat.len()) == pat
                &&& forall|j: int|
                    0 <= j < i ==> !(j + pat.len() <= s.len() && #[trigger] s.subrange(
                        j,
                        j + pat.len(),
                    ) == pat)
                &&& occurs_in(pat, s)
            },
            None => !occurs_in(pat, s),
        },
    decreases s.len(),
{
    if pat.is_prefix_of(s) {
        assert(s.subrange(0, pat.len() as int) =~= pat);
    } else if s.len() == 0 {
        assert forall|i: int| 0 <= i && i + pat.len() <= s.len() implies #[trigger] s.subrange(
            i,
            i + pat.len(),
        ) != pat by {
            assert(i == 0 && pat.len() == 0);
            assert(pat =~= s.subrange(0, pat.len() as int));
        }
    } else {
        let rest = s.drop_first();
        lemma_first_occurrence(rest, pat);
        match first_occurrence(rest, pat) {
            Some(i) => {
                assert(rest.subrange(i, i + pat.len()) =~= s.subrange(i + 1, i + 1 + pat.len()));
                assert forall|j: int| 0 <= j < i + 1 implies !(j + pat.len() <= s.len()
                    && #[trigger] s.subrange(j, j + pat.len()) == pat) by {
                    if j + pat.len() <= s.len() {
                        if j == 0 {
                            assert(s.subrange(0, pat.len() as int) != pat);
                        } else {
                            assert(rest.subrange(j - 1, j - 1 + pat.len()) =~= s.subrange(
                                j,
                                j + pat.len(),
                            ));
                        }
                    }
                }
            },
            None => {
                assert forall|i: int|
                    0 <= i && i + pat.len() <= s.len() implies #[trigger] s.subrange(
                    i,
                    i + pat.len(),
                ) != pat by {
                    if i == 0 {
                        assert(s.subrange(0, pat.len() as int) != pat);
                    } else {
                        assert(rest.subrange(i - 1, i - 1 + pat.len()) =~= s.subrange(
                            i,
                            i + pat.len(),
                        ));
                    }
                }
            },
        }
    }
}

/// The place of the first occurrence of `pat` in `hay`.
fn find_in(hay: &Vec<char>, pat: &Vec<char>) -> (at: Option<usize>)
    ensures
        match at {
            Some(i) => first_occurrence(hay@, pat@) == Some(i as int),
            None => first_occurrence(hay@, pat@) is None,
        },
{
    let mut at: usize = 0;
    proof {
        assert(hay@.skip(0) =~= hay@);
    }
    loop
        invariant
            at <= hay.len(),
            first_occurrence(hay@, pat@) == (match first_occurrence(hay@.skip(at as int), pat@) {
                Some(i) => Some(i + at),
                None => None,
            }),
        decreases hay.len() - at,
    {
        if matches_at(hay, at, pat) {
            return Some(at);
        }
        if at == hay.len() {
            return None;
        }
        proof {
            assert(hay@.skip(at as int).drop_first() =~= hay@.skip(at + 1));
        }
        at += 1;
    }
}

/// Whether `pat` occurs in `s`.
pub fn contains(s: &str, pat: &str) -> (found: bool)
    ensures
        found == occurs_in(pat@, s@),
{
    let hay = chars_of(s);
    let needle = chars_of(pat);
    proof {
        lemma_first_occurrence(s@, pat@);
    }
    find_in(&hay, &needle).is_some()
}

/// What stands before and what stands behind the first occurrence of `pat`
/// in `s`, nothing where `pat` does not occur.
pub fn split_once<'a>(s: &'a str, pat: &str) -> (parts: Option<(&'a str, &'a str)>)
    ensures
        match parts {
            Some((head, tail)) => first_occurrence(s@, pat@) is Some && head@ == s@.take(
                first_occurrence(s@, pat@)->0,
            ) && tail@ == s@.skip(first_occurrence(s@, pat@)->0 + pat@.len()),
            None => first_occurrence(s@, pat@) is None,
        },
{
    let hay = chars_of(s);
    let needle = chars_of(pat);
    proof {
        lemma_first_occurrence(s@, pat@);
    }
    match find_in(&hay, &needle) {
        Some(i) => {
            proof {
                lemma_first_occurrence(hay@, needle@);
            }
            assert(i + needle.len() <= hay.len());
            let head = s.substring_char(0, i);
            let tail = s.substring_char(i + needle.len(), hay.len());
            assert(head@ =~= s@.take(i as int));
            assert(tail@ =~= s@.skip(i + pat@.len()));
            Some((head, tail))
        },
        None => None,
    }
}

/// A string without the white space at its ends, as `str::trim` gives it.
pub uninterp spec fn trimmed_of(s: Seq<char>) -> Seq<char>;

/// `str::trim`.
#[verifier::external_body]
pub(crate) fn trim<'a>(s: &'a str) -> (trimmed: &'a str)
    ensures
        trimmed@ == trimmed_of(s@),
{
    s.trim()
}

/// What stands before and what stands behind the last colon of `s`,
/// nothing where `s` holds no colon.
pub fn rsplit_once_colon<'a>(s: &'a str) -> (parts: Option<(&'a str, &'a str)>)
    ensures
        match parts {
            Some((head, tail)) => s@ == head@ + seq![':'] + tail@ && !tail@.contains(':'),
            None => !s@.contains(':'),
        },
{
    let hay = chars_of(s);
    let mut at: usize = hay.len();
    while at > 0
        invariant
            at <= hay.len(),
            hay@ == s@,
            forall|j: int| at <= j < hay.len() ==> hay@[j] != ':',
        decreases at,
    {
        at -= 1;
        if hay[at] == ':' {
            let head = s.substring_char(0, at);
            let tail = s.substring_char(at + 1, hay.len());
            assert(s@ =~= head@ + seq![':'] + tail@);
            assert forall|j: int| 0 <= j < tail@.len() implies tail@[j] != ':' by {
                assert(tail@[j] == hay@[at + 1 + j]);
            }
            return Some((head, tail));
        }
    }
    None
}

/// The parts of a string about its last colon.
pub open spec fn split_at_last_colon(s: Seq<char>) -> Option<(Seq<char>, Seq<char>)> {
    if s.contains(':') {
        let at = choose|i: int| 0 <= i < s.len() && s[i] == ':' && !s.skip(i + 1).contains(':');
        Some((s.take(at), s.skip(at + 1)))
    } else {
        None
    }
}

/// A string has one last colon at most: parts about a colon of which the
/// second holds none are the parts about the last colon.
pub proof fn lemma_last_colon_unique(s: Seq<char>, head: Seq<char>, tail: Seq<char>)
    requires
        s == head + seq![':'] + tail,
        !tail.contains(':'),
    ensures
        split_at_last_colon(s) == Some((head, tail)),
{
    let at0 = head.len() as int;
    assert(s[at0] == ':');
    assert(s.skip(at0 + 1) =~= tail);
    assert(s.take(at0) =~= head);
    assert(s.contains(':'));
    let at = choose|i: int| 0 <= i < s.len() && s[i] == ':' && !s.skip(i + 1).contains(':');
    if at < at0 {
        assert(s.skip(at + 1)[at0 - at - 1] == ':');
        assert(s.skip(at + 1).contains(':'));
    } else if at > at0 {
        assert(tail[at - at0 - 1] == ':');
        assert(tail.contains(':'));
    }
}

/// The decimal digit of a value below ten.
pub open spec fn digit_of(value: int) -> char {
    if value == 0 {
        '0'
    } else if value == 1 {
        '1'
    } else if value == 2 {
        '2'
    } else if value == 3 {
        '3'
    } else if value == 4 {
        '4'
    } else if value == 5 {
        '5'
    } else if value == 6 {
        '6'
    } else if value == 7 {
        '7'
    } else if value == 8 {
        '8'
    } else {
        '9'
    }
}

/// A number in decimal digits, without leading zeros.
pub open spec fn decimal_of(n: nat) -> Seq<char>
    decreases n,
{
    if n < 10 {
        seq![digit_of(n as int)]
    } else {
        decimal_of(n / 10).push(digit_of((n % 10) as int))
    }
}

/// The decimal digit of a value below ten, as a string.
fn digit_text(value: u64) -> (text: &'static str)
    requires
        value < 10,
    ensures
        text@ == seq![digit_of(value as int)],
{
    proof {
        reveal_strlit("0");
        reveal_strlit("1");
        reveal_strlit("2");
        reveal_strlit("3");
        reveal_strlit("4");
        reveal_strlit("5");
        reveal_strlit("6");
        reveal_strlit("7");
        reveal_strlit("8");
        reveal_strlit("9");
    }
    let text = if value == 0 {
        "0"
    } else if value == 1 {
        "1"
    } else if value == 2 {
        "2"
    } else if value == 3 {
        "3"
    } else if value == 4 {
        "4"
    } else if value == 5 {
        "5"
    } else if value == 6 {
        "6"
    } else if value == 7 {
        "7"
    } else if value == 8 {
        "8"
    } else {
        "9"
    };
    assert(text@ =~= seq![digit_of(value as int)]);
    text
}

/// A number in decimal digits.
pub fn decimal_text(n: u64) -> (text: String)
    ensures
        text@ == decimal_of(n as nat),
    decreases n,
{
    if n < 10 {
        digit_text(n).to_owned()
    } else {
        let mut text = decimal_text(n / 10);
        text.append(digit_text(n % 10));
        assert(text@ =~= decimal_of(n as nat));
        text
    }
}

/// A number in decimal digits, with a minus sign in front where it is
/// below zero.
pub open spec fn signed_decimal_of(n: int) -> Seq<char> {
    if n < 0 {
        "-"@ + decimal_of((-n) as nat)
    } else {
        decimal_of(n as nat)
    }
}

/// A number in decimal digits, with its sign.
pub fn signed_decimal_text(n: i64) -> (text: String)
    ensures
        text@ == signed_decimal_of(n as int),
{
    if n < 0 {
        let magnitude: u64 = (-(n + 1)) as u64 + 1;
        let mut text = "-".to_owned();
        let digits = decimal_text(magnitude);
        text.append(digits.as_str());
        text
    } else {
        decimal_text(n as u64)
    }
}

/// Strings put one behind the other with `separator` between each two.
pub open spec fn joined(parts: Seq<Seq<char>>, separator: Seq<char>) -> Seq<char>
    decreases parts.len(),
{
    if parts.len() == 0 {
        Seq::empty()
    } else if parts.len() == 1 {
        parts[0]
    } else {
        joined(parts.drop_last(), separator) + separator + parts.last()
    }
}

/// Strings as plain values.
pub open spec fn texts_view(parts: Seq<String>) -> Seq<Seq<char>> {
    Seq::new(parts.len(), |i: int| parts[i]@)
}

/// Puts strings one behind the other with `separator` between each two.
pub fn join(parts: &Vec<String>, separator: &str) -> (text: String)
    ensures
        text@ == joined(texts_view(parts@), separator@),
{
    let ghost all = texts_view(parts@);
    let mut text = String::new();
    let mut i: usize = 0;
    proof {
        assert(all.take(0) =~= Seq::<Seq<char>>::empty());
    }
    while i < parts.len()
        invariant
            i <= parts.len(),
            all == texts_view(parts@),
            text@ == joined(all.take(i as int), separator@),
        decreases parts.len() - i,
    {
        proof {
            assert(all.take(i + 1).drop_last() =~= all.take(i as int));
            assert(all.take(i + 1).last() == parts@[i as int]@);
        }
        if i > 0 {
            text.append(separator);
        }
        text.append(parts[i].as_str());
        i += 1;
        proof {
            assert(text@ =~= joined(all.take(i as int), separator@));
        }
    }
    proof {
        assert(all.take(all.len() as int) =~= all);
    }
    text
}

} // verus!
