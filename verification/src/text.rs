//! Character- and byte-level predicates over text, shared by every validator.
//!
//! A string is seen two ways: as its characters (`s@`) and as its UTF-8
//! bytes (`s.spec_bytes()`). Lengths bounded in bytes use the second view.
use vstd::prelude::*;
use vstd::string::StringSliceAdditionalSpecFns;
use vstd::string::StrSliceExecFns;

verus! {

/// Unicode general category Cc: the C0 and C1 control characters and DEL.
pub open spec fn is_control_char(c: char) -> bool {
    (c as u32) < 0x20 || (0x7f <= (c as u32) && (c as u32) <= 0x9f)
}

/// Characters with the Unicode `White_Space` property.
pub open spec fn is_space_char(c: char) -> bool {
    let v = c as u32;
    ||| (0x09 <= v && v <= 0x0d)
    ||| v == 0x20
    ||| v == 0x85
    ||| v == 0xa0
    ||| v == 0x1680
    ||| (0x2000 <= v && v <= 0x200a)
    ||| v == 0x2028
    ||| v == 0x2029
    ||| v == 0x202f
    ||| v == 0x205f
    ||| v == 0x3000
}

pub open spec fn has_control(s: Seq<char>) -> bool {
    exists|i: int| 0 <= i < s.len() && #[trigger] is_control_char(s[i])
}

/// A text is blank when it is empty or made only of white space.
pub open spec fn is_blank(s: Seq<char>) -> bool {
    forall|i: int| 0 <= i < s.len() ==> #[trigger] is_space_char(s[i])
}

pub open spec fn ascii_lower(b: u8) -> u8 {
    if 65 <= b && b <= 90 {
        (b + 32) as u8
    } else {
        b
    }
}

pub open spec fn is_hex_byte(b: u8) -> bool {
    (48 <= b && b <= 57) || (97 <= b && b <= 102) || (65 <= b && b <= 70)
}

pub open spec fn all_hex(s: Seq<u8>) -> bool {
    forall|i: int| 0 <= i < s.len() ==> #[trigger] is_hex_byte(s[i])
}

/// `needle` occurs at `at` in `hay` once `hay` is lower-cased in ASCII.
pub open spec fn occurs_at_ci(hay: Seq<u8>, needle: Seq<u8>, at: int) -> bool {
    &&& 0 <= at
    &&& at + needle.len() <= hay.len()
    &&& forall|j: int| 0 <= j < needle.len() ==> ascii_lower(#[trigger] hay[at + j]) == needle[j]
}

pub open spec fn contains_ci(hay: Seq<u8>, needle: Seq<u8>) -> bool {
    exists|at: int| occurs_at_ci(hay, needle, at)
}

/// `needle` occurs at `at` in `hay`, byte for byte.
pub open spec fn occurs_at(hay: Seq<u8>, needle: Seq<u8>, at: int) -> bool {
    &&& 0 <= at
    &&& at + needle.len() <= hay.len()
    &&& forall|j: int| 0 <= j < needle.len() ==> #[trigger] hay[at + j] == needle[j]
}

pub open spec fn contains_bytes(hay: Seq<u8>, needle: Seq<u8>) -> bool {
    exists|at: int| occurs_at(hay, needle, at)
}

/// Length in UTF-8 bytes of a character sequence.
pub open spec fn utf8_len(s: Seq<char>) -> nat {
    vstd::utf8::encode_utf8(s).len()
}

/// Length of `s` in UTF-8 bytes (what `str::len` returns).
pub fn text_len(s: &str) -> (r: usize)
    ensures
        r == utf8_len(s@),
{
    s.as_bytes().len()
}

pub fn is_control(c: char) -> (r: bool)
    ensures
        r == is_control_char(c),
{
    let v = c as u32;
    v < 0x20 || (0x7f <= v && v <= 0x9f)
}

pub fn is_space(c: char) -> (r: bool)
    ensures
        r == is_space_char(c),
{
    let v = c as u32;
    (0x09 <= v && v <= 0x0d) || v == 0x20 || v == 0x85 || v == 0xa0 || v == 0x1680 || (0x2000
        <= v && v <= 0x200a) || v == 0x2028 || v == 0x2029 || v == 0x202f || v == 0x205f || v
        == 0x3000
}

/// Whether any character of `s` is a control character.
pub fn contains_control(s: &str) -> (r: bool)
    ensures
        r == has_control(s@),
{
    let n = s.unicode_len();
    let mut i: usize = 0;
    while i < n
        invariant
            n == s@.len(),
            i <= n,
            forall|k: int| 0 <= k < i ==> !is_control_char(#[trigger] s@[k]),
        decreases n - i,
    {
        let c = s.get_char(i);
        if is_control(c) {
            assert(is_control_char(s@[i as int]));
            return true;
        }
        i = i + 1;
    }
    false
}

/// Whether `s` is empty or white space only (what `s.trim().is_empty()` tests).
pub fn blank(s: &str) -> (r: bool)
    ensures
        r == is_blank(s@),
{
    let n = s.unicode_len();
    let mut i: usize = 0;
    while i < n
        invariant
            n == s@.len(),
            i <= n,
            forall|k: int| 0 <= k < i ==> is_space_char(#[trigger] s@[k]),
        decreases n - i,
    {
        let c = s.get_char(i);
        if !is_space(c) {
            assert(!is_space_char(s@[i as int]));
            return false;
        }
        i = i + 1;
    }
    true
}

pub fn lower_byte(b: u8) -> (r: u8)
    ensures
        r == ascii_lower(b),
{
    if 65 <= b && b <= 90 {
        b + 32
    } else {
        b
    }
}

pub fn hex_byte(b: u8) -> (r: bool)
    ensures
        r == is_hex_byte(b),
{
    (48 <= b && b <= 57) || (97 <= b && b <= 102) || (65 <= b && b <= 70)
}

/// Whether every byte of `s` is an ASCII hexadecimal digit.
pub fn all_hex_bytes(s: &[u8]) -> (r: bool)
    ensures
        r == all_hex(s@),
{
    let mut i: usize = 0;
    while i < s.len()
        invariant
            i <= s@.len(),
            forall|k: int| 0 <= k < i ==> is_hex_byte(#[trigger] s@[k]),
        decreases s@.len() - i,
    {
        if !hex_byte(s[i]) {
            assert(!is_hex_byte(s@[i as int]));
            return false;
        }
        i = i + 1;
    }
    true
}

fn occurs_here_ci(hay: &[u8], needle: &[u8], at: usize) -> (r: bool)
    requires
        at + needle@.len() <= hay@.len(),
    ensures
        r == occurs_at_ci(hay@, needle@, at as int),
{
    let hl = hay.len();
    let mut j: usize = 0;
    while j < needle.len()
        invariant
            at + needle@.len() <= hay@.len(),
            j <= needle@.len(),
            hl == hay@.len(),
            forall|k: int| 0 <= k < j ==> ascii_lower(#[trigger] hay@[at + k]) == needle@[k],
        decreases needle@.len() - j,
    {
        if lower_byte(hay[at + j]) != needle[j] {
            assert(ascii_lower(hay@[at + j as int]) != needle@[j as int]);
            return false;
        }
        j = j + 1;
    }
    true
}

/// Whether `needle` occurs in the ASCII-lower-cased `hay`.
pub fn find_ci(hay: &[u8], needle: &[u8]) -> (r: bool)
    ensures
        r == contains_ci(hay@, needle@),
{
    if needle.len() > hay.len() {
        assert forall|at: int| !occurs_at_ci(hay@, needle@, at) by {}
        return false;
    }
    let last = hay.len() - needle.len();
    let mut at: usize = 0;
    while at < last
        invariant
            last == hay@.len() - needle@.len(),
            at <= last,
            forall|k: int| 0 <= k < at ==> !occurs_at_ci(hay@, needle@, k),
        decreases last - at,
    {
        if occurs_here_ci(hay, needle, at) {
            return true;
        }
        at = at + 1;
    }
    if occurs_here_ci(hay, needle, last) {
        return true;
    }
    assert forall|k: int| !occurs_at_ci(hay@, needle@, k) by {}
    false
}

fn occurs_here(hay: &[u8], needle: &[u8], at: usize) -> (r: bool)
    requires
        at + needle@.len() <= hay@.len(),
    ensures
        r == occurs_at(hay@, needle@, at as int),
{
    let hl = hay.len();
    let mut j: usize = 0;
    while j < needle.len()
        invariant
            at + needle@.len() <= hay@.len(),
            j <= needle@.len(),
            hl == hay@.len(),
            forall|k: int| 0 <= k < j ==> #[trigger] hay@[at + k] == needle@[k],
        decreases needle@.len() - j,
    {
        if hay[at + j] != needle[j] {
            assert(hay@[at + j as int] != needle@[j as int]);
            return false;
        }
        j = j + 1;
    }
    true
}

/// Whether `needle` occurs in `hay`, byte for byte.
pub fn find_bytes(hay: &[u8], needle: &[u8]) -> (r: bool)
    ensures
        r == contains_bytes(hay@, needle@),
{
    if needle.len() > hay.len() {
        assert forall|at: int| !occurs_at(hay@, needle@, at) by {}
        return false;
    }
    let last = hay.len() - needle.len();
    let mut at: usize = 0;
    while at < last
        invariant
            last == hay@.len() - needle@.len(),
            at <= last,
            forall|k: int| 0 <= k < at ==> !occurs_at(hay@, needle@, k),
        decreases last - at,
    {
        if occurs_here(hay, needle, at) {
            return true;
        }
        at = at + 1;
    }
    if occurs_here(hay, needle, last) {
        return true;
    }
    assert forall|k: int| !occurs_at(hay@, needle@, k) by {}
    false
}

/// Whether `s`, lower-cased in ASCII, contains `marker`.
pub fn contains_marker_ci(s: &str, marker: &str) -> (r: bool)
    ensures
        r == contains_ci(s.spec_bytes(), marker.spec_bytes()),
{
    find_ci(s.as_bytes(), marker.as_bytes())
}

/// Whether `s` contains `marker` byte for byte.
pub fn contains_marker(s: &str, marker: &str) -> (r: bool)
    ensures
        r == contains_bytes(s.spec_bytes(), marker.spec_bytes()),
{
    find_bytes(s.as_bytes(), marker.as_bytes())
}

/// Character equality of two strings, decided on their UTF-8 bytes.
pub fn same_text(a: &str, b: &str) -> (r: bool)
    ensures
        r == (a@ == b@),
{
    let x = a.as_bytes();
    let y = b.as_bytes();
    assert(x@ == vstd::utf8::encode_utf8(a@));
    assert(y@ == vstd::utf8::encode_utf8(b@));
    if x.len() != y.len() {
        assert(x@.len() != y@.len());
        assert(a@ != b@);
        return false;
    }
    let mut i: usize = 0;
    while i < x.len()
        invariant
            x@.len() == y@.len(),
            x@ == vstd::utf8::encode_utf8(a@),
            y@ == vstd::utf8::encode_utf8(b@),
            i <= x@.len(),
            forall|k: int| 0 <= k < i ==> #[trigger] x@[k] == y@[k],
        decreases x@.len() - i,
    {
        if x[i] != y[i] {
            return false;
        }
        i = i + 1;
    }
    assert(x@ =~= y@);
    proof {
        vstd::utf8::encode_utf8_decode_utf8(a@);
        vstd::utf8::encode_utf8_decode_utf8(b@);
    }
    true
}


pub open spec fn is_lower_hex_byte(b: u8) -> bool {
    (48 <= b && b <= 57) || (97 <= b && b <= 102)
}

pub open spec fn all_lower_hex(s: Seq<u8>) -> bool {
    forall|i: int| 0 <= i < s.len() ==> #[trigger] is_lower_hex_byte(s[i])
}

/// Whether every byte of `s` is a lower-case hexadecimal digit.
pub fn all_lower_hex_bytes(s: &[u8]) -> (r: bool)
    ensures
        r == all_lower_hex(s@),
{
    let mut i: usize = 0;
    while i < s.len()
        invariant
            i <= s@.len(),
            forall|k: int| 0 <= k < i ==> is_lower_hex_byte(#[trigger] s@[k]),
        decreases s@.len() - i,
    {
        let b = s[i];
        if !((48 <= b && b <= 57) || (97 <= b && b <= 102)) {
            assert(!is_lower_hex_byte(s@[i as int]));
            return false;
        }
        i = i + 1;
    }
    true
}

/// `s` is exactly `n` lower-case hexadecimal digits.
pub open spec fn lower_hex_of_len(s: Seq<char>, n: nat) -> bool {
    let b = vstd::utf8::encode_utf8(s);
    b.len() == n && all_lower_hex(b)
}

pub fn is_lower_hex_of_len(s: &str, n: usize) -> (r: bool)
    ensures
        r == lower_hex_of_len(s@, n as nat),
{
    let b = s.as_bytes();
    b.len() == n && all_lower_hex_bytes(b)
}

/// `s` is exactly `n` hexadecimal digits of either case.
pub open spec fn hex_of_len(s: Seq<char>, n: nat) -> bool {
    let b = vstd::utf8::encode_utf8(s);
    b.len() == n && all_hex(b)
}

pub fn is_hex_of_len(s: &str, n: usize) -> (r: bool)
    ensures
        r == hex_of_len(s@, n as nat),
{
    let b = s.as_bytes();
    b.len() == n && all_hex_bytes(b)
}

/// Whether character `c` occurs in `s`.
pub open spec fn has_char(s: Seq<char>, c: char) -> bool {
    exists|i: int| 0 <= i < s.len() && s[i] == c
}

pub fn contains_char(s: &str, c: char) -> (r: bool)
    ensures
        r == has_char(s@, c),
{
    let n = s.unicode_len();
    let mut i: usize = 0;
    while i < n
        invariant
            n == s@.len(),
            i <= n,
            forall|k: int| 0 <= k < i ==> s@[k] != c,
        decreases n - i,
    {
        if s.get_char(i) == c {
            assert(s@[i as int] == c);
            return true;
        }
        i = i + 1;
    }
    false
}

/// Whether `s` begins with character `c`.
pub fn starts_with_char(s: &str, c: char) -> (r: bool)
    ensures
        r == (s@.len() > 0 && s@[0] == c),
{
    let n = s.unicode_len();
    n > 0 && s.get_char(0) == c
}

/// A bounded value: non-empty, at most `max` UTF-8 bytes, no control
/// character.
pub open spec fn bounded_value(s: Seq<char>, max: nat) -> bool {
    s.len() > 0 && utf8_len(s) <= max && !has_control(s)
}

pub fn is_bounded_value(s: &str, max: usize) -> (r: bool)
    ensures
        r == bounded_value(s@, max as nat),
{
    s.unicode_len() > 0 && text_len(s) <= max && !contains_control(s)
}

/// A non-empty value of at most `max` UTF-8 bytes.
pub open spec fn sized_value(s: Seq<char>, max: nat) -> bool {
    s.len() > 0 && utf8_len(s) <= max
}

pub fn is_sized_value(s: &str, max: usize) -> (r: bool)
    ensures
        r == sized_value(s@, max as nat),
{
    s.unicode_len() > 0 && text_len(s) <= max
}

/// `s` begins with the characters of `prefix`.
pub open spec fn starts_with_text(s: Seq<char>, prefix: Seq<char>) -> bool {
    prefix.len() <= s.len() && s.take(prefix.len() as int) == prefix
}

pub fn has_prefix(s: &str, prefix: &str) -> (r: bool)
    ensures
        r == starts_with_text(s@, prefix@),
{
    let n = s.unicode_len();
    let p = prefix.unicode_len();
    if p > n {
        return false;
    }
    let head = s.substring_char(0, p);
    assert(head@ =~= s@.take(p as int));
    same_text(head, prefix)
}

/// `s` without its leading white space.
pub open spec fn trim_start_spaces(s: Seq<char>) -> Seq<char>
    decreases s.len(),
{
    if s.len() > 0 && is_space_char(s[0]) {
        trim_start_spaces(s.drop_first())
    } else {
        s
    }
}

/// `s` without its trailing white space.
pub open spec fn trim_end_spaces(s: Seq<char>) -> Seq<char>
    decreases s.len(),
{
    if s.len() > 0 && is_space_char(s.last()) {
        trim_end_spaces(s.drop_last())
    } else {
        s
    }
}

/// `s` without its leading and trailing white space.
pub open spec fn trimmed(s: Seq<char>) -> Seq<char> {
    trim_end_spaces(trim_start_spaces(s))
}

/// `s` without its leading and trailing white space.
pub fn trim_text(s: &str) -> (r: &str)
    ensures
        r@ == trimmed(s@),
{
    let n = s.unicode_len();
    let mut i: usize = 0;
    assert(s@.skip(0) =~= s@);
    while i < n && is_space(s.get_char(i))
        invariant
            n == s@.len(),
            i <= n,
            trim_start_spaces(s@) == trim_start_spaces(s@.skip(i as int)),
        decreases n - i,
    {
        assert(s@.skip(i as int).drop_first() =~= s@.skip(i + 1));
        i = i + 1;
    }
    let ghost head = s@.skip(i as int);
    let mut j: usize = n;
    assert(head.take((j - i) as int) =~= head);
    while j > i && is_space(s.get_char(j - 1))
        invariant
            n == s@.len(),
            i <= j <= n,
            head == s@.skip(i as int),
            trim_start_spaces(s@) == head,
            trim_end_spaces(head) == trim_end_spaces(head.take((j - i) as int)),
        decreases j - i,
    {
        assert(head.take((j - i) as int).drop_last() =~= head.take((j - 1 - i) as int));
        assert(head.take((j - i) as int).last() == s@[j - 1]);
        j = j - 1;
    }
    let r = s.substring_char(i, j);
    assert(r@ =~= head.take((j - i) as int));
    r
}

/// `hay` equals `needle` once lower-cased in ASCII.
pub open spec fn equals_ci(hay: Seq<u8>, needle: Seq<u8>) -> bool {
    hay.len() == needle.len() && occurs_at_ci(hay, needle, 0)
}

/// Whether `s`, lower-cased in ASCII, is `word`.
pub fn same_text_ci(s: &str, word: &str) -> (r: bool)
    ensures
        r == equals_ci(s.spec_bytes(), word.spec_bytes()),
{
    let a = s.as_bytes();
    let b = word.as_bytes();
    a.len() == b.len() && occurs_here_ci(a, b, 0)
}

/// The characters of a text, in order.
pub fn chars_of(s: &str) -> (r: Vec<char>)
    ensures
        r@ == s@,
{
    let mut v: Vec<char> = Vec::new();
    for c in iter: s.chars()
        invariant
            v@ == iter.seq().take(iter.index() as int),
            iter.seq() == s@,
    {
        v.push(c);
    }
    v
}

} // verus!
