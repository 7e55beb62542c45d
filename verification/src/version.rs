//! Version information of a graphics context: the implementation profile,
//! the release number, and the vendor text, parsed from the context's
//! version string.
//!
//! The string forms accepted here are the literal-prefix forms: a leading
//! `"WebGL "` names the web profile, a leading `"OpenGL ES "` the embedded
//! profile, and a string that starts with a decimal digit the desktop core
//! profile.  Release numbers are runs of ASCII decimal digits; blank space
//! is the ASCII blank space characters.

use vstd::prelude::*;
use vstd::string::StrSliceExecFns;
use core::cmp::Ordering;

verus! {

/// Whether a character counts as blank space when a version string is
/// trimmed.
pub open spec fn is_space(c: char) -> bool {
    c == ' ' || c == '\t' || c == '\n' || c == '\r' || c == '\u{b}' || c == '\u{c}'
}

/// Whether a character is an ASCII decimal digit.
pub open spec fn is_digit(c: char) -> bool {
    48 <= c as u32 && c as u32 <= 57
}

/// The numeric value of an ASCII decimal digit.
pub open spec fn digit_val(c: char) -> int {
    c as u32 - 48
}

/// Length of the longest prefix of `s` made of blank space.
pub open spec fn span_space(s: Seq<char>) -> nat
    decreases s.len(),
{
    if s.len() == 0 {
        0
    } else if is_space(s[0]) {
        (1 + span_space(s.drop_first())) as nat
    } else {
        0
    }
}

/// Length of the longest suffix of `s` made of blank space.
pub open spec fn span_space_end(s: Seq<char>) -> nat
    decreases s.len(),
{
    if s.len() == 0 {
        0
    } else if is_space(s.last()) {
        (1 + span_space_end(s.drop_last())) as nat
    } else {
        0
    }
}

/// Length of the longest prefix of `s` free of `'.'` characters.
pub open spec fn span_not_dot(s: Seq<char>) -> nat
    decreases s.len(),
{
    if s.len() == 0 {
        0
    } else if s[0] != '.' {
        (1 + span_not_dot(s.drop_first())) as nat
    } else {
        0
    }
}

/// Length of the longest prefix of `s` made of decimal digits.
pub open spec fn span_digits(s: Seq<char>) -> nat
    decreases s.len(),
{
    if s.len() == 0 {
        0
    } else if is_digit(s[0]) {
        (1 + span_digits(s.drop_first())) as nat
    } else {
        0
    }
}

/// Length of the longest prefix of `s` made of decimal digits and dots.
pub open spec fn span_digits_dots(s: Seq<char>) -> nat
    decreases s.len(),
{
    if s.len() == 0 {
        0
    } else if is_digit(s[0]) || s[0] == '.' {
        (1 + span_digits_dots(s.drop_first())) as nat
    } else {
        0
    }
}

proof fn lemma_span_space_is(s: Seq<char>, k: int)
    requires
        0 <= k <= s.len(),
        forall|i: int| 0 <= i < k ==> is_space(s[i]),
        k < s.len() ==> !is_space(s[k]),
    ensures
        span_space(s) == k,
    decreases s.len(),
{
    if k > 0 {
        let t = s.drop_first();
        assert forall|i: int| 0 <= i < k - 1 implies is_space(t[i]) by {
            assert(t[i] == s[i + 1]);
        }
        if k - 1 < t.len() {
            assert(t[k - 1] == s[k]);
        }
        lemma_span_space_is(t, k - 1);
    }
}

proof fn lemma_span_space_end_is(s: Seq<char>, k: int)
    requires
        0 <= k <= s.len(),
        forall|i: int| s.len() - k <= i < s.len() ==> is_space(s[i]),
        k < s.len() ==> !is_space(s[s.len() - k - 1]),
    ensures
        span_space_end(s) == k,
    decreases s.len(),
{
    if k > 0 {
        let t = s.drop_last();
        assert(is_space(s.last()));
        assert forall|i: int| t.len() - (k - 1) <= i < t.len() implies is_space(t[i]) by {
            assert(t[i] == s[i]);
        }
        if k - 1 < t.len() {
            assert(t[t.len() - (k - 1) - 1] == s[s.len() - k - 1]);
        }
        lemma_span_space_end_is(t, k - 1);
    }
}

proof fn lemma_span_not_dot_is(s: Seq<char>, k: int)
    requires
        0 <= k <= s.len(),
        forall|i: int| 0 <= i < k ==> s[i] != '.',
        k < s.len() ==> s[k] == '.',
    ensures
        span_not_dot(s) == k,
    decreases s.len(),
{
    if k > 0 {
        let t = s.drop_first();
        assert forall|i: int| 0 <= i < k - 1 implies t[i] != '.' by {
            assert(t[i] == s[i + 1]);
        }
        if k - 1 < t.len() {
            assert(t[k - 1] == s[k]);
        }
        lemma_span_not_dot_is(t, k - 1);
    }
}

proof fn lemma_span_digits_is(s: Seq<char>, k: int)
    requires
        0 <= k <= s.len(),
        forall|i: int| 0 <= i < k ==> is_digit(s[i]),
        k < s.len() ==> !is_digit(s[k]),
    ensures
        span_digits(s) == k,
    decreases s.len(),
{
    if k > 0 {
        let t = s.drop_first();
        assert forall|i: int| 0 <= i < k - 1 implies is_digit(t[i]) by {
            assert(t[i] == s[i + 1]);
        }
        if k - 1 < t.len() {
            assert(t[k - 1] == s[k]);
        }
        lemma_span_digits_is(t, k - 1);
    }
}

proof fn lemma_span_digits_dots_is(s: Seq<char>, k: int)
    requires
        0 <= k <= s.len(),
        forall|i: int| 0 <= i < k ==> is_digit(s[i]) || s[i] == '.',
        k < s.len() ==> !(is_digit(s[k]) || s[k] == '.'),
    ensures
        span_digits_dots(s) == k,
    decreases s.len(),
{
    if k > 0 {
        let t = s.drop_first();
        assert forall|i: int| 0 <= i < k - 1 implies is_digit(t[i]) || t[i] == '.' by {
            assert(t[i] == s[i + 1]);
        }
        if k - 1 < t.len() {
            assert(t[k - 1] == s[k]);
        }
        lemma_span_digits_dots_is(t, k - 1);
    }
}

/// Whether `s` is one or more decimal digits and nothing else.
pub open spec fn is_dec_digits(s: Seq<char>) -> bool {
    s.len() > 0 && forall|i: int| 0 <= i < s.len() ==> is_digit(s[i])
}

/// The number that a run of decimal digits denotes.
pub open spec fn dec_value(s: Seq<char>) -> int
    decreases s.len(),
{
    if s.len() == 0 {
        0
    } else {
        dec_value(s.drop_last()) * 10 + digit_val(s.last())
    }
}

proof fn lemma_dec_value_nonneg(s: Seq<char>)
    requires
        forall|i: int| 0 <= i < s.len() ==> is_digit(s[i]),
    ensures
        dec_value(s) >= 0,
    decreases s.len(),
{
    if s.len() > 0 {
        let t = s.drop_last();
        assert forall|i: int| 0 <= i < t.len() implies is_digit(t[i]) by {
            assert(t[i] == s[i]);
        }
        lemma_dec_value_nonneg(t);
    }
}

proof fn lemma_dec_value_take_le(s: Seq<char>, k: int)
    requires
        0 <= k <= s.len(),
        forall|i: int| 0 <= i < s.len() ==> is_digit(s[i]),
    ensures
        dec_value(s.take(k)) <= dec_value(s),
    decreases s.len(),
{
    if k == s.len() {
        assert(s.take(k) =~= s);
    } else {
        let t = s.drop_last();
        assert forall|i: int| 0 <= i < t.len() implies is_digit(t[i]) by {
            assert(t[i] == s[i]);
        }
        assert(s.take(k) =~= t.take(k));
        lemma_dec_value_take_le(t, k);
        lemma_dec_value_nonneg(t);
    }
}

/// Finds the end of the run of blank space that starts at `from`.
fn scan_space(s: &str, from: usize) -> (i: usize)
    requires
        from <= s@.len(),
    ensures
        from <= i <= s@.len(),
        i - from == span_space(s@.skip(from as int)),
{
    let len = s.unicode_len();
    let mut i = from;
    loop
        invariant
            from <= i <= len,
            len == s@.len(),
            forall|j: int| from <= j < i ==> is_space(s@[j]),
        ensures
            from <= i <= len,
            forall|j: int| from <= j < i ==> is_space(s@[j]),
            i < len ==> !is_space(s@[i as int]),
        decreases len - i,
    {
        if i >= len {
            break;
        }
        let c = s.get_char(i);
        if !(c == ' ' || c == '\t' || c == '\n' || c == '\r' || c == '\u{b}' || c == '\u{c}') {
            break;
        }
        i += 1;
    }
    proof {
        let t = s@.skip(from as int);
        assert forall|j: int| 0 <= j < i - from implies is_space(t[j]) by {
            assert(t[j] == s@[j + from]);
        }
        if i - from < t.len() {
            assert(t[i - from] == s@[i as int]);
        }
        lemma_span_space_is(t, i - from);
    }
    i
}

/// Finds the end of the dot-free run that starts at `from`.
fn scan_not_dot(s: &str, from: usize) -> (i: usize)
    requires
        from <= s@.len(),
    ensures
        from <= i <= s@.len(),
        i - from == span_not_dot(s@.skip(from as int)),
{
    let len = s.unicode_len();
    let mut i = from;
    loop
        invariant
            from <= i <= len,
            len == s@.len(),
            forall|j: int| from <= j < i ==> s@[j] != '.',
        ensures
            from <= i <= len,
            forall|j: int| from <= j < i ==> s@[j] != '.',
            i < len ==> s@[i as int] == '.',
        decreases len - i,
    {
        if i >= len {
            break;
        }
        let c = s.get_char(i);
        if c == '.' {
            break;
        }
        i += 1;
    }
    proof {
        let t = s@.skip(from as int);
        assert forall|j: int| 0 <= j < i - from implies t[j] != '.' by {
            assert(t[j] == s@[j + from]);
        }
        if i - from < t.len() {
            assert(t[i - from] == s@[i as int]);
        }
        lemma_span_not_dot_is(t, i - from);
    }
    i
}

/// Finds the end of the digit run that starts at `from`.
fn scan_digits(s: &str, from: usize) -> (i: usize)
    requires
        from <= s@.len(),
    ensures
        from <= i <= s@.len(),
        i - from == span_digits(s@.skip(from as int)),
{
    let len = s.unicode_len();
    let mut i = from;
    loop
        invariant
            from <= i <= len,
            len == s@.len(),
            forall|j: int| from <= j < i ==> is_digit(s@[j]),
        ensures
            from <= i <= len,
            forall|j: int| from <= j < i ==> is_digit(s@[j]),
            i < len ==> !is_digit(s@[i as int]),
        decreases len - i,
    {
        if i >= len {
            break;
        }
        let c = s.get_char(i);
        let u = c as u32;
        if !(48 <= u && u <= 57) {
            break;
        }
        i += 1;
    }
    proof {
        let t = s@.skip(from as int);
        assert forall|j: int| 0 <= j < i - from implies is_digit(t[j]) by {
            assert(t[j] == s@[j + from]);
        }
        if i - from < t.len() {
            assert(t[i - from] == s@[i as int]);
        }
        lemma_span_digits_is(t, i - from);
    }
    i
}

/// Finds the end of the digit-or-dot run that starts at `from`.
fn scan_digits_dots(s: &str, from: usize) -> (i: usize)
    requires
        from <= s@.len(),
    ensures
        from <= i <= s@.len(),
        i - from == span_digits_dots(s@.skip(from as int)),
{
    let len = s.unicode_len();
    let mut i = from;
    loop
        invariant
            from <= i <= len,
            len == s@.len(),
            forall|j: int| from <= j < i ==> is_digit(s@[j]) || s@[j] == '.',
        ensures
            from <= i <= len,
            forall|j: int| from <= j < i ==> is_digit(s@[j]) || s@[j] == '.',
            i < len ==> !(is_digit(s@[i as int]) || s@[i as int] == '.'),
        decreases len - i,
    {
        if i >= len {
            break;
        }
        let c = s.get_char(i);
        let u = c as u32;
        if !((48 <= u && u <= 57) || c == '.') {
            break;
        }
        i += 1;
    }
    proof {
        let t = s@.skip(from as int);
        assert forall|j: int| 0 <= j < i - from implies is_digit(t[j]) || t[j] == '.' by {
            assert(t[j] == s@[j + from]);
        }
        if i - from < t.len() {
            assert(t[i - from] == s@[i as int]);
        }
        lemma_span_digits_dots_is(t, i - from);
    }
    i
}

/// Reads the decimal number written between `from` and `to`.
fn parse_u32_range(s: &str, from: usize, to: usize) -> (r: Option<u32>)
    requires
        from <= to <= s@.len(),
    ensures
        ({
            let part = s@.subrange(from as int, to as int);
            match r {
                Some(v) => is_dec_digits(part) && dec_value(part) <= u32::MAX && v == dec_value(part),
                None => !(is_dec_digits(part) && dec_value(part) <= u32::MAX),
            }
        }),
{
    let ghost part = s@.subrange(from as int, to as int);
    if from == to {
        return None;
    }
    let mut i = from;
    let mut val: u32 = 0;
    while i < to
        invariant
            from <= i <= to <= s@.len(),
            part == s@.subrange(from as int, to as int),
            forall|j: int| 0 <= j < i - from ==> is_digit(part[j]),
            val == dec_value(part.take(i - from)),
        decreases to - i,
    {
        let c = s.get_char(i);
        let u = c as u32;
        if !(48 <= u && u <= 57) {
            assert(part[i - from] == s@[i as int]);
            assert(!is_digit(part[i - from]));
            return None;
        }
        let w: u64 = val as u64 * 10 + (u - 48) as u64;
        proof {
            let head = part.take(i - from + 1);
            assert(head.drop_last() =~= part.take(i - from));
            assert(head.last() == part[i - from]);
            assert(part[i - from] == s@[i as int]);
            assert(dec_value(head) == w);
        }
        if w > u32::MAX as u64 {
            proof {
                if is_dec_digits(part) {
                    lemma_dec_value_take_le(part, i - from + 1);
                }
            }
            return None;
        }
        val = w as u32;
        i += 1;
    }
    proof {
        assert(part.take(to - from) =~= part);
    }
    Some(val)
}

/// Whether the text starting at `from` in `s` begins with `prefix`.
fn has_prefix_at(s: &str, from: usize, prefix: &str) -> (b: bool)
    requires
        from <= s@.len(),
    ensures
        b <==> (prefix@.len() <= s@.len() - from
            && s@.subrange(from as int, from + prefix@.len()) == prefix@),
{
    let plen = prefix.unicode_len();
    let len = s.unicode_len();
    if plen > len - from {
        proof {
            if prefix@.len() <= s@.len() - from {
                assert(false);
            }
        }
        return false;
    }
    let mut j: usize = 0;
    while j < plen
        invariant
            0 <= j <= plen,
            plen == prefix@.len(),
            len == s@.len(),
            from + plen <= len,
            forall|k: int| 0 <= k < j ==> s@[from + k] == prefix@[k],
        decreases plen - j,
    {
        let a = s.get_char(from + j);
        let b = prefix.get_char(j);
        if a != b {
            proof {
                let sub = s@.subrange(from as int, from + prefix@.len());
                if sub == prefix@ {
                    assert(sub[j as int] == prefix@[j as int]);
                    assert(sub[j as int] == s@[from + j]);
                }
            }
            return false;
        }
        j += 1;
    }
    proof {
        assert(s@.subrange(from as int, from + prefix@.len()) =~= prefix@);
    }
    true
}

/// Removes blank space from both ends of `s`.
fn trim(s: &str) -> (r: &str)
    ensures
        r@ == trim_spec(s@),
{
    let len = s.unicode_len();
    let a = scan_space(s, 0);
    proof {
        assert(s@.skip(0) =~= s@);
    }
    let mut b = len;
    loop
        invariant
            a <= b <= len,
            len == s@.len(),
            a == span_space(s@),
            forall|j: int| b <= j < len ==> is_space(s@[j]),
        ensures
            a <= b <= len,
            forall|j: int| b <= j < len ==> is_space(s@[j]),
            b > a ==> !is_space(s@[b - 1]),
        decreases b,
    {
        if b <= a {
            break;
        }
        let c = s.get_char(b - 1);
        if !(c == ' ' || c == '\t' || c == '\n' || c == '\r' || c == '\u{b}' || c == '\u{c}') {
            break;
        }
        b -= 1;
    }
    proof {
        let t = s@.skip(a as int);
        assert forall|i: int| t.len() - (len - b) <= i < t.len() implies is_space(t[i]) by {
            assert(t[i] == s@[i + a]);
        }
        if b > a {
            assert(t[t.len() - (len - b) - 1] == s@[b - 1]);
        } else {
            assert(len - b == t.len());
        }
        lemma_span_space_end_is(t, len - b);
        assert(s@.subrange(a as int, b as int) =~= t.take(t.len() - span_space_end(t)));
    }
    s.substring_char(a, b)
}

/// What remains of `s` once blank space is removed from both ends.
pub open spec fn trim_spec(s: Seq<char>) -> Seq<char> {
    let t = s.skip(span_space(s) as int);
    t.take(t.len() - span_space_end(t))
}

/// Types of graphics implementation profile.
#[derive(Debug, Copy, Clone, PartialEq, Eq, Structural, Hash)]
pub enum Profile {
    /// A desktop implementation of the core specification.
    Core,
    /// An embedded-systems implementation.
    Es,
    /// A web implementation.
    Web,
}

/// What `Profile::parse` returns: the profile named by the string's prefix
/// and the text that remains once the prefix is consumed, or the trimmed
/// string when no profile can be read from it.
pub open spec fn profile_parse_spec(s: Seq<char>) -> Result<(Profile, Seq<char>), Seq<char>> {
    let t = s.skip(span_space(s) as int);
    if t.len() == 0 {
        Err(t)
    } else if t.len() >= 6 && t.subrange(0, 6) == "WebGL "@ {
        Ok((Profile::Web, t.skip(6)))
    } else if t.len() >= 10 && t.subrange(0, 10) == "OpenGL ES "@ {
        Ok((Profile::Es, t.skip(10)))
    } else if is_digit(t[0]) {
        Ok((Profile::Core, t))
    } else {
        Err(t)
    }
}

/// The display text of a profile.
pub open spec fn profile_display_spec(p: Profile) -> Seq<char> {
    match p {
        Profile::Core => "OpenGL"@,
        Profile::Es => "OpenGL ES"@,
        Profile::Web => "WebGL"@,
    }
}

impl Profile {
    /// Try to parse an implementation profile from a version string.
    pub fn parse<'a>(string: &'a str) -> (r: Result<(Self, &'a str), &'a str>)
        ensures
            ({
                match (r, profile_parse_spec(string@)) {
                    (Ok((p, rest)), Ok((mp, mrest))) => p == mp && rest@ == mrest,
                    (Err(e), Err(me)) => e@ == me,
                    _ => false,
                }
            }),
    {
        let len = string.unicode_len();
        let start = scan_space(string, 0);
        proof {
            assert(string@.skip(0) =~= string@);
        }
        let trimmed = string.substring_char(start, len);
        proof {
            assert(trimmed@ =~= string@.skip(span_space(string@) as int));
        }
        let tlen = len - start;

        if trimmed.is_empty() {
            return Err(trimmed);
        }
        if has_prefix_at(trimmed, 0, "WebGL ") {
            proof {
                reveal_strlit("WebGL ");
            }
            let rest = trimmed.substring_char(6, tlen);
            proof {
                assert(rest@ =~= trimmed@.skip(6));
            }
            return Ok((Profile::Web, rest));
        }
        if has_prefix_at(trimmed, 0, "OpenGL ES ") {
            proof {
                reveal_strlit("OpenGL ES ");
            }
            let rest = trimmed.substring_char(10, tlen);
            proof {
                assert(rest@ =~= trimmed@.skip(10));
            }
            return Ok((Profile::Es, rest));
        }
        proof {
            reveal_strlit("WebGL ");
            reveal_strlit("OpenGL ES ");
        }
        let c = trimmed.get_char(0);
        let u = c as u32;
        if 48 <= u && u <= 57 {
            Ok((Profile::Core, trimmed))
        } else {
            Err(trimmed)
        }
    }

    /// The display text of this profile.
    pub fn display_name(&self) -> (r: String)
        ensures
            r@ == profile_display_spec(*self),
    {
        match self {
            Profile::Core => "OpenGL".to_owned(),
            Profile::Es => "OpenGL ES".to_owned(),
            Profile::Web => "WebGL".to_owned(),
        }
    }
}

/// Release information of a graphics implementation: the numeric part of
/// the version string.
#[derive(Debug, Copy, Clone, PartialEq, Eq, Structural, Hash)]
pub struct Release {
    /// Major version of this release.
    pub major: u32,
    /// Minor version of this release.
    pub minor: u32,
}

/// What `Release::parse` returns: the major number is the digit run before
/// the first dot, the minor number the digit run after it; a further run of
/// digits and dots is consumed as revision text nobody keeps; what follows
/// is handed back.  A string without a dot, or whose major or minor part is
/// not a number a 32-bit value can hold, is refused whole.
pub open spec fn release_parse_spec(s: Seq<char>) -> Result<(Release, Seq<char>), Seq<char>> {
    let d = span_not_dot(s) as int;
    if d == s.len() {
        Err(s)
    } else {
        let major_s = s.take(d);
        let rest = s.skip(d + 1);
        let m = span_digits(rest) as int;
        let minor_s = rest.take(m);
        let tail = rest.skip(m);
        let next = tail.skip(span_digits_dots(tail) as int);
        if is_dec_digits(major_s) && dec_value(major_s) <= u32::MAX && is_dec_digits(minor_s)
            && dec_value(minor_s) <= u32::MAX {
            Ok(
                (
                    Release {
                        major: dec_value(major_s) as u32,
                        minor: dec_value(minor_s) as u32,
                    },
                    next,
                ),
            )
        } else {
            Err(s)
        }
    }
}

impl Release {
    /// Try to parse release information from a version string.
    pub fn parse<'a>(string: &'a str) -> (r: Result<(Self, &'a str), &'a str>)
        ensures
            ({
                match (r, release_parse_spec(string@)) {
                    (Ok((rel, rest)), Ok((mrel, mrest))) => rel == mrel && rest@ == mrest,
                    (Err(e), Err(me)) => e@ == me,
                    _ => false,
                }
            }),
    {
        let len = string.unicode_len();
        let d = scan_not_dot(string, 0);
        proof {
            assert(string@.skip(0) =~= string@);
        }
        if d == len {
            return Err(string);
        }
        let m_end = scan_digits(string, d + 1);
        let r_end = scan_digits_dots(string, m_end);
        proof {
            let rest = string@.skip(d + 1);
            let m = span_digits(rest) as int;
            assert(rest.skip(m) =~= string@.skip(m_end as int));
            let tail = rest.skip(m);
            assert(tail.skip(span_digits_dots(tail) as int) =~= string@.skip(r_end as int));
            assert(string@.take(d as int) =~= string@.subrange(0, d as int));
            assert(rest.take(m) =~= string@.subrange(d + 1, m_end as int));
        }
        let major = parse_u32_range(string, 0, d);
        let minor = parse_u32_range(string, d + 1, m_end);
        match (major, minor) {
            (Some(major), Some(minor)) => {
                let next = string.substring_char(r_end, len);
                proof {
                    assert(next@ =~= string@.skip(r_end as int));
                }
                Ok((Release { major, minor }, next))
            },
            _ => Err(string),
        }
    }
}

/// How two releases order: by major number first, then by minor number.
pub open spec fn release_cmp_spec(a: Release, b: Release) -> Ordering {
    if a.major < b.major {
        Ordering::Less
    } else if a.major > b.major {
        Ordering::Greater
    } else if a.minor < b.minor {
        Ordering::Less
    } else if a.minor > b.minor {
        Ordering::Greater
    } else {
        Ordering::Equal
    }
}

impl PartialOrd for Release {
    fn partial_cmp(&self, other: &Self) -> Option<Ordering> {
        if self.major < other.major {
            Some(Ordering::Less)
        } else if self.major > other.major {
            Some(Ordering::Greater)
        } else if self.minor < other.minor {
            Some(Ordering::Less)
        } else if self.minor > other.minor {
            Some(Ordering::Greater)
        } else {
            Some(Ordering::Equal)
        }
    }
}

impl vstd::std_specs::cmp::PartialOrdSpecImpl for Release {
    open spec fn obeys_partial_cmp_spec() -> bool {
        true
    }

    open spec fn partial_cmp_spec(&self, other: &Self) -> Option<Ordering> {
        Some(release_cmp_spec(*self, *other))
    }
}

/// Releases order lexicographically: `a` comes before `b` exactly when
/// `a`'s major number is smaller, or the major numbers are equal and `a`'s
/// minor number is smaller.  The order is total: exactly one of before,
/// equal and after holds of every pair, equality holds exactly of equal
/// releases, the order is antisymmetric, and it is transitive.
pub proof fn lemma_release_order_total(a: Release, b: Release, c: Release)
    ensures
        release_cmp_spec(a, b) == Ordering::Less <==> (a.major < b.major || (a.major == b.major
            && a.minor < b.minor)),
        release_cmp_spec(a, b) == Ordering::Equal <==> a == b,
        release_cmp_spec(a, b) == Ordering::Less <==> release_cmp_spec(b, a) == Ordering::Greater,
        release_cmp_spec(a, b) == Ordering::Less && release_cmp_spec(b, c) == Ordering::Less
            ==> release_cmp_spec(a, c) == Ordering::Less,
{
}

/// Version information of a context.
#[derive(Debug, Clone, PartialEq, Eq)]
pub struct Version {
    /// Implementation profile of the context.
    pub profile: Profile,
    /// Release number of the implementation profile.
    pub release: Release,
    /// Vendor specific information included in the string, if any.
    pub vendor: String,
}

/// What `Version::parse` returns: the profile named by the string's prefix,
/// the release number that follows it, and the rest of the string, trimmed,
/// as vendor text.
pub open spec fn version_parse_spec(s: Seq<char>) -> Result<
    (Profile, Release, Seq<char>),
    Seq<char>,
> {
    match profile_parse_spec(s) {
        Ok((profile, rest)) => match release_parse_spec(rest) {
            Ok((release, rest)) => Ok((profile, release, trim_spec(rest))),
            Err(e) => Err(e),
        },
        Err(e) => Err(e),
    }
}

impl Version {
    /// Try to parse version information from a version string.
    pub fn parse<'a>(string: &'a str) -> (r: Result<Self, &'a str>)
        ensures
            ({
                match (r, version_parse_spec(string@)) {
                    (Ok(v), Ok((p, rel, vendor))) => v.profile == p && v.release == rel
                        && v.vendor@ == vendor,
                    (Err(e), Err(me)) => e@ == me,
                    _ => false,
                }
            }),
    {
        let (profile, rest) = match Profile::parse(string) {
            Ok(x) => x,
            Err(e) => {
                return Err(e);
            },
        };
        let (release, rest) = match Release::parse(rest) {
            Ok(x) => x,
            Err(e) => {
                return Err(e);
            },
        };
        let vendor = trim(rest).to_owned();
        Ok(Version { profile, release, vendor })
    }
}

} // verus!
