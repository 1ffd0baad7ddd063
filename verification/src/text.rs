//! Small operations on text that the adapters share.

use vstd::prelude::*;
use vstd::string::StringSliceAdditionalSpecFns;
use vstd::utf8::encode_utf8_decode_utf8;
use crate::views::views;

verus! {

/// Whether two string slices hold the same characters.
///
/// The two are compared byte by byte: a text has one way to be written in
/// UTF-8, so equal bytes are equal characters.
pub fn str_eq(a: &str, b: &str) -> (same: bool)
    ensures
        same == (a@ == b@),
{
    let x = a.as_bytes();
    let y = b.as_bytes();
    proof {
        encode_utf8_decode_utf8(a@);
        encode_utf8_decode_utf8(b@);
    }
    if x.len() != y.len() {
        return false;
    }
    let mut i: usize = 0;
    while i < x.len()
        invariant
            i <= x.len(),
            x.len() == y.len(),
            x@ == a.spec_bytes(),
            y@ == b.spec_bytes(),
            forall|k: int| 0 <= k < i ==> x@[k] == y@[k],
        decreases x.len() - i,
    {
        if x[i] != y[i] {
            return false;
        }
        i = i + 1;
    }
    assert(x@ =~= y@);
    true
}

/// `s` without the characters `c` that it begins with.
pub open spec fn trim_start(s: Seq<char>, c: char) -> Seq<char>
    decreases s.len(),
{
    if s.len() > 0 && s[0] == c {
        trim_start(s.skip(1), c)
    } else {
        s
    }
}

/// `s` without the characters `c` that it ends with.
pub open spec fn trim_end(s: Seq<char>, c: char) -> Seq<char>
    decreases s.len(),
{
    if s.len() > 0 && s.last() == c {
        trim_end(s.drop_last(), c)
    } else {
        s
    }
}

/// Where the first `i` characters of `s` are `c`, trimming the start of `s`
/// is trimming what follows them.
proof fn lemma_trim_start_from(s: Seq<char>, c: char, i: int)
    requires
        0 <= i <= s.len(),
        forall|k: int| 0 <= k < i ==> s[k] == c,
    ensures
        trim_start(s, c) == trim_start(s.skip(i), c),
    decreases i,
{
    if i == 0 {
        assert(s.skip(0) =~= s);
    } else {
        lemma_trim_start_from(s, c, i - 1);
        let rest = s.skip(i - 1);
        assert(rest[0] == s[i - 1]);
        assert(rest.skip(1) =~= s.skip(i));
    }
}

/// Where the characters of `s` from `i` on are `c`, trimming the end of `s`
/// is trimming what stands before them.
proof fn lemma_trim_end_to(s: Seq<char>, c: char, i: int)
    requires
        0 <= i <= s.len(),
        forall|k: int| i <= k < s.len() ==> s[k] == c,
    ensures
        trim_end(s, c) == trim_end(s.take(i), c),
    decreases s.len() - i,
{
    if i == s.len() {
        assert(s.take(i) =~= s);
    } else {
        lemma_trim_end_to(s, c, i + 1);
        let front = s.take(i + 1);
        assert(front.last() == s[i]);
        assert(front.drop_last() =~= s.take(i));
    }
}

/// The slice of `s` after the characters `c` that it begins with.
pub fn trim_start_matches(s: &str, c: char) -> (trimmed: &str)
    ensures
        trimmed@ == trim_start(s@, c),
{
    let n = s.unicode_len();
    let mut i: usize = 0;
    while i < n && s.get_char(i) == c
        invariant
            i <= n,
            n == s@.len(),
            forall|k: int| 0 <= k < i ==> s@[k] == c,
        decreases n - i,
    {
        i = i + 1;
    }
    proof {
        lemma_trim_start_from(s@, c, i as int);
        assert(s@.skip(i as int) =~= s@.subrange(i as int, n as int));
        if i < n {
            assert(s@.skip(i as int)[0] == s@[i as int]);
        }
    }
    s.substring_char(i, n)
}

/// The slice of `s` before the characters `c` that it ends with.
pub fn trim_end_matches(s: &str, c: char) -> (trimmed: &str)
    ensures
        trimmed@ == trim_end(s@, c),
{
    let n = s.unicode_len();
    let mut i: usize = n;
    while i > 0 && s.get_char(i - 1) == c
        invariant
            i <= n,
            n == s@.len(),
            forall|k: int| i <= k < n ==> s@[k] == c,
        decreases i,
    {
        i = i - 1;
    }
    proof {
        lemma_trim_end_to(s@, c, i as int);
        assert(s@.take(i as int) =~= s@.subrange(0, i as int));
        if i > 0 {
            assert(s@.take(i as int).last() == s@[i - 1]);
        }
    }
    s.substring_char(0, i)
}

/// The decimal digit for a number below ten.
pub open spec fn digit(d: nat) -> Seq<char> {
    if d == 0 {
        "0"@
    } else if d == 1 {
        "1"@
    } else if d == 2 {
        "2"@
    } else if d == 3 {
        "3"@
    } else if d == 4 {
        "4"@
    } else if d == 5 {
        "5"@
    } else if d == 6 {
        "6"@
    } else if d == 7 {
        "7"@
    } else if d == 8 {
        "8"@
    } else {
        "9"@
    }
}

/// A number written in decimal, without sign or leading zeros.
pub open spec fn decimal(n: nat) -> Seq<char>
    decreases n,
{
    if n < 10 {
        digit(n)
    } else {
        decimal(n / 10) + digit(n % 10)
    }
}

fn digit_text(d: u64) -> (text: &'static str)
    requires
        d < 10,
    ensures
        text@ == digit(d as nat),
{
    if d == 0 {
        "0"
    } else if d == 1 {
        "1"
    } else if d == 2 {
        "2"
    } else if d == 3 {
        "3"
    } else if d == 4 {
        "4"
    } else if d == 5 {
        "5"
    } else if d == 6 {
        "6"
    } else if d == 7 {
        "7"
    } else if d == 8 {
        "8"
    } else {
        "9"
    }
}

/// Writes `n` in decimal.
pub fn to_decimal(n: u64) -> (text: String)
    ensures
        text@ == decimal(n as nat),
    decreases n,
{
    if n < 10 {
        digit_text(n).to_owned()
    } else {
        let mut text = to_decimal(n / 10);
        text.append(digit_text(n % 10));
        text
    }
}

/// `lines` written one after another with `separator` between each two.
pub open spec fn joined(lines: Seq<Seq<char>>, separator: Seq<char>) -> Seq<char>
    decreases lines.len(),
{
    if lines.len() == 0 {
        Seq::empty()
    } else if lines.len() == 1 {
        lines[0]
    } else {
        joined(lines.drop_last(), separator) + separator + lines.last()
    }
}

/// Writes the lines one after another, with `separator` between each two.
pub fn join(lines: &Vec<String>, separator: &str) -> (text: String)
    ensures
        text@ == joined(views(lines@), separator@),
{
    let mut text = String::new();
    let mut i: usize = 0;
    while i < lines.len()
        invariant
            i <= lines.len(),
            text@ == joined(views(lines@).take(i as int), separator@),
        decreases lines.len() - i,
    {
        proof {
            let before = views(lines@).take(i as int);
            let after = views(lines@).take(i + 1);
            assert(after.drop_last() =~= before);
            assert(after.last() == lines[i as int]@);
            if i == 0 {
                assert(text@ + lines[i as int]@ =~= lines[i as int]@);
            }
        }
        if i > 0 {
            text.append(separator);
        }
        text.append(lines[i].as_str());
        i = i + 1;
    }
    assert(views(lines@).take(lines.len() as int) =~= views(lines@));
    text
}

} // verus!
