//! Verified helpers over strings and path-like strings.
//!
//! Paths are modelled as plain strings whose components are joined with the
//! separator the packaging toolchain's platform uses (a backslash); forward
//! slashes are recognised when reading paths handed in from elsewhere.

use vstd::prelude::*;
use vstd::string::*;

verus! {

/// Whether two string slices hold the same characters.
pub fn str_eq(a: &str, b: &str) -> (r: bool)
    ensures
        r == (a@ == b@),
{
    let alen = a.unicode_len();
    let blen = b.unicode_len();
    if alen != blen {
        proof {
            if a@ == b@ {
                assert(a@.len() == b@.len());
            }
        }
        return false;
    }
    let mut i: usize = 0;
    while i < alen
        invariant
            i <= alen,
            alen == a@.len(),
            alen == b@.len(),
            forall|j: int| 0 <= j < i ==> a@[j] == b@[j],
        decreases alen - i,
    {
        let ca = a.get_char(i);
        let cb = b.get_char(i);
        if ca != cb {
            proof {
                if a@ == b@ {
                    assert(a@[i as int] == b@[i as int]);
                }
            }
            return false;
        }
        i += 1;
    }
    proof {
        assert(a@ =~= b@);
    }
    true
}

/// The decimal digit character for a value below ten.
pub open spec fn dec_digit(d: nat) -> char {
    if d == 0 {
        '0'
    } else if d == 1 {
        '1'
    } else if d == 2 {
        '2'
    } else if d == 3 {
        '3'
    } else if d == 4 {
        '4'
    } else if d == 5 {
        '5'
    } else if d == 6 {
        '6'
    } else if d == 7 {
        '7'
    } else if d == 8 {
        '8'
    } else {
        '9'
    }
}

/// The decimal notation of a number: no sign, no superfluous leading zeros.
pub open spec fn dec_str(n: nat) -> Seq<char>
    decreases n,
{
    if n < 10 {
        seq![dec_digit(n)]
    } else {
        dec_str(n / 10).push(dec_digit(n % 10))
    }
}

fn digit_str(d: u64) -> (r: &'static str)
    requires
        d < 10,
    ensures
        r@ =~= seq![dec_digit(d as nat)],
{
    proof {
        reveal_strlit("0");
        reveal_strlit("1");
        reveal_strlit("2");
        reveal_strlit("3");
        reveal_strlit("4");
        reveal_strlit("5");
        reveal_strlit("6");
        reveal_strlit("7");
        reveal_strlit("8");
        reveal_strlit("9");
    }
    if d == 0 {
        "0"
    } else if d == 1 {
        "1"
    } else if d == 2 {
        "2"
    } else if d == 3 {
        "3"
    } else if d == 4 {
        "4"
    } else if d == 5 {
        "5"
    } else if d == 6 {
        "6"
    } else if d == 7 {
        "7"
    } else if d == 8 {
        "8"
    } else {
        "9"
    }
}

/// Renders a number in decimal notation.
pub fn u64_to_string(n: u64) -> (s: String)
    ensures
        s@ == dec_str(n as nat),
    decreases n,
{
    if n < 10 {
        digit_str(n).to_owned()
    } else {
        let mut s = u64_to_string(n / 10);
        s.append(digit_str(n % 10));
        s
    }
}

/// The code point of a character, with an upper-case ASCII letter folded to
/// its lower-case counterpart.
pub open spec fn lower_code(c: char) -> u32 {
    if 'A' <= c && c <= 'Z' {
        (c as u32 + 32) as u32
    } else {
        c as u32
    }
}

/// Whether two character sequences agree up to ASCII case.
pub open spec fn chars_eq_ci(a: Seq<char>, b: Seq<char>) -> bool {
    a.len() == b.len() && (forall|i: int| 0 <= i < a.len() ==> lower_code(a[i]) == lower_code(b[i]))
}

/// Whether two string slices agree up to ASCII case.
pub fn str_eq_ci(a: &str, b: &str) -> (r: bool)
    ensures
        r == chars_eq_ci(a@, b@),
{
    let alen = a.unicode_len();
    let blen = b.unicode_len();
    if alen != blen {
        return false;
    }
    let mut i: usize = 0;
    while i < alen
        invariant
            i <= alen,
            alen == a@.len(),
            alen == b@.len(),
            forall|j: int| 0 <= j < i ==> lower_code(a@[j]) == lower_code(b@[j]),
        decreases alen - i,
    {
        let ca = a.get_char(i);
        let cb = b.get_char(i);
        let la: u32 = if ca >= 'A' && ca <= 'Z' {
            ca as u32 + 32
        } else {
            ca as u32
        };
        let lb: u32 = if cb >= 'A' && cb <= 'Z' {
            cb as u32 + 32
        } else {
            cb as u32
        };
        if la != lb {
            return false;
        }
        i += 1;
    }
    true
}

/// The last position holding either of two characters, or a negative value
/// when neither occurs.
pub open spec fn last_index_of2(s: Seq<char>, c1: char, c2: char) -> int
    decreases s.len(),
{
    if s.len() == 0 {
        -1
    } else if s[s.len() - 1] == c1 || s[s.len() - 1] == c2 {
        s.len() - 1
    } else {
        last_index_of2(s.drop_last(), c1, c2)
    }
}

proof fn lemma_last_index_none(s: Seq<char>, c1: char, c2: char)
    requires
        forall|j: int| 0 <= j < s.len() ==> s[j] != c1 && s[j] != c2,
    ensures
        last_index_of2(s, c1, c2) == -1,
    decreases s.len(),
{
    if s.len() > 0 {
        lemma_last_index_none(s.drop_last(), c1, c2);
    }
}

proof fn lemma_last_index_found(s: Seq<char>, c1: char, c2: char, i: int)
    requires
        0 <= i < s.len(),
        s[i] == c1 || s[i] == c2,
        forall|j: int| i < j < s.len() ==> s[j] != c1 && s[j] != c2,
    ensures
        last_index_of2(s, c1, c2) == i,
    decreases s.len(),
{
    if i < s.len() - 1 {
        lemma_last_index_found(s.drop_last(), c1, c2, i);
    }
}

/// The last position holding either of two characters.
pub fn rfind2(s: &str, c1: char, c2: char) -> (r: Option<usize>)
    ensures
        match r {
            Some(i) => i < s@.len() && last_index_of2(s@, c1, c2) == i,
            None => last_index_of2(s@, c1, c2) == -1,
        },
{
    let len = s.unicode_len();
    let mut i: usize = len;
    while i > 0
        invariant
            i <= len,
            len == s@.len(),
            forall|j: int| i <= j < len ==> s@[j] != c1 && s@[j] != c2,
        decreases i,
    {
        i = i - 1;
        let c = s.get_char(i);
        if c == c1 || c == c2 {
            proof {
                lemma_last_index_found(s@, c1, c2, i as int);
            }
            return Some(i);
        }
    }
    proof {
        lemma_last_index_none(s@, c1, c2);
    }
    None
}

/// The first position at or after `from` holding the character, or a
/// negative value when it does not occur there.
pub open spec fn first_index_from(s: Seq<char>, c: char, from: int) -> int
    decreases s.len() - from,
{
    if from < 0 || from >= s.len() {
        -1
    } else if s[from] == c {
        from
    } else {
        first_index_from(s, c, from + 1)
    }
}

/// The first position at or after `from` holding the character.
pub fn ffind(s: &str, from: usize, c: char) -> (r: Option<usize>)
    ensures
        match r {
            Some(i) => from <= i < s@.len() && first_index_from(s@, c, from as int) == i,
            None => first_index_from(s@, c, from as int) == -1,
        },
{
    let len = s.unicode_len();
    let mut i: usize = from;
    while i < len
        invariant
            from <= i,
            len == s@.len(),
            first_index_from(s@, c, from as int) == first_index_from(s@, c, i as int),
        decreases len - i,
    {
        if s.get_char(i) == c {
            return Some(i);
        }
        i += 1;
    }
    None
}

/// Whether a character is a decimal digit.
pub open spec fn is_digit(c: char) -> bool {
    '0' <= c && c <= '9'
}

/// Whether every character of a sequence is a decimal digit.
pub open spec fn all_digits(s: Seq<char>) -> bool {
    forall|i: int| 0 <= i < s.len() ==> is_digit(s[i])
}

/// The number a sequence of decimal digits denotes.
pub open spec fn digits_val(s: Seq<char>) -> nat
    decreases s.len(),
{
    if s.len() == 0 {
        0
    } else {
        digits_val(s.drop_last()) * 10 + ((s[s.len() - 1] as int - '0' as int) as nat)
    }
}

/// Ten to the given power.
pub open spec fn pow10(n: nat) -> nat
    decreases n,
{
    if n == 0 {
        1
    } else {
        10 * pow10((n - 1) as nat)
    }
}

/// Ten to a power is monotone in the exponent.
pub proof fn lemma_pow10_mono(a: nat, b: nat)
    requires
        a <= b,
    ensures
        pow10(a) <= pow10(b),
        pow10(a) >= 1,
    decreases b,
{
    if a == 0 {
        if b > 0 {
            lemma_pow10_mono(0, (b - 1) as nat);
        }
    } else {
        lemma_pow10_mono((a - 1) as nat, (b - 1) as nat);
    }
}

/// Parses a digit string of at most nineteen digits.
pub fn parse_digits(s: &str) -> (r: u64)
    requires
        all_digits(s@),
        1 <= s@.len() <= 19,
    ensures
        r == digits_val(s@),
{
    proof {
        reveal_with_fuel(pow10, 20);
    }
    let len = s.unicode_len();
    let mut value: u64 = 0;
    let mut i: usize = 0;
    while i < len
        invariant
            i <= len,
            len == s@.len(),
            1 <= len <= 19,
            all_digits(s@),
            value == digits_val(s@.take(i as int)),
            value < pow10(i as nat),
            pow10(19) == 10000000000000000000,
        decreases len - i,
    {
        let c = s.get_char(i);
        proof {
            assert(is_digit(s@[i as int]));
            lemma_pow10_mono(i as nat, 18);
            reveal_with_fuel(pow10, 20);
        }
        let d: u64 = (c as u32 - 48) as u64;
        value = value * 10 + d;
        proof {
            assert(s@.take(i + 1).drop_last() =~= s@.take(i as int));
            assert(s@.take(i + 1)[i as int] == s@[i as int]);
        }
        i += 1;
    }
    proof {
        assert(s@.take(len as int) =~= s@);
    }
    value
}

/// The pieces of a sequence between its dots: one piece when no dot
/// occurs, and one more piece than dots otherwise, each possibly empty.
pub open spec fn split_dots(s: Seq<char>) -> Seq<Seq<char>>
    decreases s.len(),
{
    let d = first_index_from(s, '.', 0);
    if 0 <= d < s.len() {
        seq![s.take(d)] + split_dots(s.skip(d + 1))
    } else {
        seq![s]
    }
}

/// Splits a string at its dots.
pub fn split_dots_vec(s: &str) -> (r: Vec<String>)
    ensures
        r.deep_view() == split_dots(s@),
    decreases s@.len(),
{
    let len = s.unicode_len();
    match ffind(s, 0, '.') {
        Some(d) => {
            let head = s.substring_char(0, d).to_owned();
            let tail = s.substring_char(d + 1, len);
            let rest = split_dots_vec(tail);
            let mut out: Vec<String> = Vec::new();
            out.push(head);
            let ghost one = out.deep_view();
            proof {
                assert(one =~= seq![head@]);
            }
            let mut rest = rest;
            out.append(&mut rest);
            proof {
                assert(out.deep_view() =~= seq![head@] + split_dots(tail@));
                assert(s@.take(d as int) == head@);
                assert(s@.skip(d + 1) == tail@);
            }
            out
        },
        None => {
            let mut out: Vec<String> = Vec::new();
            out.push(s.to_owned());
            proof {
                assert(out.deep_view() =~= seq![s@]);
            }
            out
        },
    }
}

/// Whether a character separates path components.
pub open spec fn is_sep(c: char) -> bool {
    c == '/' || c == '\\'
}

/// The position of the last path separator, or a negative value when the
/// path is a bare file name.
pub open spec fn last_sep(s: Seq<char>) -> int {
    last_index_of2(s, '/', '\\')
}

/// The final component of a path.
pub open spec fn file_name_chars(s: Seq<char>) -> Seq<char> {
    s.subrange(last_sep(s) + 1, s.len() as int)
}

/// The path with its final component removed; empty for a bare file name.
pub open spec fn parent_chars(s: Seq<char>) -> Seq<char> {
    if last_sep(s) < 0 {
        Seq::empty()
    } else {
        s.subrange(0, last_sep(s))
    }
}

/// Whether a path ends with a path separator.
pub open spec fn ends_with_sep(s: Seq<char>) -> bool {
    s.len() > 0 && is_sep(s[s.len() - 1])
}

/// Whether the final path component has the given extension after its last
/// dot, with a nonempty stem before it.
pub open spec fn has_extension(s: Seq<char>, ext: Seq<char>) -> bool {
    let name = file_name_chars(s);
    let d = last_index_of2(name, '.', '.');
    d > 0 && name.subrange(d + 1, name.len() as int) == ext
}

/// The final path component without its extension.
pub open spec fn file_stem_chars(s: Seq<char>) -> Seq<char> {
    let name = file_name_chars(s);
    let d = last_index_of2(name, '.', '.');
    if d > 0 {
        name.subrange(0, d)
    } else {
        name
    }
}

/// One path joined under another; an empty base names the current directory
/// and a base already ending in a separator gains no second one.
pub open spec fn join_chars(a: Seq<char>, b: Seq<char>) -> Seq<char> {
    if a.len() == 0 {
        b
    } else if ends_with_sep(a) {
        a + b
    } else {
        a + "\\"@ + b
    }
}

/// The final component of a path, as an owned string.
pub fn file_name_of(p: &str) -> (r: String)
    ensures
        r@ == file_name_chars(p@),
{
    let len = p.unicode_len();
    match rfind2(p, '/', '\\') {
        Some(i) => p.substring_char(i + 1, len).to_owned(),
        None => p.to_owned(),
    }
}

/// The path with its final component removed; `None` for an empty path,
/// whose parent is not defined.
pub fn parent_of(p: &str) -> (r: Option<String>)
    ensures
        match r {
            Some(d) => p@.len() > 0 && d@ == parent_chars(p@),
            None => p@.len() == 0,
        },
{
    if p.is_empty() {
        return None;
    }
    match rfind2(p, '/', '\\') {
        Some(i) => Some(p.substring_char(0, i).to_owned()),
        None => {
            let r = String::new();
            proof {
                assert(parent_chars(p@) =~= Seq::<char>::empty());
            }
            Some(r)
        },
    }
}

/// Whether the path ends with a path separator.
pub fn is_ends_with_sep(p: &str) -> (r: bool)
    ensures
        r == ends_with_sep(p@),
{
    let len = p.unicode_len();
    if len == 0 {
        return false;
    }
    let c = p.get_char(len - 1);
    c == '/' || c == '\\'
}

/// Whether the final path component carries the given extension.
pub fn extension_is(p: &str, ext: &str) -> (r: bool)
    ensures
        r == has_extension(p@, ext@),
{
    let name = file_name_of(p);
    let nlen = name.as_str().unicode_len();
    match rfind2(name.as_str(), '.', '.') {
        Some(d) => {
            if d > 0 {
                let tail = name.as_str().substring_char(d + 1, nlen).to_owned();
                str_eq(tail.as_str(), ext)
            } else {
                false
            }
        },
        None => false,
    }
}

/// The final path component without its extension.
pub fn file_stem_of(p: &str) -> (r: String)
    ensures
        r@ == file_stem_chars(p@),
{
    let name = file_name_of(p);
    let nlen = name.as_str().unicode_len();
    match rfind2(name.as_str(), '.', '.') {
        Some(d) => {
            if d > 0 {
                name.as_str().substring_char(0, d).to_owned()
            } else {
                name
            }
        },
        None => name,
    }
}

/// The sequence with leading spaces removed.
pub open spec fn trim_left(s: Seq<char>) -> Seq<char>
    decreases s.len(),
{
    if s.len() > 0 && s[0] == ' ' {
        trim_left(s.drop_first())
    } else {
        s
    }
}

/// The sequence with trailing spaces removed.
pub open spec fn trim_right(s: Seq<char>) -> Seq<char>
    decreases s.len(),
{
    if s.len() > 0 && s[s.len() - 1] == ' ' {
        trim_right(s.drop_last())
    } else {
        s
    }
}

/// The sequence with surrounding spaces removed.
pub open spec fn trim_spaces(s: Seq<char>) -> Seq<char> {
    trim_right(trim_left(s))
}

/// Removes surrounding spaces.
pub fn trim_spaces_of(s: &str) -> (r: String)
    ensures
        r@ == trim_spaces(s@),
{
    let len = s.unicode_len();
    let mut i: usize = 0;
    proof {
        assert(s@.skip(0) =~= s@);
    }
    while i < len && s.get_char(i) == ' '
        invariant
            i <= len,
            len == s@.len(),
            trim_left(s@) == trim_left(s@.skip(i as int)),
        decreases len - i,
    {
        proof {
            assert(s@.skip(i as int)[0] == s@[i as int]);
            assert(s@.skip(i as int).drop_first() =~= s@.skip(i + 1));
        }
        i += 1;
    }
    proof {
        if i < len {
            assert(s@.skip(i as int)[0] == s@[i as int]);
        }
        assert(trim_left(s@) == s@.skip(i as int));
    }
    let t = s.substring_char(i, len);
    let tlen = len - i;
    let mut j: usize = tlen;
    proof {
        assert(t@.take(tlen as int) =~= t@);
    }
    while j > 0 && t.get_char(j - 1) == ' '
        invariant
            j <= tlen,
            tlen == t@.len(),
            trim_right(t@) == trim_right(t@.take(j as int)),
        decreases j,
    {
        proof {
            assert(t@.take(j as int)[j - 1] == t@[j - 1]);
            assert(t@.take(j as int).drop_last() =~= t@.take(j - 1));
        }
        j -= 1;
    }
    proof {
        if j > 0 {
            assert(t@.take(j as int)[j - 1] == t@[j - 1]);
        }
        assert(trim_right(t@) == t@.take(j as int));
    }
    t.substring_char(0, j).to_owned()
}

/// The display form of an author entry: what stands before any contact
/// address, with surrounding spaces removed.
pub open spec fn author_display(s: Seq<char>) -> Seq<char> {
    let d = first_index_from(s, '<', 0);
    if 0 <= d < s.len() {
        trim_spaces(s.take(d))
    } else {
        trim_spaces(s)
    }
}

/// The display form of an author entry.
pub fn author_display_of(s: &str) -> (r: String)
    ensures
        r@ == author_display(s@),
{
    match ffind(s, 0, '<') {
        Some(d) => {
            let head = s.substring_char(0, d);
            trim_spaces_of(head)
        },
        None => trim_spaces_of(s),
    }
}

/// Joins one path under another.
pub fn join_path(a: &str, b: &str) -> (r: String)
    ensures
        r@ == join_chars(a@, b@),
{
    if a.is_empty() {
        return b.to_owned();
    }
    let mut s = a.to_owned();
    if !is_ends_with_sep(a) {
        s.append("\\");
    }
    s.append(b);
    s
}

} // verus!
