//! Character and string utilities shared by the rendering pipeline: blankness,
//! control-character classification, substring search, decimal formatting.

use vstd::prelude::*;

verus! {

/// A character with the Unicode `White_Space` property; `str::trim` strips
/// exactly these, so a line is blank iff all of its characters satisfy this.
pub open spec fn is_ws_char(c: char) -> bool {
    let u = c as u32;
    (0x09 <= u && u <= 0x0D) || u == 0x20 || u == 0x85 || u == 0xA0 || u == 0x1680
        || (0x2000 <= u && u <= 0x200A) || u == 0x2028 || u == 0x2029 || u == 0x202F
        || u == 0x205F || u == 0x3000
}

/// A line is blank when trimming surrounding whitespace leaves it empty,
/// i.e. when every character is whitespace.
pub open spec fn is_blank_spec(s: Seq<char>) -> bool {
    forall|i: int| 0 <= i < s.len() ==> is_ws_char(s[i])
}

/// Exec mirror of [`is_ws_char`].
pub fn is_whitespace_char(c: char) -> (r: bool)
    ensures
        r == is_ws_char(c),
{
    let u: u32 = c as u32;
    (0x09 <= u && u <= 0x0D) || u == 0x20 || u == 0x85 || u == 0xA0 || u == 0x1680
        || (0x2000 <= u && u <= 0x200A) || u == 0x2028 || u == 0x2029 || u == 0x202F
        || u == 0x205F || u == 0x3000
}

/// A control character in the sense of `char::is_control`: the Unicode `Cc`
/// category, code points 0x00..=0x1F and 0x7F..=0x9F.
pub open spec fn is_control_char(c: char) -> bool {
    let u = c as u32;
    u < 0x20 || (0x7F <= u && u <= 0x9F)
}

/// Exec mirror of [`is_control_char`].
pub fn is_control(c: char) -> (r: bool)
    ensures
        r == is_control_char(c),
{
    let u: u32 = c as u32;
    u < 0x20 || (0x7F <= u && u <= 0x9F)
}

/// The characters of a string slice, one vector element per `char`.
pub fn str_chars(s: &str) -> (v: Vec<char>)
    ensures
        v@ == s@,
{
    let n: usize = s.unicode_len();
    let mut v: Vec<char> = Vec::new();
    let mut i: usize = 0;
    while i < n
        invariant
            n == s@.len(),
            0 <= i <= n,
            v@ == s@.take(i as int),
        decreases n - i,
    {
        v.push(s.get_char(i));
        proof {
            assert(s@.take(i + 1) =~= s@.take(i as int).push(s@[i as int]));
        }
        i += 1;
    }
    proof {
        assert(s@.take(n as int) =~= s@);
    }
    v
}

/// Whether a line is blank (only whitespace characters).
pub fn is_blank_line(s: &str) -> (r: bool)
    ensures
        r == is_blank_spec(s@),
{
    let n: usize = s.unicode_len();
    let mut i: usize = 0;
    while i < n
        invariant
            n == s@.len(),
            0 <= i <= n,
            forall|j: int| 0 <= j < i ==> is_ws_char(s@[j]),
        decreases n - i,
    {
        if !is_whitespace_char(s.get_char(i)) {
            return false;
        }
        i += 1;
    }
    true
}

/// Character-wise string equality, hence equality of the two views.
pub fn str_eq(a: &str, b: &str) -> (r: bool)
    ensures
        r == (a@ == b@),
{
    let na: usize = a.unicode_len();
    let nb: usize = b.unicode_len();
    if na != nb {
        return false;
    }
    let mut i: usize = 0;
    while i < na
        invariant
            na == a@.len(),
            na == b@.len(),
            0 <= i <= na,
            forall|j: int| 0 <= j < i ==> a@[j] == b@[j],
        decreases na - i,
    {
        if a.get_char(i) != b.get_char(i) {
            return false;
        }
        i += 1;
    }
    proof {
        assert(a@ =~= b@);
    }
    true
}

/// A match of `needle` inside `hay` starting at position `i`.
pub open spec fn match_at(hay: Seq<char>, needle: Seq<char>, i: int) -> bool {
    0 <= i && i + needle.len() <= hay.len() && hay.subrange(i, i + needle.len() as int)
        == needle
}

/// Literal substring containment, as `str::contains` decides it for string
/// patterns.
pub open spec fn contains_seq(hay: Seq<char>, needle: Seq<char>) -> bool {
    exists|i: int| match_at(hay, needle, i)
}

/// The position of the leftmost match of `needle` in `hay`, if any.
pub open spec fn find_spec(hay: Seq<char>, needle: Seq<char>) -> Option<int>
    decreases hay.len(),
{
    if needle.len() == 0 {
        Option::Some(0)
    } else if hay.len() < needle.len() {
        Option::None
    } else if hay.subrange(0, needle.len() as int) == needle {
        Option::Some(0)
    } else {
        match find_spec(hay.drop_first(), needle) {
            Option::Some(j) => Option::Some(j + 1),
            Option::None => Option::None,
        }
    }
}

/// `find_spec` returns exactly the leftmost match position, and `None` exactly
/// when there is no match at all.
pub proof fn lemma_find_spec_correct(hay: Seq<char>, needle: Seq<char>)
    ensures
        match find_spec(hay, needle) {
            Option::Some(i) => match_at(hay, needle, i) && (forall|j: int|
                0 <= j < i ==> !match_at(hay, needle, j)),
            Option::None => !contains_seq(hay, needle),
        },
    decreases hay.len(),
{
    if needle.len() == 0 {
        assert(hay.subrange(0, 0) =~= needle);
        assert(match_at(hay, needle, 0));
    } else if hay.len() < needle.len() {
        assert forall|i: int| !match_at(hay, needle, i) by {}
    } else if hay.subrange(0, needle.len() as int) == needle {
        assert(match_at(hay, needle, 0));
    } else {
        lemma_find_spec_correct(hay.drop_first(), needle);
        assert forall|j: int| match_at(hay.drop_first(), needle, j) implies match_at(
            hay,
            needle,
            j + 1,
        ) by {
            assert(hay.subrange(j + 1, j + 1 + needle.len()) =~= hay.drop_first().subrange(
                j,
                j + needle.len(),
            ));
        }
        assert forall|j: int| j >= 1 && match_at(hay, needle, j) implies match_at(
            hay.drop_first(),
            needle,
            j - 1,
        ) by {
            assert(hay.drop_first().subrange(j - 1, j - 1 + needle.len()) =~= hay.subrange(
                j,
                j + needle.len(),
            ));
        }
        assert(!match_at(hay, needle, 0));
        match find_spec(hay.drop_first(), needle) {
            Option::Some(j) => {
                assert(match_at(hay, needle, j + 1));
            },
            Option::None => {
                assert forall|i: int| !match_at(hay, needle, i) by {
                    if i >= 1 && match_at(hay, needle, i) {
                        assert(match_at(hay.drop_first(), needle, i - 1));
                    }
                }
            },
        }
    }
}

/// Leftmost-match substring search over character vectors.
pub fn find_first(hay: &Vec<char>, needle: &Vec<char>) -> (r: Option<usize>)
    ensures
        r == match find_spec(hay@, needle@) {
            Option::Some(i) => Option::Some(i as usize),
            Option::None => Option::<usize>::None,
        },
{
    proof {
        lemma_find_spec_correct(hay@, needle@);
    }
    let m: usize = needle.len();
    let n: usize = hay.len();
    if m == 0 {
        return Some(0);
    }
    if m > n {
        return None;
    }
    let mut i: usize = 0;
    while i <= n - m
        invariant
            m == needle@.len(),
            n == hay@.len(),
            0 < m <= n,
            0 <= i <= n - m + 1,
            forall|j: int| 0 <= j < i ==> !match_at(hay@, needle@, j),
        decreases n - i,
    {
        let mut k: usize = 0;
        let mut ok: bool = true;
        while k < m
            invariant
                m == needle@.len(),
                n == hay@.len(),
                0 < m <= n,
                0 <= i <= n - m,
                0 <= k <= m,
                ok == (forall|j: int| 0 <= j < k ==> hay@[i + j] == needle@[j]),
            decreases m - k,
        {
            let same: bool = hay[i + k] == needle[k];
            ok = ok && same;
            if !ok {
                proof {
                    assert(!(forall|j: int| 0 <= j < k + 1 ==> hay@[i + j] == needle@[j]));
                }
            }
            k += 1;
        }
        if ok {
            proof {
                lemma_find_spec_correct(hay@, needle@);
                assert forall|j: int| 0 <= j < m implies hay@.subrange(i as int, i + m)[j]
                    == needle@[j] by {
                    assert(hay@.subrange(i as int, i + m)[j] == hay@[i + j]);
                }
                assert(hay@.subrange(i as int, i + m) =~= needle@);
                assert(match_at(hay@, needle@, i as int));
                if find_spec(hay@, needle@) is Some {
                    let w = find_spec(hay@, needle@)->Some_0;
                    assert(!(w < i)) by {
                        if w < i {
                            assert(!match_at(hay@, needle@, w));
                        }
                    }
                    assert(!(w > i));
                }
            }
            return Some(i);
        }
        proof {
            let j0 = choose|j: int| 0 <= j < m && hay@[i + j] != needle@[j];
            assert(!match_at(hay@, needle@, i as int)) by {
                if match_at(hay@, needle@, i as int) {
                    assert(hay@.subrange(i as int, i + m)[j0] == hay@[i + j0]);
                }
            }
        }
        i += 1;
    }
    proof {
        assert forall|j: int| !match_at(hay@, needle@, j) by {
            if match_at(hay@, needle@, j) {
                assert(0 <= j <= n - m);
            }
        }
    }
    None
}

/// Exec containment check matching [`contains_seq`].
pub fn contains_sub(hay: &Vec<char>, needle: &Vec<char>) -> (r: bool)
    ensures
        r == contains_seq(hay@, needle@),
{
    proof {
        lemma_find_spec_correct(hay@, needle@);
    }
    match find_first(hay, needle) {
        Some(_) => true,
        None => false,
    }
}

/// A sub-vector copy of `v[from..to]`.
pub fn take_range(v: &Vec<char>, from: usize, to: usize) -> (r: Vec<char>)
    requires
        from <= to <= v@.len(),
    ensures
        r@ == v@.subrange(from as int, to as int),
{
    let mut r: Vec<char> = Vec::new();
    let mut i: usize = from;
    while i < to
        invariant
            from <= i <= to <= v@.len(),
            r@ == v@.subrange(from as int, i as int),
        decreases to - i,
    {
        r.push(v[i]);
        proof {
            assert(v@.subrange(from as int, i + 1) =~= v@.subrange(from as int, i as int).push(
                v@[i as int],
            ));
        }
        i += 1;
    }
    r
}

/// The decimal digit character for `d`, which must be below ten.
pub open spec fn digit_char(d: int) -> char {
    ((0x30 + d) as u8) as char
}

/// The decimal representation of a non-negative integer, most significant
/// digit first, with no leading zeros (a single `'0'` for zero).
pub open spec fn dec_str(n: int) -> Seq<char>
    decreases n,
{
    if n < 10 {
        seq![digit_char(if n < 0 { 0 } else { n })]
    } else {
        dec_str(n / 10).push(digit_char(n % 10))
    }
}

/// Decimal formatting of a `u64`, as `format!("{}", n)` prints it.
pub fn u64_to_dec(n: u64) -> (v: Vec<char>)
    ensures
        v@ == dec_str(n as int),
    decreases n,
{
    if n < 10 {
        let d: u8 = 0x30 + (n as u8);
        let c: char = d as char;
        let mut v: Vec<char> = Vec::new();
        v.push(c);
        proof {
            assert(v@ =~= seq![digit_char(n as int)]);
        }
        v
    } else {
        let mut v = u64_to_dec(n / 10);
        let d: u8 = 0x30 + ((n % 10) as u8);
        v.push(d as char);
        v
    }
}

/// Append `src`'s characters to `dst`.
pub fn push_all(dst: &mut Vec<char>, src: &Vec<char>)
    ensures
        final(dst)@ == old(dst)@ + src@,
{
    let mut i: usize = 0;
    while i < src.len()
        invariant
            0 <= i <= src@.len(),
            dst@ == old(dst)@ + src@.take(i as int),
        decreases src@.len() - i,
    {
        dst.push(src[i]);
        proof {
            assert(old(dst)@ + src@.take(i + 1) =~= (old(dst)@ + src@.take(i as int)).push(
                src@[i as int],
            ));
        }
        i += 1;
    }
    proof {
        assert(src@.take(src@.len() as int) =~= src@);
    }
}

/// A decimal representation has at least one digit, and at most as many as
/// its bound allows.
pub proof fn lemma_dec_str_len(n: int)
    requires
        0 <= n,
    ensures
        dec_str(n).len() >= 1,
        n < 10 ==> dec_str(n).len() == 1,
        n < 100 ==> dec_str(n).len() <= 2,
        n < 1000 ==> dec_str(n).len() <= 3,
        n < 10000 ==> dec_str(n).len() <= 4,
        n < 100000 ==> dec_str(n).len() <= 5,
        n < 1000000 ==> dec_str(n).len() <= 6,
    decreases n,
{
    if n >= 10 {
        lemma_dec_str_len(n / 10);
    }
}

/// Relies on `Iterator::collect` for `String` from `char`s: the resulting
/// string holds exactly the characters of `v`, in order.
#[verifier::external_body]
pub fn chars_to_string(v: &Vec<char>) -> (r: String)
    ensures
        r@ == v@,
{
    v.iter().collect()
}

} // verus!
