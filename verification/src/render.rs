//! The line renderer: a pure function from a raw line and an option bundle to
//! the ordered segment sequence of one output line (body transform, emphasis,
//! length suffix, end marker).  The line-number prefix is not produced here;
//! the stream filter computes the label and the driver prepends it.

use vstd::prelude::*;
use crate::options::{Config, ConfigV};
use crate::theme::{Segment, SegV, Role, ThemeV, plain, resolve_segs};
use crate::text::{
    is_control_char, is_control, find_spec, find_first, lemma_find_spec_correct, match_at,
    chars_to_string, take_range, dec_str, u64_to_dec, str_chars, push_all,
};

verus! {

/// Caret notation for a control character: `^` followed by the character
/// whose code point is the control character's plus 64.
pub open spec fn caret_seq(c: char) -> Seq<char> {
    seq!['^', (((c as u32) + 64) as u8) as char]
}

/// The image of one character under the body transform.  With
/// `show_nonprinting`, control characters other than tab become caret
/// notation and tab becomes `^I` only when `show_tabs` is also set; without
/// it, only `show_tabs` substitutes `^I` for tab.
pub open spec fn transform_char(c: char, tabs: bool, np: bool) -> Seq<char> {
    if np {
        if is_control_char(c) && c != '\t' {
            caret_seq(c)
        } else if c == '\t' && tabs {
            seq!['^', 'I']
        } else {
            seq![c]
        }
    } else if tabs && c == '\t' {
        seq!['^', 'I']
    } else {
        seq![c]
    }
}

/// The transformed body of a line: the concatenation of the per-character
/// images, in order.
pub open spec fn transform_seq(s: Seq<char>, tabs: bool, np: bool) -> Seq<char>
    decreases s.len(),
{
    if s.len() == 0 {
        Seq::empty()
    } else {
        transform_char(s[0], tabs, np) + transform_seq(s.drop_first(), tabs, np)
    }
}

/// The body transform distributes over appending one character.
pub proof fn lemma_transform_push(s: Seq<char>, x: char, tabs: bool, np: bool)
    ensures
        transform_seq(s.push(x), tabs, np) == transform_seq(s, tabs, np) + transform_char(
            x,
            tabs,
            np,
        ),
    decreases s.len(),
{
    if s.len() == 0 {
        assert(s.push(x)[0] == x);
        assert(s.push(x).drop_first() =~= Seq::<char>::empty());
        assert(transform_seq(Seq::<char>::empty(), tabs, np) == Seq::<char>::empty());
        assert(transform_seq(s.push(x), tabs, np) =~= transform_seq(s, tabs, np)
            + transform_char(x, tabs, np));
    } else {
        assert(s.push(x).drop_first() =~= s.drop_first().push(x));
        assert(s.push(x)[0] == s[0]);
        lemma_transform_push(s.drop_first(), x, tabs, np);
        vstd::seq_lib::lemma_concat_associative(
            transform_char(s[0], tabs, np),
            transform_seq(s.drop_first(), tabs, np),
            transform_char(x, tabs, np),
        );
        assert(transform_seq(s.push(x), tabs, np) =~= transform_seq(s, tabs, np)
            + transform_char(x, tabs, np));
    }
}

/// Exec body transform over a character vector.
pub fn transform_chars(line: &Vec<char>, tabs: bool, np: bool) -> (r: Vec<char>)
    ensures
        r@ == transform_seq(line@, tabs, np),
{
    let mut r: Vec<char> = Vec::new();
    let mut i: usize = 0;
    while i < line.len()
        invariant
            0 <= i <= line@.len(),
            r@ == transform_seq(line@.take(i as int), tabs, np),
        decreases line@.len() - i,
    {
        let c: char = line[i];
        let ghost r0 = r@;
        if np {
            if is_control(c) && c != '\t' {
                let u: u32 = c as u32;
                r.push('^');
                r.push(((u + 64) as u8) as char);
                proof {
                    assert(r@ =~= r0 + caret_seq(c));
                }
            } else if c == '\t' && tabs {
                r.push('^');
                r.push('I');
                proof {
                    assert(r@ =~= r0 + seq!['^', 'I']);
                }
            } else {
                r.push(c);
                proof {
                    assert(r@ =~= r0 + seq![c]);
                }
            }
        } else if tabs && c == '\t' {
            r.push('^');
            r.push('I');
            proof {
                assert(r@ =~= r0 + seq!['^', 'I']);
            }
        } else {
            r.push(c);
            proof {
                assert(r@ =~= r0 + seq![c]);
            }
        }
        proof {
            assert(line@.take(i + 1) =~= line@.take(i as int).push(line@[i as int]));
            lemma_transform_push(line@.take(i as int), line@[i as int], tabs, np);
        }
        i += 1;
    }
    proof {
        assert(line@.take(line@.len() as int) =~= line@);
    }
    r
}

/// The segment sequence of the highlight emphasis: every leftmost,
/// non-overlapping occurrence of the pattern wrapped in the highlight style,
/// the text between occurrences plain.  An empty pattern is a no-op: the body
/// stays one plain segment.
pub open spec fn highlight_spec(s: Seq<char>, pat: Seq<char>) -> Seq<SegV>
    decreases s.len(),
    via highlight_spec_decreases
{
    if pat.len() == 0 {
        seq![plain(s)]
    } else {
        match find_spec(s, pat) {
            Option::None => seq![plain(s)],
            Option::Some(i) => seq![
                plain(s.take(i)),
                SegV { text: pat, role: Role::Highlight },
            ] + highlight_spec(s.skip(i + pat.len()), pat),
        }
    }
}

#[via_fn]
proof fn highlight_spec_decreases(s: Seq<char>, pat: Seq<char>) {
    lemma_find_spec_correct(s, pat);
}

/// Exec highlight emphasis: appends the segments for `rest` to `segs`.
fn highlight_into(rest: &Vec<char>, pat: &Vec<char>, segs: &mut Vec<Segment>)
    requires
        pat@.len() > 0,
    ensures
        final(segs)@.map_values(|s: Segment| s@) == old(segs)@.map_values(|s: Segment| s@)
            + highlight_spec(rest@, pat@),
    decreases rest@.len(),
{
    proof {
        lemma_find_spec_correct(rest@, pat@);
    }
    let m: usize = pat.len();
    match find_first(rest, pat) {
        None => {
            segs.push(Segment { text: chars_to_string(rest), role: Role::Plain });
            proof {
                assert(segs@.map_values(|s: Segment| s@) =~= old(segs)@.map_values(
                    |s: Segment| s@,
                ) + highlight_spec(rest@, pat@));
            }
        },
        Some(i) => {
            let ghost before = segs@.map_values(|s: Segment| s@);
            let prefix = take_range(rest, 0, i);
            segs.push(Segment { text: chars_to_string(&prefix), role: Role::Plain });
            segs.push(Segment { text: chars_to_string(pat), role: Role::Highlight });
            proof {
                assert(rest@.subrange(0, i as int) =~= rest@.take(i as int));
                assert(segs@.map_values(|s: Segment| s@) =~= before + seq![
                    plain(rest@.take(i as int)),
                    SegV { text: pat@, role: Role::Highlight },
                ]);
            }
            let n: usize = rest.len();
            proof {
                let si = find_spec(rest@, pat@)->Some_0;
                assert(match_at(rest@, pat@, si));
                assert(0 <= si && si + pat@.len() <= n);
                assert(si as usize as int == si);
                assert(i as int == si);
                assert(i + m <= n);
            }
            let next = take_range(rest, i + m, n);
            proof {
                assert(next@ =~= rest@.skip(i + m));
            }
            highlight_into(&next, pat, segs);
            proof {
                vstd::seq_lib::lemma_concat_associative(
                    before,
                    seq![plain(rest@.take(i as int)), SegV { text: pat@, role: Role::Highlight }],
                    highlight_spec(next@, pat@),
                );
            }
        },
    }
}

/// The rainbow emphasis: one segment per character, each under the palette
/// entry for its position.
pub open spec fn rainbow_spec(s: Seq<char>) -> Seq<SegV> {
    Seq::new(s.len(), |i: int| SegV { text: seq![s[i]], role: Role::Rainbow((i % 6) as usize) })
}

/// Exec rainbow emphasis.
fn rainbow_segments(body: &Vec<char>) -> (segs: Vec<Segment>)
    ensures
        segs@.map_values(|s: Segment| s@) == rainbow_spec(body@),
{
    let mut segs: Vec<Segment> = Vec::new();
    let mut i: usize = 0;
    while i < body.len()
        invariant
            0 <= i <= body@.len(),
            segs@.map_values(|s: Segment| s@) =~= rainbow_spec(body@).take(i as int),
        decreases body@.len() - i,
    {
        let mut one: Vec<char> = Vec::new();
        one.push(body[i]);
        let k: usize = i % 6;
        let ghost prev = segs@.map_values(|s: Segment| s@);
        let seg = Segment { text: chars_to_string(&one), role: Role::Rainbow(k) };
        proof {
            assert(one@ =~= seq![body@[i as int]]);
            assert(seg@ =~= rainbow_spec(body@)[i as int]);
        }
        segs.push(seg);
        proof {
            assert(segs@.map_values(|s: Segment| s@) =~= prev.push(seg@));
            assert(rainbow_spec(body@).take(i + 1) =~= rainbow_spec(body@).take(i as int).push(
                rainbow_spec(body@)[i as int],
            ));
            assert(segs@.map_values(|s: Segment| s@) =~= rainbow_spec(body@).take(i + 1));
        }
        i += 1;
    }
    proof {
        assert(rainbow_spec(body@).take(body@.len() as int) =~= rainbow_spec(body@));
    }
    segs
}

/// The number of lines `str::lines` sees in a body with no embedded newline:
/// zero for an empty body, one otherwise.
pub open spec fn body_line_count(body: Seq<char>) -> int {
    if body.len() == 0 {
        0
    } else {
        1
    }
}

/// The length-suffix segments: a plain space, then `[<lines>L, <chars>C]`
/// under the `normal` style.
pub open spec fn len_suffix_segs(body: Seq<char>) -> Seq<SegV> {
    seq![
        plain(" "@),
        SegV {
            text: "["@ + dec_str(body_line_count(body)) + "L, "@ + dec_str(body.len() as int)
                + "C]"@,
            role: Role::Normal,
        },
    ]
}

/// The end-of-line marker segment: `$` under the highlight style.
pub open spec fn end_marker_seg() -> SegV {
    SegV { text: "$"@, role: Role::Highlight }
}

/// The rendered segment sequence of one raw line under an option bundle:
/// transformed body, emphasis (highlight takes priority over rainbow), then
/// the optional length suffix and end marker.
pub open spec fn render_spec(line: Seq<char>, c: ConfigV) -> Seq<SegV> {
    let body = transform_seq(line, c.show_tabs, c.show_all_nonprinting);
    let emph = match c.highlight_pattern {
        Option::Some(p) => highlight_spec(body, p),
        Option::None => if c.rainbow_mode {
            rainbow_spec(body)
        } else {
            seq![plain(body)]
        },
    };
    let with_len = if c.show_line_length {
        emph + len_suffix_segs(body)
    } else {
        emph
    };
    if c.show_ends {
        with_len + seq![end_marker_seg()]
    } else {
        with_len
    }
}

/// The `[<lines>L, <chars>C]` text of the length suffix.
fn len_suffix_text(body: &Vec<char>) -> (r: String)
    ensures
        r@ == "["@ + dec_str(body_line_count(body@)) + "L, "@ + dec_str(body@.len() as int)
            + "C]"@,
{
    let mut t: Vec<char> = Vec::new();
    t.push('[');
    let lines: u64 = if body.len() == 0 {
        0
    } else {
        1
    };
    let lv = u64_to_dec(lines);
    push_all(&mut t, &lv);
    t.push('L');
    t.push(',');
    t.push(' ');
    let cv = u64_to_dec(body.len() as u64);
    push_all(&mut t, &cv);
    t.push('C');
    t.push(']');
    proof {
        reveal_strlit("[");
        reveal_strlit("L, ");
        reveal_strlit("C]");
        assert(t@ =~= "["@ + dec_str(body_line_count(body@)) + "L, "@ + dec_str(
            body@.len() as int,
        ) + "C]"@);
    }
    chars_to_string(&t)
}

/// Render one raw line to its segment sequence under an option bundle.
pub fn render(line: &str, c: &Config) -> (segs: Vec<Segment>)
    ensures
        segs@.map_values(|s: Segment| s@) == render_spec(line@, c@),
{
    let chars = str_chars(line);
    let body = transform_chars(&chars, c.show_tabs, c.show_all_nonprinting);
    let mut segs: Vec<Segment>;
    match &c.highlight_pattern {
        Some(p) => {
            let pat = str_chars(p.as_str());
            segs = Vec::new();
            if pat.len() == 0 {
                segs.push(Segment { text: chars_to_string(&body), role: Role::Plain });
                proof {
                    assert(segs@.map_values(|s: Segment| s@) =~= highlight_spec(body@, pat@));
                }
            } else {
                highlight_into(&body, &pat, &mut segs);
                proof {
                    assert(Seq::<Segment>::empty().map_values(|s: Segment| s@) =~= Seq::<
                        SegV,
                    >::empty());
                    assert(segs@.map_values(|s: Segment| s@) =~= highlight_spec(
                        transform_seq(line@, c.show_tabs, c.show_all_nonprinting),
                        pat@,
                    ));
                }
            }
        },
        None => {
            if c.rainbow_mode {
                segs = rainbow_segments(&body);
            } else {
                segs = Vec::new();
                segs.push(Segment { text: chars_to_string(&body), role: Role::Plain });
                proof {
                    assert(segs@.map_values(|s: Segment| s@) =~= seq![plain(body@)]);
                }
            }
        },
    }
    let ghost emph = segs@.map_values(|s: Segment| s@);
    if c.show_line_length {
        segs.push(Segment { text: " ".to_owned(), role: Role::Plain });
        segs.push(Segment { text: len_suffix_text(&body), role: Role::Normal });
        proof {
            assert(segs@.map_values(|s: Segment| s@) =~= emph + len_suffix_segs(body@));
        }
    }
    let ghost with_len = segs@.map_values(|s: Segment| s@);
    if c.show_ends {
        segs.push(Segment { text: "$".to_owned(), role: Role::Highlight });
        proof {
            assert(segs@.map_values(|s: Segment| s@) =~= with_len + seq![end_marker_seg()]);
        }
    }
    proof {
        assert(segs@.map_values(|s: Segment| s@) =~= render_spec(line@, c@));
    }
    segs
}


/// With `show_tabs`, every tab in the input becomes exactly the two
/// characters `^I`, and no tab character survives anywhere in the
/// transformed body — in particular the `^` / `I` pair of an escape is never
/// itself re-escaped, since each input character is transformed exactly once.
pub proof fn lemma_show_tabs_escapes(s: Seq<char>, np: bool)
    ensures
        forall|j: int|
            0 <= j < s.len() && s[j] == '\t' ==> transform_char(s[j], true, np) == seq!['^', 'I'],
        forall|i: int|
            0 <= i < transform_seq(s, true, np).len() ==> transform_seq(s, true, np)[i] != '\t',
    decreases s.len(),
{
    if s.len() > 0 {
        lemma_show_tabs_escapes(s.drop_first(), np);
        let img = transform_char(s[0], true, np);
        let tail = transform_seq(s.drop_first(), true, np);
        assert(transform_seq(s, true, np) == img + tail);
        assert forall|i: int| 0 <= i < img.len() implies img[i] != '\t' by {
            if np && is_control_char(s[0]) && s[0] != '\t' {
                assert(img == caret_seq(s[0]));
                assert(64 <= (s[0] as u32) + 64 <= 0x9F + 64);
                assert(img[1] != '\t');
            }
        }
        assert forall|i: int|
            0 <= i < transform_seq(s, true, np).len() implies transform_seq(s, true, np)[i]
            != '\t' by {
            if i < img.len() {
                assert((img + tail)[i] == img[i]);
            } else {
                assert((img + tail)[i] == tail[i - img.len()]);
            }
        }
    }
}

/// Highlighting with an empty pattern string is a no-op: the body stays one
/// plain segment, and that segment resolves to the body unchanged under
/// every theme — no character is ever wrapped.
pub proof fn lemma_highlight_empty(s: Seq<char>, t: ThemeV)
    ensures
        highlight_spec(s, Seq::empty()) == seq![plain(s)],
        resolve_segs(seq![plain(s)], t) == s,
{
    assert(seq![plain(s)].drop_first() =~= Seq::<SegV>::empty());
    assert(resolve_segs(Seq::<SegV>::empty(), t) == Seq::<char>::empty());
    assert(resolve_segs(seq![plain(s)], t) =~= s);
}

} // verus!
