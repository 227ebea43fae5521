//! The session driver's pure core: composing one visible output line from the
//! number prefix and the resolved segments, folding the filter and renderer
//! over a whole source, and formatting the banner metadata annotation.

use vstd::prelude::*;
use crate::options::{Config, ConfigV};
use crate::theme::{ColorConfig, ThemeV, SegV, resolve_segs, resolve_segments, plain};
use crate::render::{render, render_spec, transform_seq, transform_char};
use crate::filter::{StreamState, StateV, Decision, DecisionV, advance, advance_spec};
use crate::text::{
    is_blank_spec, is_blank_line, dec_str, u64_to_dec, chars_to_string, push_all, str_chars,
};

verus! {

/// `n` spaces (none for a non-positive `n`).
pub open spec fn spaces(n: int) -> Seq<char> {
    Seq::new(if n < 0 { 0 } else { n as nat }, |i: int| ' ')
}

/// A decimal label right-aligned in a field of width six (wider labels are
/// not truncated).
pub open spec fn label_field(n: int) -> Seq<char> {
    spaces(6 - dec_str(n).len()) + dec_str(n)
}

/// The prefix of a visible line: the styled right-aligned label and a
/// separator when the line is numbered; blank padding of the same width when
/// `number_nonblank` leaves a blank line unnumbered; nothing otherwise.
pub open spec fn prefix_spec(line: Seq<char>, label: Option<int>, c: ConfigV) -> Seq<char> {
    match label {
        Option::Some(n) => c.colors.number + label_field(n) + c.colors.reset + " | "@,
        Option::None => if c.number_nonblank && is_blank_spec(line) {
            "       | "@
        } else {
            Seq::empty()
        },
    }
}

/// The full text of one visible output line (without the trailing newline):
/// number prefix, then the rendered segments resolved under the theme.
pub open spec fn compose_line_spec(line: Seq<char>, label: Option<int>, c: ConfigV) -> Seq<char> {
    prefix_spec(line, label, c) + resolve_segs(render_spec(line, c), c.colors)
}

/// The decimal label right-aligned to width six, as exec characters.
pub fn format_label(n: u64) -> (v: Vec<char>)
    ensures
        v@ == label_field(n as int),
{
    let digits = u64_to_dec(n);
    if digits.len() >= 6 {
        proof {
            assert(spaces(6 - dec_str(n as int).len()) =~= Seq::<char>::empty());
            assert(digits@ =~= label_field(n as int));
        }
        digits
    } else {
        let mut v: Vec<char> = Vec::new();
        let pad: usize = 6 - digits.len();
        let mut i: usize = 0;
        while i < pad
            invariant
                0 <= i <= pad,
                v@ =~= spaces(pad as int).take(i as int),
            decreases pad - i,
        {
            v.push(' ');
            proof {
                assert(spaces(pad as int).take(i + 1) =~= spaces(pad as int).take(
                    i as int,
                ).push(' '));
            }
            i += 1;
        }
        proof {
            assert(spaces(pad as int).take(pad as int) =~= spaces(pad as int));
        }
        push_all(&mut v, &digits);
        v
    }
}

/// Compose one visible line: the number prefix (from the filter's verdict)
/// followed by the rendered, theme-resolved body.
pub fn compose_line(line: &str, d: &Decision, c: &Config) -> (out: String)
    ensures
        out@ == compose_line_spec(line@, d@.label, c@),
{
    let mut out = String::new();
    match d.label {
        Some(n) => {
            out.append(c.colors.number.as_str());
            let lab = format_label(n);
            let lab_s = chars_to_string(&lab);
            out.append(lab_s.as_str());
            out.append(c.colors.reset.as_str());
            out.append(" | ");
        },
        None => {
            if c.number_nonblank && is_blank_line(line) {
                out.append("       | ");
            }
        },
    }
    let segs = render(line, c);
    let body = resolve_segments(&segs, &c.colors);
    out.append(body.as_str());
    proof {
        assert(out@ =~= compose_line_spec(line@, d@.label, c@));
    }
    out
}

/// The output lines of one source from an intermediate stream state: each
/// line the filter keeps is composed and emitted, in order.
pub open spec fn process_from(lines: Seq<Seq<char>>, st: StateV, c: ConfigV) -> Seq<Seq<char>>
    decreases lines.len(),
{
    if lines.len() == 0 {
        Seq::empty()
    } else {
        let d = advance_spec(lines[0], st, c);
        let rest = process_from(lines.drop_first(), d.state, c);
        if d.visible {
            seq![compose_line_spec(lines[0], d.label, c)] + rest
        } else {
            rest
        }
    }
}

/// The output lines of one whole source, starting from the fresh per-source
/// stream state.
pub open spec fn process_spec(lines: Seq<Seq<char>>, c: ConfigV) -> Seq<Seq<char>> {
    process_from(lines, StateV { count: 0, prev_blank: false }, c)
}

/// Line mode of the session driver: filter, number and render every line of
/// one source, returning the visible output lines in order (each without its
/// trailing newline).
pub fn process_lines(lines: &Vec<String>, c: &Config) -> (out: Vec<String>)
    ensures
        out.deep_view() == process_spec(lines.deep_view(), c@),
{
    let ghost all: Seq<Seq<char>> = lines.deep_view();
    let mut out: Vec<String> = Vec::new();
    let mut st = StreamState::start();
    let mut i: usize = 0;
    proof {
        assert(all.skip(0) =~~= all);
    }
    while i < lines.len()
        invariant
            all == lines.deep_view(),
            0 <= i <= lines@.len(),
            all.len() == lines@.len(),
            st@.count <= i,
            out.deep_view() + process_from(all.skip(i as int), st@, c@) =~~= process_spec(
                all,
                c@,
            ),
        decreases lines@.len() - i,
    {
        let ghost st0 = st@;
        let ghost rem = all.skip(i as int);
        let d = advance(lines[i].as_str(), st, c);
        proof {
            assert(lines@[i as int]@ == all[i as int]);
            assert(rem[0] == all[i as int]);
            assert(rem.drop_first() =~~= all.skip(i + 1));
            assert(d@ == advance_spec(rem[0], st0, c@));
        }
        if d.visible {
            let composed = compose_line(lines[i].as_str(), &d, c);
            let ghost out0 = out.deep_view();
            out.push(composed);
            proof {
                assert(out.deep_view() =~~= out0.push(composed@));
                assert(process_from(rem, st0, c@) == seq![
                    compose_line_spec(rem[0], d@.label, c@),
                ] + process_from(all.skip(i + 1), d@.state, c@));
                assert(out0.push(composed@) + process_from(all.skip(i + 1), d@.state, c@)
                    =~~= out0 + process_from(rem, st0, c@));
            }
        } else {
            proof {
                assert(process_from(rem, st0, c@) == process_from(
                    all.skip(i + 1),
                    d@.state,
                    c@,
                ));
            }
        }
        st = d.state;
        i += 1;
    }
    proof {
        assert(all.skip(all.len() as int) =~~= Seq::<Seq<char>>::empty());
        assert(out.deep_view() =~~= process_spec(all, c@));
    }
    out
}

/// Rendering with every display toggle off reproduces the raw line exactly:
/// the composed output line is the input line, character for character.
pub proof fn lemma_identity_round_trip(line: Seq<char>, c: ConfigV)
    requires
        !c.show_tabs,
        !c.show_all_nonprinting,
        c.highlight_pattern is None,
        !c.rainbow_mode,
        !c.show_line_length,
        !c.show_ends,
        !c.number_nonblank,
        !c.show_line_numbers,
    ensures
        compose_line_spec(line, Option::None, c) == line,
{
    lemma_transform_identity(line);
    let segs = render_spec(line, c);
    assert(segs =~= seq![plain(line)]);
    assert(segs.drop_first() =~= Seq::<SegV>::empty());
    assert(resolve_segs(Seq::<SegV>::empty(), c.colors) == Seq::<char>::empty());
    assert(resolve_segs(segs, c.colors) =~= line);
    assert(compose_line_spec(line, Option::None, c) =~= line);
}

/// Without `show_tabs` and `show_nonprinting`, the body transform is the
/// identity.
pub proof fn lemma_transform_identity(s: Seq<char>)
    ensures
        transform_seq(s, false, false) == s,
    decreases s.len(),
{
    if s.len() == 0 {
        assert(transform_seq(s, false, false) =~= s);
    } else {
        lemma_transform_identity(s.drop_first());
        assert(transform_char(s[0], false, false) == seq![s[0]]);
        assert(transform_seq(s, false, false) =~= s);
    }
}


/// When the file's modification time could be read, and put on the epoch
/// scale together with the clock's current time; or why it could not.
#[derive(Clone, Copy, PartialEq, Eq, Structural, Debug)]
pub enum ModTime {
    /// Seconds since the epoch at which the file was last modified.
    Secs(u64),
    /// The file system reported no modification time.
    Unavailable,
    /// The modification time or the clock fell outside the epoch scale.
    OutOfRange,
}

/// The scaled size with one decimal digit, rounded to the nearest tenth.
pub open spec fn scaled_tenths(size: int, div: int) -> int {
    (size * 10 + div / 2) / div
}

/// `<whole>.<tenth>` of the size scaled by `div`.
pub open spec fn scaled_str(size: int, div: int) -> Seq<char> {
    dec_str(scaled_tenths(size, div) / 10) + "."@ + dec_str(scaled_tenths(size, div) % 10)
}

/// A human-readable size: bytes verbatim under one KiB, otherwise scaled to
/// the first unit that keeps the value in range, with one decimal place.
pub open spec fn size_str(size: int) -> Seq<char> {
    if size < 1024 {
        dec_str(size) + " B"@
    } else if size < 1048576 {
        scaled_str(size, 1024) + " KB"@
    } else if size < 1073741824 {
        scaled_str(size, 1048576) + " MB"@
    } else {
        scaled_str(size, 1073741824) + " GB"@
    }
}

/// The human-relative age of a modification `delta` seconds in the past:
/// minutes below one hour, hours below one day, days beyond.
pub open spec fn rel_time_str(delta: int) -> Seq<char> {
    if delta < 3600 {
        dec_str(delta / 60) + " mins ago"@
    } else if delta < 86400 {
        dec_str(delta / 3600) + " hours ago"@
    } else {
        dec_str(delta / 86400) + " days ago"@
    }
}

/// The banner metadata annotation: always the bracketed size; the bracketed
/// age when the modification time is known, the fixed text `unknown time`
/// when the file system has none, and nothing when it is out of range.
pub open spec fn meta_spec(size: int, modified: ModTime, now: int) -> Seq<char> {
    match modified {
        ModTime::Secs(m) => " ["@ + size_str(size) + "] ["@ + rel_time_str(now - m) + "]"@,
        ModTime::Unavailable => " ["@ + size_str(size) + "] [unknown time]"@,
        ModTime::OutOfRange => " ["@ + size_str(size) + "]"@,
    }
}

/// `<whole>.<tenth>` of `size / div`, rounded to the nearest tenth.
fn scaled_part(size: u64, div: u64) -> (v: Vec<char>)
    requires
        1024 <= div <= 1073741824,
    ensures
        v@ == scaled_str(size as int, div as int),
{
    let num: u128 = (size as u128) * 10 + ((div / 2) as u128);
    let t: u128 = num / (div as u128);
    proof {
        assert(num == size as int * 10 + div as int / 2);
        assert(t == scaled_tenths(size as int, div as int));
        vstd::arithmetic::div_mod::lemma_div_is_ordered_by_denominator(
            num as int,
            1024,
            div as int,
        );
        assert(num as int / 1024 < 0x10000000000000000);
        assert(t <= u64::MAX);
    }
    let t64: u64 = t as u64;
    let mut v = u64_to_dec(t64 / 10);
    v.push('.');
    let tenth = u64_to_dec(t64 % 10);
    push_all(&mut v, &tenth);
    proof {
        assert((t64 / 10) as int == scaled_tenths(size as int, div as int) / 10);
        assert((t64 % 10) as int == scaled_tenths(size as int, div as int) % 10);
        reveal_strlit(".");
        assert("."@ =~= seq!['.']);
        assert(v@ =~= scaled_str(size as int, div as int));
    }
    v
}

/// The human-readable size, as exec characters.
fn size_chars(size: u64) -> (v: Vec<char>)
    ensures
        v@ == size_str(size as int),
{
    if size < 1024 {
        let mut v = u64_to_dec(size);
        v.push(' ');
        v.push('B');
        proof {
            reveal_strlit(" B");
            assert(v@ =~= size_str(size as int));
        }
        v
    } else if size < 1048576 {
        let mut v = scaled_part(size, 1024);
        v.push(' ');
        v.push('K');
        v.push('B');
        proof {
            reveal_strlit(" KB");
            assert(v@ =~= size_str(size as int));
        }
        v
    } else if size < 1073741824 {
        let mut v = scaled_part(size, 1048576);
        v.push(' ');
        v.push('M');
        v.push('B');
        proof {
            reveal_strlit(" MB");
            assert(v@ =~= size_str(size as int));
        }
        v
    } else {
        let mut v = scaled_part(size, 1073741824);
        v.push(' ');
        v.push('G');
        v.push('B');
        proof {
            reveal_strlit(" GB");
            assert(v@ =~= size_str(size as int));
        }
        v
    }
}

/// The relative age, as exec characters.
fn rel_time_chars(delta: u64) -> (v: Vec<char>)
    ensures
        v@ == rel_time_str(delta as int),
{
    let unit: &str;
    let amount: u64;
    if delta < 3600 {
        amount = delta / 60;
        unit = " mins ago";
    } else if delta < 86400 {
        amount = delta / 3600;
        unit = " hours ago";
    } else {
        amount = delta / 86400;
        unit = " days ago";
    }
    let mut v = u64_to_dec(amount);
    let unit_chars = str_chars(unit);
    push_all(&mut v, &unit_chars);
    v
}

/// The banner metadata annotation for a source: its size and, when known,
/// how long ago it was modified, both bracketed.  The caller supplies the
/// file system's answers as plain values; a modification time in the
/// clock's future is outside this function's domain, as the subtraction
/// under it would be.
pub fn get_file_meta(size: u64, modified: ModTime, now_secs: u64) -> (r: String)
    requires
        modified matches ModTime::Secs(m) ==> m <= now_secs,
    ensures
        r@ == meta_spec(size as int, modified, now_secs as int),
{
    let mut v: Vec<char> = Vec::new();
    v.push(' ');
    v.push('[');
    let sz = size_chars(size);
    push_all(&mut v, &sz);
    proof {
        reveal_strlit(" [");
        assert(v@ =~= " ["@ + size_str(size as int));
    }
    match modified {
        ModTime::Secs(m) => {
            v.push(']');
            v.push(' ');
            v.push('[');
            let age = rel_time_chars(now_secs - m);
            push_all(&mut v, &age);
            v.push(']');
            proof {
                reveal_strlit("] [");
                reveal_strlit("]");
                assert(v@ =~= meta_spec(size as int, modified, now_secs as int));
            }
        },
        ModTime::Unavailable => {
            let tail = str_chars("] [unknown time]");
            push_all(&mut v, &tail);
            proof {
                reveal_strlit("] [unknown time]");
                assert(v@ =~= meta_spec(size as int, modified, now_secs as int));
            }
        },
        ModTime::OutOfRange => {
            v.push(']');
            proof {
                reveal_strlit("]");
                assert(v@ =~= meta_spec(size as int, modified, now_secs as int));
            }
        },
    }
    chars_to_string(&v)
}

/// The banner line announcing one of several sources: the styled source
/// name, the metadata annotation, and the closing arrows (the caller prints
/// it on a line of its own).
pub fn banner_line(path: &str, meta: &str, t: &ColorConfig) -> (r: String)
    ensures
        r@ == "\n===> "@ + t@.filename + path@ + t@.reset + meta@ + " <==="@,
{
    let mut out = String::new();
    out.append("\n===> ");
    out.append(t.filename.as_str());
    out.append(path);
    out.append(t.reset.as_str());
    out.append(meta);
    out.append(" <===");
    out
}


/// Numbered and unnumbered visible lines align to the same column width:
/// under the disabled theme, the numbered prefix of any label of at most six
/// digits and the blank prefix that `number_nonblank` gives a blank line are
/// both exactly nine characters.
pub proof fn lemma_prefix_alignment(line: Seq<char>, n: int, c: ConfigV)
    requires
        0 <= n <= 999999,
        c.colors == crate::theme::disabled_theme(),
    ensures
        prefix_spec(line, Option::Some(n), c).len() == 9,
        c.number_nonblank && is_blank_spec(line) ==> prefix_spec(line, Option::None, c).len()
            == 9,
{
    crate::text::lemma_dec_str_len(n);
    reveal_strlit(" | ");
    reveal_strlit("       | ");
    assert(label_field(n).len() == 6);
}

} // verus!
