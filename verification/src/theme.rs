//! Color theme and rendered segments.
//!
//! A rendered line is a sequence of (text, style-role) segments; the active
//! theme resolves each role to a concrete ANSI styling token (or to nothing,
//! when color is disabled) only when the segments are flattened for the sink.

use vstd::prelude::*;

verus! {

/// Semantic styling role of one rendered segment.
#[derive(Clone, Copy, PartialEq, Eq, Structural, Debug)]
pub enum Role {
    /// Unstyled text, emitted verbatim.
    Plain,
    /// The theme's `normal` style (used by the length suffix).
    Normal,
    /// The theme's `number` style (line-number labels).
    Number,
    /// The theme's `highlight` style (pattern matches and the `$` end marker).
    Highlight,
    /// The fixed rainbow palette entry for a character position; the index is
    /// taken modulo the palette length of six.
    Rainbow(usize),
}

/// Mapping from semantic roles to styling tokens.  The enabled variant holds
/// ANSI escape sequences, the disabled variant empty strings.
pub struct ColorConfig {
    pub normal: String,
    pub number: String,
    pub highlight: String,
    pub error: String,
    pub success: String,
    pub filename: String,
    pub reset: String,
}

/// Mathematical view of a theme: the styling token of each role.
#[verifier::ext_equal]
pub struct ThemeV {
    pub normal: Seq<char>,
    pub number: Seq<char>,
    pub highlight: Seq<char>,
    pub error: Seq<char>,
    pub success: Seq<char>,
    pub filename: Seq<char>,
    pub reset: Seq<char>,
}

impl View for ColorConfig {
    type V = ThemeV;

    open spec fn view(&self) -> ThemeV {
        ThemeV {
            normal: self.normal@,
            number: self.number@,
            highlight: self.highlight@,
            error: self.error@,
            success: self.success@,
            filename: self.filename@,
            reset: self.reset@,
        }
    }
}

/// The theme used when color is enabled.
pub open spec fn enabled_theme() -> ThemeV {
    ThemeV {
        normal: "\x1B[0m"@,
        number: "\x1B[33m"@,
        highlight: "\x1B[36m"@,
        error: "\x1B[31m"@,
        success: "\x1B[32m"@,
        filename: "\x1B[35m"@,
        reset: "\x1B[0m"@,
    }
}

/// The theme used when color is disabled: every token is empty.
pub open spec fn disabled_theme() -> ThemeV {
    ThemeV {
        normal: Seq::empty(),
        number: Seq::empty(),
        highlight: Seq::empty(),
        error: Seq::empty(),
        success: Seq::empty(),
        filename: Seq::empty(),
        reset: Seq::empty(),
    }
}

impl ColorConfig {
    /// The fixed theme for the given capability: ANSI escapes when colors are
    /// on, empty tokens when they are off.
    pub fn new(use_colors: bool) -> (r: ColorConfig)
        ensures
            use_colors ==> r@ == enabled_theme(),
            !use_colors ==> r@ == disabled_theme(),
    {
        if use_colors {
            ColorConfig {
                normal: "\x1B[0m".to_owned(),
                number: "\x1B[33m".to_owned(),
                highlight: "\x1B[36m".to_owned(),
                error: "\x1B[31m".to_owned(),
                success: "\x1B[32m".to_owned(),
                filename: "\x1B[35m".to_owned(),
                reset: "\x1B[0m".to_owned(),
            }
        } else {
            let r = ColorConfig {
                normal: "".to_owned(),
                number: "".to_owned(),
                highlight: "".to_owned(),
                error: "".to_owned(),
                success: "".to_owned(),
                filename: "".to_owned(),
                reset: "".to_owned(),
            };
            proof {
                reveal_strlit("");
                assert(""@ =~= Seq::<char>::empty());
            }
            r
        }
    }

    /// A copy of the theme, token for token.
    pub fn duplicate(&self) -> (r: ColorConfig)
        ensures
            r@ == self@,
    {
        ColorConfig {
            normal: self.normal.clone(),
            number: self.number.clone(),
            highlight: self.highlight.clone(),
            error: self.error.clone(),
            success: self.success.clone(),
            filename: self.filename.clone(),
            reset: self.reset.clone(),
        }
    }
}

/// One rendered segment: a run of text under a single style role.
pub struct Segment {
    pub text: String,
    pub role: Role,
}

/// Mathematical view of a segment.
#[verifier::ext_equal]
pub struct SegV {
    pub text: Seq<char>,
    pub role: Role,
}

impl View for Segment {
    type V = SegV;

    open spec fn view(&self) -> SegV {
        SegV { text: self.text@, role: self.role }
    }
}

/// A plain segment.
pub open spec fn plain(text: Seq<char>) -> SegV {
    SegV { text: text, role: Role::Plain }
}

/// The rainbow palette, cyclic with period six: red, yellow, green, cyan,
/// blue, magenta.
pub open spec fn rainbow_code(i: int) -> Seq<char> {
    let k = i % 6;
    if k == 0 {
        "\x1B[31m"@
    } else if k == 1 {
        "\x1B[33m"@
    } else if k == 2 {
        "\x1B[32m"@
    } else if k == 3 {
        "\x1B[36m"@
    } else if k == 4 {
        "\x1B[34m"@
    } else {
        "\x1B[35m"@
    }
}

/// Exec mirror of [`rainbow_code`].
pub fn rainbow_code_str(i: usize) -> (r: &'static str)
    ensures
        r@ == rainbow_code(i as int),
{
    let k: usize = i % 6;
    if k == 0 {
        "\x1B[31m"
    } else if k == 1 {
        "\x1B[33m"
    } else if k == 2 {
        "\x1B[32m"
    } else if k == 3 {
        "\x1B[36m"
    } else if k == 4 {
        "\x1B[34m"
    } else {
        "\x1B[35m"
    }
}

/// The styling token written before a segment's text.
pub open spec fn role_prefix(r: Role, t: ThemeV) -> Seq<char> {
    match r {
        Role::Plain => Seq::empty(),
        Role::Normal => t.normal,
        Role::Number => t.number,
        Role::Highlight => t.highlight,
        Role::Rainbow(i) => rainbow_code(i as int),
    }
}

/// The styling token written after a segment's text: a reset for every styled
/// role, nothing for plain text.
pub open spec fn role_suffix(r: Role, t: ThemeV) -> Seq<char> {
    match r {
        Role::Plain => Seq::empty(),
        _ => t.reset,
    }
}

/// The concrete text of one segment under a theme.
pub open spec fn resolve_seg(s: SegV, t: ThemeV) -> Seq<char> {
    role_prefix(s.role, t) + s.text + role_suffix(s.role, t)
}

/// The concrete text of a segment sequence under a theme.
pub open spec fn resolve_segs(ss: Seq<SegV>, t: ThemeV) -> Seq<char>
    decreases ss.len(),
{
    if ss.len() == 0 {
        Seq::empty()
    } else {
        resolve_seg(ss[0], t) + resolve_segs(ss.drop_first(), t)
    }
}

/// Resolving distributes over appending one segment at the end.
pub proof fn lemma_resolve_push(ss: Seq<SegV>, x: SegV, t: ThemeV)
    ensures
        resolve_segs(ss.push(x), t) == resolve_segs(ss, t) + resolve_seg(x, t),
    decreases ss.len(),
{
    if ss.len() == 0 {
        assert(ss.push(x)[0] == x);
        assert(ss.push(x).drop_first() =~= Seq::<SegV>::empty());
        assert(resolve_segs(Seq::<SegV>::empty(), t) == Seq::<char>::empty());
        assert(resolve_segs(ss.push(x), t) =~= resolve_segs(ss, t) + resolve_seg(x, t));
    } else {
        assert(ss.push(x).drop_first() =~= ss.drop_first().push(x));
        assert(ss.push(x)[0] == ss[0]);
        lemma_resolve_push(ss.drop_first(), x, t);
        vstd::seq_lib::lemma_concat_associative(
            resolve_seg(ss[0], t),
            resolve_segs(ss.drop_first(), t),
            resolve_seg(x, t),
        );
        assert(resolve_segs(ss.push(x), t) =~= resolve_segs(ss, t) + resolve_seg(x, t));
    }
}

/// Flatten a segment sequence to its concrete styled text under a theme.
pub fn resolve_segments(segs: &Vec<Segment>, t: &ColorConfig) -> (out: String)
    ensures
        out@ == resolve_segs(segs@.map_values(|s: Segment| s@), t@),
{
    let ghost svs: Seq<SegV> = segs@.map_values(|s: Segment| s@);
    let mut out = String::new();
    let mut i: usize = 0;
    while i < segs.len()
        invariant
            svs == segs@.map_values(|s: Segment| s@),
            0 <= i <= segs@.len(),
            out@ == resolve_segs(svs.take(i as int), t@),
        decreases segs@.len() - i,
    {
        match segs[i].role {
            Role::Plain => {},
            Role::Normal => out.append(t.normal.as_str()),
            Role::Number => out.append(t.number.as_str()),
            Role::Highlight => out.append(t.highlight.as_str()),
            Role::Rainbow(k) => out.append(rainbow_code_str(k)),
        }
        out.append(segs[i].text.as_str());
        match segs[i].role {
            Role::Plain => {},
            _ => out.append(t.reset.as_str()),
        }
        proof {
            assert(svs.take(i + 1) =~= svs.take(i as int).push(svs[i as int]));
            lemma_resolve_push(svs.take(i as int), svs[i as int], t@);
            assert(out@ =~= resolve_segs(svs.take(i as int), t@) + resolve_seg(
                svs[i as int],
                t@,
            ));
        }
        i += 1;
    }
    proof {
        assert(svs.take(segs@.len() as int) =~= svs);
    }
    out
}

} // verus!
