//! The stream filter/numberer: per raw line it decides whether the line is
//! visible (blank-squeezing first, then grep), computes the optional
//! line-number label, and advances the per-source stream state.

use vstd::prelude::*;
use crate::options::{Config, ConfigV};
use crate::text::{is_blank_spec, is_blank_line, contains_seq, contains_sub, str_chars};

verus! {

/// Per-source stream state: how many visible lines were numbered so far, and
/// whether the previous line was blank.
#[derive(Clone, Copy, PartialEq, Eq, Structural, Debug)]
pub struct StreamState {
    pub count: u64,
    pub prev_blank: bool,
}

/// Mathematical view of the stream state.
#[verifier::ext_equal]
pub struct StateV {
    pub count: int,
    pub prev_blank: bool,
}

impl View for StreamState {
    type V = StateV;

    open spec fn view(&self) -> StateV {
        StateV { count: self.count as int, prev_blank: self.prev_blank }
    }
}

impl StreamState {
    /// The state at the start of each source's traversal.
    pub fn start() -> (s: StreamState)
        ensures
            s@ == (StateV { count: 0, prev_blank: false }),
    {
        StreamState { count: 0, prev_blank: false }
    }
}

/// The filter's verdict on one line.
pub struct Decision {
    pub visible: bool,
    pub label: Option<u64>,
    pub state: StreamState,
}

/// Mathematical view of a verdict.
#[verifier::ext_equal]
pub struct DecisionV {
    pub visible: bool,
    pub label: Option<int>,
    pub state: StateV,
}

impl View for Decision {
    type V = DecisionV;

    open spec fn view(&self) -> DecisionV {
        DecisionV {
            visible: self.visible,
            label: match self.label {
                Option::Some(n) => Option::Some(n as int),
                Option::None => Option::None,
            },
            state: self.state@,
        }
    }
}

/// The filter's decision order per line: a blank line following a blank line
/// is squeezed away (state unchanged); a line missing the grep pattern is
/// dropped but still updates the previous-blank flag; a visible line is
/// numbered according to the numbering mode.  `number_nonblank` takes
/// precedence over plain numbering and labels only non-blank lines;
/// suppressed lines never consume a number.
pub open spec fn advance_spec(line: Seq<char>, st: StateV, c: ConfigV) -> DecisionV {
    let blank = is_blank_spec(line);
    if c.squeeze_blank && blank && st.prev_blank {
        DecisionV { visible: false, label: Option::None, state: st }
    } else if c.grep_pattern is Some && !contains_seq(line, c.grep_pattern->0) {
        DecisionV {
            visible: false,
            label: Option::None,
            state: StateV { count: st.count, prev_blank: blank },
        }
    } else {
        if c.number_nonblank {
            if blank {
                DecisionV {
                    visible: true,
                    label: Option::None,
                    state: StateV { count: st.count, prev_blank: blank },
                }
            } else {
                DecisionV {
                    visible: true,
                    label: Option::Some(st.count + 1),
                    state: StateV { count: st.count + 1, prev_blank: blank },
                }
            }
        } else if c.show_line_numbers {
            DecisionV {
                visible: true,
                label: Option::Some(st.count + 1),
                state: StateV { count: st.count + 1, prev_blank: blank },
            }
        } else {
            DecisionV {
                visible: true,
                label: Option::None,
                state: StateV { count: st.count, prev_blank: blank },
            }
        }
    }
}

/// Exec filter step.
pub fn advance(line: &str, st: StreamState, c: &Config) -> (d: Decision)
    requires
        st.count < u64::MAX,
    ensures
        d@ == advance_spec(line@, st@, c@),
{
    let blank = is_blank_line(line);
    if c.squeeze_blank && blank && st.prev_blank {
        return Decision { visible: false, label: None, state: st };
    }
    let grep_miss: bool = match &c.grep_pattern {
        Some(p) => {
            let hay = str_chars(line);
            let needle = str_chars(p.as_str());
            !contains_sub(&hay, &needle)
        },
        None => false,
    };
    if grep_miss {
        return Decision {
            visible: false,
            label: None,
            state: StreamState { count: st.count, prev_blank: blank },
        };
    }
    if c.number_nonblank {
        if blank {
            Decision {
                visible: true,
                label: None,
                state: StreamState { count: st.count, prev_blank: blank },
            }
        } else {
            Decision {
                visible: true,
                label: Some(st.count + 1),
                state: StreamState { count: st.count + 1, prev_blank: blank },
            }
        }
    } else if c.show_line_numbers {
        Decision {
            visible: true,
            label: Some(st.count + 1),
            state: StreamState { count: st.count + 1, prev_blank: blank },
        }
    } else {
        Decision {
            visible: true,
            label: None,
            state: StreamState { count: st.count, prev_blank: blank },
        }
    }
}

/// The stream state after the filter has seen the first `n` lines of a
/// source, starting from the per-source initial state.
pub open spec fn state_after(lines: Seq<Seq<char>>, n: int, c: ConfigV) -> StateV
    decreases n,
{
    if n <= 0 {
        StateV { count: 0, prev_blank: false }
    } else {
        advance_spec(lines[n - 1], state_after(lines, n - 1, c), c).state
    }
}

/// The filter's verdict on line `i` of a source.
pub open spec fn decision_at(lines: Seq<Seq<char>>, i: int, c: ConfigV) -> DecisionV {
    advance_spec(lines[i], state_after(lines, i, c), c)
}

/// Whatever the verdict on a blank line, the state afterwards records that
/// the previous line was blank; likewise a non-blank line clears the flag.
pub proof fn lemma_prev_blank_tracks(line: Seq<char>, st: StateV, c: ConfigV)
    ensures
        advance_spec(line, st, c).state.prev_blank == (is_blank_spec(line) || (st.prev_blank
            && c.squeeze_blank && is_blank_spec(line))),
        is_blank_spec(line) ==> advance_spec(line, st, c).state.prev_blank,
        !is_blank_spec(line) ==> !advance_spec(line, st, c).state.prev_blank,
{
}

/// With `squeeze_blank` enabled, at most one line of any run of consecutive
/// blank lines is visible: a blank line directly after another blank line is
/// never emitted, whether or not the earlier one was.
pub proof fn lemma_squeeze_blank(lines: Seq<Seq<char>>, i: int, c: ConfigV)
    requires
        c.squeeze_blank,
        0 <= i < lines.len() - 1,
        is_blank_spec(lines[i]),
        is_blank_spec(lines[i + 1]),
    ensures
        !decision_at(lines, i + 1, c).visible,
{
    lemma_prev_blank_tracks(lines[i], state_after(lines, i, c), c);
    assert(state_after(lines, i + 1, c) == advance_spec(lines[i], state_after(lines, i, c), c).state);
}

/// The numbering invariant: starting from the initial state, the counter
/// after `n` lines equals the number of numbered lines among them — with
/// plain `--number`, every visible line; with `--number-nonblank`, every
/// visible non-blank line.
pub open spec fn numbered_count(lines: Seq<Seq<char>>, n: int, c: ConfigV) -> int
    decreases n,
{
    if n <= 0 {
        0
    } else {
        numbered_count(lines, n - 1, c) + if decision_at(lines, n - 1, c).label is Some {
            1int
        } else {
            0int
        }
    }
}

/// Numbering is monotonically increasing by exactly one per numbered line:
/// the label of the `i`-th line, when it has one, is one more than the number
/// of labelled lines before it.  With plain `--number` every visible line is
/// labelled; with `--number-nonblank` exactly the visible non-blank lines
/// are, and visible blank lines get no label.
pub proof fn lemma_numbering(lines: Seq<Seq<char>>, i: int, c: ConfigV)
    requires
        0 <= i < lines.len(),
    ensures
        state_after(lines, i, c).count == numbered_count(lines, i, c),
        decision_at(lines, i, c).label is Some ==> decision_at(lines, i, c).label->0
            == numbered_count(lines, i, c) + 1,
        c.number_nonblank ==> (decision_at(lines, i, c).label is Some <==> (decision_at(
            lines,
            i,
            c,
        ).visible && !is_blank_spec(lines[i]))),
        !c.number_nonblank && c.show_line_numbers ==> (decision_at(lines, i, c).label is Some
            <==> decision_at(lines, i, c).visible),
        !c.number_nonblank && !c.show_line_numbers ==> decision_at(lines, i, c).label is None,
    decreases i,
{
    if i > 0 {
        lemma_numbering(lines, i - 1, c);
    }
}

} // verus!
