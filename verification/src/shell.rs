//! The interactive shell's pure core: the command grammar (first
//! whitespace-separated token selects the sub-command, the rest are
//! positional arguments) and the transcript listing.  The read-evaluate loop
//! itself only performs I/O and re-enters the rendering pipeline.

use vstd::prelude::*;
use crate::text::{
    is_ws_char, is_whitespace_char, str_chars, str_eq, chars_to_string, take_range, dec_str,
    u64_to_dec, push_all,
};

verus! {

/// The whitespace-separated tokens of a line, in order, each maximal and
/// non-empty.
pub open spec fn split_ws(s: Seq<char>) -> Seq<Seq<char>>
    decreases s.len(),
{
    if s.len() == 0 {
        Seq::empty()
    } else if is_ws_char(s[0]) {
        split_ws(s.drop_first())
    } else {
        let rest = split_ws(s.drop_first());
        if s.len() == 1 || is_ws_char(s[1]) {
            seq![seq![s[0]]] + rest
        } else {
            seq![seq![s[0]] + rest[0]] + rest.drop_first()
        }
    }
}

/// Splitting off one maximal non-whitespace run: if the first `k` characters
/// are non-whitespace and the run ends there, the first token is exactly
/// that run.
pub proof fn lemma_split_ws_run(s: Seq<char>, k: int)
    requires
        1 <= k <= s.len(),
        forall|j: int| 0 <= j < k ==> !is_ws_char(s[j]),
        k == s.len() || is_ws_char(s[k]),
    ensures
        split_ws(s) == seq![s.take(k)] + split_ws(s.skip(k)),
    decreases k,
{
    if k == 1 {
        assert(s.take(1) =~= seq![s[0]]);
        assert(s.skip(1) =~= s.drop_first());
        assert(split_ws(s) =~= seq![s.take(1)] + split_ws(s.skip(1)));
    } else {
        lemma_split_ws_run(s.drop_first(), k - 1);
        let rest = split_ws(s.drop_first());
        assert(s.drop_first().take(k - 1) =~= s.subrange(1, k));
        assert(s.drop_first().skip(k - 1) =~= s.skip(k));
        assert(rest == seq![s.subrange(1, k)] + split_ws(s.skip(k)));
        assert(rest[0] == s.subrange(1, k));
        assert(rest.drop_first() =~= split_ws(s.skip(k)));
        assert(seq![s[0]] + s.subrange(1, k) =~= s.take(k));
        assert(split_ws(s) =~= seq![s.take(k)] + split_ws(s.skip(k)));
    }
}

/// Exec tokenizer matching [`split_ws`].
pub fn split_whitespace_tokens(s: &str) -> (toks: Vec<String>)
    ensures
        toks.deep_view() == split_ws(s@),
{
    let chars = str_chars(s);
    let n: usize = chars.len();
    let mut toks: Vec<String> = Vec::new();
    let mut i: usize = 0;
    proof {
        assert(chars@.skip(0) =~= chars@);
        assert(toks.deep_view() =~~= Seq::<Seq<char>>::empty());
    }
    while i < n
        invariant
            chars@ == s@,
            n == chars@.len(),
            0 <= i <= n,
            toks.deep_view() + split_ws(chars@.skip(i as int)) =~~= split_ws(chars@),
        decreases n - i,
    {
        if is_whitespace_char(chars[i]) {
            proof {
                assert(chars@.skip(i as int).drop_first() =~= chars@.skip(i + 1));
                assert(split_ws(chars@.skip(i as int)) == split_ws(chars@.skip(i + 1)));
            }
            i += 1;
        } else {
            let mut j: usize = i + 1;
            while j < n && !is_whitespace_char(chars[j])
                invariant
                    n == chars@.len(),
                    i < j <= n,
                    forall|t: int| i <= t < j ==> !is_ws_char(chars@[t]),
                decreases n - j,
            {
                j += 1;
            }
            let word = take_range(&chars, i, j);
            let ghost toks0 = toks.deep_view();
            toks.push(chars_to_string(&word));
            proof {
                let rem = chars@.skip(i as int);
                lemma_split_ws_run(rem, j - i);
                assert(rem.take(j - i) =~= chars@.subrange(i as int, j as int));
                assert(rem.skip(j - i) =~= chars@.skip(j as int));
                assert(toks.deep_view() =~~= toks0.push(word@));
                assert(toks.deep_view() + split_ws(chars@.skip(j as int)) =~~= toks0
                    + split_ws(rem));
            }
            i = j;
        }
    }
    proof {
        assert(chars@.skip(n as int) =~= Seq::<char>::empty());
        assert(toks.deep_view() =~~= split_ws(chars@));
    }
    toks
}

/// A recognized shell input: a sub-command with its arguments, a usage error
/// for a known sub-command with too few arguments, or an unknown command.
pub enum ShellCommand {
    /// `exit` or `quit`: terminate the loop.
    Exit,
    /// `help`: print the command summary.
    Help,
    /// `history`: print the transcript.
    History,
    /// `cat <file>`: render with the base option set.
    Cat(String),
    /// `grep <pattern> <file>`: base options with the grep pattern overridden.
    Grep(String, String),
    /// `highlight <pattern> <file>`: base options with the highlight pattern
    /// overridden.
    Highlight(String, String),
    /// `rainbow <file>`: base options with rainbow mode forced on.
    Rainbow(String),
    /// `cat` without its argument.
    CatUsage,
    /// `grep` without its two arguments.
    GrepUsage,
    /// `highlight` without its two arguments.
    HighlightUsage,
    /// `rainbow` without its argument.
    RainbowUsage,
    /// Anything else; holds the offending command token.
    Unknown(String),
}

/// Mathematical view of a recognized shell input.
pub enum ShellCommandV {
    Exit,
    Help,
    History,
    Cat(Seq<char>),
    Grep(Seq<char>, Seq<char>),
    Highlight(Seq<char>, Seq<char>),
    Rainbow(Seq<char>),
    CatUsage,
    GrepUsage,
    HighlightUsage,
    RainbowUsage,
    Unknown(Seq<char>),
}

impl View for ShellCommand {
    type V = ShellCommandV;

    open spec fn view(&self) -> ShellCommandV {
        match self {
            ShellCommand::Exit => ShellCommandV::Exit,
            ShellCommand::Help => ShellCommandV::Help,
            ShellCommand::History => ShellCommandV::History,
            ShellCommand::Cat(f) => ShellCommandV::Cat(f@),
            ShellCommand::Grep(p, f) => ShellCommandV::Grep(p@, f@),
            ShellCommand::Highlight(p, f) => ShellCommandV::Highlight(p@, f@),
            ShellCommand::Rainbow(f) => ShellCommandV::Rainbow(f@),
            ShellCommand::CatUsage => ShellCommandV::CatUsage,
            ShellCommand::GrepUsage => ShellCommandV::GrepUsage,
            ShellCommand::HighlightUsage => ShellCommandV::HighlightUsage,
            ShellCommand::RainbowUsage => ShellCommandV::RainbowUsage,
            ShellCommand::Unknown(c) => ShellCommandV::Unknown(c@),
        }
    }
}

/// The command selected by a non-empty token list: the first token picks the
/// sub-command, the following tokens are its arguments, extra tokens are
/// ignored.
pub open spec fn command_of(ts: Seq<Seq<char>>) -> ShellCommandV
    recommends
        ts.len() > 0,
{
    let cmd = ts[0];
    if cmd == "exit"@ || cmd == "quit"@ {
        ShellCommandV::Exit
    } else if cmd == "help"@ {
        ShellCommandV::Help
    } else if cmd == "history"@ {
        ShellCommandV::History
    } else if cmd == "cat"@ {
        if ts.len() < 2 {
            ShellCommandV::CatUsage
        } else {
            ShellCommandV::Cat(ts[1])
        }
    } else if cmd == "grep"@ {
        if ts.len() < 3 {
            ShellCommandV::GrepUsage
        } else {
            ShellCommandV::Grep(ts[1], ts[2])
        }
    } else if cmd == "highlight"@ {
        if ts.len() < 3 {
            ShellCommandV::HighlightUsage
        } else {
            ShellCommandV::Highlight(ts[1], ts[2])
        }
    } else if cmd == "rainbow"@ {
        if ts.len() < 2 {
            ShellCommandV::RainbowUsage
        } else {
            ShellCommandV::Rainbow(ts[1])
        }
    } else {
        ShellCommandV::Unknown(cmd)
    }
}

/// The command an input line maps to, or nothing for a line with no tokens.
pub open spec fn command_spec(s: Seq<char>) -> Option<ShellCommandV> {
    let ts = split_ws(s);
    if ts.len() == 0 {
        Option::None
    } else {
        Option::Some(command_of(ts))
    }
}

/// Parse one shell input line.
pub fn parse_command(input: &str) -> (r: Option<ShellCommand>)
    ensures
        match r {
            Option::Some(cmd) => command_spec(input@) == Option::Some(cmd@),
            Option::None => command_spec(input@) is None,
        },
{
    let toks = split_whitespace_tokens(input);
    if toks.len() == 0 {
        return None;
    }
    proof {
        assert(toks.deep_view()[0] == toks@[0]@);
    }
    let cmd = toks[0].as_str();
    let r: ShellCommand = if str_eq(cmd, "exit") || str_eq(cmd, "quit") {
        ShellCommand::Exit
    } else if str_eq(cmd, "help") {
        ShellCommand::Help
    } else if str_eq(cmd, "history") {
        ShellCommand::History
    } else if str_eq(cmd, "cat") {
        if toks.len() < 2 {
            ShellCommand::CatUsage
        } else {
            ShellCommand::Cat(toks[1].clone())
        }
    } else if str_eq(cmd, "grep") {
        if toks.len() < 3 {
            ShellCommand::GrepUsage
        } else {
            ShellCommand::Grep(toks[1].clone(), toks[2].clone())
        }
    } else if str_eq(cmd, "highlight") {
        if toks.len() < 3 {
            ShellCommand::HighlightUsage
        } else {
            ShellCommand::Highlight(toks[1].clone(), toks[2].clone())
        }
    } else if str_eq(cmd, "rainbow") {
        if toks.len() < 2 {
            ShellCommand::RainbowUsage
        } else {
            ShellCommand::Rainbow(toks[1].clone())
        }
    } else {
        ShellCommand::Unknown(toks[0].clone())
    };
    proof {
        let ts = split_ws(input@);
        assert(ts.len() > 0);
        assert(ts[0] == toks@[0]@);
        if ts.len() >= 2 {
            assert(ts[1] == toks@[1]@);
        }
        if ts.len() >= 3 {
            assert(ts[2] == toks@[2]@);
        }
        assert(r@ == command_of(ts));
    }
    Some(r)
}

/// The transcript listing: a header line, then each recorded input on its
/// own line, numbered from one.
pub open spec fn history_lines_spec(h: Seq<Seq<char>>) -> Seq<Seq<char>> {
    seq!["Command history:"@] + Seq::new(h.len(), |i: int| "  "@ + dec_str(i + 1) + ". "@ + h[i])
}

/// Format the transcript for printing, one output line per vector element.
pub fn history_lines(history: &Vec<String>) -> (out: Vec<String>)
    requires
        history@.len() < u64::MAX,
    ensures
        out.deep_view() == history_lines_spec(history.deep_view()),
{
    let mut out: Vec<String> = Vec::new();
    out.push("Command history:".to_owned());
    let mut i: usize = 0;
    while i < history.len()
        invariant
            history@.len() < u64::MAX,
            0 <= i <= history@.len(),
            out.deep_view() =~~= history_lines_spec(history.deep_view()).take(i + 1),
        decreases history@.len() - i,
    {
        let mut line = String::new();
        line.append("  ");
        let num = u64_to_dec((i as u64) + 1);
        let num_s = chars_to_string(&num);
        line.append(num_s.as_str());
        line.append(". ");
        line.append(history[i].as_str());
        let ghost out0 = out.deep_view();
        out.push(line);
        proof {
            assert(line@ == "  "@ + dec_str(i + 1) + ". "@ + history.deep_view()[i as int]);
            assert(out.deep_view() =~~= out0.push(line@));
            assert(history_lines_spec(history.deep_view()).take(i + 2) =~~= history_lines_spec(
                history.deep_view(),
            ).take(i + 1).push(history_lines_spec(history.deep_view())[i + 1]));
        }
        i += 1;
    }
    proof {
        assert(history_lines_spec(history.deep_view()).take(history@.len() as int + 1)
            =~~= history_lines_spec(history.deep_view()));
    }
    out
}

} // verus!
