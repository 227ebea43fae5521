use meow::driver::{process_lines, compose_line, get_file_meta, ModTime, banner_line};
use meow::filter::{advance, StreamState};
use meow::options::Config;
use meow::render::render;
use meow::theme::{ColorConfig, Role, resolve_segments};

fn base() -> Config {
    Config::new(false)
}

fn lines(v: &[&str]) -> Vec<String> {
    v.iter().map(|s| s.to_string()).collect()
}

#[test]
fn squeeze_and_number_end_to_end() {
    let mut c = base();
    c.squeeze_blank = true;
    c.show_line_numbers = true;
    let out = process_lines(&lines(&["foo", "", "", "bar"]), &c);
    assert_eq!(out, vec!["     1 | foo", "     2 | ", "     3 | bar"]);
}

#[test]
fn grep_is_literal_substring_match() {
    let mut c = base();
    c.grep_pattern = Some("foo".to_string());
    let out = process_lines(&lines(&["foo", "bar", "foobar"]), &c);
    assert_eq!(out, vec!["foo", "foobar"]);
}

#[test]
fn grep_does_not_disturb_blank_tracking() {
    let mut c = base();
    c.grep_pattern = Some("a".to_string());
    let out = process_lines(&lines(&["a", "", "", "b"]), &c);
    assert_eq!(out, vec!["a"]);
}

#[test]
fn grep_is_case_sensitive() {
    let mut c = base();
    c.grep_pattern = Some("Foo".to_string());
    let out = process_lines(&lines(&["foo", "Foo"]), &c);
    assert_eq!(out, vec!["Foo"]);
}

#[test]
fn squeeze_keeps_one_blank_of_five() {
    let mut c = base();
    c.squeeze_blank = true;
    let out = process_lines(&lines(&["", "", "", "", ""]), &c);
    assert_eq!(out, vec![""]);
}

#[test]
fn identity_round_trip_with_all_flags_off() {
    let c = base();
    let out = process_lines(&lines(&["exact line content", "\tkeeps tabs", ""]), &c);
    assert_eq!(out, vec!["exact line content", "\tkeeps tabs", ""]);
}

#[test]
fn show_tabs_replaces_every_tab() {
    let mut c = base();
    c.show_tabs = true;
    let out = process_lines(&lines(&["a\tb\tc"]), &c);
    assert_eq!(out, vec!["a^Ib^Ic"]);
}

#[test]
fn show_nonprinting_uses_caret_notation() {
    let mut c = base();
    c.show_all_nonprinting = true;
    let out = process_lines(&lines(&["a\u{01}b"]), &c);
    assert_eq!(out, vec!["a^Ab"]);
    // a tab passes through unless show_tabs is also set
    let out = process_lines(&lines(&["a\tb"]), &c);
    assert_eq!(out, vec!["a\tb"]);
    c.show_tabs = true;
    let out = process_lines(&lines(&["a\tb"]), &c);
    assert_eq!(out, vec!["a^Ib"]);
}

#[test]
fn number_nonblank_skips_blank_lines_but_aligns() {
    let mut c = base();
    c.number_nonblank = true;
    let out = process_lines(&lines(&["x", "", "y"]), &c);
    assert_eq!(out, vec!["     1 | x", "       | ", "     2 | y"]);
    assert_eq!(out[0].len(), out[1].len() + 1);
}

#[test]
fn numbering_increases_by_one_per_visible_line() {
    let mut c = base();
    c.show_line_numbers = true;
    c.grep_pattern = Some("keep".to_string());
    let out = process_lines(&lines(&["keep a", "drop", "keep b"]), &c);
    assert_eq!(out, vec!["     1 | keep a", "     2 | keep b"]);
}

#[test]
fn highlight_with_empty_pattern_is_a_no_op() {
    let mut c = base();
    c.highlight_pattern = Some(String::new());
    let out = process_lines(&lines(&["unchanged"]), &c);
    assert_eq!(out, vec!["unchanged"]);
}

#[test]
fn highlight_wraps_every_occurrence() {
    let mut c = Config::new(true);
    c.highlight_pattern = Some("oo".to_string());
    let out = process_lines(&lines(&["foo oops"]), &c);
    assert_eq!(out, vec!["f\u{1B}[36moo\u{1B}[0m \u{1B}[36moo\u{1B}[0mps"]);
}

#[test]
fn highlight_without_match_or_colors_leaves_line() {
    let mut c = base();
    c.highlight_pattern = Some("zz".to_string());
    let out = process_lines(&lines(&["plain"]), &c);
    assert_eq!(out, vec!["plain"]);
}

#[test]
fn rainbow_cycles_six_colors() {
    let mut c = base();
    c.rainbow_mode = true;
    let out = process_lines(&lines(&["ab"]), &c);
    // rainbow escapes are fixed literals; the reset comes from the theme and
    // is empty with colors disabled
    assert_eq!(out, vec!["\u{1B}[31ma\u{1B}[33mb"]);
}

#[test]
fn highlight_takes_priority_over_rainbow() {
    let mut c = base();
    c.rainbow_mode = true;
    c.highlight_pattern = Some("x".to_string());
    let out = process_lines(&lines(&["axb"]), &c);
    assert_eq!(out, vec!["axb"]);
}

#[test]
fn length_suffix_counts_lines_and_chars() {
    let mut c = base();
    c.show_line_length = true;
    let out = process_lines(&lines(&["hello", ""]), &c);
    assert_eq!(out, vec!["hello [1L, 5C]", " [0L, 0C]"]);
}

#[test]
fn end_marker_is_appended() {
    let mut c = base();
    c.show_ends = true;
    let out = process_lines(&lines(&["x", ""]), &c);
    assert_eq!(out, vec!["x$", "$"]);
}

#[test]
fn numbered_prefix_uses_number_color() {
    let mut c = Config::new(true);
    c.show_line_numbers = true;
    let out = process_lines(&lines(&["x"]), &c);
    assert_eq!(out, vec!["\u{1B}[33m     1\u{1B}[0m | x"]);
}

#[test]
fn advance_filters_before_numbering() {
    let c = {
        let mut c = base();
        c.show_line_numbers = true;
        c.grep_pattern = Some("z".to_string());
        c
    };
    let d = advance("no match", StreamState::start(), &c);
    assert!(!d.visible);
    assert_eq!(d.label, None);
    assert_eq!(d.state.count, 0);
}

#[test]
fn compose_line_prepends_label() {
    let c = {
        let mut c = base();
        c.show_line_numbers = true;
        c
    };
    let d = advance("body", StreamState::start(), &c);
    assert!(d.visible);
    assert_eq!(d.label, Some(1));
    assert_eq!(compose_line("body", &d, &c), "     1 | body");
}

#[test]
fn color_config_enabled_and_disabled() {
    let on = ColorConfig::new(true);
    assert_eq!(on.number, "\u{1B}[33m");
    assert_eq!(on.highlight, "\u{1B}[36m");
    assert_eq!(on.error, "\u{1B}[31m");
    assert_eq!(on.success, "\u{1B}[32m");
    assert_eq!(on.filename, "\u{1B}[35m");
    assert_eq!(on.reset, "\u{1B}[0m");
    let off = ColorConfig::new(false);
    assert_eq!(off.number, "");
    assert_eq!(off.reset, "");
}

#[test]
fn render_marks_roles_for_the_sink() {
    let mut c = base();
    c.highlight_pattern = Some("b".to_string());
    let segs = render("abc", &c);
    let texts: Vec<(String, Role)> = segs.iter().map(|s| (s.text.clone(), s.role)).collect();
    assert_eq!(
        texts,
        vec![
            ("a".to_string(), Role::Plain),
            ("b".to_string(), Role::Highlight),
            ("c".to_string(), Role::Plain),
        ]
    );
    let resolved = resolve_segments(&segs, &ColorConfig::new(false));
    assert_eq!(resolved, "abc");
}

#[test]
fn file_meta_formats_sizes_and_ages() {
    let t = ColorConfig::new(false);
    assert_eq!(get_file_meta(500, ModTime::Secs(1000), 1120), " [500 B] [2 mins ago]");
    assert_eq!(get_file_meta(2048, ModTime::Secs(0), 7200), " [2.0 KB] [2 hours ago]");
    assert_eq!(get_file_meta(1536, ModTime::Secs(0), 200000), " [1.5 KB] [2 days ago]");
    assert_eq!(get_file_meta(3 * 1024 * 1024, ModTime::Unavailable, 0), " [3.0 MB] [unknown time]");
    assert_eq!(get_file_meta(5, ModTime::OutOfRange, 0), " [5 B]");
    assert_eq!(
        banner_line("notes.txt", "", &t),
        "\n===> notes.txt <==="
    );
}
