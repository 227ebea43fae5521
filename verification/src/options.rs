//! The option set: an immutable (per render pass) bundle of display and
//! filtering toggles, plus the active color theme.  A new bundle may be
//! derived by copy-with-override for shell sub-commands.

use vstd::prelude::*;
use crate::theme::{ColorConfig, ThemeV, enabled_theme, disabled_theme};

verus! {

/// The option bundle, one field per command-line toggle.
pub struct Config {
    pub show_line_numbers: bool,
    pub show_ends: bool,
    pub show_tabs: bool,
    pub squeeze_blank: bool,
    pub number_nonblank: bool,
    pub show_all_nonprinting: bool,
    pub show_line_length: bool,
    pub rainbow_mode: bool,
    pub use_colors: bool,
    pub interactive_mode: bool,
    pub show_meta: bool,
    pub grep_pattern: Option<String>,
    pub page_mode: bool,
    pub animate: bool,
    pub highlight_pattern: Option<String>,
    pub files: Vec<String>,
    pub colors: ColorConfig,
}

/// Mathematical view of an option bundle.
#[verifier::ext_equal]
pub struct ConfigV {
    pub show_line_numbers: bool,
    pub show_ends: bool,
    pub show_tabs: bool,
    pub squeeze_blank: bool,
    pub number_nonblank: bool,
    pub show_all_nonprinting: bool,
    pub show_line_length: bool,
    pub rainbow_mode: bool,
    pub use_colors: bool,
    pub interactive_mode: bool,
    pub show_meta: bool,
    pub grep_pattern: Option<Seq<char>>,
    pub page_mode: bool,
    pub animate: bool,
    pub highlight_pattern: Option<Seq<char>>,
    pub files: Seq<Seq<char>>,
    pub colors: ThemeV,
}

impl View for Config {
    type V = ConfigV;

    open spec fn view(&self) -> ConfigV {
        ConfigV {
            show_line_numbers: self.show_line_numbers,
            show_ends: self.show_ends,
            show_tabs: self.show_tabs,
            squeeze_blank: self.squeeze_blank,
            number_nonblank: self.number_nonblank,
            show_all_nonprinting: self.show_all_nonprinting,
            show_line_length: self.show_line_length,
            rainbow_mode: self.rainbow_mode,
            use_colors: self.use_colors,
            interactive_mode: self.interactive_mode,
            show_meta: self.show_meta,
            grep_pattern: match self.grep_pattern {
                Option::Some(ref p) => Option::Some(p@),
                Option::None => Option::None,
            },
            page_mode: self.page_mode,
            animate: self.animate,
            highlight_pattern: match self.highlight_pattern {
                Option::Some(ref p) => Option::Some(p@),
                Option::None => Option::None,
            },
            files: self.files.deep_view(),
            colors: self.colors@,
        }
    }
}

/// The default option bundle for a given terminal color capability: every
/// toggle off, no patterns, no files, the theme matching the capability.
pub open spec fn default_config(use_colors: bool) -> ConfigV {
    ConfigV {
        show_line_numbers: false,
        show_ends: false,
        show_tabs: false,
        squeeze_blank: false,
        number_nonblank: false,
        show_all_nonprinting: false,
        show_line_length: false,
        rainbow_mode: false,
        use_colors: use_colors,
        interactive_mode: false,
        show_meta: false,
        grep_pattern: Option::None,
        page_mode: false,
        animate: false,
        highlight_pattern: Option::None,
        files: Seq::empty(),
        colors: if use_colors {
            enabled_theme()
        } else {
            disabled_theme()
        },
    }
}

impl Config {
    /// A fresh option bundle.  The caller supplies the terminal capability
    /// probe's answer; everything else starts switched off.
    pub fn new(use_colors: bool) -> (r: Config)
        ensures
            r@ == default_config(use_colors),
    {
        let colors = ColorConfig::new(use_colors);
        let r = Config {
            show_line_numbers: false,
            show_ends: false,
            show_tabs: false,
            squeeze_blank: false,
            number_nonblank: false,
            show_all_nonprinting: false,
            show_line_length: false,
            rainbow_mode: false,
            use_colors,
            interactive_mode: false,
            show_meta: false,
            grep_pattern: None,
            page_mode: false,
            animate: false,
            highlight_pattern: None,
            files: Vec::new(),
            colors,
        };
        proof {
            assert(r.files.deep_view() =~~= Seq::<Seq<char>>::empty());
        }
        r
    }

    /// A copy of the bundle, field for field.
    pub fn duplicate(&self) -> (r: Config)
        ensures
            r@ == self@,
    {
        let grep_pattern = match &self.grep_pattern {
            Some(p) => Some(p.clone()),
            None => None,
        };
        let highlight_pattern = match &self.highlight_pattern {
            Some(p) => Some(p.clone()),
            None => None,
        };
        let mut files: Vec<String> = Vec::new();
        let mut i: usize = 0;
        while i < self.files.len()
            invariant
                0 <= i <= self.files@.len(),
                files@.len() == i,
                files.deep_view() =~~= self.files.deep_view().take(i as int),
            decreases self.files@.len() - i,
        {
            let ghost old_files = files@;
            files.push(self.files[i].clone());
            proof {
                assert(files@.len() == i + 1);
                assert(files@[i as int]@ == self.files@[i as int]@);
                assert forall|j: int| 0 <= j < i + 1 implies files.deep_view()[j]
                    == self.files.deep_view().take(i + 1)[j] by {
                    assert(files.deep_view()[j] == files@[j].deep_view());
                    if j < i {
                        assert(files@[j] == old_files[j]);
                        assert(old_files[j].deep_view() == self.files.deep_view().take(i as int)[j]);
                    }
                }
                assert(files.deep_view() =~~= self.files.deep_view().take(i + 1));
            }
            i += 1;
        }
        proof {
            assert(self.files.deep_view().take(self.files@.len() as int) =~~= self.files.deep_view());
        }
        let r = Config {
            show_line_numbers: self.show_line_numbers,
            show_ends: self.show_ends,
            show_tabs: self.show_tabs,
            squeeze_blank: self.squeeze_blank,
            number_nonblank: self.number_nonblank,
            show_all_nonprinting: self.show_all_nonprinting,
            show_line_length: self.show_line_length,
            rainbow_mode: self.rainbow_mode,
            use_colors: self.use_colors,
            interactive_mode: self.interactive_mode,
            show_meta: self.show_meta,
            grep_pattern,
            page_mode: self.page_mode,
            animate: self.animate,
            highlight_pattern,
            files,
            colors: self.colors.duplicate(),
        };
        r
    }

    /// A copy of the bundle with the grep pattern overridden.
    pub fn with_grep(&self, pattern: String) -> (r: Config)
        ensures
            r@ == (ConfigV { grep_pattern: Option::Some(pattern@), ..self@ }),
    {
        let mut r = self.duplicate();
        r.grep_pattern = Some(pattern);
        r
    }

    /// A copy of the bundle with the highlight pattern overridden.
    pub fn with_highlight(&self, pattern: String) -> (r: Config)
        ensures
            r@ == (ConfigV { highlight_pattern: Option::Some(pattern@), ..self@ }),
    {
        let mut r = self.duplicate();
        r.highlight_pattern = Some(pattern);
        r
    }

    /// A copy of the bundle with rainbow mode forced on.
    pub fn with_rainbow(&self) -> (r: Config)
        ensures
            r@ == (ConfigV { rainbow_mode: true, ..self@ }),
    {
        let mut r = self.duplicate();
        r.rainbow_mode = true;
        r
    }
}


} // verus!
