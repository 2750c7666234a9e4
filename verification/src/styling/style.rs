//! Concrete terminal styles: what a logical style role resolves to.
//!
//! A [TermStyle] is rendered as an ANSI select-graphic-rendition sequence
//! in front of the styled text, with a reset sequence after it. A plain
//! style renders as nothing at all, so disabling color needs no special
//! cases anywhere else.
use vstd::prelude::*;

verus! {

/// The basic ANSI foreground colors.
#[derive(Debug, Clone, Copy, PartialEq, Eq)]
pub enum AnsiColorName {
    Black,
    Red,
    Green,
    Yellow,
    Blue,
    Magenta,
    Cyan,
    White,
}

/// A concrete terminal style: any combination of bold, dimmed and a
/// foreground color. The default (all off) is the plain style.
#[derive(Debug, Clone, Copy, PartialEq, Eq)]
pub struct TermStyle {
    pub bold: bool,
    pub dimmed: bool,
    pub fg: Option<AnsiColorName>,
}

impl TermStyle {
    /// A style that changes nothing.
    pub open spec fn spec_plain(&self) -> bool {
        !self.bold && !self.dimmed && self.fg is None
    }

    pub fn plain() -> (r: TermStyle)
        ensures
            r.spec_plain(),
            r == (TermStyle { bold: false, dimmed: false, fg: None }),
    {
        TermStyle { bold: false, dimmed: false, fg: None }
    }
}

/// The two-character code selecting a foreground color.
pub open spec fn color_code(c: AnsiColorName) -> Seq<char> {
    match c {
        AnsiColorName::Black => seq!['3', '0'],
        AnsiColorName::Red => seq!['3', '1'],
        AnsiColorName::Green => seq!['3', '2'],
        AnsiColorName::Yellow => seq!['3', '3'],
        AnsiColorName::Blue => seq!['3', '4'],
        AnsiColorName::Magenta => seq!['3', '5'],
        AnsiColorName::Cyan => seq!['3', '6'],
        AnsiColorName::White => seq!['3', '7'],
    }
}

/// The semicolon-separated attribute codes of a style, in the fixed
/// order bold, dimmed, foreground.
pub open spec fn csi_codes(s: TermStyle) -> Seq<char> {
    let b = if s.bold {
        seq!['1']
    } else {
        Seq::<char>::empty()
    };
    let d = if s.dimmed {
        if s.bold {
            seq![';', '2']
        } else {
            seq!['2']
        }
    } else {
        Seq::<char>::empty()
    };
    let f = match s.fg {
        Some(c) => if s.bold || s.dimmed {
            seq![';'] + color_code(c)
        } else {
            color_code(c)
        },
        None => Seq::<char>::empty(),
    };
    b + d + f
}

/// What is written before text in the given style.
pub open spec fn style_prefix(s: TermStyle) -> Seq<char> {
    if s.spec_plain() {
        Seq::<char>::empty()
    } else {
        seq!['\u{1b}', '['] + csi_codes(s) + seq!['m']
    }
}

/// What is written after text in the given style.
pub open spec fn style_suffix(s: TermStyle) -> Seq<char> {
    if s.spec_plain() {
        Seq::<char>::empty()
    } else {
        seq!['\u{1b}', '[', '0', 'm']
    }
}

fn color_str(c: &AnsiColorName) -> (r: &'static str)
    ensures
        r@ == color_code(*c),
{
    match c {
        AnsiColorName::Black => {
            proof {
                reveal_strlit("30");
                assert("30"@ =~= seq!['3', '0']);
            }
            "30"
        },
        AnsiColorName::Red => {
            proof {
                reveal_strlit("31");
                assert("31"@ =~= seq!['3', '1']);
            }
            "31"
        },
        AnsiColorName::Green => {
            proof {
                reveal_strlit("32");
                assert("32"@ =~= seq!['3', '2']);
            }
            "32"
        },
        AnsiColorName::Yellow => {
            proof {
                reveal_strlit("33");
                assert("33"@ =~= seq!['3', '3']);
            }
            "33"
        },
        AnsiColorName::Blue => {
            proof {
                reveal_strlit("34");
                assert("34"@ =~= seq!['3', '4']);
            }
            "34"
        },
        AnsiColorName::Magenta => {
            proof {
                reveal_strlit("35");
                assert("35"@ =~= seq!['3', '5']);
            }
            "35"
        },
        AnsiColorName::Cyan => {
            proof {
                reveal_strlit("36");
                assert("36"@ =~= seq!['3', '6']);
            }
            "36"
        },
        AnsiColorName::White => {
            proof {
                reveal_strlit("37");
                assert("37"@ =~= seq!['3', '7']);
            }
            "37"
        },
    }
}

/// Build the escape sequence that turns a style on.
pub fn prefix_string(s: &TermStyle) -> (r: String)
    ensures
        r@ == style_prefix(*s),
{
    let has_fg = match s.fg {
        Some(_) => true,
        None => false,
    };
    if !s.bold && !s.dimmed && !has_fg {
        let r = String::new();
        return r;
    }
    let mut out = String::new();
    proof {
        reveal_strlit("\u{1b}[");
        assert("\u{1b}["@ =~= seq!['\u{1b}', '[']);
        reveal_strlit("1");
        assert("1"@ =~= seq!['1']);
        reveal_strlit(";");
        assert(";"@ =~= seq![';']);
        reveal_strlit("2");
        assert("2"@ =~= seq!['2']);
        reveal_strlit("m");
        assert("m"@ =~= seq!['m']);
    }
    out.append("\u{1b}[");
    if s.bold {
        out.append("1");
    }
    if s.dimmed {
        if s.bold {
            out.append(";");
        }
        out.append("2");
    }
    match &s.fg {
        Some(c) => {
            if s.bold || s.dimmed {
                out.append(";");
            }
            out.append(color_str(c));
        },
        None => {},
    }
    out.append("m");
    proof {
        assert(out@ =~= style_prefix(*s));
    }
    out
}

/// Build the escape sequence that turns a style off again.
pub fn suffix_string(s: &TermStyle) -> (r: String)
    ensures
        r@ == style_suffix(*s),
{
    let has_fg = match s.fg {
        Some(_) => true,
        None => false,
    };
    if !s.bold && !s.dimmed && !has_fg {
        String::new()
    } else {
        proof {
            reveal_strlit("\u{1b}[0m");
            assert("\u{1b}[0m"@ =~= seq!['\u{1b}', '[', '0', 'm']);
        }
        String::from_str("\u{1b}[0m")
    }
}

} // verus!
