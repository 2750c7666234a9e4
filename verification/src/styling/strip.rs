//! The plain text behind rendered output: stripping the escape
//! sequences a stylesheet added, and the round-trip law that rendering
//! through any sheet carries exactly the same plain text as rendering
//! with styling disabled.
use vstd::prelude::*;

use crate::styling::style::{color_code, csi_codes, style_prefix, style_suffix, TermStyle};
use crate::styling::stylesheet::{
    lookup_model, render_frag_model, render_list_model, SheetModel,
};
use crate::styling::text::{
    esc_free, frag_text, frags_esc_free, no_literal_styled, plain_list, FragModel,
};

verus! {

/// Remove every escape sequence (escape up to and including the final
/// `m`) from a character sequence, keeping the rest.
pub open spec fn strip_ansi(s: Seq<char>) -> Seq<char>
    decreases s.len(), 1int,
{
    if s.len() == 0 {
        Seq::<char>::empty()
    } else if s[0] == '\u{1b}' {
        strip_in_escape(s.drop_first())
    } else {
        seq![s[0]] + strip_ansi(s.drop_first())
    }
}

/// Helper: inside an escape sequence, drop up to and including `m`.
pub open spec fn strip_in_escape(s: Seq<char>) -> Seq<char>
    decreases s.len(), 0int,
{
    if s.len() == 0 {
        Seq::<char>::empty()
    } else if s[0] == 'm' {
        strip_ansi(s.drop_first())
    } else {
        strip_in_escape(s.drop_first())
    }
}

/// Characters that may stand inside an escape sequence body without
/// ending it or starting a new one.
pub open spec fn escape_body_ok(s: Seq<char>) -> bool {
    forall|i: int| 0 <= i < s.len() ==> s[i] != '\u{1b}' && s[i] != 'm'
}

proof fn lemma_esc_free_drop_first(s: Seq<char>)
    requires
        esc_free(s),
        s.len() > 0,
    ensures
        esc_free(s.drop_first()),
{
    assert forall|i: int| 0 <= i < s.drop_first().len() implies s.drop_first()[i] != '\u{1b}' by {
        assert(s.drop_first()[i] == s[i + 1]);
    }
}

/// Stripping walks over a prefix without escapes and goes on behind it.
proof fn lemma_strip_plain_prefix(t: Seq<char>, rest: Seq<char>)
    requires
        esc_free(t),
    ensures
        strip_ansi(t + rest) == t + strip_ansi(rest),
    decreases t.len(),
{
    if t.len() == 0 {
        assert(t + rest =~= rest);
        assert(t + strip_ansi(rest) =~= strip_ansi(rest));
    } else {
        assert((t + rest)[0] == t[0]);
        assert((t + rest).drop_first() =~= t.drop_first() + rest);
        lemma_esc_free_drop_first(t);
        lemma_strip_plain_prefix(t.drop_first(), rest);
        assert(strip_ansi(t + rest) == seq![t[0]] + (t.drop_first() + strip_ansi(rest)));
        assert(seq![t[0]] + (t.drop_first() + strip_ansi(rest)) =~= t + strip_ansi(rest));
    }
}

proof fn lemma_escape_body_drop_first(s: Seq<char>)
    requires
        escape_body_ok(s),
        s.len() > 0,
    ensures
        escape_body_ok(s.drop_first()),
{
    assert forall|i: int| 0 <= i < s.drop_first().len() implies s.drop_first()[i] != '\u{1b}'
        && s.drop_first()[i] != 'm' by {
        assert(s.drop_first()[i] == s[i + 1]);
    }
}

/// Inside an escape, everything up to the closing `m` is dropped.
proof fn lemma_strip_escape_body(body: Seq<char>, rest: Seq<char>)
    requires
        escape_body_ok(body),
    ensures
        strip_in_escape(body + seq!['m'] + rest) == strip_ansi(rest),
    decreases body.len(),
{
    if body.len() == 0 {
        assert(body + seq!['m'] + rest =~= seq!['m'] + rest);
        assert((seq!['m'] + rest)[0] == 'm');
        assert((seq!['m'] + rest).drop_first() =~= rest);
    } else {
        let whole = body + seq!['m'] + rest;
        assert(whole[0] == body[0]);
        assert(whole[0] != 'm');
        assert(whole.drop_first() =~= body.drop_first() + seq!['m'] + rest);
        lemma_escape_body_drop_first(body);
        lemma_strip_escape_body(body.drop_first(), rest);
    }
}

/// A whole escape sequence in front of text strips away entirely.
proof fn lemma_strip_escape(body: Seq<char>, rest: Seq<char>)
    requires
        escape_body_ok(body),
    ensures
        strip_ansi(seq!['\u{1b}'] + body + seq!['m'] + rest) == strip_ansi(rest),
{
    let whole = seq!['\u{1b}'] + body + seq!['m'] + rest;
    assert(whole[0] == '\u{1b}');
    assert(whole.drop_first() =~= body + seq!['m'] + rest);
    lemma_strip_escape_body(body, rest);
}

proof fn lemma_color_code_body_ok(c: crate::styling::style::AnsiColorName)
    ensures
        escape_body_ok(color_code(c)),
{
}

proof fn lemma_escape_body_concat(a: Seq<char>, b: Seq<char>)
    requires
        escape_body_ok(a),
        escape_body_ok(b),
    ensures
        escape_body_ok(a + b),
{
    assert forall|i: int| 0 <= i < (a + b).len() implies (a + b)[i] != '\u{1b}' && (a + b)[i]
        != 'm' by {
        if i < a.len() {
            assert((a + b)[i] == a[i]);
        } else {
            assert((a + b)[i] == b[i - a.len()]);
        }
    }
}

/// The attribute codes of a style never contain the escape character
/// or the terminator.
proof fn lemma_csi_codes_body_ok(st: TermStyle)
    ensures
        escape_body_ok(csi_codes(st)),
{
    let b = if st.bold {
        seq!['1']
    } else {
        Seq::<char>::empty()
    };
    let d = if st.dimmed {
        if st.bold {
            seq![';', '2']
        } else {
            seq!['2']
        }
    } else {
        Seq::<char>::empty()
    };
    let f = match st.fg {
        Some(c) => if st.bold || st.dimmed {
            seq![';'] + color_code(c)
        } else {
            color_code(c)
        },
        None => Seq::<char>::empty(),
    };
    assert(escape_body_ok(b));
    assert(escape_body_ok(d));
    match st.fg {
        Some(c) => {
            lemma_color_code_body_ok(c);
            if st.bold || st.dimmed {
                lemma_escape_body_concat(seq![';'], color_code(c));
            }
        },
        None => {},
    }
    assert(escape_body_ok(f));
    lemma_escape_body_concat(b, d);
    lemma_escape_body_concat(b + d, f);
}

/// What one rendered fragment strips back to: its own text.
proof fn lemma_strip_frag(m: SheetModel, f: FragModel, rest: Seq<char>)
    requires
        esc_free(frag_text(f)),
    ensures
        strip_ansi(render_frag_model(m, f) + rest) == frag_text(f) + strip_ansi(rest),
{
    let st: TermStyle = match f {
        FragModel::Unstyled(_) => TermStyle { bold: false, dimmed: false, fg: None },
        FragModel::Styled(_, role) => lookup_model(m, role),
        FragModel::LiteralStyled(_, s) => s,
    };
    let t = frag_text(f);
    match f {
        FragModel::Unstyled(_) => {
            lemma_strip_plain_prefix(t, rest);
        },
        FragModel::Styled(_, _) | FragModel::LiteralStyled(_, _) => {
            if st.spec_plain() {
                assert(style_prefix(st) + t + style_suffix(st) =~= t);
                lemma_strip_plain_prefix(t, rest);
            } else {
                lemma_csi_codes_body_ok(st);
                let body = seq!['['] + csi_codes(st);
                lemma_escape_body_concat(seq!['['], csi_codes(st));
                assert(style_prefix(st) =~= seq!['\u{1b}'] + body + seq!['m']);
                let tail1 = t + style_suffix(st) + rest;
                assert(render_frag_model(m, f) + rest =~= seq!['\u{1b}'] + body + seq!['m']
                    + tail1);
                lemma_strip_escape(body, tail1);
                let tail2 = rest;
                let body2 = seq!['[', '0'];
                assert(escape_body_ok(body2));
                assert(style_suffix(st) + rest =~= seq!['\u{1b}'] + body2 + seq!['m'] + tail2);
                lemma_strip_escape(body2, tail2);
                assert(t + (style_suffix(st) + rest) =~= tail1);
                lemma_strip_plain_prefix(t, style_suffix(st) + rest);
            }
        },
    }
}

/// Whatever stylesheet is used, the rendering of a list strips back to
/// exactly the list's plain text.
pub proof fn lemma_strip_render_list(m: SheetModel, l: Seq<FragModel>)
    requires
        frags_esc_free(l),
    ensures
        strip_ansi(render_list_model(m, l)) == plain_list(l),
    decreases l.len(),
{
    if l.len() == 0 {
        assert(strip_ansi(render_list_model(m, l)) =~= plain_list(l));
    } else {
        assert(esc_free(frag_text(l[0])));
        assert(frags_esc_free(l.drop_first())) by {
            assert forall|i: int| 0 <= i < l.drop_first().len() implies esc_free(
                frag_text(#[trigger] l.drop_first()[i]),
            ) by {
                assert(l.drop_first()[i] == l[i + 1]);
            }
        }
        lemma_strip_render_list(m, l.drop_first());
        lemma_strip_frag(m, l[0], render_list_model(m, l.drop_first()));
    }
}

/// With no stylesheet entries, a list without literal styles renders
/// as its bare plain text.
pub proof fn lemma_empty_sheet_renders_plain(l: Seq<FragModel>)
    requires
        no_literal_styled(l),
    ensures
        render_list_model(SheetModel::empty(), l) == plain_list(l),
    decreases l.len(),
{
    if l.len() == 0 {
    } else {
        assert(!(l[0] is LiteralStyled));
        match l[0] {
            FragModel::Unstyled(_) => {},
            FragModel::Styled(t, role) => {
                let st = lookup_model(SheetModel::empty(), role);
                assert(st.spec_plain());
                assert(style_prefix(st) + t + style_suffix(st) =~= t);
            },
            FragModel::LiteralStyled(_, _) => {},
        }
        assert(no_literal_styled(l.drop_first())) by {
            assert forall|i: int| 0 <= i < l.drop_first().len() implies !(
            #[trigger] l.drop_first()[i] is LiteralStyled) by {
                assert(l.drop_first()[i] == l[i + 1]);
            }
        }
        lemma_empty_sheet_renders_plain(l.drop_first());
    }
}

/// The plain text of a list with escape-free fragments is escape-free.
pub proof fn lemma_plain_list_esc_free(l: Seq<FragModel>)
    requires
        frags_esc_free(l),
    ensures
        esc_free(plain_list(l)),
    decreases l.len(),
{
    if l.len() == 0 {
    } else {
        assert(esc_free(frag_text(l[0])));
        assert(frags_esc_free(l.drop_first())) by {
            assert forall|i: int| 0 <= i < l.drop_first().len() implies esc_free(
                frag_text(#[trigger] l.drop_first()[i]),
            ) by {
                assert(l.drop_first()[i] == l[i + 1]);
            }
        }
        lemma_plain_list_esc_free(l.drop_first());
        let t = frag_text(l[0]);
        let r = plain_list(l.drop_first());
        assert forall|i: int| 0 <= i < (t + r).len() implies (t + r)[i] != '\u{1b}' by {
            if i < t.len() {
                assert((t + r)[i] == t[i]);
            } else {
                assert((t + r)[i] == r[i - t.len()]);
            }
        }
    }
}

/// Styling round trip: rendering a list through any stylesheet and
/// removing the escape sequences yields the very text the empty
/// stylesheet produces directly, and that text holds no escape
/// sequences at all. Lists carrying a fixed literal style are left
/// out: such fragments style their text even with styling disabled.
pub proof fn lemma_styling_round_trip(m: SheetModel, l: Seq<FragModel>)
    requires
        frags_esc_free(l),
        no_literal_styled(l),
    ensures
        strip_ansi(render_list_model(m, l)) == render_list_model(SheetModel::empty(), l),
        render_list_model(SheetModel::empty(), l) == plain_list(l),
        esc_free(render_list_model(SheetModel::empty(), l)),
{
    lemma_strip_render_list(m, l);
    lemma_empty_sheet_renders_plain(l);
    lemma_plain_list_esc_free(l);
}

} // verus!
