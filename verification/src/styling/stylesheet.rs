//! Mapping from style-role names to concrete styles, and rendering of
//! styled text through such a mapping.
//!
//! A role that is not in the sheet resolves to the plain style, so the
//! empty sheet renders every list as its bare text: disabling color is
//! just a matter of handing views the empty sheet.
use vstd::prelude::*;

use crate::strutil::str_eq;
use crate::styling::style::{
    csi_codes, prefix_string, style_prefix, style_suffix, suffix_string, AnsiColorName, TermStyle,
};
use crate::styling::text::{
    esc_free, frag_text, frags_esc_free, no_literal_styled, plain_list, FragModel, StyledList,
    StyledText,
};

verus! {

/// The mathematical content of a stylesheet: role names with their
/// styles, in lookup order.
pub type SheetModel = Seq<(Seq<char>, TermStyle)>;

/// A stylesheet for styling displays.
///
/// This is passed to views to tell them what styles to use for their
/// displays, particularly metadata displays.
#[derive(Debug, Clone)]
pub struct StyleSheet {
    styles: Vec<(String, TermStyle)>,
}

/// The style a sheet gives to a role name: the first entry with that
/// name wins, and an absent name resolves to the plain style.
pub open spec fn lookup_model(m: SheetModel, name: Seq<char>) -> TermStyle
    decreases m.len(),
{
    if m.len() == 0 {
        TermStyle { bold: false, dimmed: false, fg: None }
    } else if m[0].0 == name {
        m[0].1
    } else {
        lookup_model(m.drop_first(), name)
    }
}

/// How one fragment renders through a sheet.
pub open spec fn render_frag_model(m: SheetModel, f: FragModel) -> Seq<char> {
    match f {
        FragModel::Unstyled(t) => t,
        FragModel::Styled(t, role) => {
            let st = lookup_model(m, role);
            style_prefix(st) + t + style_suffix(st)
        },
        FragModel::LiteralStyled(t, st) => style_prefix(st) + t + style_suffix(st),
    }
}

/// How a whole list renders through a sheet: the fragments in order.
pub open spec fn render_list_model(m: SheetModel, l: Seq<FragModel>) -> Seq<char>
    decreases l.len(),
{
    if l.len() == 0 {
        Seq::<char>::empty()
    } else {
        render_frag_model(m, l[0]) + render_list_model(m, l.drop_first())
    }
}

/// The styles of the default terminal stylesheet.
pub open spec fn default_styles() -> SheetModel {
    seq![
        ("field-name"@, TermStyle { bold: true, dimmed: false, fg: None }),
        ("extra-marker"@, TermStyle { bold: false, dimmed: true, fg: None }),
        ("file-size"@, TermStyle { bold: false, dimmed: false, fg: Some(AnsiColorName::Cyan) }),
        ("file-type"@, TermStyle { bold: false, dimmed: false, fg: Some(AnsiColorName::Magenta) }),
    ]
}

impl StyleSheet {
    /// The roles this sheet styles, with their styles, in lookup order.
    pub closed spec fn model(&self) -> SheetModel {
        self.styles@.map_values(|p: (String, TermStyle)| (p.0@, p.1))
    }

    /// Create an empty stylesheet: every role resolves to plain.
    pub fn empty() -> (r: StyleSheet)
        ensures
            r.model() == SheetModel::empty(),
    {
        let r = StyleSheet { styles: Vec::new() };
        proof {
            assert(r.model() =~= SheetModel::empty());
        }
        r
    }

    /// Create a stylesheet from a list of role/style pairs.
    pub fn create(styles: Vec<(String, TermStyle)>) -> (r: StyleSheet)
        ensures
            r.model() == styles@.map_values(|p: (String, TermStyle)| (p.0@, p.1)),
    {
        StyleSheet { styles }
    }

    /// Get the default terminal styles.
    pub fn term_default() -> (r: StyleSheet)
        ensures
            r.model() == default_styles(),
    {
        let mut v: Vec<(String, TermStyle)> = Vec::new();
        v.push((
            String::from_str(crate::styling::field_name_role()),
            TermStyle { bold: true, dimmed: false, fg: None },
        ));
        v.push((
            String::from_str(crate::styling::extra_marker_role()),
            TermStyle { bold: false, dimmed: true, fg: None },
        ));
        v.push((
            String::from_str(crate::styling::file_size_role()),
            TermStyle { bold: false, dimmed: false, fg: Some(AnsiColorName::Cyan) },
        ));
        v.push((
            String::from_str(crate::styling::file_type_role()),
            TermStyle { bold: false, dimmed: false, fg: Some(AnsiColorName::Magenta) },
        ));
        let r = StyleSheet { styles: v };
        proof {
            assert(r.model() =~= default_styles());
        }
        r
    }

    /// Look up a style. Returns the plain style if no style is found.
    pub fn lookup(&self, name: &str) -> (r: TermStyle)
        ensures
            r == lookup_model(self.model(), name@),
    {
        let n = self.styles.len();
        let mut i: usize = 0;
        proof {
            assert(self.model().skip(0) =~= self.model());
        }
        while i < n
            invariant
                n == self.styles.len(),
                0 <= i <= n,
                lookup_model(self.model(), name@) == lookup_model(
                    self.model().skip(i as int),
                    name@,
                ),
            decreases n - i,
        {
            let entry = &self.styles[i];
            if str_eq(entry.0.as_str(), name) {
                proof {
                    assert(self.model().skip(i as int)[0] == self.model()[i as int]);
                }
                return entry.1;
            }
            proof {
                assert(self.model().skip(i as int).drop_first() =~= self.model().skip(
                    i as int + 1,
                ));
                assert(self.model().skip(i as int)[0] == self.model()[i as int]);
            }
            i += 1;
        }
        proof {
            assert(self.model().skip(n as int) =~= SheetModel::empty());
        }
        TermStyle::plain()
    }

    /// Render one fragment to a string, resolving its role.
    pub fn render(&self, text: &StyledText) -> (r: String)
        ensures
            r@ == render_frag_model(self.model(), text.deep_view()),
    {
        match text {
            StyledText::Unstyled(t) => t.clone(),
            StyledText::Styled(t, role) => {
                let st = self.lookup(role.as_str());
                let mut out = prefix_string(&st);
                out.append(t.as_str());
                let sfx = suffix_string(&st);
                out.append(sfx.as_str());
                out
            },
            StyledText::LiteralStyled(t, st) => {
                let mut out = prefix_string(st);
                out.append(t.as_str());
                let sfx = suffix_string(st);
                out.append(sfx.as_str());
                out
            },
        }
    }

    /// Render a whole list to a string, fragment by fragment.
    pub fn render_list(&self, list: &StyledList) -> (r: String)
        ensures
            r@ == render_list_model(self.model(), list.deep_view()),
    {
        let mut out = String::new();
        let n = list.len();
        let mut i: usize = 0;
        while i < n
            invariant
                n == list.len(),
                0 <= i <= n,
                out@ == render_list_model(self.model(), list.deep_view().take(i as int)),
            decreases n - i,
        {
            let piece = self.render(&list[i]);
            out.append(piece.as_str());
            proof {
                assert(list.deep_view()[i as int] == list[i as int].deep_view());
                assert(list.deep_view().take(i as int + 1) =~= list.deep_view().take(i as int)
                    + seq![list.deep_view()[i as int]]);
                lemma_render_list_snoc(
                    self.model(),
                    list.deep_view().take(i as int),
                    list.deep_view()[i as int],
                );
            }
            i += 1;
        }
        proof {
            assert(list.deep_view().take(n as int) =~= list.deep_view());
        }
        out
    }
}

/// Rendering a list with one more fragment appends that fragment's
/// rendering.
pub proof fn lemma_render_list_snoc(m: SheetModel, l: Seq<FragModel>, x: FragModel)
    ensures
        render_list_model(m, l + seq![x]) == render_list_model(m, l) + render_frag_model(m, x),
    decreases l.len(),
{
    if l.len() == 0 {
        assert(l + seq![x] =~= seq![x]);
        assert((seq![x])[0] == x);
        assert((seq![x]).drop_first() =~= Seq::<FragModel>::empty());
        assert(render_list_model(m, (seq![x]).drop_first()) == Seq::<char>::empty());
        assert(render_list_model(m, seq![x]) == render_frag_model(m, x) + Seq::<char>::empty());
        assert(render_frag_model(m, x) + Seq::<char>::empty() =~= render_frag_model(m, x));
        assert(render_list_model(m, l) + render_frag_model(m, x) =~= render_frag_model(m, x));
    } else {
        let whole = l + seq![x];
        assert(whole[0] == l[0]);
        assert(whole.drop_first() =~= l.drop_first() + seq![x]);
        lemma_render_list_snoc(m, l.drop_first(), x);
        assert(render_list_model(m, whole) == render_frag_model(m, l[0]) + (render_list_model(
            m,
            l.drop_first(),
        ) + render_frag_model(m, x)));
        assert(render_frag_model(m, l[0]) + (render_list_model(m, l.drop_first())
            + render_frag_model(m, x)) =~= (render_frag_model(m, l[0]) + render_list_model(
            m,
            l.drop_first(),
        )) + render_frag_model(m, x));
    }
}

} // verus!
