//! Types and display logic for the file metadata view.
use vstd::prelude::*;
use crate::styling::{extra_marker_role, field_name_role};

use crate::styling::stylesheet::{
    render_frag_model, render_list_model, SheetModel, StyleSheet,
};
use crate::styling::text::{styled, FragModel, StyledList};

verus! {

/// Struct holding the human-readable metadata to display for a file.
#[derive(Debug, Clone)]
pub struct FileMetaDisplay {
    pub headline: StyledList,
    pub fields: Vec<FileMetaField>,
}

/// A field in the file metadata.
#[derive(Debug, Clone)]
pub struct FileMetaField {
    /// The name of this field.
    pub name: String,
    /// The field's value.
    pub value: StyledList,
    /// Additional details, displayed as list items after the primary
    /// field value.
    pub extra: Vec<StyledList>,
}

/// The mathematical shape of a metadata field.
#[verifier::ext_equal]
pub struct FieldModel {
    pub name: Seq<char>,
    pub value: Seq<FragModel>,
    pub extra: Seq<Seq<FragModel>>,
}

/// The mathematical shape of a metadata display.
#[verifier::ext_equal]
pub struct MetaModel {
    pub headline: Seq<FragModel>,
    pub fields: Seq<FieldModel>,
}

impl DeepView for FileMetaField {
    type V = FieldModel;

    open spec fn deep_view(&self) -> FieldModel {
        FieldModel { name: self.name@, value: self.value.deep_view(), extra: self.extra.deep_view() }
    }
}

impl DeepView for FileMetaDisplay {
    type V = MetaModel;

    open spec fn deep_view(&self) -> MetaModel {
        MetaModel { headline: self.headline.deep_view(), fields: self.fields.deep_view() }
    }
}

/// How one extra detail line renders: a dimmed list marker, the line,
/// a newline.
pub open spec fn render_extra_model(m: SheetModel, line: Seq<FragModel>) -> Seq<char> {
    render_frag_model(m, FragModel::Styled(" *  "@, "extra-marker"@)) + render_list_model(m, line)
        + seq!['\n']
}

/// How a run of extra detail lines renders, in order.
pub open spec fn render_extras_model(m: SheetModel, extras: Seq<Seq<FragModel>>) -> Seq<char>
    decreases extras.len(),
{
    if extras.len() == 0 {
        Seq::<char>::empty()
    } else {
        render_extra_model(m, extras[0]) + render_extras_model(m, extras.drop_first())
    }
}

/// How one field renders: its styled name, a separator, its value, a
/// newline, then its extra lines.
pub open spec fn render_field_model(m: SheetModel, f: FieldModel) -> Seq<char> {
    render_frag_model(m, FragModel::Styled(f.name, "field-name"@)) + seq![':', ' ']
        + render_list_model(m, f.value) + seq!['\n'] + render_extras_model(m, f.extra)
}

/// How a run of fields renders, in order.
pub open spec fn render_fields_model(m: SheetModel, fs: Seq<FieldModel>) -> Seq<char>
    decreases fs.len(),
{
    if fs.len() == 0 {
        Seq::<char>::empty()
    } else {
        render_field_model(m, fs[0]) + render_fields_model(m, fs.drop_first())
    }
}

/// How a whole metadata display renders: the headline on its own
/// line, then the fields.
pub open spec fn render_meta_model(m: SheetModel, d: MetaModel) -> Seq<char> {
    render_list_model(m, d.headline) + seq!['\n'] + render_fields_model(m, d.fields)
}

proof fn lemma_render_extras_snoc(m: SheetModel, extras: Seq<Seq<FragModel>>, x: Seq<FragModel>)
    ensures
        render_extras_model(m, extras + seq![x]) == render_extras_model(m, extras)
            + render_extra_model(m, x),
    decreases extras.len(),
{
    if extras.len() == 0 {
        assert(extras + seq![x] =~= seq![x]);
        assert((seq![x])[0] == x);
        assert((seq![x]).drop_first() =~= Seq::<Seq<FragModel>>::empty());
        assert(render_extras_model(m, (seq![x]).drop_first()) == Seq::<char>::empty());
        assert(render_extra_model(m, x) + Seq::<char>::empty() =~= render_extra_model(m, x));
        assert(render_extras_model(m, extras) + render_extra_model(m, x) =~= render_extra_model(
            m,
            x,
        ));
    } else {
        let whole = extras + seq![x];
        assert(whole[0] == extras[0]);
        assert(whole.drop_first() =~= extras.drop_first() + seq![x]);
        lemma_render_extras_snoc(m, extras.drop_first(), x);
        assert(render_extras_model(m, whole) == render_extra_model(m, extras[0]) + (
        render_extras_model(m, extras.drop_first()) + render_extra_model(m, x)));
        assert(render_extra_model(m, extras[0]) + (render_extras_model(m, extras.drop_first())
            + render_extra_model(m, x)) =~= (render_extra_model(m, extras[0])
            + render_extras_model(m, extras.drop_first())) + render_extra_model(m, x));
    }
}

proof fn lemma_render_fields_snoc(m: SheetModel, fs: Seq<FieldModel>, x: FieldModel)
    ensures
        render_fields_model(m, fs + seq![x]) == render_fields_model(m, fs) + render_field_model(
            m,
            x,
        ),
    decreases fs.len(),
{
    if fs.len() == 0 {
        assert(fs + seq![x] =~= seq![x]);
        assert((seq![x])[0] == x);
        assert((seq![x]).drop_first() =~= Seq::<FieldModel>::empty());
        assert(render_fields_model(m, (seq![x]).drop_first()) == Seq::<char>::empty());
        assert(render_field_model(m, x) + Seq::<char>::empty() =~= render_field_model(m, x));
        assert(render_fields_model(m, fs) + render_field_model(m, x) =~= render_field_model(m, x));
    } else {
        let whole = fs + seq![x];
        assert(whole[0] == fs[0]);
        assert(whole.drop_first() =~= fs.drop_first() + seq![x]);
        lemma_render_fields_snoc(m, fs.drop_first(), x);
        assert(render_fields_model(m, whole) == render_field_model(m, fs[0]) + (
        render_fields_model(m, fs.drop_first()) + render_field_model(m, x)));
        assert(render_field_model(m, fs[0]) + (render_fields_model(m, fs.drop_first())
            + render_field_model(m, x)) =~= (render_field_model(m, fs[0]) + render_fields_model(
            m,
            fs.drop_first(),
        )) + render_field_model(m, x));
    }
}

fn render_extra(styles: &StyleSheet, line: &StyledList) -> (r: String)
    ensures
        r@ == render_extra_model(styles.model(), line.deep_view()),
{
    let marker = styled(" *  ", extra_marker_role());
    let mut out = styles.render(&marker);
    let body = styles.render_list(line);
    out.append(body.as_str());
    proof {
        reveal_strlit("\n");
        assert("\n"@ =~= seq!['\n']);
    }
    out.append("\n");
    out
}

fn render_field(styles: &StyleSheet, field: &FileMetaField) -> (r: String)
    ensures
        r@ == render_field_model(styles.model(), field.deep_view()),
{
    let nametag = styled(field.name.as_str(), field_name_role());
    let mut out = styles.render(&nametag);
    proof {
        reveal_strlit(": ");
        assert(": "@ =~= seq![':', ' ']);
        reveal_strlit("\n");
        assert("\n"@ =~= seq!['\n']);
    }
    out.append(": ");
    let valstr = styles.render_list(&field.value);
    out.append(valstr.as_str());
    out.append("\n");
    let ghost head: Seq<char> = out@;
    let ne = field.extra.len();
    let mut k: usize = 0;
    proof {
        assert(field.extra.deep_view().take(0) =~= Seq::<Seq<FragModel>>::empty());
        assert(out@ =~= head + render_extras_model(styles.model(), field.extra.deep_view().take(0)));
    }
    while k < ne
        invariant
            ne == field.extra.len(),
            0 <= k <= ne,
            out@ == head + render_extras_model(
                styles.model(),
                field.extra.deep_view().take(k as int),
            ),
        decreases ne - k,
    {
        let ex = render_extra(styles, &field.extra[k]);
        out.append(ex.as_str());
        proof {
            assert(field.extra.deep_view()[k as int] == field.extra[k as int].deep_view());
            assert(field.extra.deep_view().take(k as int + 1) =~= field.extra.deep_view().take(
                k as int,
            ) + seq![field.extra.deep_view()[k as int]]);
            lemma_render_extras_snoc(
                styles.model(),
                field.extra.deep_view().take(k as int),
                field.extra.deep_view()[k as int],
            );
            assert(out@ =~= head + render_extras_model(
                styles.model(),
                field.extra.deep_view().take(k as int + 1),
            ));
        }
        k += 1;
    }
    proof {
        assert(field.extra.deep_view().take(ne as int) =~= field.extra.deep_view());
        assert(out@ =~= render_field_model(styles.model(), field.deep_view()));
    }
    out
}

impl FileMetaDisplay {
    /// Render the whole display to text through the given stylesheet.
    pub fn render(&self, styles: &StyleSheet) -> (r: String)
        ensures
            r@ == render_meta_model(styles.model(), self.deep_view()),
    {
        let mut out = styles.render_list(&self.headline);
        proof {
            reveal_strlit("\n");
            assert("\n"@ =~= seq!['\n']);
        }
        out.append("\n");
        let ghost head: Seq<char> = out@;
        let nf = self.fields.len();
        let mut i: usize = 0;
        proof {
            assert(self.fields.deep_view().take(0) =~= Seq::<FieldModel>::empty());
            assert(out@ =~= head + render_fields_model(
                styles.model(),
                self.fields.deep_view().take(0),
            ));
        }
        while i < nf
            invariant
                nf == self.fields.len(),
                0 <= i <= nf,
                out@ == head + render_fields_model(
                    styles.model(),
                    self.fields.deep_view().take(i as int),
                ),
            decreases nf - i,
        {
            let piece = render_field(styles, &self.fields[i]);
            out.append(piece.as_str());
            proof {
                assert(self.fields.deep_view()[i as int] == self.fields[i as int].deep_view());
                assert(self.fields.deep_view().take(i as int + 1) =~= self.fields.deep_view().take(
                    i as int,
                ) + seq![self.fields.deep_view()[i as int]]);
                lemma_render_fields_snoc(
                    styles.model(),
                    self.fields.deep_view().take(i as int),
                    self.fields.deep_view()[i as int],
                );
                assert(out@ =~= head + render_fields_model(
                    styles.model(),
                    self.fields.deep_view().take(i as int + 1),
                ));
            }
            i += 1;
        }
        proof {
            assert(self.fields.deep_view().take(nf as int) =~= self.fields.deep_view());
            assert(out@ =~= render_meta_model(styles.model(), self.deep_view()));
        }
        out
    }
}

} // verus!
