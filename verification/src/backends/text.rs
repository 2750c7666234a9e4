//! Plain-text files: a metadata view that may count lines within the
//! speed budget, a bounded head view, and a full view that pages big
//! files.
use vstd::prelude::*;
use crate::styling::{file_size_role, file_type_role};

use crate::backends::ViewPlan;
use crate::interface::{
    single_action, ActionModel, ErrModel, FileRequest, FileView, FileViewer, IoRequests,
    MimeFacts, ProgramChain, RenderAction, RenderInputs, RenderPlan, ViewOptions, ViewSpeed,
    ViewType,
};
use crate::numfmt::{
    friendly_bytes, friendly_bytes_of, friendly_count, friendly_count_of,
};
use crate::policy::{spec_should_page, spec_want_scan, should_page};
use crate::styling::stylesheet::{SheetModel, StyleSheet};
use crate::styling::text::{styled, unstyled, FragModel, StyledText};
use crate::views::meta::{
    render_meta_model, FieldModel, FileMetaDisplay, FileMetaField, MetaModel,
};

verus! {

/// Non-specialized text file backend.
#[derive(Debug, Clone)]
pub struct TextBackend {}

/// Metadata view for a text file.
#[derive(Debug, Clone)]
pub struct TextMeta {}

/// Bounded preview of the first lines of a text file.
#[derive(Debug, Clone)]
pub struct TextHead {}

/// Full view of a text file, paging it when it is big.
#[derive(Debug, Clone)]
pub struct TextFull {}

/// The metadata lines of a text file: the type on the headline, with
/// the line count when one was gathered, else the size; then the
/// description and size fields that are known.
pub open spec fn spec_text_meta(
    mime: Seq<char>,
    size: Option<u64>,
    lines: Option<u64>,
    desc: Option<Seq<char>>,
) -> MetaModel {
    MetaModel {
        headline: seq![
            FragModel::Unstyled("text file of type "@),
            FragModel::Styled(mime, "file-type"@),
        ]
            + (match lines {
            Some(n) => seq![
                FragModel::Unstyled(" with "@),
                FragModel::Styled(friendly_count_of(n), "file-size"@),
                FragModel::Unstyled(" lines"@),
            ],
            None => match size {
                Some(b) => seq![
                    FragModel::Unstyled(" ("@),
                    FragModel::Styled(friendly_bytes_of(b), "file-size"@),
                    FragModel::Unstyled(")"@),
                ],
                None => Seq::<FragModel>::empty(),
            },
        }),
        fields: (match desc {
            Some(d) => seq![
                FieldModel {
                    name: "Type Description"@,
                    value: seq![FragModel::Unstyled(d)],
                    extra: Seq::<Seq<FragModel>>::empty(),
                },
            ],
            None => Seq::<FieldModel>::empty(),
        }) + (match size {
            Some(b) => seq![
                FieldModel {
                    name: "Size"@,
                    value: seq![FragModel::Unstyled(friendly_bytes_of(b))],
                    extra: Seq::<Seq<FragModel>>::empty(),
                },
            ],
            None => Seq::<FieldModel>::empty(),
        }),
    }
}

/// Build the metadata display for a text file.
fn text_meta_display(
    req: &FileRequest,
    lines: &Option<u64>,
    description: &Option<String>,
) -> (d: FileMetaDisplay)
    ensures
        d.deep_view() == spec_text_meta(
            req.mime_type@,
            req.size,
            *lines,
            description.deep_view(),
        ),
{
    let mut headline: Vec<StyledText> = Vec::new();
    headline.push(unstyled("text file of type "));
    headline.push(styled(req.mime_type.as_str(), file_type_role()));
    match lines {
        Some(n) => {
            headline.push(unstyled(" with "));
            let fc = friendly_count(*n);
            headline.push(styled(fc.as_str(), file_size_role()));
            headline.push(unstyled(" lines"));
        },
        None => {
            match &req.size {
                Some(b) => {
                    headline.push(unstyled(" ("));
                    let fb = friendly_bytes(*b);
                    headline.push(styled(fb.as_str(), file_size_role()));
                    headline.push(unstyled(")"));
                },
                None => {},
            }
        },
    }
    let mut fields: Vec<FileMetaField> = Vec::new();
    match description {
        Some(d) => {
            let mut value: Vec<StyledText> = Vec::new();
            value.push(unstyled(d.as_str()));
            fields.push(
                FileMetaField {
                    name: String::from_str("Type Description"),
                    value,
                    extra: Vec::new(),
                },
            );
        },
        None => {},
    }
    match &req.size {
        Some(b) => {
            let mut value: Vec<StyledText> = Vec::new();
            let fb = friendly_bytes(*b);
            value.push(unstyled(fb.as_str()));
            fields.push(
                FileMetaField { name: String::from_str("Size"), value, extra: Vec::new() },
            );
        },
        None => {},
    }
    let d = FileMetaDisplay { headline, fields };
    proof {
        assert(d.deep_view() =~~= spec_text_meta(
            req.mime_type@,
            req.size,
            *lines,
            description.deep_view(),
        ));
    }
    d
}

impl FileView for TextMeta {
    open spec fn spec_requests(&self, req: &FileRequest, options: &ViewOptions) -> IoRequests {
        IoRequests {
            count_lines: spec_want_scan(req.speed, req.size),
            count_entries: false,
            list_entries: false,
            image_dims: false,
            description: true,
            chain: ProgramChain::NoPrograms,
        }
    }

    fn io_requests(&self, req: &FileRequest, options: &ViewOptions) -> (r: IoRequests) {
        IoRequests {
            count_lines: crate::policy::want_scan(&req.speed, &req.size),
            count_entries: false,
            list_entries: false,
            image_dims: false,
            description: true,
            chain: ProgramChain::NoPrograms,
        }
    }

    open spec fn spec_plan(
        &self,
        req: &FileRequest,
        options: &ViewOptions,
        sheet: SheetModel,
        inputs: &RenderInputs,
    ) -> Result<Seq<ActionModel>, ErrModel> {
        Ok(
            seq![
                ActionModel::Print(
                    render_meta_model(
                        sheet,
                        spec_text_meta(
                            req.mime_type@,
                            req.size,
                            inputs.line_count,
                            inputs.description.deep_view(),
                        ),
                    ),
                ),
            ],
        )
    }

    fn display(
        &self,
        req: &FileRequest,
        options: &ViewOptions,
        sheet: &StyleSheet,
        inputs: &RenderInputs,
    ) -> (r: RenderPlan) {
        let d = text_meta_display(req, &inputs.line_count, &inputs.description);
        let text = d.render(sheet);
        Ok(single_action(RenderAction::Print(text)))
    }
}

impl FileView for TextHead {
    open spec fn spec_requests(&self, req: &FileRequest, options: &ViewOptions) -> IoRequests {
        IoRequests::spec_none()
    }

    fn io_requests(&self, req: &FileRequest, options: &ViewOptions) -> (r: IoRequests) {
        IoRequests {
            count_lines: false,
            count_entries: false,
            list_entries: false,
            image_dims: false,
            description: false,
            chain: ProgramChain::NoPrograms,
        }
    }

    open spec fn spec_plan(
        &self,
        req: &FileRequest,
        options: &ViewOptions,
        sheet: SheetModel,
        inputs: &RenderInputs,
    ) -> Result<Seq<ActionModel>, ErrModel> {
        Ok(
            seq![
                ActionModel::PrettyPrint {
                    path: req.path@,
                    line_limit: Some(options.head_lines),
                },
            ],
        )
    }

    fn display(
        &self,
        req: &FileRequest,
        options: &ViewOptions,
        sheet: &StyleSheet,
        inputs: &RenderInputs,
    ) -> (r: RenderPlan) {
        let act = RenderAction::PrettyPrint {
            path: req.path.clone(),
            line_limit: Some(options.head_lines),
        };
        Ok(single_action(act))
    }
}

impl FileView for TextFull {
    open spec fn spec_requests(&self, req: &FileRequest, options: &ViewOptions) -> IoRequests {
        IoRequests::spec_none()
    }

    fn io_requests(&self, req: &FileRequest, options: &ViewOptions) -> (r: IoRequests) {
        IoRequests {
            count_lines: false,
            count_entries: false,
            list_entries: false,
            image_dims: false,
            description: false,
            chain: ProgramChain::NoPrograms,
        }
    }

    open spec fn spec_plan(
        &self,
        req: &FileRequest,
        options: &ViewOptions,
        sheet: SheetModel,
        inputs: &RenderInputs,
    ) -> Result<Seq<ActionModel>, ErrModel> {
        if spec_should_page(req.size) {
            Ok(seq![ActionModel::PageFile { path: req.path@ }])
        } else {
            Ok(seq![ActionModel::PrettyPrint { path: req.path@, line_limit: None }])
        }
    }

    fn display(
        &self,
        req: &FileRequest,
        options: &ViewOptions,
        sheet: &StyleSheet,
        inputs: &RenderInputs,
    ) -> (r: RenderPlan) {
        if should_page(&req.size) {
            let act = RenderAction::PageFile { path: req.path.clone() };
            Ok(single_action(act))
        } else {
            let act = RenderAction::PrettyPrint { path: req.path.clone(), line_limit: None };
            Ok(single_action(act))
        }
    }
}

impl FileViewer for TextBackend {
    open spec fn spec_make_view(
        &self,
        req: &FileRequest,
        facts: &MimeFacts,
        mode: &Option<ViewType>,
    ) -> Option<ViewPlan> {
        if facts.subtype_text {
            Some(
                match mode {
                    Some(ViewType::Meta) => ViewPlan::TextMeta(TextMeta {}),
                    Some(ViewType::Head) => ViewPlan::TextHead(TextHead {}),
                    _ => ViewPlan::TextFull(TextFull {}),
                },
            )
        } else {
            None
        }
    }

    fn make_view(&self, req: &FileRequest, facts: &MimeFacts, mode: &Option<ViewType>) -> (r:
        Option<ViewPlan>) {
        if facts.subtype_text {
            Some(
                match mode {
                    Some(ViewType::Meta) => ViewPlan::TextMeta(TextMeta {}),
                    Some(ViewType::Head) => ViewPlan::TextHead(TextHead {}),
                    _ => ViewPlan::TextFull(TextFull {}),
                },
            )
        } else {
            None
        }
    }
}

/// The first `bound` lines, for printing a head preview without an
/// external pretty-printer: never more than the bound, and exactly
/// the opening of the file.
pub fn head_of(lines: &Vec<String>, bound: usize) -> (r: Vec<String>)
    ensures
        r@.len() <= bound,
        lines@.len() <= bound ==> r@ == lines@,
        lines@.len() > bound ==> r@ == lines@.take(bound as int),
{
    let mut r: Vec<String> = Vec::new();
    let n = if lines.len() < bound {
        lines.len()
    } else {
        bound
    };
    let mut i: usize = 0;
    while i < n
        invariant
            n <= lines@.len(),
            n <= bound,
            0 <= i <= n,
            r@ == lines@.take(i as int),
        decreases n - i,
    {
        r.push(lines[i].clone());
        proof {
            assert(lines@.take(i as int + 1) =~= lines@.take(i as int).push(lines@[i as int]));
        }
        i += 1;
    }
    proof {
        if lines@.len() <= bound {
            assert(lines@.take(n as int) =~= lines@);
        }
    }
    r
}

/// Meta-mode line counting obeys the speed budget: the text metadata
/// view asks for a line count exactly when the scan policy allows
/// one — never at fast speed, always at slow speed, and at default
/// speed exactly for files up to the shared threshold.
pub proof fn lemma_meta_scan_gate(v: TextMeta, req: &FileRequest, options: &ViewOptions)
    ensures
        v.spec_requests(req, options).count_lines == spec_want_scan(req.speed, req.size),
        req.speed == ViewSpeed::Fast ==> !v.spec_requests(req, options).count_lines,
        req.speed == ViewSpeed::Slow ==> v.spec_requests(req, options).count_lines,
        req.speed == ViewSpeed::Default ==> (match req.size {
            Some(n) => v.spec_requests(req, options).count_lines == (n <= crate::policy::BIG_FILE),
            None => v.spec_requests(req, options).count_lines,
        }),
{
}

/// A head view's output is always bounded: its whole plan is one
/// direct pretty-print limited to the configured number of lines,
/// whatever the file's size — never a pager.
pub proof fn lemma_head_bounded(
    v: TextHead,
    req: &FileRequest,
    options: &ViewOptions,
    sheet: SheetModel,
    inputs: &RenderInputs,
)
    ensures
        v.spec_plan(req, options, sheet, inputs) == Result::<Seq<ActionModel>, ErrModel>::Ok(
            seq![
                ActionModel::PrettyPrint { path: req.path@, line_limit: Some(options.head_lines) },
            ],
        ),
        match v.spec_plan(req, options, sheet, inputs) {
            Ok(acts) => forall|i: int| 0 <= i < acts.len() ==> !(#[trigger] acts[i] is PageFile),
            Err(_) => false,
        },
{
}

/// A full text view hands off to the pager exactly when the file
/// exceeds the shared size threshold, and prints directly otherwise.
pub proof fn lemma_full_pages_iff_big(
    v: TextFull,
    req: &FileRequest,
    options: &ViewOptions,
    sheet: SheetModel,
    inputs: &RenderInputs,
)
    ensures
        spec_should_page(req.size) ==> v.spec_plan(req, options, sheet, inputs) == Result::<
            Seq<ActionModel>,
            ErrModel,
        >::Ok(seq![ActionModel::PageFile { path: req.path@ }]),
        !spec_should_page(req.size) ==> v.spec_plan(req, options, sheet, inputs) == Result::<
            Seq<ActionModel>,
            ErrModel,
        >::Ok(seq![ActionModel::PrettyPrint { path: req.path@, line_limit: None }]),
        (match v.spec_plan(req, options, sheet, inputs) {
            Ok(acts) => exists|i: int| 0 <= i < acts.len() && #[trigger] acts[i] is PageFile,
            Err(_) => false,
        }) <==> spec_should_page(req.size),
{
    if spec_should_page(req.size) {
        let acts = v.spec_plan(req, options, sheet, inputs)->Ok_0;
        assert(acts[0] is PageFile);
    }
}

} // verus!
