//! Generic binary files: the last-resort backend for anything the
//! classifier places under the byte-stream supertype.
use vstd::prelude::*;
use crate::styling::{field_name_role, file_size_role, file_type_role};

use crate::backends::ViewPlan;
use crate::interface::{
    single_action, ActionModel, ErrModel, FileRequest, FileView, FileViewer,
    IoRequests, MimeFacts, ProgramChain, RenderAction, RenderInputs, RenderPlan, ViewError,
    ViewOptions, ViewType,
};
use crate::numfmt::{dec_of, friendly_bytes, friendly_bytes_of, u64_to_string};
use crate::policy::HEX_PREVIEW_BYTES;
use crate::programs::{avail_at, first_avail_from, spec_first_avail};
use crate::styling::stylesheet::{render_frag_model, SheetModel, StyleSheet};
use crate::styling::text::{styled, unstyled, FragModel, StyledText};
use crate::views::meta::{
    render_meta_model, FieldModel, FileMetaDisplay, FileMetaField, MetaModel,
};

verus! {

/// Non-specialized binary file backend.
#[derive(Debug, Clone)]
pub struct BinfileBackend {}

/// Metadata view for a generic binary file.
#[derive(Debug, Clone)]
pub struct FileMeta {}

/// Bounded or unbounded hex preview through an external hex viewer.
#[derive(Debug, Clone)]
pub struct HexView {
    /// Show only this many bytes, or the whole file when `None`.
    pub nbytes: Option<u32>,
}

/// Default view: the metadata followed by a bounded hex preview.
#[derive(Debug, Clone)]
pub struct FileSummary {
    pub meta: FileMeta,
    pub preview: HexView,
}

/// The metadata lines of a binary file: its type with the size on the
/// headline, then the description and size fields that are known.
pub open spec fn spec_bin_meta(
    mime: Seq<char>,
    size: Option<u64>,
    desc: Option<Seq<char>>,
) -> MetaModel {
    MetaModel {
        headline: seq![
            FragModel::Unstyled("file of type "@),
            FragModel::Styled(mime, "file-type"@),
        ]
            + (match size {
            Some(n) => seq![
                FragModel::Unstyled(" ("@),
                FragModel::Styled(friendly_bytes_of(n), "file-size"@),
                FragModel::Unstyled(")"@),
            ],
            None => Seq::<FragModel>::empty(),
        }),
        fields: (match desc {
            Some(d) => seq![
                FieldModel {
                    name: "Type description"@,
                    value: seq![FragModel::Unstyled(d)],
                    extra: Seq::<Seq<FragModel>>::empty(),
                },
            ],
            None => Seq::<FieldModel>::empty(),
        }) + (match size {
            Some(n) => seq![
                FieldModel {
                    name: "Size"@,
                    value: seq![FragModel::Unstyled(friendly_bytes_of(n))],
                    extra: Seq::<Seq<FragModel>>::empty(),
                },
            ],
            None => Seq::<FieldModel>::empty(),
        }),
    }
}

/// Build the metadata display for a binary file.
fn bin_meta_display(req: &FileRequest, description: &Option<String>) -> (d: FileMetaDisplay)
    ensures
        d.deep_view() == spec_bin_meta(req.mime_type@, req.size, description.deep_view()),
{
    let mut headline: Vec<StyledText> = Vec::new();
    headline.push(unstyled("file of type "));
    headline.push(styled(req.mime_type.as_str(), file_type_role()));
    match &req.size {
        Some(n) => {
            headline.push(unstyled(" ("));
            let fb = friendly_bytes(*n);
            headline.push(styled(fb.as_str(), file_size_role()));
            headline.push(unstyled(")"));
        },
        None => {},
    }
    let mut fields: Vec<FileMetaField> = Vec::new();
    match description {
        Some(d) => {
            let mut value: Vec<StyledText> = Vec::new();
            value.push(unstyled(d.as_str()));
            fields.push(
                FileMetaField {
                    name: String::from_str("Type description"),
                    value,
                    extra: Vec::new(),
                },
            );
        },
        None => {},
    }
    match &req.size {
        Some(n) => {
            let mut value: Vec<StyledText> = Vec::new();
            let fb = friendly_bytes(*n);
            value.push(unstyled(fb.as_str()));
            fields.push(
                FileMetaField { name: String::from_str("Size"), value, extra: Vec::new() },
            );
        },
        None => {},
    }
    let d = FileMetaDisplay { headline, fields };
    proof {
        assert(d.deep_view() =~~= spec_bin_meta(req.mime_type@, req.size, description.deep_view()));
    }
    d
}

/// The arguments a hex viewer gets: its byte-limit flag when the
/// preview is bounded, then the file path.
pub open spec fn spec_hex_args(
    limit_flag: Seq<char>,
    nbytes: Option<u32>,
    path: Seq<char>,
) -> Seq<Seq<char>> {
    match nbytes {
        Some(n) => seq![limit_flag, dec_of(n as nat), path],
        None => seq![path],
    }
}

/// The hex preview plan: the first available of `xxd` and `hexdump`
/// runs; with neither, the view fails rather than show nothing.
pub open spec fn spec_hex_plan(
    nbytes: Option<u32>,
    path: Seq<char>,
    avail: Seq<bool>,
) -> Result<Seq<ActionModel>, ErrModel> {
    match spec_first_avail(avail, 2) {
        Some(i) => {
            if i == 0 {
                Ok(
                    seq![
                        ActionModel::RunProgram {
                            program: "xxd"@,
                            args: spec_hex_args("-l"@, nbytes, path),
                        },
                    ],
                )
            } else {
                Ok(
                    seq![
                        ActionModel::RunProgram {
                            program: "hexdump"@,
                            args: spec_hex_args("-n"@, nbytes, path),
                        },
                    ],
                )
            }
        },
        None => Err(ErrModel::Unspecified("no hex viewer"@)),
    }
}

fn hex_args(limit_flag: &str, nbytes: &Option<u32>, path: &String) -> (r: Vec<String>)
    ensures
        r.deep_view() == spec_hex_args(limit_flag@, *nbytes, path@),
{
    let mut args: Vec<String> = Vec::new();
    match nbytes {
        Some(n) => {
            args.push(String::from_str(limit_flag));
            args.push(u64_to_string(*n as u64));
            args.push(path.clone());
        },
        None => {
            args.push(path.clone());
        },
    }
    proof {
        assert(args.deep_view() =~~= spec_hex_args(limit_flag@, *nbytes, path@));
    }
    args
}

impl FileView for FileMeta {
    open spec fn spec_requests(&self, req: &FileRequest, options: &ViewOptions) -> IoRequests {
        IoRequests {
            count_lines: false,
            count_entries: false,
            list_entries: false,
            image_dims: false,
            description: true,
            chain: ProgramChain::NoPrograms,
        }
    }

    fn io_requests(&self, req: &FileRequest, options: &ViewOptions) -> (r: IoRequests) {
        IoRequests {
            count_lines: false,
            count_entries: false,
            list_entries: false,
            image_dims: false,
            description: true,
            chain: ProgramChain::NoPrograms,
        }
    }

    open spec fn spec_plan(
        &self,
        req: &FileRequest,
        options: &ViewOptions,
        sheet: SheetModel,
        inputs: &RenderInputs,
    ) -> Result<Seq<ActionModel>, ErrModel> {
        Ok(
            seq![
                ActionModel::Print(
                    render_meta_model(
                        sheet,
                        spec_bin_meta(req.mime_type@, req.size, inputs.description.deep_view()),
                    ),
                ),
            ],
        )
    }

    fn display(
        &self,
        req: &FileRequest,
        options: &ViewOptions,
        sheet: &StyleSheet,
        inputs: &RenderInputs,
    ) -> (r: RenderPlan) {
        let d = bin_meta_display(req, &inputs.description);
        let text = d.render(sheet);
        Ok(single_action(RenderAction::Print(text)))
    }
}

impl FileView for HexView {
    open spec fn spec_requests(&self, req: &FileRequest, options: &ViewOptions) -> IoRequests {
        IoRequests {
            count_lines: false,
            count_entries: false,
            list_entries: false,
            image_dims: false,
            description: false,
            chain: ProgramChain::HexPrograms,
        }
    }

    fn io_requests(&self, req: &FileRequest, options: &ViewOptions) -> (r: IoRequests) {
        IoRequests {
            count_lines: false,
            count_entries: false,
            list_entries: false,
            image_dims: false,
            description: false,
            chain: ProgramChain::HexPrograms,
        }
    }

    open spec fn spec_plan(
        &self,
        req: &FileRequest,
        options: &ViewOptions,
        sheet: SheetModel,
        inputs: &RenderInputs,
    ) -> Result<Seq<ActionModel>, ErrModel> {
        spec_hex_plan(self.nbytes, req.path@, inputs.available@)
    }

    fn display(
        &self,
        req: &FileRequest,
        options: &ViewOptions,
        sheet: &StyleSheet,
        inputs: &RenderInputs,
    ) -> (r: RenderPlan) {
        let pick = crate::programs::first_available(&inputs.available, 2);
        match pick {
            Some(i) => {
                if i == 0 {
                    let args = hex_args("-l", &self.nbytes, &req.path);
                    let act = RenderAction::RunProgram {
                        program: String::from_str("xxd"),
                        args,
                    };
                    proof {
                        assert(act.deep_view() =~~= ActionModel::RunProgram {
                            program: "xxd"@,
                            args: spec_hex_args("-l"@, self.nbytes, req.path@),
                        });
                    }
                    Ok(single_action(act))
                } else {
                    let args = hex_args("-n", &self.nbytes, &req.path);
                    let act = RenderAction::RunProgram {
                        program: String::from_str("hexdump"),
                        args,
                    };
                    proof {
                        assert(act.deep_view() =~~= ActionModel::RunProgram {
                            program: "hexdump"@,
                            args: spec_hex_args("-n"@, self.nbytes, req.path@),
                        });
                    }
                    Ok(single_action(act))
                }
            },
            None => Err(ViewError::Unspecified(String::from_str("no hex viewer"))),
        }
    }
}

impl FileView for FileSummary {
    open spec fn spec_requests(&self, req: &FileRequest, options: &ViewOptions) -> IoRequests {
        IoRequests {
            count_lines: false,
            count_entries: false,
            list_entries: false,
            image_dims: false,
            description: true,
            chain: ProgramChain::HexPrograms,
        }
    }

    fn io_requests(&self, req: &FileRequest, options: &ViewOptions) -> (r: IoRequests) {
        IoRequests {
            count_lines: false,
            count_entries: false,
            list_entries: false,
            image_dims: false,
            description: true,
            chain: ProgramChain::HexPrograms,
        }
    }

    open spec fn spec_plan(
        &self,
        req: &FileRequest,
        options: &ViewOptions,
        sheet: SheetModel,
        inputs: &RenderInputs,
    ) -> Result<Seq<ActionModel>, ErrModel> {
        match spec_hex_plan(self.preview.nbytes, req.path@, inputs.available@) {
            Ok(hex) => Ok(
                seq![
                    ActionModel::Print(
                        render_meta_model(
                            sheet,
                            spec_bin_meta(
                                req.mime_type@,
                                req.size,
                                inputs.description.deep_view(),
                            ),
                        ),
                    ),
                    ActionModel::Print(
                        render_frag_model(
                            sheet,
                            FragModel::Styled("Initial content:"@, "field-name"@),
                        ) + seq!['\n'],
                    ),
                ] + hex,
            ),
            Err(e) => Err(e),
        }
    }

    fn display(
        &self,
        req: &FileRequest,
        options: &ViewOptions,
        sheet: &StyleSheet,
        inputs: &RenderInputs,
    ) -> (r: RenderPlan) {
        let d = bin_meta_display(req, &inputs.description);
        let meta_text = d.render(sheet);
        let banner_frag = styled("Initial content:", field_name_role());
        let mut banner = sheet.render(&banner_frag);
        proof {
            reveal_strlit("\n");
            assert("\n"@ =~= seq!['\n']);
        }
        banner.append("\n");
        match self.preview.display(req, options, sheet, inputs) {
            Ok(hexacts) => {
                let ghost hex_model = hexacts.deep_view();
                let mut v: Vec<RenderAction> = Vec::new();
                v.push(RenderAction::Print(meta_text));
                v.push(RenderAction::Print(banner));
                let mut rest = hexacts;
                v.append(&mut rest);
                proof {
                    assert(v.deep_view() =~~= seq![
                        ActionModel::Print(
                            render_meta_model(
                                sheet.model(),
                                spec_bin_meta(
                                    req.mime_type@,
                                    req.size,
                                    inputs.description.deep_view(),
                                ),
                            ),
                        ),
                        ActionModel::Print(
                            render_frag_model(
                                sheet.model(),
                                FragModel::Styled("Initial content:"@, "field-name"@),
                            ) + seq!['\n'],
                        ),
                    ] + hex_model);
                }
                Ok(v)
            },
            Err(e) => Err(e),
        }
    }
}

impl FileViewer for BinfileBackend {
    open spec fn spec_make_view(
        &self,
        req: &FileRequest,
        facts: &MimeFacts,
        mode: &Option<ViewType>,
    ) -> Option<ViewPlan> {
        if facts.subtype_octet {
            Some(
                match mode {
                    Some(ViewType::Meta) => ViewPlan::BinMeta(FileMeta {}),
                    Some(ViewType::Full) => ViewPlan::BinHex(HexView { nbytes: None }),
                    Some(ViewType::Head) => ViewPlan::BinHex(
                        HexView { nbytes: Some(HEX_PREVIEW_BYTES) },
                    ),
                    None => ViewPlan::BinSummary(
                        FileSummary {
                            meta: FileMeta {},
                            preview: HexView { nbytes: Some(HEX_PREVIEW_BYTES) },
                        },
                    ),
                },
            )
        } else {
            None
        }
    }

    fn make_view(&self, req: &FileRequest, facts: &MimeFacts, mode: &Option<ViewType>) -> (r:
        Option<ViewPlan>) {
        if facts.subtype_octet {
            Some(
                match mode {
                    Some(ViewType::Meta) => ViewPlan::BinMeta(FileMeta {}),
                    Some(ViewType::Full) => ViewPlan::BinHex(HexView { nbytes: None }),
                    Some(ViewType::Head) => ViewPlan::BinHex(
                        HexView { nbytes: Some(HEX_PREVIEW_BYTES) },
                    ),
                    None => ViewPlan::BinSummary(
                        FileSummary {
                            meta: FileMeta {},
                            preview: HexView { nbytes: Some(HEX_PREVIEW_BYTES) },
                        },
                    ),
                },
            )
        } else {
            None
        }
    }
}

/// The hex preview degrades along its chain: it fails exactly when
/// neither hex viewer is available; with the preferred viewer missing
/// and the second one present, the second one runs. It never plans
/// empty output.
pub proof fn lemma_hex_fallback(
    v: HexView,
    req: &FileRequest,
    options: &ViewOptions,
    sheet: SheetModel,
    inputs: &RenderInputs,
)
    ensures
        (v.spec_plan(req, options, sheet, inputs) is Err) <==> (!avail_at(inputs.available@, 0)
            && !avail_at(inputs.available@, 1)),
        !avail_at(inputs.available@, 0) && avail_at(inputs.available@, 1) ==> v.spec_plan(
            req,
            options,
            sheet,
            inputs,
        ) == Result::<Seq<ActionModel>, ErrModel>::Ok(
            seq![
                ActionModel::RunProgram {
                    program: "hexdump"@,
                    args: spec_hex_args("-n"@, v.nbytes, req.path@),
                },
            ],
        ),
        match v.spec_plan(req, options, sheet, inputs) {
            Ok(acts) => acts.len() > 0,
            Err(e) => e == ErrModel::Unspecified("no hex viewer"@),
        },
{
    let a = inputs.available@;
    assert(first_avail_from(a, 0, 2) == if avail_at(a, 0) {
        Some(0int)
    } else {
        first_avail_from(a, 1, 2)
    });
    assert(first_avail_from(a, 1, 2) == if avail_at(a, 1) {
        Some(1int)
    } else {
        first_avail_from(a, 2, 2)
    });
    assert(first_avail_from(a, 2, 2) is None);
}

/// A composite summary propagates its preview's failure unchanged,
/// and otherwise plans the metadata and the banner before exactly the
/// preview's own actions.
pub proof fn lemma_summary_composite(
    v: FileSummary,
    req: &FileRequest,
    options: &ViewOptions,
    sheet: SheetModel,
    inputs: &RenderInputs,
)
    ensures
        v.spec_plan(req, options, sheet, inputs) matches Err(e) ==> v.preview.spec_plan(
            req,
            options,
            sheet,
            inputs,
        ) == Result::<Seq<ActionModel>, ErrModel>::Err(e),
        v.spec_plan(req, options, sheet, inputs) matches Ok(acts) ==> ({
            &&& v.preview.spec_plan(req, options, sheet, inputs) matches Ok(h)
            &&& acts.len() == 2 + h.len()
            &&& acts.skip(2) == h
            &&& acts[0] is Print
        }),
{
    match spec_hex_plan(v.preview.nbytes, req.path@, inputs.available@) {
        Ok(h) => {
            let acts = v.spec_plan(req, options, sheet, inputs)->Ok_0;
            assert(acts.skip(2) =~= h);
        },
        Err(_) => {},
    }
}

} // verus!
