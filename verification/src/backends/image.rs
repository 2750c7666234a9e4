//! Image files: a metadata view reporting the dimensions, for paths
//! whose extension names a known raster format.
use vstd::prelude::*;
use crate::styling::{file_size_role, file_type_role};

use crate::backends::ViewPlan;
use crate::interface::{
    single_action, ActionModel, ErrModel, FileRequest, FileView, FileViewer, ImageFailure,
    IoRequests, MimeFacts, ProgramChain, RenderAction, RenderInputs, RenderPlan, ViewError,
    ViewOptions, ViewType,
};
use crate::numfmt::{dec_of, u64_to_string};
use crate::styling::stylesheet::{render_list_model, SheetModel, StyleSheet};
use crate::styling::text::{styled, unstyled, FragModel, StyledText};

verus! {

/// Image file backend.
#[derive(Debug, Clone)]
pub struct ImageBackend {}

/// Metadata view for an image: its description and dimensions.
#[derive(Debug, Clone)]
pub struct ImageMeta {}

/// Whether a path's extension names an image format the image
/// machinery can recognize.
pub uninterp spec fn image_ext_supported(path: Seq<char>) -> bool;

/// Relies on image::ImageFormat::from_path: recognition looks at the
/// path's extension alone, so the answer depends only on the path.
#[verifier::external_body]
pub(crate) fn image_format_known(path: &str) -> (r: bool)
    ensures
        r == image_ext_supported(path@),
{
    image::ImageFormat::from_path(std::path::Path::new(path)).is_ok()
}

/// The fragments of the image headline: description, dimensions, and
/// the color layout when it is known.
pub open spec fn spec_image_frags(
    desc: Option<Seq<char>>,
    width: u32,
    height: u32,
    color: Option<Seq<char>>,
) -> Seq<FragModel> {
    seq![
        FragModel::Styled(
            match desc {
                Some(d) => d,
                None => "Unknown image"@,
            },
            "file-type"@,
        ),
        FragModel::Unstyled(" with "@),
        FragModel::Styled(
            dec_of(width as nat) + "x"@ + dec_of(height as nat) + " pixels"@,
            "file-size"@,
        ),
    ] + (match color {
        Some(c) => seq![FragModel::Unstyled(" ("@ + c + ")"@)],
        None => Seq::<FragModel>::empty(),
    })
}

/// The image metadata plan: one line of text when the dimensions
/// could be read, otherwise the failure that stopped the reading —
/// the file's own error as an input/output failure, the decoder's as
/// a wrapped one.
pub open spec fn spec_image_meta_plan(
    sheet: SheetModel,
    desc: Option<Seq<char>>,
    dims: Option<Result<(u32, u32), ImageFailure>>,
    color: Option<Seq<char>>,
) -> Result<Seq<ActionModel>, ErrModel> {
    match dims {
        Some(res) => match res {
            Ok(d) => Ok(
                seq![
                    ActionModel::Print(
                        render_list_model(sheet, spec_image_frags(desc, d.0, d.1, color))
                            + seq!['\n'],
                    ),
                ],
            ),
            Err(fail) => match fail {
                ImageFailure::Open(m) => Err(ErrModel::IO(m@)),
                ImageFailure::Decode(m) => Err(ErrModel::Wrapped(m@)),
            },
        },
        None => Err(ErrModel::Wrapped("unable to read image"@)),
    }
}

impl FileView for ImageMeta {
    open spec fn spec_requests(&self, req: &FileRequest, options: &ViewOptions) -> IoRequests {
        IoRequests {
            count_lines: false,
            count_entries: false,
            list_entries: false,
            image_dims: true,
            description: true,
            chain: ProgramChain::NoPrograms,
        }
    }

    fn io_requests(&self, req: &FileRequest, options: &ViewOptions) -> (r: IoRequests) {
        IoRequests {
            count_lines: false,
            count_entries: false,
            list_entries: false,
            image_dims: true,
            description: true,
            chain: ProgramChain::NoPrograms,
        }
    }

    open spec fn spec_plan(
        &self,
        req: &FileRequest,
        options: &ViewOptions,
        sheet: SheetModel,
        inputs: &RenderInputs,
    ) -> Result<Seq<ActionModel>, ErrModel> {
        spec_image_meta_plan(
            sheet,
            inputs.description.deep_view(),
            inputs.image_dims,
            inputs.image_color.deep_view(),
        )
    }

    fn display(
        &self,
        req: &FileRequest,
        options: &ViewOptions,
        sheet: &StyleSheet,
        inputs: &RenderInputs,
    ) -> (r: RenderPlan) {
        match &inputs.image_dims {
            Some(Err(fail)) => match fail {
                ImageFailure::Open(m) => Err(ViewError::IO(m.clone())),
                ImageFailure::Decode(m) => Err(ViewError::Wrapped(m.clone())),
            },
            Some(Ok(d)) => {
                let mut dims = u64_to_string(d.0 as u64);
                dims.append("x");
                let htext = u64_to_string(d.1 as u64);
                dims.append(htext.as_str());
                dims.append(" pixels");
                let mut frags: Vec<StyledText> = Vec::new();
                match &inputs.description {
                    Some(de) => frags.push(styled(de.as_str(), file_type_role())),
                    None => frags.push(styled("Unknown image", file_type_role())),
                }
                frags.push(unstyled(" with "));
                frags.push(styled(dims.as_str(), file_size_role()));
                match &inputs.image_color {
                    Some(c) => {
                        let mut note = String::from_str(" (");
                        note.append(c.as_str());
                        note.append(")");
                        frags.push(unstyled(note.as_str()));
                    },
                    None => {},
                }
                proof {
                    assert(frags.deep_view() =~~= spec_image_frags(
                        inputs.description.deep_view(),
                        d.0,
                        d.1,
                        inputs.image_color.deep_view(),
                    ));
                }
                let mut text = sheet.render_list(&frags);
                proof {
                    reveal_strlit("\n");
                    assert("\n"@ =~= seq!['\n']);
                }
                text.append("\n");
                Ok(single_action(RenderAction::Print(text)))
            },
            None => Err(ViewError::Wrapped(String::from_str("unable to read image"))),
        }
    }
}

impl FileViewer for ImageBackend {
    open spec fn spec_make_view(
        &self,
        req: &FileRequest,
        facts: &MimeFacts,
        mode: &Option<ViewType>,
    ) -> Option<ViewPlan> {
        if ((*mode) is None || *mode == Some(ViewType::Meta)) && facts.is_image_mime
            && facts.image_ext_ok {
            Some(ViewPlan::ImageMeta(ImageMeta {}))
        } else {
            None
        }
    }

    fn make_view(&self, req: &FileRequest, facts: &MimeFacts, mode: &Option<ViewType>) -> (r:
        Option<ViewPlan>) {
        let mode_is_meta = match mode {
            None => true,
            Some(ViewType::Meta) => true,
            Some(_) => false,
        };
        if mode_is_meta && facts.is_image_mime && facts.image_ext_ok {
            Some(ViewPlan::ImageMeta(ImageMeta {}))
        } else {
            None
        }
    }
}

} // verus!
