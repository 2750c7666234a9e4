//! The view backends and their fixed registry.
//!
//! Registration order is significant: it is the priority order of the
//! resolution protocol, and the generic binary fallback stands last on
//! purpose.
pub mod binfile;
pub mod directory;
pub mod image;
pub mod text;

use vstd::prelude::*;

use crate::interface::{
    ActionModel, ErrModel, FileRequest, FileView, FileViewer, IoRequests, MimeFacts,
    RenderInputs, RenderPlan, ViewOptions, ViewType,
};
use crate::styling::stylesheet::{SheetModel, StyleSheet};

use binfile::{BinfileBackend, FileMeta, FileSummary, HexView};
use directory::{DirBackend, DirHead, DirListing, DirMeta};
use image::{ImageBackend, ImageMeta};
use text::{TextBackend, TextFull, TextHead, TextMeta};

verus! {

/// A view bound to one request and one resolved mode: the one-shot
/// rendering plan a backend supplies.
#[derive(Debug)]
pub enum ViewPlan {
    BinMeta(FileMeta),
    BinHex(HexView),
    BinSummary(FileSummary),
    ImageMeta(ImageMeta),
    DirMeta(DirMeta),
    DirHead(DirHead),
    DirListing(DirListing),
    TextMeta(TextMeta),
    TextHead(TextHead),
    TextFull(TextFull),
}

impl FileView for ViewPlan {
    open spec fn spec_requests(&self, req: &FileRequest, options: &ViewOptions) -> IoRequests {
        match self {
            ViewPlan::BinMeta(v) => v.spec_requests(req, options),
            ViewPlan::BinHex(v) => v.spec_requests(req, options),
            ViewPlan::BinSummary(v) => v.spec_requests(req, options),
            ViewPlan::ImageMeta(v) => v.spec_requests(req, options),
            ViewPlan::DirMeta(v) => v.spec_requests(req, options),
            ViewPlan::DirHead(v) => v.spec_requests(req, options),
            ViewPlan::DirListing(v) => v.spec_requests(req, options),
            ViewPlan::TextMeta(v) => v.spec_requests(req, options),
            ViewPlan::TextHead(v) => v.spec_requests(req, options),
            ViewPlan::TextFull(v) => v.spec_requests(req, options),
        }
    }

    fn io_requests(&self, req: &FileRequest, options: &ViewOptions) -> (r: IoRequests) {
        match self {
            ViewPlan::BinMeta(v) => v.io_requests(req, options),
            ViewPlan::BinHex(v) => v.io_requests(req, options),
            ViewPlan::BinSummary(v) => v.io_requests(req, options),
            ViewPlan::ImageMeta(v) => v.io_requests(req, options),
            ViewPlan::DirMeta(v) => v.io_requests(req, options),
            ViewPlan::DirHead(v) => v.io_requests(req, options),
            ViewPlan::DirListing(v) => v.io_requests(req, options),
            ViewPlan::TextMeta(v) => v.io_requests(req, options),
            ViewPlan::TextHead(v) => v.io_requests(req, options),
            ViewPlan::TextFull(v) => v.io_requests(req, options),
        }
    }

    open spec fn spec_plan(
        &self,
        req: &FileRequest,
        options: &ViewOptions,
        sheet: SheetModel,
        inputs: &RenderInputs,
    ) -> Result<Seq<ActionModel>, ErrModel> {
        match self {
            ViewPlan::BinMeta(v) => v.spec_plan(req, options, sheet, inputs),
            ViewPlan::BinHex(v) => v.spec_plan(req, options, sheet, inputs),
            ViewPlan::BinSummary(v) => v.spec_plan(req, options, sheet, inputs),
            ViewPlan::ImageMeta(v) => v.spec_plan(req, options, sheet, inputs),
            ViewPlan::DirMeta(v) => v.spec_plan(req, options, sheet, inputs),
            ViewPlan::DirHead(v) => v.spec_plan(req, options, sheet, inputs),
            ViewPlan::DirListing(v) => v.spec_plan(req, options, sheet, inputs),
            ViewPlan::TextMeta(v) => v.spec_plan(req, options, sheet, inputs),
            ViewPlan::TextHead(v) => v.spec_plan(req, options, sheet, inputs),
            ViewPlan::TextFull(v) => v.spec_plan(req, options, sheet, inputs),
        }
    }

    fn display(
        &self,
        req: &FileRequest,
        options: &ViewOptions,
        sheet: &StyleSheet,
        inputs: &RenderInputs,
    ) -> (r: RenderPlan) {
        match self {
            ViewPlan::BinMeta(v) => v.display(req, options, sheet, inputs),
            ViewPlan::BinHex(v) => v.display(req, options, sheet, inputs),
            ViewPlan::BinSummary(v) => v.display(req, options, sheet, inputs),
            ViewPlan::ImageMeta(v) => v.display(req, options, sheet, inputs),
            ViewPlan::DirMeta(v) => v.display(req, options, sheet, inputs),
            ViewPlan::DirHead(v) => v.display(req, options, sheet, inputs),
            ViewPlan::DirListing(v) => v.display(req, options, sheet, inputs),
            ViewPlan::TextMeta(v) => v.display(req, options, sheet, inputs),
            ViewPlan::TextHead(v) => v.display(req, options, sheet, inputs),
            ViewPlan::TextFull(v) => v.display(req, options, sheet, inputs),
        }
    }
}

/// One registered backend.
pub enum Backend {
    Directory(DirBackend),
    Image(ImageBackend),
    Text(TextBackend),
    Binfile(BinfileBackend),
}

impl FileViewer for Backend {
    open spec fn spec_make_view(
        &self,
        req: &FileRequest,
        facts: &MimeFacts,
        mode: &Option<ViewType>,
    ) -> Option<ViewPlan> {
        match self {
            Backend::Directory(b) => b.spec_make_view(req, facts, mode),
            Backend::Image(b) => b.spec_make_view(req, facts, mode),
            Backend::Text(b) => b.spec_make_view(req, facts, mode),
            Backend::Binfile(b) => b.spec_make_view(req, facts, mode),
        }
    }

    fn make_view(&self, req: &FileRequest, facts: &MimeFacts, mode: &Option<ViewType>) -> (r:
        Option<ViewPlan>) {
        match self {
            Backend::Directory(b) => b.make_view(req, facts, mode),
            Backend::Image(b) => b.make_view(req, facts, mode),
            Backend::Text(b) => b.make_view(req, facts, mode),
            Backend::Binfile(b) => b.make_view(req, facts, mode),
        }
    }
}

/// The fixed registration order: specific backends first, the generic
/// binary fallback last.
pub open spec fn spec_registry() -> Seq<Backend> {
    seq![
        Backend::Directory(DirBackend {}),
        Backend::Image(ImageBackend {}),
        Backend::Text(TextBackend {}),
        Backend::Binfile(BinfileBackend {}),
    ]
}

/// Get the registered backends, in resolution order.
pub fn backends() -> (r: Vec<Backend>)
    ensures
        r@ == spec_registry(),
{
    let mut v: Vec<Backend> = Vec::new();
    v.push(Backend::Directory(DirBackend {}));
    v.push(Backend::Image(ImageBackend {}));
    v.push(Backend::Text(TextBackend {}));
    v.push(Backend::Binfile(BinfileBackend {}));
    proof {
        assert(v@ =~= spec_registry());
    }
    v
}

/// The backend-chosen defaults: with no mode requested, a directory
/// gets its listing, a text file gets its full content, and a generic
/// binary gets the combined metadata-and-preview summary.
pub proof fn lemma_default_modes(req: &FileRequest, facts: &MimeFacts)
    ensures
        facts.is_dir ==> (DirBackend {}).spec_make_view(req, facts, &None) == Some(
            ViewPlan::DirListing(DirListing {}),
        ),
        facts.subtype_text ==> (TextBackend {}).spec_make_view(req, facts, &None) == Some(
            ViewPlan::TextFull(TextFull {}),
        ),
        facts.subtype_octet ==> (BinfileBackend {}).spec_make_view(req, facts, &None) == Some(
            ViewPlan::BinSummary(
                FileSummary {
                    meta: FileMeta {},
                    preview: HexView { nbytes: Some(crate::policy::HEX_PREVIEW_BYTES) },
                },
            ),
        ),
{
}

} // verus!
