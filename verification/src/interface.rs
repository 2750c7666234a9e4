//! Interface between the dispatcher and the backends: requests, view
//! modes, options, errors, classifier facts, and the render actions a
//! view plans for the surrounding binary to perform.
use vstd::prelude::*;

use crate::programs::{ProgErrModel, ProgramError};

verus! {

/// Request for speed of operations.
///
/// This is primarily respected by the metadata view — viewing often
/// needs to display data whatever it costs. The exact interpretation
/// is up to individual backends.
#[derive(Debug, Clone, PartialEq, Eq, Structural)]
pub enum ViewSpeed {
    /// Default speed limit — should return in a second or two.
    Default,
    /// Avoid all slow operations.
    Fast,
    /// Allow slow operations (e.g. scanning large files).
    Slow,
}

/// Enum for the different view types.
#[derive(Debug, Clone, PartialEq, Eq, Structural)]
pub enum ViewType {
    /// View file metadata.
    Meta,
    /// View the first entries of a file.
    Head,
    /// View the full file.
    Full,
}

/// Errors from viewing backends.
#[derive(Debug, Clone, PartialEq, Eq)]
pub enum ViewError {
    /// Reading the file or directory failed.
    IO(String),
    /// A failure of some other component, carried as its message.
    Wrapped(String),
    /// An external program failed.
    External(ProgramError),
    /// A backend-specific failure.
    Unspecified(String),
}

/// The mathematical shape of a view error.
#[verifier::ext_equal]
pub enum ErrModel {
    IO(Seq<char>),
    Wrapped(Seq<char>),
    External(ProgErrModel),
    Unspecified(Seq<char>),
}

impl DeepView for ViewError {
    type V = ErrModel;

    open spec fn deep_view(&self) -> ErrModel {
        match self {
            ViewError::IO(m) => ErrModel::IO(m@),
            ViewError::Wrapped(m) => ErrModel::Wrapped(m@),
            ViewError::External(e) => ErrModel::External(e.deep_view()),
            ViewError::Unspecified(m) => ErrModel::Unspecified(m@),
        }
    }
}

impl From<String> for ViewError {
    fn from(value: String) -> (r: Self) {
        ViewError::Unspecified(value)
    }
}

impl vstd::std_specs::convert::FromSpecImpl<String> for ViewError {
    open spec fn obeys_from_spec() -> bool {
        true
    }

    open spec fn from_spec(value: String) -> Self {
        ViewError::Unspecified(value)
    }
}

impl<'a> From<&'a str> for ViewError {
    fn from(value: &'a str) -> (r: Self) {
        ViewError::Unspecified(String::from_str(value))
    }
}

// A `String` value cannot be pinned in spec beyond its view, so this
// conversion promises nothing through `from_spec`; callers that need
// the message exactly construct the variant themselves.
impl<'a> vstd::std_specs::convert::FromSpecImpl<&'a str> for ViewError {
    open spec fn obeys_from_spec() -> bool {
        false
    }

    open spec fn from_spec(value: &'a str) -> Self {
        ViewError::Unspecified(choose|s: String| s@ == value@)
    }
}

impl From<ProgramError> for ViewError {
    fn from(value: ProgramError) -> (r: Self) {
        ViewError::External(value)
    }
}

impl vstd::std_specs::convert::FromSpecImpl<ProgramError> for ViewError {
    open spec fn obeys_from_spec() -> bool {
        true
    }

    open spec fn from_spec(value: ProgramError) -> Self {
        ViewError::External(value)
    }
}

impl ViewError {
    /// Carry another component's failure, reduced to its message.
    pub fn wrap(message: String) -> (r: ViewError)
        ensures
            r == ViewError::Wrapped(message),
    {
        ViewError::Wrapped(message)
    }
}

/// Information to request a file view.
#[derive(Debug, Clone)]
pub struct FileRequest {
    /// Path to the file to display.
    pub path: String,
    /// The file's size in bytes, when metadata was available.
    pub size: Option<u64>,
    /// The file's MIME type.
    pub mime_type: String,
    /// The requested view speed.
    pub speed: ViewSpeed,
}

impl FileRequest {
    /// The file size from the metadata, if any was read.
    pub fn file_size(&self) -> (r: Option<u64>)
        ensures
            r == self.size,
    {
        self.size
    }
}

/// The user's choice of color mode, before resolving it against the
/// terminal.
#[derive(Debug, Clone, Copy, PartialEq, Eq, Structural)]
pub enum ColorMode {
    Always,
    AlwaysAnsi,
    Never,
    Auto,
}

/// Options for a view.
#[derive(Debug, Clone)]
pub struct ViewOptions {
    /// Whether to use a long display with more details.
    pub long_display: bool,
    /// How many lines a head view shows.
    pub head_lines: u64,
    /// The user's specified choice of color mode.
    ///
    /// Styling already respects the resolved choice through the
    /// stylesheet; this makes it available for controlling other
    /// programs.
    pub color_choice: ColorMode,
    /// Whether color display is enabled: the result of resolving
    /// [`ViewOptions::color_choice`] against the terminal.
    pub color_enabled: bool,
}

/// What the MIME classifier said about a request, reduced to the facts
/// the backends decide on.
#[derive(Debug, Clone, Copy, PartialEq, Eq, Structural)]
pub struct MimeFacts {
    /// The type names a directory.
    pub is_dir: bool,
    /// The type name lies under the image branch.
    pub is_image_mime: bool,
    /// The path's extension names a known raster image format.
    pub image_ext_ok: bool,
    /// The classifier holds the type to be a kind of plain text.
    pub subtype_text: bool,
    /// The classifier holds the type to be a kind of byte stream.
    pub subtype_octet: bool,
}

/// Which preference-ordered chain of external programs a view wants
/// probed before it is displayed.
#[derive(Debug, Clone, Copy, PartialEq, Eq, Structural)]
pub enum ProgramChain {
    /// The view runs no external program.
    NoPrograms,
    /// Hex viewers for binary previews.
    HexPrograms,
    /// Directory listing tools.
    ListPrograms,
}

/// What a view needs from the outside world before it can be
/// displayed. The caller gathers exactly what is asked for and hands
/// it back as [`RenderInputs`].
#[derive(Debug, Clone, Copy, PartialEq, Eq, Structural)]
pub struct IoRequests {
    /// Count the lines of the file.
    pub count_lines: bool,
    /// Count the entries of the directory.
    pub count_entries: bool,
    /// List the names of the directory's entries.
    pub list_entries: bool,
    /// Read the image's dimensions and color description.
    pub image_dims: bool,
    /// Look up the type's description in the MIME database.
    pub description: bool,
    /// Probe this chain of external programs for availability.
    pub chain: ProgramChain,
}

impl IoRequests {
    /// A request for nothing at all.
    pub open spec fn spec_none() -> IoRequests {
        IoRequests {
            count_lines: false,
            count_entries: false,
            list_entries: false,
            image_dims: false,
            description: false,
            chain: ProgramChain::NoPrograms,
        }
    }
}

/// Why an image's dimensions could not be read: the file itself, or
/// its content.
#[derive(Debug, Clone, PartialEq, Eq)]
pub enum ImageFailure {
    /// Opening the file failed, with the underlying error's message.
    Open(String),
    /// Decoding the content failed, with the decoder's message.
    Decode(String),
}

/// The outside answers to a view's [`IoRequests`]. A field that was
/// not requested is `None`; one whose gathering failed carries the
/// failure's message; a missing availability flag counts as
/// unavailable.
#[derive(Debug, Clone)]
pub struct RenderInputs {
    /// The file's line count.
    pub line_count: Option<u64>,
    /// The directory's entry count, or why it could not be read.
    pub dir_entries: Option<Result<u64, String>>,
    /// The directory's entry names in reading order, or why they
    /// could not be read.
    pub dir_names: Option<Result<Vec<String>, String>>,
    /// The image's width and height in pixels, or why they could not
    /// be read.
    pub image_dims: Option<Result<(u32, u32), ImageFailure>>,
    /// A human-readable description of the image's color layout.
    pub image_color: Option<String>,
    /// The MIME database's description of the type.
    pub description: Option<String>,
    /// Availability of the requested program chain's candidates, in
    /// chain order.
    pub available: Vec<bool>,
}

impl RenderInputs {
    /// Inputs that answer nothing.
    pub fn none() -> (r: RenderInputs)
        ensures
            r.line_count is None,
            r.dir_entries is None,
            r.dir_names is None,
            r.image_dims is None,
            r.image_color is None,
            r.description is None,
            r.available@ == Seq::<bool>::empty(),
    {
        RenderInputs {
            line_count: None,
            dir_entries: None,
            dir_names: None,
            image_dims: None,
            image_color: None,
            description: None,
            available: Vec::new(),
        }
    }
}

/// One action of a rendering plan, for the surrounding binary to
/// perform in order.
#[derive(Debug, Clone, PartialEq, Eq)]
pub enum RenderAction {
    /// Write this text to standard output, as it is.
    Print(String),
    /// Run the named external program with these arguments, with its
    /// output going straight to the terminal.
    RunProgram { program: String, args: Vec<String> },
    /// Run the built-in directory lister with these arguments.
    RunInternalLs { args: Vec<String> },
    /// Show the file through the user's pager.
    PageFile { path: String },
    /// Pretty-print the file directly (never paging), bounded to the
    /// first `line_limit` lines when set.
    PrettyPrint { path: String, line_limit: Option<u64> },
}

/// The mathematical shape of a render action.
#[verifier::ext_equal]
pub enum ActionModel {
    Print(Seq<char>),
    RunProgram { program: Seq<char>, args: Seq<Seq<char>> },
    RunInternalLs { args: Seq<Seq<char>> },
    PageFile { path: Seq<char> },
    PrettyPrint { path: Seq<char>, line_limit: Option<u64> },
}

impl DeepView for RenderAction {
    type V = ActionModel;

    open spec fn deep_view(&self) -> ActionModel {
        match self {
            RenderAction::Print(s) => ActionModel::Print(s@),
            RenderAction::RunProgram { program, args } => ActionModel::RunProgram {
                program: program@,
                args: args.deep_view(),
            },
            RenderAction::RunInternalLs { args } => ActionModel::RunInternalLs {
                args: args.deep_view(),
            },
            RenderAction::PageFile { path } => ActionModel::PageFile { path: path@ },
            RenderAction::PrettyPrint { path, line_limit } => ActionModel::PrettyPrint {
                path: path@,
                line_limit: *line_limit,
            },
        }
    }
}

/// A rendering plan, or the error that stopped it.
pub type RenderPlan = Result<Vec<RenderAction>, ViewError>;

/// The mathematical shape of a plan: the action models in order, or
/// the error model.
pub open spec fn plan_model(r: RenderPlan) -> Result<Seq<ActionModel>, ErrModel> {
    match r {
        Ok(actions) => Ok(actions.deep_view()),
        Err(e) => Err(e.deep_view()),
    }
}

/// A plan of exactly one action.
pub fn single_action(a: RenderAction) -> (r: Vec<RenderAction>)
    ensures
        r.deep_view() == seq![a.deep_view()],
{
    let ghost am = a.deep_view();
    let mut v: Vec<RenderAction> = Vec::new();
    v.push(a);
    proof {
        assert(v.deep_view() =~= seq![am]);
    }
    v
}

/// Interface for file view backends.
///
/// A viewer is selected by processing the viewers in registration
/// order and asking each one for a view; the first that supplies one
/// wins. Construction is pure: a viewer decides from the request, the
/// classifier facts and the requested mode alone, and
/// `spec_make_view` says exactly which view it supplies.
pub trait FileViewer {
    /// Which view this backend supplies, if any: its whole behaviour.
    spec fn spec_make_view(
        &self,
        req: &FileRequest,
        facts: &MimeFacts,
        mode: &Option<ViewType>,
    ) -> Option<crate::backends::ViewPlan>;

    /// Obtain a view if this backend can supply one.
    ///
    /// If `mode` is `None`, the backend returns its default view for
    /// this kind of file, if it can supply one.
    fn make_view(&self, req: &FileRequest, facts: &MimeFacts, mode: &Option<ViewType>) -> (r:
        Option<crate::backends::ViewPlan>)
        ensures
            r == self.spec_make_view(req, facts, mode),
    ;
}

/// Implementation of a single file view request: a one-shot rendering
/// plan bound to one request and one resolved mode.
///
/// Displaying happens in two steps: the view first says what it needs
/// from the outside world (`io_requests`), then turns the gathered
/// answers into the actions to perform (`display`). Both steps are
/// pure functions of their arguments, pinned by the two spec
/// functions.
pub trait FileView {
    /// What the view will need from the outside world.
    spec fn spec_requests(&self, req: &FileRequest, options: &ViewOptions) -> IoRequests;

    /// Say what must be gathered before this view can be displayed.
    fn io_requests(&self, req: &FileRequest, options: &ViewOptions) -> (r: IoRequests)
        ensures
            r == self.spec_requests(req, options),
    ;

    /// The exact plan (or error) for given outside answers.
    spec fn spec_plan(
        &self,
        req: &FileRequest,
        options: &ViewOptions,
        sheet: crate::styling::stylesheet::SheetModel,
        inputs: &RenderInputs,
    ) -> Result<Seq<ActionModel>, ErrModel>;

    /// Turn the gathered answers into the actions that display the
    /// view.
    fn display(
        &self,
        req: &FileRequest,
        options: &ViewOptions,
        sheet: &crate::styling::stylesheet::StyleSheet,
        inputs: &RenderInputs,
    ) -> (r: RenderPlan)
        ensures
            plan_model(r) == self.spec_plan(req, options, sheet.model(), inputs),
    ;
}

} // verus!
