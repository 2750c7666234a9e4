//! Directories: a metadata view counting the entries, a bounded head
//! view of the first entry names, and a listing view through the best
//! available listing tool with a built-in fallback.
use vstd::prelude::*;

use crate::backends::ViewPlan;
use crate::interface::{
    single_action, ActionModel, ErrModel, FileRequest, FileView, FileViewer, IoRequests,
    MimeFacts, ProgramChain, RenderAction, RenderInputs, RenderPlan, ViewError, ViewOptions,
    ViewType,
};
use crate::numfmt::{dec_of, u64_to_string};
use crate::programs::{avail_at, lemma_fallback_chain, ls_chain, spec_first_avail};
use crate::styling::stylesheet::{SheetModel, StyleSheet};
use crate::styling::text::{styled, unstyled, FragModel, StyledText};
use crate::styling::{file_size_role, file_type_role};
use crate::views::meta::{render_meta_model, FieldModel, FileMetaDisplay, MetaModel};

verus! {

/// Directory backend.
#[derive(Debug, Clone)]
pub struct DirBackend {}

/// Metadata view: the entry count on a headline.
#[derive(Debug, Clone)]
pub struct DirMeta {}

/// Head view: the first entry names, bounded by the head limit.
#[derive(Debug, Clone)]
pub struct DirHead {}

/// Listing view: the first available listing tool, or the built-in
/// lister when none is found.
#[derive(Debug, Clone)]
pub struct DirListing {}

/// The metadata lines of a directory: a headline with its entry count.
pub open spec fn spec_dir_meta(entries: u64) -> MetaModel {
    MetaModel {
        headline: seq![
            FragModel::Styled("directory"@, "file-type"@),
            FragModel::Unstyled(" with "@),
            FragModel::Styled(dec_of(entries as nat) + " entries"@, "file-size"@),
        ],
        fields: Seq::<FieldModel>::empty(),
    }
}

/// The arguments for an external listing tool: the long flag when
/// asked for, a color request for the tool that needs one, the path.
pub open spec fn spec_ls_args(candidate: int, long: bool, path: Seq<char>) -> Seq<Seq<char>> {
    (if long {
        seq!["-l"@]
    } else {
        Seq::<Seq<char>>::empty()
    }) + (if candidate == 0 {
        seq!["--color=always"@]
    } else {
        Seq::<Seq<char>>::empty()
    }) + seq![path]
}

/// The arguments for the built-in lister.
pub open spec fn spec_internal_ls_args(long: bool, path: Seq<char>) -> Seq<Seq<char>> {
    seq!["ls-internal"@, "-F"@] + (if long {
        seq!["-l"@]
    } else {
        Seq::<Seq<char>>::empty()
    }) + seq![path]
}

/// The listing plan: the first available candidate of the listing
/// chain runs; with none, the built-in lister runs. Listing never
/// fails outright and never plans nothing.
pub open spec fn spec_dir_listing_plan(
    long: bool,
    path: Seq<char>,
    avail: Seq<bool>,
) -> Result<Seq<ActionModel>, ErrModel> {
    match spec_first_avail(avail, 5) {
        Some(i) => Ok(
            seq![
                ActionModel::RunProgram {
                    program: ls_chain()[i],
                    args: spec_ls_args(i, long, path),
                },
            ],
        ),
        None => Ok(seq![ActionModel::RunInternalLs { args: spec_internal_ls_args(long, path) }]),
    }
}

/// Entry names, one per line.
pub open spec fn spec_entry_lines(names: Seq<Seq<char>>) -> Seq<char>
    decreases names.len(),
{
    if names.len() == 0 {
        Seq::<char>::empty()
    } else {
        names[0] + seq!['\n'] + spec_entry_lines(names.drop_first())
    }
}

/// How many entries a head view shows: all of them, up to the bound.
pub open spec fn spec_head_count(total: nat, bound: u64) -> int {
    if total <= bound {
        total as int
    } else {
        bound as int
    }
}

/// The directory head plan: print the first entry names, never more
/// than the head bound, and never page; a failed read carries its
/// cause.
pub open spec fn spec_dir_head_plan(
    bound: u64,
    names_in: Option<Result<Vec<String>, String>>,
) -> Result<Seq<ActionModel>, ErrModel> {
    match names_in {
        Some(res) => match res {
            Ok(names) => Ok(
                seq![
                    ActionModel::Print(
                        spec_entry_lines(
                            names.deep_view().take(
                                spec_head_count(names.deep_view().len(), bound),
                            ),
                        ),
                    ),
                ],
            ),
            Err(m) => Err(ErrModel::IO(m@)),
        },
        None => Err(ErrModel::IO("cannot read directory"@)),
    }
}

proof fn lemma_entry_lines_snoc(names: Seq<Seq<char>>, x: Seq<char>)
    ensures
        spec_entry_lines(names + seq![x]) == spec_entry_lines(names) + x + seq!['\n'],
    decreases names.len(),
{
    if names.len() == 0 {
        assert(names + seq![x] =~= seq![x]);
        assert((seq![x])[0] == x);
        assert((seq![x]).drop_first() =~= Seq::<Seq<char>>::empty());
        assert(spec_entry_lines((seq![x]).drop_first()) == Seq::<char>::empty());
        assert(x + seq!['\n'] + Seq::<char>::empty() =~= x + seq!['\n']);
        assert(spec_entry_lines(names) + x + seq!['\n'] =~= x + seq!['\n']);
    } else {
        let whole = names + seq![x];
        assert(whole[0] == names[0]);
        assert(whole.drop_first() =~= names.drop_first() + seq![x]);
        lemma_entry_lines_snoc(names.drop_first(), x);
        assert(spec_entry_lines(whole) == names[0] + seq!['\n'] + (spec_entry_lines(
            names.drop_first(),
        ) + x + seq!['\n']));
        assert(names[0] + seq!['\n'] + (spec_entry_lines(names.drop_first()) + x + seq!['\n'])
            =~= (names[0] + seq!['\n'] + spec_entry_lines(names.drop_first())) + x + seq!['\n']);
    }
}

fn ls_program_name(i: usize) -> (r: &'static str)
    requires
        i < 5,
    ensures
        r@ == ls_chain()[i as int],
{
    match i {
        0 => "eza",
        1 => "lsd",
        2 => "exa",
        3 => "lla",
        _ => "ls",
    }
}

fn ls_args(candidate: usize, long: bool, path: &String) -> (r: Vec<String>)
    ensures
        r.deep_view() == spec_ls_args(candidate as int, long, path@),
{
    let mut args: Vec<String> = Vec::new();
    if long {
        args.push(String::from_str("-l"));
    }
    if candidate == 0 {
        args.push(String::from_str("--color=always"));
    }
    args.push(path.clone());
    proof {
        assert(args.deep_view() =~~= spec_ls_args(candidate as int, long, path@));
    }
    args
}

fn internal_ls_args(long: bool, path: &String) -> (r: Vec<String>)
    ensures
        r.deep_view() == spec_internal_ls_args(long, path@),
{
    let mut args: Vec<String> = Vec::new();
    args.push(String::from_str("ls-internal"));
    args.push(String::from_str("-F"));
    if long {
        args.push(String::from_str("-l"));
    }
    args.push(path.clone());
    proof {
        assert(args.deep_view() =~~= spec_internal_ls_args(long, path@));
    }
    args
}

impl FileView for DirMeta {
    open spec fn spec_requests(&self, req: &FileRequest, options: &ViewOptions) -> IoRequests {
        IoRequests {
            count_lines: false,
            count_entries: true,
            list_entries: false,
            image_dims: false,
            description: false,
            chain: ProgramChain::NoPrograms,
        }
    }

    fn io_requests(&self, req: &FileRequest, options: &ViewOptions) -> (r: IoRequests) {
        IoRequests {
            count_lines: false,
            count_entries: true,
            list_entries: false,
            image_dims: false,
            description: false,
            chain: ProgramChain::NoPrograms,
        }
    }

    open spec fn spec_plan(
        &self,
        req: &FileRequest,
        options: &ViewOptions,
        sheet: SheetModel,
        inputs: &RenderInputs,
    ) -> Result<Seq<ActionModel>, ErrModel> {
        match inputs.dir_entries {
            Some(res) => match res {
                Ok(n) => Ok(seq![ActionModel::Print(render_meta_model(sheet, spec_dir_meta(n)))]),
                Err(m) => Err(ErrModel::IO(m@)),
            },
            None => Err(ErrModel::IO("cannot read directory"@)),
        }
    }

    fn display(
        &self,
        req: &FileRequest,
        options: &ViewOptions,
        sheet: &StyleSheet,
        inputs: &RenderInputs,
    ) -> (r: RenderPlan) {
        match &inputs.dir_entries {
            Some(Ok(n)) => {
                let mut count = u64_to_string(*n);
                count.append(" entries");
                let mut headline: Vec<StyledText> = Vec::new();
                headline.push(styled("directory", file_type_role()));
                headline.push(unstyled(" with "));
                headline.push(styled(count.as_str(), file_size_role()));
                let d = FileMetaDisplay { headline, fields: Vec::new() };
                proof {
                    assert(d.deep_view() =~~= spec_dir_meta(*n));
                }
                let text = d.render(sheet);
                Ok(single_action(RenderAction::Print(text)))
            },
            Some(Err(m)) => Err(ViewError::IO(m.clone())),
            None => Err(ViewError::IO(String::from_str("cannot read directory"))),
        }
    }
}

impl FileView for DirHead {
    open spec fn spec_requests(&self, req: &FileRequest, options: &ViewOptions) -> IoRequests {
        IoRequests {
            count_lines: false,
            count_entries: false,
            list_entries: true,
            image_dims: false,
            description: false,
            chain: ProgramChain::NoPrograms,
        }
    }

    fn io_requests(&self, req: &FileRequest, options: &ViewOptions) -> (r: IoRequests) {
        IoRequests {
            count_lines: false,
            count_entries: false,
            list_entries: true,
            image_dims: false,
            description: false,
            chain: ProgramChain::NoPrograms,
        }
    }

    open spec fn spec_plan(
        &self,
        req: &FileRequest,
        options: &ViewOptions,
        sheet: SheetModel,
        inputs: &RenderInputs,
    ) -> Result<Seq<ActionModel>, ErrModel> {
        spec_dir_head_plan(options.head_lines, inputs.dir_names)
    }

    fn display(
        &self,
        req: &FileRequest,
        options: &ViewOptions,
        sheet: &StyleSheet,
        inputs: &RenderInputs,
    ) -> (r: RenderPlan) {
        match &inputs.dir_names {
            Some(Ok(names)) => {
                let total = names.len();
                let k: usize = if (total as u64) <= options.head_lines {
                    total
                } else {
                    proof {
                        assert(options.head_lines < total as u64);
                    }
                    options.head_lines as usize
                };
                proof {
                    assert(k as int == spec_head_count(
                        names.deep_view().len(),
                        options.head_lines,
                    ));
                }
                let mut out = String::new();
                let mut i: usize = 0;
                proof {
                    assert(names.deep_view().take(0) =~= Seq::<Seq<char>>::empty());
                }
                while i < k
                    invariant
                        k <= names.len(),
                        0 <= i <= k,
                        out@ == spec_entry_lines(names.deep_view().take(i as int)),
                    decreases k - i,
                {
                    out.append(names[i].as_str());
                    proof {
                        reveal_strlit("\n");
                        assert("\n"@ =~= seq!['\n']);
                    }
                    out.append("\n");
                    proof {
                        assert(names.deep_view()[i as int] == names[i as int]@);
                        assert(names.deep_view().take(i as int + 1) =~= names.deep_view().take(
                            i as int,
                        ) + seq![names.deep_view()[i as int]]);
                        lemma_entry_lines_snoc(
                            names.deep_view().take(i as int),
                            names.deep_view()[i as int],
                        );
                        assert(out@ =~= spec_entry_lines(names.deep_view().take(i as int + 1)));
                    }
                    i += 1;
                }
                Ok(single_action(RenderAction::Print(out)))
            },
            Some(Err(m)) => Err(ViewError::IO(m.clone())),
            None => Err(ViewError::IO(String::from_str("cannot read directory"))),
        }
    }
}

impl FileView for DirListing {
    open spec fn spec_requests(&self, req: &FileRequest, options: &ViewOptions) -> IoRequests {
        IoRequests {
            count_lines: false,
            count_entries: false,
            list_entries: false,
            image_dims: false,
            description: false,
            chain: ProgramChain::ListPrograms,
        }
    }

    fn io_requests(&self, req: &FileRequest, options: &ViewOptions) -> (r: IoRequests) {
        IoRequests {
            count_lines: false,
            count_entries: false,
            list_entries: false,
            image_dims: false,
            description: false,
            chain: ProgramChain::ListPrograms,
        }
    }

    open spec fn spec_plan(
        &self,
        req: &FileRequest,
        options: &ViewOptions,
        sheet: SheetModel,
        inputs: &RenderInputs,
    ) -> Result<Seq<ActionModel>, ErrModel> {
        spec_dir_listing_plan(options.long_display, req.path@, inputs.available@)
    }

    fn display(
        &self,
        req: &FileRequest,
        options: &ViewOptions,
        sheet: &StyleSheet,
        inputs: &RenderInputs,
    ) -> (r: RenderPlan) {
        let pick = crate::programs::first_available(&inputs.available, 5);
        match pick {
            Some(i) => {
                let name = ls_program_name(i);
                let args = ls_args(i, options.long_display, &req.path);
                let act = RenderAction::RunProgram { program: String::from_str(name), args };
                proof {
                    assert(act.deep_view() =~~= ActionModel::RunProgram {
                        program: ls_chain()[i as int],
                        args: spec_ls_args(i as int, options.long_display, req.path@),
                    });
                }
                Ok(single_action(act))
            },
            None => {
                let args = internal_ls_args(options.long_display, &req.path);
                let act = RenderAction::RunInternalLs { args };
                proof {
                    assert(act.deep_view() =~~= ActionModel::RunInternalLs {
                        args: spec_internal_ls_args(options.long_display, req.path@),
                    });
                }
                Ok(single_action(act))
            },
        }
    }
}

impl FileViewer for DirBackend {
    open spec fn spec_make_view(
        &self,
        req: &FileRequest,
        facts: &MimeFacts,
        mode: &Option<ViewType>,
    ) -> Option<ViewPlan> {
        if facts.is_dir {
            Some(
                match mode {
                    Some(ViewType::Meta) => ViewPlan::DirMeta(DirMeta {}),
                    Some(ViewType::Head) => ViewPlan::DirHead(DirHead {}),
                    _ => ViewPlan::DirListing(DirListing {}),
                },
            )
        } else {
            None
        }
    }

    fn make_view(&self, req: &FileRequest, facts: &MimeFacts, mode: &Option<ViewType>) -> (r:
        Option<ViewPlan>) {
        if facts.is_dir {
            Some(
                match mode {
                    Some(ViewType::Meta) => ViewPlan::DirMeta(DirMeta {}),
                    Some(ViewType::Head) => ViewPlan::DirHead(DirHead {}),
                    _ => ViewPlan::DirListing(DirListing {}),
                },
            )
        } else {
            None
        }
    }
}

/// A directory listing always plans visible output: the first
/// available listing tool runs, and with none of the chain available
/// the built-in lister runs — never an error and never an empty
/// plan.
pub proof fn lemma_listing_always_output(
    v: DirListing,
    req: &FileRequest,
    options: &ViewOptions,
    sheet: SheetModel,
    inputs: &RenderInputs,
)
    ensures
        v.spec_plan(req, options, sheet, inputs) matches Ok(acts) && acts.len() == 1,
        (forall|i: int| 0 <= i < 5 ==> !avail_at(inputs.available@, i)) ==> v.spec_plan(
            req,
            options,
            sheet,
            inputs,
        ) == Result::<Seq<ActionModel>, ErrModel>::Ok(
            seq![
                ActionModel::RunInternalLs {
                    args: spec_internal_ls_args(options.long_display, req.path@),
                },
            ],
        ),
{
    lemma_fallback_chain(inputs.available@, 5);
    if forall|i: int| 0 <= i < 5 ==> !avail_at(inputs.available@, i) {
        if spec_first_avail(inputs.available@, 5) is Some {
            let i = choose|i: int| 0 <= i < 5 && avail_at(inputs.available@, i);
            assert(false);
        }
    }
}

/// A directory head view is bounded and never pages: whatever the
/// directory holds, its whole plan is one print of at most the
/// configured number of entry names, with no pager and no external
/// program.
pub proof fn lemma_dir_head_bounded(
    v: DirHead,
    req: &FileRequest,
    options: &ViewOptions,
    sheet: SheetModel,
    inputs: &RenderInputs,
)
    ensures
        ({
            let plan = v.spec_plan(req, options, sheet, inputs);
            &&& match plan {
                Ok(acts) => acts.len() == 1 && acts[0] is Print,
                Err(_) => true,
            }
            &&& match inputs.dir_names {
                Some(res) => match res {
                    Ok(names) => {
                        let k = spec_head_count(names.deep_view().len(), options.head_lines);
                        &&& 0 <= k <= options.head_lines
                        &&& plan == Result::<Seq<ActionModel>, ErrModel>::Ok(
                            seq![
                                ActionModel::Print(
                                    spec_entry_lines(names.deep_view().take(k)),
                                ),
                            ],
                        )
                    },
                    Err(_) => plan is Err,
                },
                None => plan is Err,
            }
        }),
{
}

} // verus!
