//! The dispatcher: reduce the classifier's answers to facts, walk the
//! backend registry in order, and hand out the first view supplied.
use vstd::prelude::*;

use crate::backends::image::{image_ext_supported, image_format_known};
use crate::backends::{backends, spec_registry, Backend, ViewPlan};
use crate::interface::{ErrModel, FileRequest, FileViewer, MimeFacts, ViewError, ViewType};
use crate::mime::mime_is_subtype;
use crate::strutil::{spec_starts_with, str_eq, str_starts_with};

verus! {

/// Ask the classifier about a request and reduce its answers to the
/// facts the backends decide on. The directory and image-name checks
/// are decided by the type name and path alone; the two subtype facts
/// come from the database, which at least guarantees that names under
/// `text/` are text and that everything outside `inode/` is a byte
/// stream.
pub fn classifier_facts(db: &shared_mime::MimeDB, req: &FileRequest) -> (f: MimeFacts)
    ensures
        f.is_dir == (req.mime_type@ == "inode/directory"@),
        f.is_image_mime == spec_starts_with(req.mime_type@, "image/"@),
        f.image_ext_ok == image_ext_supported(req.path@),
        spec_starts_with(req.mime_type@, "text/"@) ==> f.subtype_text,
        req.mime_type@ == "text/plain"@ ==> f.subtype_text,
        !spec_starts_with(req.mime_type@, "inode/"@) ==> f.subtype_octet,
        req.mime_type@ == "application/octet-stream"@ ==> f.subtype_octet,
{
    let is_dir = str_eq(req.mime_type.as_str(), "inode/directory");
    let is_image_mime = str_starts_with(req.mime_type.as_str(), "image/");
    let image_ext_ok = image_format_known(req.path.as_str());
    let subtype_text = mime_is_subtype(db, req.mime_type.as_str(), "text/plain");
    let subtype_octet = mime_is_subtype(db, req.mime_type.as_str(), "application/octet-stream");
    MimeFacts { is_dir, is_image_mime, image_ext_ok, subtype_text, subtype_octet }
}

/// The resolution protocol over a registry: the first backend that
/// supplies a view wins, together with its position.
pub open spec fn spec_resolve(
    reg: Seq<Backend>,
    req: &FileRequest,
    facts: &MimeFacts,
    mode: &Option<ViewType>,
) -> Option<(int, ViewPlan)>
    decreases reg.len(),
{
    if reg.len() == 0 {
        None
    } else {
        match reg[0].spec_make_view(req, facts, mode) {
            Some(v) => Some((0, v)),
            None => match spec_resolve(reg.drop_first(), req, facts, mode) {
                Some(iv) => Some((iv.0 + 1, iv.1)),
                None => None,
            },
        }
    }
}

/// What resolution means: the winner is the first backend that
/// claims the request — everything registered before it declined —
/// and nothing is selected only when every backend declined.
pub proof fn lemma_resolve_first_match(
    reg: Seq<Backend>,
    req: &FileRequest,
    facts: &MimeFacts,
    mode: &Option<ViewType>,
)
    ensures
        match spec_resolve(reg, req, facts, mode) {
            Some(iv) => 0 <= iv.0 < reg.len() && reg[iv.0].spec_make_view(req, facts, mode)
                == Some(iv.1) && forall|j: int|
                0 <= j < iv.0 ==> reg[j].spec_make_view(req, facts, mode) is None,
            None => forall|j: int|
                0 <= j < reg.len() ==> reg[j].spec_make_view(req, facts, mode) is None,
        },
    decreases reg.len(),
{
    if reg.len() == 0 {
    } else {
        match reg[0].spec_make_view(req, facts, mode) {
            Some(_) => {},
            None => {
                lemma_resolve_first_match(reg.drop_first(), req, facts, mode);
                match spec_resolve(reg.drop_first(), req, facts, mode) {
                    Some(iv) => {
                        assert forall|j: int| 0 <= j < iv.0 + 1 implies reg[j].spec_make_view(
                            req,
                            facts,
                            mode,
                        ) is None by {
                            if j > 0 {
                                assert(reg.drop_first()[j - 1] == reg[j]);
                            }
                        }
                        assert(reg.drop_first()[iv.0] == reg[iv.0 + 1]);
                    },
                    None => {
                        assert forall|j: int| 0 <= j < reg.len() implies reg[j].spec_make_view(
                            req,
                            facts,
                            mode,
                        ) is None by {
                            if j > 0 {
                                assert(reg.drop_first()[j - 1] == reg[j]);
                            }
                        }
                    },
                }
            },
        }
    }
}

proof fn lemma_resolve_of_witness(
    reg: Seq<Backend>,
    req: &FileRequest,
    facts: &MimeFacts,
    mode: &Option<ViewType>,
    i: int,
    v: ViewPlan,
)
    requires
        0 <= i < reg.len(),
        reg[i].spec_make_view(req, facts, mode) == Some(v),
        forall|j: int| 0 <= j < i ==> reg[j].spec_make_view(req, facts, mode) is None,
    ensures
        spec_resolve(reg, req, facts, mode) == Some((i, v)),
    decreases reg.len(),
{
    if i == 0 {
    } else {
        assert(reg[0].spec_make_view(req, facts, mode) is None);
        assert(reg.drop_first()[i - 1] == reg[i]);
        assert forall|j: int| 0 <= j < i - 1 implies reg.drop_first()[j].spec_make_view(
            req,
            facts,
            mode,
        ) is None by {
            assert(reg.drop_first()[j] == reg[j + 1]);
        }
        lemma_resolve_of_witness(reg.drop_first(), req, facts, mode, i - 1, v);
    }
}

proof fn lemma_resolve_of_no_witness(
    reg: Seq<Backend>,
    req: &FileRequest,
    facts: &MimeFacts,
    mode: &Option<ViewType>,
)
    requires
        forall|j: int| 0 <= j < reg.len() ==> reg[j].spec_make_view(req, facts, mode) is None,
    ensures
        spec_resolve(reg, req, facts, mode) is None,
    decreases reg.len(),
{
    if reg.len() == 0 {
    } else {
        assert forall|j: int|
            0 <= j < reg.drop_first().len() implies reg.drop_first()[j].spec_make_view(
            req,
            facts,
            mode,
        ) is None by {
            assert(reg.drop_first()[j] == reg[j + 1]);
        }
        lemma_resolve_of_no_witness(reg.drop_first(), req, facts, mode);
    }
}

/// Walk a registry in order and return the first view supplied,
/// together with the position of the backend that supplied it.
pub fn select_backend(
    registry: &Vec<Backend>,
    req: &FileRequest,
    facts: &MimeFacts,
    mode: &Option<ViewType>,
) -> (r: Option<(usize, ViewPlan)>)
    ensures
        match r {
            Some(iv) => spec_resolve(registry@, req, facts, mode) == Some((iv.0 as int, iv.1)),
            None => spec_resolve(registry@, req, facts, mode) is None,
        },
{
    let n = registry.len();
    let mut i: usize = 0;
    while i < n
        invariant
            n == registry.len(),
            0 <= i <= n,
            forall|j: int| 0 <= j < i ==> registry@[j].spec_make_view(req, facts, mode) is None,
        decreases n - i,
    {
        match registry[i].make_view(req, facts, mode) {
            Some(v) => {
                proof {
                    lemma_resolve_of_witness(registry@, req, facts, mode, i as int, v);
                }
                return Some((i, v));
            },
            None => {},
        }
        i += 1;
    }
    proof {
        lemma_resolve_of_no_witness(registry@, req, facts, mode);
    }
    None
}

/// The outcome of dispatching one request: the facts the classifier
/// gave, and the selected backend with its view — or the error shown
/// when no backend claims the request.
pub struct Resolution {
    pub facts: MimeFacts,
    pub choice: Result<(usize, ViewPlan), ViewError>,
}

/// Dispatch a request: gather the classifier facts, then resolve the
/// fixed registry. Exactly when no backend supplies a view, the
/// outcome is the user-visible unsupported error.
pub fn dispatch(db: &shared_mime::MimeDB, req: &FileRequest, mode: &Option<ViewType>) -> (r:
    Resolution)
    ensures
        r.facts.is_dir == (req.mime_type@ == "inode/directory"@),
        r.facts.is_image_mime == spec_starts_with(req.mime_type@, "image/"@),
        r.facts.image_ext_ok == image_ext_supported(req.path@),
        spec_starts_with(req.mime_type@, "text/"@) ==> r.facts.subtype_text,
        !spec_starts_with(req.mime_type@, "inode/"@) ==> r.facts.subtype_octet,
        match r.choice {
            Ok(iv) => spec_resolve(spec_registry(), req, &r.facts, mode) == Some(
                (iv.0 as int, iv.1),
            ),
            Err(e) => spec_resolve(spec_registry(), req, &r.facts, mode) is None
                && e.deep_view() == ErrModel::Unspecified("no capable viewer"@),
        },
{
    let facts = classifier_facts(db, req);
    let registry = backends();
    match select_backend(&registry, req, &facts, mode) {
        Some(iv) => Resolution { facts, choice: Ok(iv) },
        None => Resolution {
            facts,
            choice: Err(ViewError::Unspecified(String::from_str("no capable viewer"))),
        },
    }
}

/// Registration order decides: when two backends both claim a
/// request, whichever stands first in the registry supplies the view,
/// so reordering the registry changes the winner.
pub proof fn lemma_order_decides(
    a: Backend,
    b: Backend,
    req: &FileRequest,
    facts: &MimeFacts,
    mode: &Option<ViewType>,
    va: ViewPlan,
    vb: ViewPlan,
)
    requires
        a.spec_make_view(req, facts, mode) == Some(va),
        b.spec_make_view(req, facts, mode) == Some(vb),
    ensures
        spec_resolve(seq![a, b], req, facts, mode) == Some((0int, va)),
        spec_resolve(seq![b, a], req, facts, mode) == Some((0int, vb)),
{
    assert(seq![a, b][0] == a);
    assert(seq![b, a][0] == b);
}

/// No byte stream is ever unhandled: whatever the mode, a request the
/// classifier places under the byte-stream supertype is claimed at
/// the latest by the generic binary backend, which stands last.
pub proof fn lemma_octet_always_handled(
    req: &FileRequest,
    facts: &MimeFacts,
    mode: &Option<ViewType>,
)
    requires
        facts.subtype_octet,
    ensures
        spec_resolve(spec_registry(), req, facts, mode) is Some,
{
    let reg = spec_registry();
    assert(reg[3] == Backend::Binfile(crate::backends::binfile::BinfileBackend {}));
    assert(reg[3].spec_make_view(req, facts, mode) is Some);
    lemma_resolve_first_match(reg, req, facts, mode);
}

} // verus!
