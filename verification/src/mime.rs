//! Access to the MIME database, the external classifier collaborator.
//!
//! The database is loaded from the system by the surrounding binary and
//! passed in by reference; the library only asks it the questions the
//! dispatch protocol needs. Its answers depend on what was loaded, so
//! little is promised of them beyond what the queries guarantee for
//! every database.
use vstd::prelude::*;

use crate::strutil::spec_starts_with;

verus! {

#[verifier::external_type_specification]
#[verifier::external_body]
pub struct ExMimeDB(shared_mime::MimeDB);

/// Relies on shared_mime::MimeDB::is_subtype. Its answer depends on the
/// loaded database, except for three cases it decides unconditionally:
/// every type is a subtype of itself, everything outside `inode/` is a
/// subtype of `application/octet-stream`, and everything under `text/`
/// is a subtype of `text/plain`.
#[verifier::external_body]
pub(crate) fn mime_is_subtype(db: &shared_mime::MimeDB, typ: &str, sup: &str) -> (r: bool)
    ensures
        typ@ == sup@ ==> r,
        sup@ == "application/octet-stream"@ && !spec_starts_with(typ@, "inode/"@) ==> r,
        sup@ == "text/plain"@ && spec_starts_with(typ@, "text/"@) ==> r,
{
    db.is_subtype(typ, sup)
}

/// Relies on shared_mime::MimeDB::description: a lookup of the type's
/// human-readable description in the loaded database. Nothing is
/// promised of its answer.
#[verifier::external_body]
pub(crate) fn mime_description(db: &shared_mime::MimeDB, typ: &str) -> (r: Option<String>) {
    db.description(typ).map(|s| s.to_string())
}

/// The lines naming a type's supertypes, one list item each.
pub open spec fn spec_supertype_lines(sups: Seq<Seq<char>>) -> Seq<char>
    decreases sups.len(),
{
    if sups.len() == 0 {
        Seq::<char>::empty()
    } else {
        "- "@ + sups[0] + seq!['\n'] + spec_supertype_lines(sups.drop_first())
    }
}

/// The full type report for one path: the best guess with its
/// description and supertypes, and whether it is a text file — or a
/// note that the type is uncertain.
pub open spec fn spec_mime_report(
    path: Seq<char>,
    best: Option<Seq<char>>,
    desc: Option<Seq<char>>,
    sups: Seq<Seq<char>>,
    is_text: bool,
) -> Seq<char> {
    match best {
        Some(ft) => path + ": "@ + ft + seq!['\n'] + (match desc {
            Some(d) => "description: "@ + d + seq!['\n'],
            None => Seq::<char>::empty(),
        }) + "supertypes:"@ + seq!['\n'] + spec_supertype_lines(sups) + (if is_text {
            path + ": is text file"@ + seq!['\n']
        } else {
            Seq::<char>::empty()
        }),
        None => path + ": type is uncertain"@ + seq!['\n'],
    }
}

proof fn lemma_supertype_lines_snoc(sups: Seq<Seq<char>>, x: Seq<char>)
    ensures
        spec_supertype_lines(sups + seq![x]) == spec_supertype_lines(sups) + "- "@ + x
            + seq!['\n'],
    decreases sups.len(),
{
    if sups.len() == 0 {
        assert(sups + seq![x] =~= seq![x]);
        assert((seq![x])[0] == x);
        assert((seq![x]).drop_first() =~= Seq::<Seq<char>>::empty());
        assert(spec_supertype_lines((seq![x]).drop_first()) == Seq::<char>::empty());
        assert("- "@ + x + seq!['\n'] + Seq::<char>::empty() =~= "- "@ + x + seq!['\n']);
        assert(spec_supertype_lines(sups) + "- "@ + x + seq!['\n'] =~= "- "@ + x + seq!['\n']);
    } else {
        let whole = sups + seq![x];
        assert(whole[0] == sups[0]);
        assert(whole.drop_first() =~= sups.drop_first() + seq![x]);
        lemma_supertype_lines_snoc(sups.drop_first(), x);
        assert(spec_supertype_lines(whole) == "- "@ + sups[0] + seq!['\n'] + (
        spec_supertype_lines(sups.drop_first()) + "- "@ + x + seq!['\n']));
        assert("- "@ + sups[0] + seq!['\n'] + (spec_supertype_lines(sups.drop_first()) + "- "@
            + x + seq!['\n']) =~= ("- "@ + sups[0] + seq!['\n'] + spec_supertype_lines(
            sups.drop_first(),
        )) + "- "@ + x + seq!['\n']);
    }
}

/// Build the type report shown for a path: the classifier's answers
/// come in as plain values, and the report text is pinned exactly.
pub fn mime_report(
    path: &str,
    best: &Option<String>,
    description: &Option<String>,
    supertypes: &Vec<String>,
    is_text: bool,
) -> (r: String)
    ensures
        r@ == spec_mime_report(
            path@,
            best.deep_view(),
            description.deep_view(),
            supertypes.deep_view(),
            is_text,
        ),
{
    match best {
        Some(ft) => {
            let mut out = String::from_str(path);
            proof {
                reveal_strlit("\n");
                assert("\n"@ =~= seq!['\n']);
            }
            out.append(": ");
            out.append(ft.as_str());
            out.append("\n");
            match description {
                Some(d) => {
                    out.append("description: ");
                    out.append(d.as_str());
                    out.append("\n");
                },
                None => {},
            }
            out.append("supertypes:");
            out.append("\n");
            let ghost head: Seq<char> = out@;
            let n = supertypes.len();
            let mut i: usize = 0;
            proof {
                assert(supertypes.deep_view().take(0) =~= Seq::<Seq<char>>::empty());
                assert(out@ =~= head + spec_supertype_lines(supertypes.deep_view().take(0)));
            }
            while i < n
                invariant
                    n == supertypes.len(),
                    0 <= i <= n,
                    out@ == head + spec_supertype_lines(supertypes.deep_view().take(i as int)),
                decreases n - i,
            {
                out.append("- ");
                out.append(supertypes[i].as_str());
                proof {
                    reveal_strlit("\n");
                    assert("\n"@ =~= seq!['\n']);
                }
                out.append("\n");
                proof {
                    assert(supertypes.deep_view()[i as int] == supertypes[i as int]@);
                    assert(supertypes.deep_view().take(i as int + 1)
                        =~= supertypes.deep_view().take(i as int) + seq![
                        supertypes.deep_view()[i as int],
                    ]);
                    lemma_supertype_lines_snoc(
                        supertypes.deep_view().take(i as int),
                        supertypes.deep_view()[i as int],
                    );
                    assert(out@ =~= head + spec_supertype_lines(
                        supertypes.deep_view().take(i as int + 1),
                    ));
                }
                i += 1;
            }
            proof {
                assert(supertypes.deep_view().take(n as int) =~= supertypes.deep_view());
            }
            if is_text {
                out.append(path);
                out.append(": is text file");
                proof {
                    reveal_strlit("\n");
                    assert("\n"@ =~= seq!['\n']);
                }
                out.append("\n");
            }
            proof {
                assert(out@ =~= spec_mime_report(
                    path@,
                    best.deep_view(),
                    description.deep_view(),
                    supertypes.deep_view(),
                    is_text,
                ));
            }
            out
        },
        None => {
            let mut out = String::from_str(path);
            out.append(": type is uncertain");
            proof {
                reveal_strlit("\n");
                assert("\n"@ =~= seq!['\n']);
            }
            out.append("\n");
            proof {
                assert(out@ =~= spec_mime_report(
                    path@,
                    best.deep_view(),
                    description.deep_view(),
                    supertypes.deep_view(),
                    is_text,
                ));
            }
            out
        },
    }
}

/// Look up the description of a type when the view asked for one.
pub fn resolve_description(
    db: &shared_mime::MimeDB,
    mime_type: &str,
    wanted: bool,
) -> (r: Option<String>)
    ensures
        !wanted ==> r is None,
{
    if wanted {
        mime_description(db, mime_type)
    } else {
        None
    }
}

} // verus!
