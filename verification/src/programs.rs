//! Decisions about external helper programs: how exit codes are judged,
//! how a program is named, and how a preference-ordered candidate chain
//! is resolved against availability.
//!
//! Probing the system for a program and running it are left to the
//! surrounding binary; the library decides which candidate to use from
//! the probe results alone.
use vstd::prelude::*;

use crate::interface::ProgramChain;
use vstd::string::StrSliceExecFns;

verus! {

/// Errors around external programs.
#[derive(Debug, Clone, PartialEq, Eq)]
pub enum ProgramError {
    /// Searching for a program itself failed.
    ProgramSearchError,
    /// The program ran but exited with the given nonzero code.
    ExitError(i32),
    /// Input or output failed while running the program.
    IOError(String),
}

/// The mathematical shape of a program error.
#[verifier::ext_equal]
pub enum ProgErrModel {
    ProgramSearchError,
    ExitError(i32),
    IOError(Seq<char>),
}

impl DeepView for ProgramError {
    type V = ProgErrModel;

    open spec fn deep_view(&self) -> ProgErrModel {
        match self {
            ProgramError::ProgramSearchError => ProgErrModel::ProgramSearchError,
            ProgramError::ExitError(c) => ProgErrModel::ExitError(*c),
            ProgramError::IOError(m) => ProgErrModel::IOError(m@),
        }
    }
}

impl ProgramError {
    /// Judge an exit code: zero is success, anything else is an error
    /// carrying the code.
    pub fn check(code: i32) -> (r: Result<(), ProgramError>)
        ensures
            code == 0 <==> r is Ok,
            r matches Err(e) ==> e == ProgramError::ExitError(code),
    {
        if code == 0 {
            Ok(())
        } else {
            Err(ProgramError::ExitError(code))
        }
    }
}

/// The final path component of a program path: everything after the
/// last separator, gathered right to left.
pub open spec fn spec_basename(s: Seq<char>) -> Seq<char>
    decreases s.len(),
{
    if s.len() == 0 {
        Seq::<char>::empty()
    } else if s[s.len() - 1] == '/' {
        Seq::<char>::empty()
    } else {
        spec_basename(s.drop_last()) + seq![s[s.len() - 1]]
    }
}

proof fn lemma_basename_of_suffix(s: Seq<char>, i: int)
    requires
        0 <= i <= s.len(),
        forall|j: int| i <= j < s.len() ==> s[j] != '/',
        i == 0 || s[i - 1] == '/',
    ensures
        spec_basename(s) == s.subrange(i, s.len() as int),
    decreases s.len() - i,
{
    if s.len() == i {
        if i == 0 {
            assert(spec_basename(s) =~= s.subrange(0, 0));
        } else {
            assert(s[s.len() - 1] == '/');
            assert(spec_basename(s) =~= s.subrange(i, s.len() as int));
        }
    } else {
        assert(s[s.len() - 1] != '/');
        let d = s.drop_last();
        if i == s.len() {
        } else {
            assert(d.len() == s.len() - 1);
            assert(forall|j: int| i <= j < d.len() ==> d[j] == s[j] && s[j] != '/');
            if i > 0 {
                assert(d[i - 1] == s[i - 1]);
            }
            if i <= d.len() {
                lemma_basename_of_suffix(d, i);
                assert(d.subrange(i, d.len() as int) + seq![s[s.len() - 1]] =~= s.subrange(
                    i,
                    s.len() as int,
                ));
            }
        }
    }
}

/// The display name of a program: the final component of its path,
/// or a placeholder when there is none — the empty name and the two
/// relative dot components name no program.
pub fn program_name(path: &str) -> (r: String)
    ensures
        ({
            let base = spec_basename(path@);
            if base.len() == 0 || base == "."@ || base == ".."@ {
                r@ == "<unknown>"@
            } else {
                r@ == base
            }
        }),
{
    let n = path.unicode_len();
    let mut start: usize = 0;
    let mut i: usize = 0;
    while i < n
        invariant
            n == path@.len(),
            0 <= start <= i <= n,
            forall|j: int| start <= j < i ==> path@[j] != '/',
            start == 0 || path@[start - 1] == '/',
        decreases n - i,
    {
        let c = path.get_char(i);
        if c == '/' {
            start = i + 1;
        }
        i += 1;
    }
    proof {
        lemma_basename_of_suffix(path@, start as int);
    }
    if start == n {
        return String::from_str("<unknown>");
    }
    let base = path.substring_char(start, n);
    if crate::strutil::str_eq(base, ".") || crate::strutil::str_eq(base, "..") {
        String::from_str("<unknown>")
    } else {
        String::from_str(base)
    }
}

/// Whether index `i` names an available candidate.
pub open spec fn avail_at(a: Seq<bool>, i: int) -> bool {
    0 <= i < a.len() && a[i]
}

/// The first available candidate at or after `i`, among the first `n`.
pub open spec fn first_avail_from(a: Seq<bool>, i: int, n: int) -> Option<int>
    decreases n - i,
{
    if i >= n {
        None
    } else if avail_at(a, i) {
        Some(i)
    } else {
        first_avail_from(a, i + 1, n)
    }
}

/// The first of the first `n` candidates that is available.
pub open spec fn spec_first_avail(a: Seq<bool>, n: int) -> Option<int> {
    first_avail_from(a, 0, n)
}

/// Resolve a candidate chain: the first of the `n` candidates whose
/// availability flag is set wins; a missing flag counts as unavailable.
pub fn first_available(avail: &Vec<bool>, n: usize) -> (r: Option<usize>)
    ensures
        match r {
            Some(i) => i < n && spec_first_avail(avail@, n as int) == Some(i as int),
            None => spec_first_avail(avail@, n as int) is None,
        },
{
    let mut i: usize = 0;
    while i < n
        invariant
            0 <= i <= n,
            spec_first_avail(avail@, n as int) == first_avail_from(avail@, i as int, n as int),
        decreases n - i,
    {
        if i < avail.len() && avail[i] {
            return Some(i);
        }
        i += 1;
    }
    None
}

/// The hex viewers a binary preview tries, most preferred first.
pub open spec fn hex_chain() -> Seq<Seq<char>> {
    seq!["xxd"@, "hexdump"@]
}

/// The listing tools a directory view tries, most preferred first.
pub open spec fn ls_chain() -> Seq<Seq<char>> {
    seq!["eza"@, "lsd"@, "exa"@, "lla"@, "ls"@]
}

/// The candidate names of a chain, most preferred first.
pub open spec fn chain_names(c: ProgramChain) -> Seq<Seq<char>> {
    match c {
        ProgramChain::NoPrograms => Seq::<Seq<char>>::empty(),
        ProgramChain::HexPrograms => hex_chain(),
        ProgramChain::ListPrograms => ls_chain(),
    }
}

/// The candidate program names a view wants probed, in preference
/// order.
pub fn chain_candidates(c: &ProgramChain) -> (r: Vec<String>)
    ensures
        r.deep_view() == chain_names(*c),
{
    let mut v: Vec<String> = Vec::new();
    match c {
        ProgramChain::NoPrograms => {},
        ProgramChain::HexPrograms => {
            v.push(String::from_str("xxd"));
            v.push(String::from_str("hexdump"));
        },
        ProgramChain::ListPrograms => {
            v.push(String::from_str("eza"));
            v.push(String::from_str("lsd"));
            v.push(String::from_str("exa"));
            v.push(String::from_str("lla"));
            v.push(String::from_str("ls"));
        },
    }
    proof {
        assert(v.deep_view() =~~= chain_names(*c));
    }
    v
}

/// What resolving a chain promises: a candidate is picked exactly when
/// one is available, the pick is available, and everything preferred
/// over the pick is unavailable.
pub proof fn lemma_fallback_chain(a: Seq<bool>, n: int)
    requires
        n >= 0,
    ensures
        (spec_first_avail(a, n) is Some) <==> exists|i: int| 0 <= i < n && avail_at(a, i),
        spec_first_avail(a, n) matches Some(i) ==> avail_at(a, i) && forall|j: int|
            0 <= j < i ==> !avail_at(a, j),
{
    lemma_first_avail_from(a, 0, n);
}

proof fn lemma_first_avail_from(a: Seq<bool>, s: int, n: int)
    requires
        0 <= s <= n,
    ensures
        (first_avail_from(a, s, n) is Some) <==> exists|i: int| s <= i < n && avail_at(a, i),
        first_avail_from(a, s, n) matches Some(i) ==> s <= i < n && avail_at(a, i) && forall|
            j: int,
        |
            s <= j < i ==> !avail_at(a, j),
    decreases n - s,
{
    if s >= n {
    } else if avail_at(a, s) {
    } else {
        lemma_first_avail_from(a, s + 1, n);
        if first_avail_from(a, s, n) is Some {
        } else {
            assert forall|i: int| s <= i < n implies !avail_at(a, i) by {
                if i > s {
                    assert(!avail_at(a, i));
                }
            }
        }
    }
}

} // verus!
