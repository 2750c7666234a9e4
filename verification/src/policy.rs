//! The shared size threshold and the cross-cutting mode policies every
//! backend follows: when metadata views may scan a whole file, and when
//! a full view hands off to a pager.
use vstd::prelude::*;

use crate::interface::ViewSpeed;

verus! {

/// Files above this many bytes are considered big: metadata views stop
/// scanning them at default speed, and full views page them instead of
/// printing. One constant serves both decisions on purpose.
pub const BIG_FILE: u64 = 32 * 1024 * 1024;

/// How many lines a head view shows when nothing else is asked for.
pub const DEFAULT_HEAD_LINES: u64 = 10;

/// How many bytes of a binary file a bounded preview shows.
pub const HEX_PREVIEW_BYTES: u32 = 256;

/// Whether a metadata view may scan the whole file (to count lines and
/// the like): always at slow speed, never at fast speed, and at default
/// speed only when the file is not big. An unknown size does not hold
/// the default speed back.
pub open spec fn spec_want_scan(speed: ViewSpeed, size: Option<u64>) -> bool {
    match speed {
        ViewSpeed::Slow => true,
        ViewSpeed::Fast => false,
        ViewSpeed::Default => match size {
            Some(n) => n <= BIG_FILE,
            None => true,
        },
    }
}

/// Decide whether scanning work is allowed for this request.
pub fn want_scan(speed: &ViewSpeed, size: &Option<u64>) -> (r: bool)
    ensures
        r == spec_want_scan(*speed, *size),
{
    match speed {
        ViewSpeed::Slow => true,
        ViewSpeed::Fast => false,
        ViewSpeed::Default => match size {
            Some(n) => *n <= BIG_FILE,
            None => true,
        },
    }
}

/// Whether a full view must hand off to a pager: exactly when the file
/// is bigger than the shared threshold.
pub open spec fn spec_should_page(size: Option<u64>) -> bool {
    match size {
        Some(n) => n > BIG_FILE,
        None => false,
    }
}

/// Decide whether a full view pages this request.
pub fn should_page(size: &Option<u64>) -> (r: bool)
    ensures
        r == spec_should_page(*size),
{
    match size {
        Some(n) => *n > BIG_FILE,
        None => false,
    }
}

/// The speed policy for heavy metadata scans: never at fast speed,
/// always at slow speed, and at default speed exactly for files up to
/// the shared size threshold.
pub proof fn lemma_scan_policy(size: Option<u64>)
    ensures
        !spec_want_scan(ViewSpeed::Fast, size),
        spec_want_scan(ViewSpeed::Slow, size),
        size matches Some(n) ==> spec_want_scan(ViewSpeed::Default, size) == (n <= BIG_FILE),
{
}

/// Paging and scanning turn on the very same threshold: at default
/// speed, the files a metadata view refuses to scan are exactly the
/// files a full view pages.
pub proof fn lemma_shared_threshold(n: u64)
    ensures
        spec_should_page(Some(n)) == !spec_want_scan(ViewSpeed::Default, Some(n)),
{
}

} // verus!
