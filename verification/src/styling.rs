//! Styled text and its resolution to concrete terminal styling.
pub mod strip;
pub mod style;
pub mod stylesheet;
pub mod text;

use vstd::prelude::*;

use crate::interface::ViewOptions;

verus! {

/// Record the resolved color decision on the options handed to every
/// render call; nothing else about them changes.
pub fn set_color_enabled(options: &mut ViewOptions, enabled: bool)
    ensures
        final(options).color_enabled == enabled,
        final(options).long_display == old(options).long_display,
        final(options).head_lines == old(options).head_lines,
        final(options).color_choice == old(options).color_choice,
{
    options.color_enabled = enabled;
}

/// Whether color display is enabled for this run.
pub fn color_enabled(options: &ViewOptions) -> (r: bool)
    ensures
        r == options.color_enabled,
{
    options.color_enabled
}

/// Style role for the name of a metadata field.
pub fn field_name_role() -> (r: &'static str)
    ensures
        r@ == "field-name"@,
{
    "field-name"
}

/// Style role for the marker in front of extra detail lines.
pub fn extra_marker_role() -> (r: &'static str)
    ensures
        r@ == "extra-marker"@,
{
    "extra-marker"
}

/// Style role for file sizes and other magnitudes.
pub fn file_size_role() -> (r: &'static str)
    ensures
        r@ == "file-size"@,
{
    "file-size"
}

/// Style role for file types.
pub fn file_type_role() -> (r: &'static str)
    ensures
        r@ == "file-type"@,
{
    "file-type"
}

} // verus!
