//! The styled-text model and the stylesheet resolver.
use autoview::styling::style::{AnsiColorName, TermStyle};
use autoview::styling::stylesheet::StyleSheet;
use autoview::styling::text::{space, styled, unstyled, StyledText};

/// Remove ANSI escape sequences (escape up to and including `m`).
fn strip_escapes(s: &str) -> String {
    let mut out = String::new();
    let mut in_escape = false;
    for c in s.chars() {
        if in_escape {
            if c == 'm' {
                in_escape = false;
            }
        } else if c == '\u{1b}' {
            in_escape = true;
        } else {
            out.push(c);
        }
    }
    out
}

fn sample_list() -> Vec<StyledText> {
    vec![
        unstyled("type "),
        styled("text/plain", "file-type"),
        space(),
        styled("10 B", "file-size"),
        styled("!", "no-such-role"),
    ]
}

#[test]
fn empty_sheet_renders_plain_text() {
    let sheet = StyleSheet::empty();
    let out = sheet.render_list(&sample_list());
    assert_eq!(out, "type text/plain 10 B!");
    assert!(!out.contains('\u{1b}'));
}

#[test]
fn populated_sheet_styles_known_roles() {
    let sheet = StyleSheet::term_default();
    let out = sheet.render_list(&sample_list());
    assert_eq!(
        out,
        "type \u{1b}[35mtext/plain\u{1b}[0m \u{1b}[36m10 B\u{1b}[0m!"
    );
}

#[test]
fn styling_round_trip_keeps_plain_text() {
    let populated = StyleSheet::term_default().render_list(&sample_list());
    let empty = StyleSheet::empty().render_list(&sample_list());
    assert!(populated.contains('\u{1b}'));
    assert!(!empty.contains('\u{1b}'));
    assert_eq!(strip_escapes(&populated), empty);
}

#[test]
fn unknown_role_resolves_to_no_styling() {
    let sheet = StyleSheet::term_default();
    let out = sheet.render(&styled("x", "nope"));
    assert_eq!(out, "x");
}

#[test]
fn first_sheet_entry_wins() {
    let sheet = StyleSheet::create(vec![
        (
            "role".to_string(),
            TermStyle { bold: true, dimmed: false, fg: None },
        ),
        (
            "role".to_string(),
            TermStyle { bold: false, dimmed: false, fg: Some(AnsiColorName::Red) },
        ),
    ]);
    let out = sheet.render(&styled("x", "role"));
    assert_eq!(out, "\u{1b}[1mx\u{1b}[0m");
}

#[test]
fn combined_style_attributes_render_in_order() {
    let sheet = StyleSheet::create(vec![(
        "loud".to_string(),
        TermStyle { bold: true, dimmed: true, fg: Some(AnsiColorName::Cyan) },
    )]);
    let out = sheet.render(&styled("x", "loud"));
    assert_eq!(out, "\u{1b}[1;2;36mx\u{1b}[0m");
}

#[test]
fn literal_styled_bypasses_the_sheet() {
    let frag = autoview::styling::text::literal_styled(
        "x",
        &TermStyle { bold: true, dimmed: false, fg: None },
    );
    let out = StyleSheet::empty().render(&frag);
    assert_eq!(out, "\u{1b}[1mx\u{1b}[0m");
}

#[test]
fn field_roles_have_expected_default_styles() {
    let sheet = StyleSheet::term_default();
    assert_eq!(sheet.render(&styled("n", "field-name")), "\u{1b}[1mn\u{1b}[0m");
    assert_eq!(sheet.render(&styled("e", "extra-marker")), "\u{1b}[2me\u{1b}[0m");
}
