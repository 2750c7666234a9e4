//! View plans: metadata text, fallback chains, bounds and errors.
use autoview::backends::binfile::{FileMeta, FileSummary, HexView};
use autoview::backends::directory::{DirHead, DirListing, DirMeta};
use autoview::backends::image::ImageMeta;
use autoview::backends::text::{head_of, TextMeta};
use autoview::interface::{
    ColorMode, FileRequest, FileView, ImageFailure, ProgramChain, RenderAction, RenderInputs,
    ViewError, ViewOptions, ViewSpeed,
};
use autoview::mime::mime_report;
use autoview::numfmt::u64_to_string;
use autoview::policy::{want_scan, BIG_FILE};
use autoview::programs::{chain_candidates, first_available, program_name, ProgramError};
use autoview::styling::stylesheet::StyleSheet;
use autoview::views::meta::{FileMetaDisplay, FileMetaField};
use autoview::styling::text::{styled, unstyled};

fn req(path: &str, size: Option<u64>, mime: &str, speed: ViewSpeed) -> FileRequest {
    FileRequest {
        path: path.to_string(),
        size,
        mime_type: mime.to_string(),
        speed,
    }
}

fn options() -> ViewOptions {
    ViewOptions {
        long_display: false,
        head_lines: 10,
        color_choice: ColorMode::Auto,
        color_enabled: false,
    }
}

fn no_inputs() -> RenderInputs {
    RenderInputs::none()
}

fn printed(plan: &[RenderAction]) -> String {
    let mut out = String::new();
    for act in plan {
        if let RenderAction::Print(s) = act {
            out.push_str(s);
        }
    }
    out
}

#[test]
fn binfile_meta_text_is_exact() {
    let r = req("blob", Some(13200), "application/octet-stream", ViewSpeed::Default);
    let mut inputs = no_inputs();
    inputs.description = Some("binary data".to_string());
    let plan = FileMeta {}
        .display(&r, &options(), &StyleSheet::empty(), &inputs)
        .expect("meta always plans");
    assert_eq!(
        printed(&plan),
        "file of type application/octet-stream (12.89 KiB)\n\
         Type description: binary data\n\
         Size: 12.89 KiB\n"
    );
}

#[test]
fn binfile_meta_matches_friendly_rendering() {
    let r = req("blob", Some(2048), "application/octet-stream", ViewSpeed::Default);
    let plan = FileMeta {}
        .display(&r, &options(), &StyleSheet::empty(), &no_inputs())
        .expect("meta always plans");
    let size_text = format!("{}", friendly::bytes(2048u64));
    let expected = format!(
        "file of type application/octet-stream ({})\nSize: {}\n",
        size_text, size_text
    );
    assert_eq!(printed(&plan), expected);
}

#[test]
fn text_meta_shows_line_count_when_counted() {
    let r = req("a.txt", Some(10), "text/plain", ViewSpeed::Default);
    let mut inputs = no_inputs();
    inputs.line_count = Some(42);
    inputs.description = Some("Plain text document".to_string());
    let plan = TextMeta {}
        .display(&r, &options(), &StyleSheet::empty(), &inputs)
        .expect("meta always plans");
    let count_text = format!("{}", friendly::integer(42u64));
    let size_text = format!("{}", friendly::bytes(10u64));
    let expected = format!(
        "text file of type text/plain with {} lines\n\
         Type Description: Plain text document\nSize: {}\n",
        count_text, size_text
    );
    assert_eq!(printed(&plan), expected);
}

#[test]
fn text_meta_falls_back_to_size_without_line_count() {
    let r = req("a.txt", Some(10), "text/plain", ViewSpeed::Fast);
    let plan = TextMeta {}
        .display(&r, &options(), &StyleSheet::empty(), &no_inputs())
        .expect("meta always plans");
    let size_text = format!("{}", friendly::bytes(10u64));
    assert_eq!(
        printed(&plan),
        format!("text file of type text/plain ({})\nSize: {}\n", size_text, size_text)
    );
}

#[test]
fn text_meta_requests_follow_speed_budget() {
    let opts = options();
    let fast = req("a", Some(10), "text/plain", ViewSpeed::Fast);
    assert!(!TextMeta {}.io_requests(&fast, &opts).count_lines);
    let slow = req("a", Some(BIG_FILE + 100), "text/plain", ViewSpeed::Slow);
    assert!(TextMeta {}.io_requests(&slow, &opts).count_lines);
    let at = req("a", Some(BIG_FILE), "text/plain", ViewSpeed::Default);
    assert!(TextMeta {}.io_requests(&at, &opts).count_lines);
    let above = req("a", Some(BIG_FILE + 1), "text/plain", ViewSpeed::Default);
    assert!(!TextMeta {}.io_requests(&above, &opts).count_lines);
}

#[test]
fn scan_policy_boundary() {
    assert!(want_scan(&ViewSpeed::Default, &Some(BIG_FILE - 1)));
    assert!(want_scan(&ViewSpeed::Default, &Some(BIG_FILE)));
    assert!(!want_scan(&ViewSpeed::Default, &Some(BIG_FILE + 1)));
    assert!(!want_scan(&ViewSpeed::Fast, &Some(1)));
    assert!(want_scan(&ViewSpeed::Slow, &Some(u64::MAX)));
}

#[test]
fn hex_preview_uses_preferred_viewer() {
    let r = req("blob", Some(4), "application/octet-stream", ViewSpeed::Default);
    let mut inputs = no_inputs();
    inputs.available = vec![true, true];
    let plan = HexView { nbytes: Some(256) }
        .display(&r, &options(), &StyleSheet::empty(), &inputs)
        .expect("a viewer is available");
    assert_eq!(plan.len(), 1);
    match &plan[0] {
        RenderAction::RunProgram { program, args } => {
            assert_eq!(program, "xxd");
            assert_eq!(args, &vec!["-l".to_string(), "256".to_string(), "blob".to_string()]);
        }
        other => panic!("expected the hex viewer to run, got {:?}", other),
    }
}

#[test]
fn hex_preview_falls_back_to_next_viewer() {
    let r = req("blob", None, "application/octet-stream", ViewSpeed::Default);
    let mut inputs = no_inputs();
    inputs.available = vec![false, true];
    let plan = HexView { nbytes: None }
        .display(&r, &options(), &StyleSheet::empty(), &inputs)
        .expect("the fallback viewer is available");
    match &plan[0] {
        RenderAction::RunProgram { program, args } => {
            assert_eq!(program, "hexdump");
            assert_eq!(args, &vec!["blob".to_string()]);
        }
        other => panic!("expected the fallback viewer, got {:?}", other),
    }
}

#[test]
fn hex_preview_without_any_viewer_fails_loudly() {
    let r = req("blob", None, "application/octet-stream", ViewSpeed::Default);
    let mut inputs = no_inputs();
    inputs.available = vec![false, false];
    let out = HexView { nbytes: None }.display(&r, &options(), &StyleSheet::empty(), &inputs);
    match out {
        Err(ViewError::Unspecified(msg)) => assert_eq!(msg, "no hex viewer"),
        other => panic!("expected a loud failure, got {:?}", other),
    }
}

#[test]
fn summary_is_meta_then_banner_then_preview() {
    let r = req("blob", Some(4), "application/octet-stream", ViewSpeed::Default);
    let mut inputs = no_inputs();
    inputs.available = vec![true, true];
    let view = FileSummary { meta: FileMeta {}, preview: HexView { nbytes: Some(256) } };
    let plan = view
        .display(&r, &options(), &StyleSheet::empty(), &inputs)
        .expect("summary plans");
    assert_eq!(plan.len(), 3);
    assert!(matches!(&plan[0], RenderAction::Print(_)));
    match &plan[1] {
        RenderAction::Print(s) => assert_eq!(s, "Initial content:\n"),
        other => panic!("expected the banner, got {:?}", other),
    }
    assert!(matches!(&plan[2], RenderAction::RunProgram { .. }));
}

#[test]
fn summary_propagates_preview_failure() {
    let r = req("blob", Some(4), "application/octet-stream", ViewSpeed::Default);
    let mut inputs = no_inputs();
    inputs.available = vec![false, false];
    let view = FileSummary { meta: FileMeta {}, preview: HexView { nbytes: Some(256) } };
    let out = view.display(&r, &options(), &StyleSheet::empty(), &inputs);
    assert!(matches!(out, Err(ViewError::Unspecified(_))));
}

#[test]
fn dir_meta_without_entry_count_is_io_error() {
    let r = req("somedir", None, "inode/directory", ViewSpeed::Default);
    let out = DirMeta {}.display(&r, &options(), &StyleSheet::empty(), &no_inputs());
    match out {
        Err(ViewError::IO(msg)) => assert_eq!(msg, "cannot read directory"),
        other => panic!("expected an input error, got {:?}", other),
    }
}

#[test]
fn dir_meta_read_failure_keeps_its_cause() {
    let r = req("somedir", None, "inode/directory", ViewSpeed::Default);
    let mut inputs = no_inputs();
    inputs.dir_entries = Some(Err("permission denied".to_string()));
    let out = DirMeta {}.display(&r, &options(), &StyleSheet::empty(), &inputs);
    match out {
        Err(ViewError::IO(msg)) => assert_eq!(msg, "permission denied"),
        other => panic!("expected the read failure, got {:?}", other),
    }
}

#[test]
fn dir_head_shows_at_most_the_bound() {
    let r = req("somedir", None, "inode/directory", ViewSpeed::Default);
    let names: Vec<String> = (0..30).map(|i| format!("entry{}", i)).collect();
    let mut inputs = no_inputs();
    inputs.dir_names = Some(Ok(names));
    let mut opts = options();
    opts.head_lines = 3;
    let plan = DirHead {}
        .display(&r, &opts, &StyleSheet::empty(), &inputs)
        .expect("head plans");
    assert_eq!(plan.len(), 1);
    match &plan[0] {
        RenderAction::Print(text) => {
            assert_eq!(text, "entry0\nentry1\nentry2\n");
            assert_eq!(text.lines().count(), 3);
        }
        other => panic!("expected a bounded print, got {:?}", other),
    }
}

#[test]
fn dir_head_shows_everything_below_the_bound() {
    let r = req("somedir", None, "inode/directory", ViewSpeed::Default);
    let mut inputs = no_inputs();
    inputs.dir_names = Some(Ok(vec!["a".to_string(), "b".to_string()]));
    let plan = DirHead {}
        .display(&r, &options(), &StyleSheet::empty(), &inputs)
        .expect("head plans");
    match &plan[0] {
        RenderAction::Print(text) => assert_eq!(text, "a\nb\n"),
        other => panic!("expected the full short listing, got {:?}", other),
    }
}

#[test]
fn dir_head_read_failure_keeps_its_cause() {
    let r = req("somedir", None, "inode/directory", ViewSpeed::Default);
    let mut inputs = no_inputs();
    inputs.dir_names = Some(Err("not a directory".to_string()));
    let out = DirHead {}.display(&r, &options(), &StyleSheet::empty(), &inputs);
    match out {
        Err(ViewError::IO(msg)) => assert_eq!(msg, "not a directory"),
        other => panic!("expected the read failure, got {:?}", other),
    }
}

#[test]
fn dir_listing_uses_first_available_tool() {
    let r = req("somedir", None, "inode/directory", ViewSpeed::Default);
    let mut inputs = no_inputs();
    inputs.available = vec![true, false, false, false, true];
    let mut opts = options();
    opts.long_display = true;
    let plan = DirListing {}
        .display(&r, &opts, &StyleSheet::empty(), &inputs)
        .expect("listing always plans");
    match &plan[0] {
        RenderAction::RunProgram { program, args } => {
            assert_eq!(program, "eza");
            assert_eq!(
                args,
                &vec!["-l".to_string(), "--color=always".to_string(), "somedir".to_string()]
            );
        }
        other => panic!("expected the preferred tool, got {:?}", other),
    }
}

#[test]
fn dir_listing_skips_unavailable_tools() {
    let r = req("somedir", None, "inode/directory", ViewSpeed::Default);
    let mut inputs = no_inputs();
    inputs.available = vec![false, false, true, false, true];
    let plan = DirListing {}
        .display(&r, &options(), &StyleSheet::empty(), &inputs)
        .expect("listing always plans");
    match &plan[0] {
        RenderAction::RunProgram { program, args } => {
            assert_eq!(program, "exa");
            assert_eq!(args, &vec!["somedir".to_string()]);
        }
        other => panic!("expected the third candidate, got {:?}", other),
    }
}

#[test]
fn dir_listing_falls_back_to_internal_lister() {
    let r = req("somedir", None, "inode/directory", ViewSpeed::Default);
    let mut inputs = no_inputs();
    inputs.available = vec![false, false, false, false, false];
    let plan = DirListing {}
        .display(&r, &options(), &StyleSheet::empty(), &inputs)
        .expect("listing never fails");
    match &plan[0] {
        RenderAction::RunInternalLs { args } => {
            assert_eq!(
                args,
                &vec!["ls-internal".to_string(), "-F".to_string(), "somedir".to_string()]
            );
        }
        other => panic!("expected the built-in lister, got {:?}", other),
    }
}

#[test]
fn image_meta_reports_dimensions() {
    let r = req("photo.png", Some(100), "image/png", ViewSpeed::Default);
    let mut inputs = no_inputs();
    inputs.image_dims = Some(Ok((640, 480)));
    inputs.image_color = Some("Rgb8".to_string());
    let plan = ImageMeta {}
        .display(&r, &options(), &StyleSheet::empty(), &inputs)
        .expect("dimensions were read");
    match &plan[0] {
        RenderAction::Print(s) => assert_eq!(s, "Unknown image with 640x480 pixels (Rgb8)\n"),
        other => panic!("expected printed metadata, got {:?}", other),
    }
}

#[test]
fn image_meta_without_dimensions_is_wrapped_error() {
    let r = req("photo.png", Some(100), "image/png", ViewSpeed::Default);
    let out = ImageMeta {}.display(&r, &options(), &StyleSheet::empty(), &no_inputs());
    match out {
        Err(ViewError::Wrapped(msg)) => assert_eq!(msg, "unable to read image"),
        other => panic!("expected a wrapped failure, got {:?}", other),
    }
}

#[test]
fn image_meta_open_failure_keeps_its_cause() {
    let r = req("photo.png", Some(100), "image/png", ViewSpeed::Default);
    let mut inputs = no_inputs();
    inputs.image_dims = Some(Err(ImageFailure::Open("permission denied".to_string())));
    let out = ImageMeta {}.display(&r, &options(), &StyleSheet::empty(), &inputs);
    match out {
        Err(ViewError::IO(msg)) => assert_eq!(msg, "permission denied"),
        other => panic!("expected the open failure, got {:?}", other),
    }
}

#[test]
fn image_meta_decode_failure_keeps_its_cause() {
    let r = req("photo.png", Some(100), "image/png", ViewSpeed::Default);
    let mut inputs = no_inputs();
    inputs.image_dims = Some(Err(ImageFailure::Decode("bad magic".to_string())));
    let out = ImageMeta {}.display(&r, &options(), &StyleSheet::empty(), &inputs);
    match out {
        Err(ViewError::Wrapped(msg)) => assert_eq!(msg, "bad magic"),
        other => panic!("expected the decode failure, got {:?}", other),
    }
}

#[test]
fn head_of_never_exceeds_bound() {
    let lines: Vec<String> = (0..100).map(|i| format!("line {}", i)).collect();
    let head = head_of(&lines, 15);
    assert_eq!(head.len(), 15);
    assert_eq!(head[0], "line 0");
    assert_eq!(head[14], "line 14");
    let all = head_of(&lines, 1000);
    assert_eq!(all, lines);
}

#[test]
fn meta_display_renders_fields_and_extras() {
    let display = FileMetaDisplay {
        headline: vec![unstyled("something")],
        fields: vec![FileMetaField {
            name: "Notes".to_string(),
            value: vec![styled("fine", "file-size")],
            extra: vec![vec![unstyled("more")], vec![unstyled("even more")]],
        }],
    };
    let out = display.render(&StyleSheet::empty());
    assert_eq!(out, "something\nNotes: fine\n *  more\n *  even more\n");
}

#[test]
fn decimal_rendering_is_exact() {
    assert_eq!(u64_to_string(0), "0");
    assert_eq!(u64_to_string(7), "7");
    assert_eq!(u64_to_string(256), "256");
    assert_eq!(u64_to_string(u64::MAX), "18446744073709551615");
}

#[test]
fn program_name_takes_final_component() {
    assert_eq!(program_name("/usr/bin/xxd"), "xxd");
    assert_eq!(program_name("xxd"), "xxd");
    assert_eq!(program_name("/usr/bin/"), "<unknown>");
    assert_eq!(program_name(""), "<unknown>");
    assert_eq!(program_name("/usr/bin/."), "<unknown>");
    assert_eq!(program_name(".."), "<unknown>");
}

#[test]
fn mime_report_is_exact() {
    let best = Some("text/x-readme".to_string());
    let desc = Some("README document".to_string());
    let sups = vec!["text/plain".to_string(), "application/octet-stream".to_string()];
    let report = mime_report("README", &best, &desc, &sups, true);
    assert_eq!(
        report,
        "README: text/x-readme\n\
         description: README document\n\
         supertypes:\n\
         - text/plain\n\
         - application/octet-stream\n\
         README: is text file\n"
    );
    let uncertain = mime_report("mystery", &None, &None, &Vec::new(), false);
    assert_eq!(uncertain, "mystery: type is uncertain\n");
}

#[test]
fn view_errors_convert_from_messages() {
    let from_str: ViewError = "broken".into();
    assert!(matches!(from_str, ViewError::Unspecified(m) if m == "broken"));
    let wrapped = ViewError::wrap("inner".to_string());
    assert!(matches!(wrapped, ViewError::Wrapped(m) if m == "inner"));
}

#[test]
fn exit_codes_are_judged_by_zero() {
    assert!(ProgramError::check(0).is_ok());
    match ProgramError::check(2) {
        Err(ProgramError::ExitError(code)) => assert_eq!(code, 2),
        other => panic!("expected an exit error, got {:?}", other),
    }
    let wrapped: ViewError = ProgramError::ProgramSearchError.into();
    assert!(matches!(wrapped, ViewError::External(ProgramError::ProgramSearchError)));
    let from_msg: ViewError = "went wrong".to_string().into();
    assert!(matches!(from_msg, ViewError::Unspecified(_)));
}

#[test]
fn chains_list_candidates_in_preference_order() {
    assert_eq!(chain_candidates(&ProgramChain::NoPrograms), Vec::<String>::new());
    assert_eq!(chain_candidates(&ProgramChain::HexPrograms), vec!["xxd", "hexdump"]);
    assert_eq!(
        chain_candidates(&ProgramChain::ListPrograms),
        vec!["eza", "lsd", "exa", "lla", "ls"]
    );
}

#[test]
fn first_available_picks_earliest() {
    assert_eq!(first_available(&vec![false, true], 2), Some(1));
    assert_eq!(first_available(&vec![true, true], 2), Some(0));
    assert_eq!(first_available(&vec![false, false], 2), None);
    assert_eq!(first_available(&vec![true], 5), Some(0));
}
