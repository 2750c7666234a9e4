//! End-to-end resolution scenarios through the dispatcher.
use autoview::backends::{backends, Backend, ViewPlan};
use autoview::backends::binfile::BinfileBackend;
use autoview::backends::text::TextBackend;
use autoview::dispatch::{classifier_facts, dispatch, select_backend};
use autoview::interface::{
    ColorMode, FileRequest, FileView, MimeFacts, RenderAction, RenderInputs, ViewError,
    ViewOptions, ViewSpeed, ViewType,
};
use autoview::styling::stylesheet::StyleSheet;

fn req(path: &str, size: Option<u64>, mime: &str, speed: ViewSpeed) -> FileRequest {
    FileRequest {
        path: path.to_string(),
        size,
        mime_type: mime.to_string(),
        speed,
    }
}

fn options() -> ViewOptions {
    ViewOptions {
        long_display: false,
        head_lines: 10,
        color_choice: ColorMode::Auto,
        color_enabled: false,
    }
}

fn no_inputs() -> RenderInputs {
    RenderInputs::none()
}

#[test]
fn small_text_file_defaults_to_full_view() {
    let db = shared_mime::MimeDB::new();
    let r = req("note.txt", Some(10), "text/plain", ViewSpeed::Default);
    let outcome = dispatch(&db, &r, &None);
    let (index, view) = outcome.choice.expect("a backend must claim plain text");
    assert_eq!(index, 2);
    assert!(matches!(view, ViewPlan::TextFull(_)));
    let plan = view
        .display(&r, &options(), &StyleSheet::empty(), &no_inputs())
        .expect("full view plans");
    assert_eq!(plan.len(), 1);
    match &plan[0] {
        RenderAction::PrettyPrint { path, line_limit } => {
            assert_eq!(path, "note.txt");
            assert_eq!(*line_limit, None);
        }
        other => panic!("expected a direct pretty-print, got {:?}", other),
    }
}

#[test]
fn big_text_file_pages() {
    let db = shared_mime::MimeDB::new();
    let r = req("big.log", Some(50 * 1024 * 1024), "text/plain", ViewSpeed::Default);
    let outcome = dispatch(&db, &r, &None);
    let (_, view) = outcome.choice.expect("text backend claims");
    let plan = view
        .display(&r, &options(), &StyleSheet::empty(), &no_inputs())
        .expect("full view plans");
    assert_eq!(plan.len(), 1);
    match &plan[0] {
        RenderAction::PageFile { path } => assert_eq!(path, "big.log"),
        other => panic!("expected paging for a big file, got {:?}", other),
    }
}

#[test]
fn head_mode_is_bounded_and_never_pages() {
    let db = shared_mime::MimeDB::new();
    let r = req("big.log", Some(50 * 1024 * 1024), "text/plain", ViewSpeed::Default);
    let outcome = dispatch(&db, &r, &Some(ViewType::Head));
    let (_, view) = outcome.choice.expect("text backend claims");
    assert!(matches!(view, ViewPlan::TextHead(_)));
    let mut opts = options();
    opts.head_lines = 15;
    let plan = view
        .display(&r, &opts, &StyleSheet::empty(), &no_inputs())
        .expect("head view plans");
    assert_eq!(plan.len(), 1);
    match &plan[0] {
        RenderAction::PrettyPrint { path, line_limit } => {
            assert_eq!(path, "big.log");
            assert_eq!(*line_limit, Some(15));
        }
        other => panic!("expected a bounded pretty-print, got {:?}", other),
    }
}

#[test]
fn directory_meta_reports_zero_entries() {
    let db = shared_mime::MimeDB::new();
    let r = req("emptydir", None, "inode/directory", ViewSpeed::Default);
    let outcome = dispatch(&db, &r, &Some(ViewType::Meta));
    let (index, view) = outcome.choice.expect("directory backend claims");
    assert_eq!(index, 0);
    assert!(matches!(view, ViewPlan::DirMeta(_)));
    let mut inputs = no_inputs();
    inputs.dir_entries = Some(Ok(0));
    let plan = view
        .display(&r, &options(), &StyleSheet::empty(), &inputs)
        .expect("directory meta plans");
    assert_eq!(plan.len(), 1);
    match &plan[0] {
        RenderAction::Print(text) => assert_eq!(text, "directory with 0 entries\n"),
        other => panic!("expected printed metadata, got {:?}", other),
    }
}

#[test]
fn directory_head_mode_is_bounded() {
    let db = shared_mime::MimeDB::new();
    let r = req("somedir", None, "inode/directory", ViewSpeed::Default);
    let outcome = dispatch(&db, &r, &Some(ViewType::Head));
    let (index, view) = outcome.choice.expect("directory backend claims");
    assert_eq!(index, 0);
    assert!(matches!(view, ViewPlan::DirHead(_)));
    let names: Vec<String> = (0..100).map(|i| format!("entry{}", i)).collect();
    let mut inputs = no_inputs();
    inputs.dir_names = Some(Ok(names));
    let mut opts = options();
    opts.head_lines = 15;
    let plan = view
        .display(&r, &opts, &StyleSheet::empty(), &inputs)
        .expect("head plans");
    assert_eq!(plan.len(), 1);
    match &plan[0] {
        RenderAction::Print(text) => assert_eq!(text.lines().count(), 15),
        other => panic!("expected a bounded print, got {:?}", other),
    }
}

#[test]
fn directory_default_mode_is_listing() {
    let db = shared_mime::MimeDB::new();
    let r = req("somedir", None, "inode/directory", ViewSpeed::Default);
    let outcome = dispatch(&db, &r, &None);
    let (index, view) = outcome.choice.expect("directory backend claims");
    assert_eq!(index, 0);
    assert!(matches!(view, ViewPlan::DirListing(_)));
}

#[test]
fn unknown_type_falls_to_binfile_backend() {
    let db = shared_mime::MimeDB::new();
    let r = req("blob.bin", Some(4), "application/vnd.nobody-knows", ViewSpeed::Default);
    let outcome = dispatch(&db, &r, &None);
    let (index, view) = outcome.choice.expect("binfile backend must claim byte streams");
    assert_eq!(index, 3);
    assert!(matches!(view, ViewPlan::BinSummary(_)));
}

#[test]
fn image_path_with_known_extension_gets_image_meta() {
    let db = shared_mime::MimeDB::new();
    let r = req("photo.png", Some(100), "image/png", ViewSpeed::Default);
    let outcome = dispatch(&db, &r, &None);
    let (index, view) = outcome.choice.expect("image backend claims");
    assert_eq!(index, 1);
    assert!(matches!(view, ViewPlan::ImageMeta(_)));
}

#[test]
fn image_mime_with_unknown_extension_falls_through() {
    let db = shared_mime::MimeDB::new();
    let r = req("photo.nonsense-ext", Some(100), "image/x-private", ViewSpeed::Default);
    let outcome = dispatch(&db, &r, &None);
    let (index, _) = outcome.choice.expect("binfile still claims");
    assert_eq!(index, 3);
}

#[test]
fn inode_type_without_backend_is_unsupported() {
    let db = shared_mime::MimeDB::new();
    let r = req("dev", None, "inode/blockdevice", ViewSpeed::Default);
    let outcome = dispatch(&db, &r, &None);
    match outcome.choice {
        Err(ViewError::Unspecified(msg)) => assert_eq!(msg, "no capable viewer"),
        other => panic!("expected the unsupported outcome, got {:?}", other),
    }
}

#[test]
fn registry_order_decides_between_two_claimants() {
    let facts = MimeFacts {
        is_dir: false,
        is_image_mime: false,
        image_ext_ok: false,
        subtype_text: true,
        subtype_octet: true,
    };
    let r = req("both.txt", Some(1), "text/plain", ViewSpeed::Default);
    let one = vec![
        Backend::Text(TextBackend {}),
        Backend::Binfile(BinfileBackend {}),
    ];
    let (i, view) = select_backend(&one, &r, &facts, &None).expect("both claim");
    assert_eq!(i, 0);
    assert!(matches!(view, ViewPlan::TextFull(_)));
    let other = vec![
        Backend::Binfile(BinfileBackend {}),
        Backend::Text(TextBackend {}),
    ];
    let (i, view) = select_backend(&other, &r, &facts, &None).expect("both claim");
    assert_eq!(i, 0);
    assert!(matches!(view, ViewPlan::BinSummary(_)));
}

#[test]
fn classifier_facts_on_plain_names() {
    let db = shared_mime::MimeDB::new();
    let r = req("a.txt", None, "text/x-readme", ViewSpeed::Default);
    let facts = classifier_facts(&db, &r);
    assert!(!facts.is_dir);
    assert!(facts.subtype_text, "names under text/ are text for every database");
    assert!(facts.subtype_octet, "everything outside inode/ is a byte stream");
    let d = req("d", None, "inode/directory", ViewSpeed::Default);
    let dfacts = classifier_facts(&db, &d);
    assert!(dfacts.is_dir);
    assert!(!dfacts.subtype_octet);
}

#[test]
fn registry_has_fixed_significant_order() {
    let reg = backends();
    assert_eq!(reg.len(), 4);
    assert!(matches!(reg[0], Backend::Directory(_)));
    assert!(matches!(reg[1], Backend::Image(_)));
    assert!(matches!(reg[2], Backend::Text(_)));
    assert!(matches!(reg[3], Backend::Binfile(_)));
}
