use halogen::error::ProcessorErrorKind;
use halogen::paths::extension_of;
use halogen::processor::identify;
use halogen::processor::marker;
use halogen::processor::Processor;
use halogen::processor::ProcessorFactory;
use halogen::processor::ProcessorKind;
use halogen::startup::plan_startup;

fn make_with_contents(path: &str, contents: &str) -> Processor {
    ProcessorFactory::new().make(path, Some(String::from(contents))).unwrap()
}

#[test]
fn unhandled_extension_returns_none_processor() {
    let processor = make_with_contents("/tmp/src-1.txt", "");
    assert_eq!(processor.kind(), ProcessorKind::Unrecognized);
}

#[test]
fn css_extension_returns_css_processor() {
    let processor = make_with_contents("/tmp/src-2.css", "");
    assert_eq!(processor.kind(), ProcessorKind::Css);
}

#[test]
fn md_extension_returns_md_processor() {
    let processor = make_with_contents("/tmp/src-3.md", "");
    assert_eq!(processor.kind(), ProcessorKind::Md);
}

#[test]
fn org_extension_returns_org_processor() {
    let processor = make_with_contents("/tmp/src-4.org", "");
    assert_eq!(processor.kind(), ProcessorKind::Org);
}

#[test]
fn identify_maps_each_registered_extension() {
    assert_eq!(identify("css"), ProcessorKind::Css);
    assert_eq!(identify("md"), ProcessorKind::Md);
    assert_eq!(identify("org"), ProcessorKind::Org);
}

#[test]
fn identify_is_stable_across_repeated_calls() {
    for ext in ["css", "md", "org", "txt", ""] {
        assert_eq!(identify(ext), identify(ext));
    }
}

#[test]
fn identify_falls_back_for_unregistered_extensions() {
    assert_eq!(identify("txt"), ProcessorKind::Unrecognized);
    assert_eq!(identify(""), ProcessorKind::Unrecognized);
    assert_eq!(identify("html"), ProcessorKind::Unrecognized);
    assert_eq!(identify("cssx"), ProcessorKind::Unrecognized);
    assert_eq!(identify("orgs"), ProcessorKind::Unrecognized);
}

#[test]
fn identify_is_case_sensitive() {
    assert_eq!(identify("CSS"), ProcessorKind::Unrecognized);
    assert_eq!(identify("Md"), ProcessorKind::Unrecognized);
    assert_eq!(identify("ORG"), ProcessorKind::Unrecognized);
}

#[test]
fn extension_of_takes_the_part_after_the_last_dot() {
    assert_eq!(extension_of("style.css"), "css");
    assert_eq!(extension_of("a/b/notes.org"), "org");
    assert_eq!(extension_of("archive.tar.gz"), "gz");
}

#[test]
fn extension_of_is_empty_without_a_usable_dot() {
    assert_eq!(extension_of("noext"), "");
    assert_eq!(extension_of(""), "");
    assert_eq!(extension_of(".hidden"), "");
    assert_eq!(extension_of("a/b/.hidden"), "");
    assert_eq!(extension_of("dir.d/file"), "");
    assert_eq!(extension_of("trailing."), "");
}

#[test]
fn extension_of_looks_only_at_the_final_component() {
    assert_eq!(extension_of("dir.d/file.md"), "md");
    assert_eq!(extension_of("a.b/c.d/e"), "");
    assert_eq!(extension_of("/tmp/src-5.org"), "org");
}

#[test]
fn stylesheet_conversion_preserves_the_source() {
    let processor = make_with_contents("style.css", "body{}");
    assert_eq!(processor.kind(), ProcessorKind::Css);
    let out = processor.render();
    assert!(out.ends_with("body{}"));
    assert_eq!(out, "/* CSS generated by Halogen */\nbody{}");
}

#[test]
fn org_conversion_prefixes_the_org_marker() {
    let processor = make_with_contents("notes.org", "* heading");
    let out = processor.render();
    assert_eq!(out, "<!-- Org HTML generated by Halogen -->\n* heading");
}

#[test]
fn unrecognized_conversion_is_a_lossless_copy() {
    let processor = make_with_contents("readme.txt", "hello");
    let out = processor.render();
    assert_eq!(out, "hello");
}

#[test]
fn every_recognized_marker_precedes_the_untouched_contents() {
    let kinds = [ProcessorKind::Css, ProcessorKind::Md, ProcessorKind::Org];
    for kind in kinds {
        let processor = Processor::new(kind, String::from("payload"));
        let out = processor.render();
        let m = marker(kind);
        assert!(!m.is_empty());
        assert!(out.starts_with(m));
        assert_eq!(&out[m.len()..], "payload");
    }
}

#[test]
fn markdown_conversion_prefixes_the_markdown_marker() {
    let processor = make_with_contents("post.md", "# title");
    let out = processor.render();
    assert_eq!(out, "<!-- Markdown HTML generated by Halogen -->\n# title");
}

#[test]
fn unopenable_source_yields_source_open_error() {
    let factory = ProcessorFactory::new();
    let result = factory.make("/nonexistent/file.md", None);
    match result {
        Ok(_) => panic!("an unopenable source must not yield a converter"),
        Err(e) => {
            assert_eq!(e.kind(), ProcessorErrorKind::SourceOpenError);
            assert_eq!(e.path(), "/nonexistent/file.md");
        }
    }
}

#[test]
fn converter_reports_the_kind_the_factory_determined() {
    for path in ["x.css", "x.md", "x.org", "x.txt", "x"] {
        let processor = make_with_contents(path, "");
        assert_eq!(processor.kind(), identify(&extension_of(path)));
    }
}

#[test]
fn converter_owns_the_contents_it_was_given() {
    let processor = make_with_contents("notes.org", "* heading");
    assert_eq!(processor.contents(), "* heading");
}

#[test]
fn missing_source_root_is_fatal_before_the_destination() {
    for dest_present in [false, true] {
        let err = plan_startup("content", false, dest_present).unwrap_err();
        assert_eq!(err.kind(), ProcessorErrorKind::StartupDirectoryError);
        assert_eq!(err.path(), "content");
    }
}

#[test]
fn absent_destination_root_is_created_first() {
    assert_eq!(plan_startup("content", true, false).unwrap(), true);
    assert_eq!(plan_startup("content", true, true).unwrap(), false);
}

#[test]
fn error_messages_name_the_failure_and_the_path() {
    let open = halogen::error::ProcessorError::source_open("a/b.md");
    assert_eq!(open.message(), "cannot open source file: a/b.md");
    let io = halogen::error::ProcessorError::conversion_io("out/b.md");
    assert_eq!(io.kind(), ProcessorErrorKind::ConversionIOError);
    assert_eq!(io.message(), "conversion failed on: out/b.md");
    let dir = halogen::error::ProcessorError::startup_directory("content");
    assert_eq!(dir.message(), "startup directory is unusable: content");
}
