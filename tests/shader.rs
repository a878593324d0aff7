use frag::shader::{
    Assembly, BuildError, ShaderStreamer, INTERNAL_NAME, RENDER_FRAG_HEADER, RENDER_FRAG_STD_BODY,
};

const BODY_A: &str = "float a()\n{\n    return 1.0;\n}\n";
const BODY_B: &str = "void main()\n{\n    color = vec4(a());\n}\n";

fn lines(s: &str) -> usize {
    s.chars().filter(|c| *c == '\n').count()
}

fn ok(texts: &[&str]) -> Vec<Result<String, String>> {
    texts.iter().map(|t| Ok(t.to_string())).collect()
}

fn two_files() -> ShaderStreamer {
    ShaderStreamer::new().with_file("a").with_file("b")
}

fn build(s: &mut ShaderStreamer, all: bool, snapshot: u32, texts: &[&str]) -> Assembly {
    match s.build(all, snapshot, &ok(texts)) {
        Ok(a) => a,
        Err(e) => panic!("build failed: {}", e.message()),
    }
}

#[test]
fn new_holds_the_header_alone() {
    let mut s = ShaderStreamer::new();
    assert_eq!(s.stream_count(), 0);
    assert!(!s.is_dirty());
    let a = build(&mut s, true, 0, &[]);
    assert_eq!(a.source, RENDER_FRAG_HEADER);
    assert_eq!(a.sections, vec![(lines(RENDER_FRAG_HEADER), INTERNAL_NAME.to_string())]);
}

#[test]
fn test_streamer_draws_the_standard_body() {
    let mut s = ShaderStreamer::test();
    let a = build(&mut s, false, 0, &[]);
    assert_eq!(a.source, format!("{}{}", RENDER_FRAG_HEADER, RENDER_FRAG_STD_BODY));
    assert_eq!(a.sections.len(), 2);
}

#[test]
fn default_equals_new() {
    let mut s = ShaderStreamer::default();
    let a = build(&mut s, true, 0, &[]);
    assert_eq!(a.source, RENDER_FRAG_HEADER);
}

#[test]
fn segments_are_concatenated_in_order() {
    let mut s = ShaderStreamer::new().with_str("// one\n").with_file("a").with_str("// two\n").with_file("b");
    assert_eq!(s.files_to_read(true, 0), vec!["a".to_string(), "b".to_string()]);
    let a = build(&mut s, true, 0, &[BODY_A, BODY_B]);
    assert_eq!(a.source, format!("{}// one\n{}// two\n{}", RENDER_FRAG_HEADER, BODY_A, BODY_B));
    let names: Vec<&str> = a.sections.iter().map(|(_, n)| n.as_str()).collect();
    assert_eq!(names, vec![INTERNAL_NAME, INTERNAL_NAME, "a", INTERNAL_NAME, "b"]);
    let counts: Vec<usize> = a.sections.iter().map(|(c, _)| *c).collect();
    assert_eq!(counts, vec![lines(RENDER_FRAG_HEADER), 1, 4, 1, 4]);
}

#[test]
fn full_build_reads_every_file_whatever_the_bits() {
    let mut s = two_files();
    s.mark_changed(1);
    let snap = s.snapshot();
    assert_eq!(snap, 2);
    assert_eq!(s.files_to_read(true, snap), vec!["a".to_string(), "b".to_string()]);
    let a = build(&mut s, true, snap, &[BODY_A, BODY_B]);
    assert_eq!(a.source, format!("{}{}{}", RENDER_FRAG_HEADER, BODY_A, BODY_B));
    // a full build leaves the marks as they were
    assert_eq!(s.snapshot(), 2);
}

#[test]
fn map_line_total_equals_source_line_total() {
    let mut s = ShaderStreamer::new().with_file("a").with_str("x\ny\n").with_file("b");
    let a = build(&mut s, true, 0, &[BODY_A, "no newline"]);
    let total: usize = a.sections.iter().map(|(c, _)| *c).sum();
    assert_eq!(total, lines(&a.source));
}

#[test]
fn cached_segments_stay_in_the_map() {
    let mut s = two_files();
    build(&mut s, true, 0, &[BODY_A, BODY_B]);
    s.mark_changed(0);
    let snap = s.snapshot();
    let a = build(&mut s, false, snap, &["a2\n"]);
    assert_eq!(a.sections, vec![
        (lines(RENDER_FRAG_HEADER), INTERNAL_NAME.to_string()),
        (1, "a".to_string()),
        (4, "b".to_string()),
    ]);
}

#[test]
fn touching_one_file_rereads_only_it() {
    let mut s = two_files();
    let snap = s.snapshot();
    let a = build(&mut s, true, snap, &[BODY_A, BODY_B]);
    assert_eq!(a.source, format!("{}{}{}", RENDER_FRAG_HEADER, BODY_A, BODY_B));
    assert!(!s.is_dirty());
    s.mark_changed(0);
    assert!(s.is_dirty());
    let snap = s.snapshot();
    assert_eq!(snap, 1);
    assert_eq!(s.files_to_read(false, snap), vec!["a".to_string()]);
    let new_a = "float a()\n{\n    return 2.0;\n}\n";
    let a = build(&mut s, false, snap, &[new_a]);
    assert_eq!(a.source, format!("{}{}{}", RENDER_FRAG_HEADER, new_a, BODY_B));
    assert_eq!(s.snapshot(), 0);
    assert!(!s.is_dirty());
}

#[test]
fn marks_after_the_snapshot_survive_the_build() {
    let mut s = two_files();
    build(&mut s, true, 0, &[BODY_A, BODY_B]);
    s.mark_changed(0);
    let snap = s.snapshot();
    // a change of the second file arrives while the first is being read
    s.mark_changed(1);
    build(&mut s, false, snap, &["a2"]);
    assert_eq!(s.snapshot(), 2);
    assert!(s.is_dirty());
    assert_eq!(s.files_to_read(false, s.snapshot()), vec!["b".to_string()]);
}

#[test]
fn a_mark_of_a_read_segment_made_during_the_build_is_cleared_with_it() {
    let mut s = two_files();
    s.mark_changed(0);
    let snap = s.snapshot();
    s.mark_changed(0);
    build(&mut s, false, snap, &["a2"]);
    assert_eq!(s.snapshot(), 0);
}

#[test]
fn thirty_one_streams_build() {
    let mut s = ShaderStreamer::new();
    for i in 0..31 {
        s = s.with_file(&format!("f{}", i));
    }
    let texts: Vec<String> = (0..31).map(|i| format!("// {}\n", i)).collect();
    let refs: Vec<&str> = texts.iter().map(|t| t.as_str()).collect();
    let a = build(&mut s, true, 0, &refs);
    assert_eq!(a.sections.len(), 32);
    s.mark_changed(30);
    assert_eq!(s.snapshot(), 1 << 30);
}

#[test]
fn thirty_two_streams_fail_at_build() {
    let mut s = ShaderStreamer::new();
    for i in 0..32 {
        s = s.with_file(&format!("f{}", i));
    }
    assert_eq!(s.stream_count(), 32);
    let texts: Vec<String> = (0..32).map(|i| format!("// {}\n", i)).collect();
    let refs: Vec<&str> = texts.iter().map(|t| t.as_str()).collect();
    let r = s.build(true, 0, &ok(&refs));
    assert!(matches!(r, Err(BuildError::TooManyStreams)));
    if let Err(e) = r {
        assert_eq!(e.message(), "Can only support up to 31 streamed files.");
    }
    // the bit that the dirty set cannot hold is ignored
    s.mark_changed(31);
    assert!(!s.is_dirty());
}

#[test]
fn wrong_number_of_contents_is_refused() {
    let mut s = two_files();
    let r = s.build(true, 0, &ok(&[BODY_A]));
    assert!(matches!(r, Err(BuildError::ReadCountMismatch)));
    s.mark_changed(1);
    let r = s.build(false, s.snapshot(), &ok(&[BODY_A, BODY_B]));
    assert!(matches!(r, Err(BuildError::ReadCountMismatch)));
    assert_eq!(s.snapshot(), 2);
}

#[test]
fn failed_read_changes_nothing() {
    let mut s = two_files();
    build(&mut s, true, 0, &[BODY_A, BODY_B]);
    s.mark_changed(0);
    s.mark_changed(1);
    let snap = s.snapshot();
    let fresh = vec![Ok("new a".to_string()), Err("No such file or directory (os error 2)".to_string())];
    match s.build(false, snap, &fresh) {
        Err(BuildError::ReadFailed(m)) => assert_eq!(m, "No such file or directory (os error 2)"),
        _ => panic!("expected a read failure"),
    }
    assert_eq!(s.snapshot(), 3);
    // the cache still holds the texts of the last good build
    let a = build(&mut s, false, 0, &[]);
    assert_eq!(a.source, format!("{}{}{}", RENDER_FRAG_HEADER, BODY_A, BODY_B));
}

#[test]
fn first_failed_read_is_reported() {
    let mut s = two_files();
    let fresh = vec![Err("first".to_string()), Err("second".to_string())];
    match s.build(true, 0, &fresh) {
        Err(BuildError::ReadFailed(m)) => assert_eq!(m, "first"),
        _ => panic!("expected a read failure"),
    }
}

#[test]
fn marks_beyond_the_streams_are_ignored() {
    let mut s = two_files();
    s.mark_changed(2);
    s.mark_changed(100);
    assert!(!s.is_dirty());
    assert_eq!(s.stream_paths(), vec!["a".to_string(), "b".to_string()]);
}
