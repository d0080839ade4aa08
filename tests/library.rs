use shader_sync::chars::ends_with;
use shader_sync::module_text::{unwrap_module, wrap_source};
use shader_sync::paths::{
    file_name_of, get_corresponding_files, regular_files, validate_paths, DirEntry, Mode,
    PathKind, WatchError,
};
use shader_sync::sync::{fingerprint, Step, Tracker};

fn strings(v: &[&str]) -> Vec<String> {
    v.iter().map(|s| s.to_string()).collect()
}

fn emitted(step: Step) -> String {
    match step {
        Step::Emit(t) => t,
        other => panic!("expected a write, got {:?}", other),
    }
}

#[test]
fn wrap_embeds_source_verbatim() {
    assert_eq!(wrap_source("void main(){}"), "export default `void main(){}`;");
    assert_eq!(wrap_source(""), "export default ``;");
}

#[test]
fn unwrap_recovers_wrapped_source() {
    for c in ["", "void main(){}", "line one\nline two", "é ü ∑"] {
        assert_eq!(unwrap_module(&wrap_source(c)), Some(c.to_string()));
    }
}

#[test]
fn wrapping_twice_only_nests() {
    let c = "void main(){}";
    let twice = wrap_source(&wrap_source(c));
    assert_eq!(twice, "export default `export default `void main(){}`;`;");
    assert_eq!(unwrap_module(&twice), Some(wrap_source(c)));
}

#[test]
fn unwrap_rejects_other_text() {
    assert_eq!(unwrap_module(""), None);
    assert_eq!(unwrap_module("export default `x`"), None);
    assert_eq!(unwrap_module("export default`x`;"), None);
    assert_eq!(unwrap_module("void main(){}"), None);
}

#[test]
fn backtick_is_not_escaped() {
    assert_eq!(wrap_source("a`b"), "export default `a`b`;");
}

#[test]
fn single_file_first_tick_writes_module() {
    let mut t = Tracker::new(1);
    let out = emitted(t.poll(0, "void main(){}"));
    assert_eq!(out, "export default `void main(){}`;");
}

#[test]
fn first_tick_writes_even_empty_source() {
    let mut t = Tracker::new(1);
    assert_eq!(emitted(t.poll(0, "")), "export default ``;");
}

#[test]
fn unchanged_source_is_not_written_again() {
    let mut t = Tracker::new(1);
    emitted(t.poll(0, "void main(){}"));
    assert!(matches!(t.poll(0, "void main(){}"), Step::Unchanged));
    assert!(matches!(t.poll(0, "void main(){}"), Step::Unchanged));
}

#[test]
fn each_change_writes_once_including_change_back() {
    let mut t = Tracker::new(1);
    emitted(t.poll(0, "a"));
    assert_eq!(emitted(t.poll(0, "b")), "export default `b`;");
    assert!(matches!(t.poll(0, "b"), Step::Unchanged));
    assert_eq!(emitted(t.poll(0, "a")), "export default `a`;");
    assert!(matches!(t.poll(0, "a"), Step::Unchanged));
}

#[test]
fn pairs_are_tracked_independently() {
    let mut t = Tracker::new(2);
    assert_eq!(t.len(), 2);
    emitted(t.poll(0, "x"));
    emitted(t.poll(1, "x"));
    assert!(matches!(t.poll(0, "x"), Step::Unchanged));
    emitted(t.poll(1, "y"));
    assert!(matches!(t.poll(0, "x"), Step::Unchanged));
}

#[test]
fn observe_compares_given_fingerprint() {
    let mut t = Tracker::new(1);
    emitted(t.observe(0, "f1".to_string(), "one"));
    assert!(matches!(t.observe(0, "f1".to_string(), "two"), Step::Unchanged));
    assert_eq!(emitted(t.observe(0, "f2".to_string(), "two")), "export default `two`;");
}

#[test]
fn halted_tracker_writes_nothing() {
    let mut t = Tracker::new(2);
    emitted(t.poll(0, "a"));
    assert!(t.is_running());
    t.halt();
    assert!(!t.is_running());
    assert!(matches!(t.poll(0, "changed"), Step::Stopped));
    assert!(matches!(t.poll(1, "first"), Step::Stopped));
}

#[test]
fn fingerprint_is_md5_hex() {
    assert_eq!(fingerprint(""), "d41d8cd98f00b204e9800998ecf8427e");
    assert_eq!(fingerprint("abc"), "900150983cd24fb0d6963f7d28e17f72");
    assert_ne!(fingerprint("a"), fingerprint("b"));
}

#[test]
fn pairing_matches_by_file_name() {
    let srcs = strings(&["shaders/a.glsl", "shaders/b.glsl", "shaders/c.txt"]);
    let dests = strings(&["out/a.glsl.js", "out/b.glsl.js", "out/other.js"]);
    let pairs = get_corresponding_files(&srcs, &dests);
    let got: Vec<(String, String)> =
        pairs.into_iter().map(|p| (p.source, p.dest)).collect();
    assert_eq!(
        got,
        vec![
            ("shaders/a.glsl".to_string(), "out/a.glsl.js".to_string()),
            ("shaders/b.glsl".to_string(), "out/b.glsl.js".to_string()),
        ]
    );
}

#[test]
fn pairing_follows_source_order() {
    let srcs = strings(&["s/b.glsl", "s/a.glsl"]);
    let dests = strings(&["d/a.glsl.js", "d/b.glsl.js"]);
    let got: Vec<(String, String)> = get_corresponding_files(&srcs, &dests)
        .into_iter()
        .map(|p| (p.source, p.dest))
        .collect();
    assert_eq!(
        got,
        vec![
            ("s/b.glsl".to_string(), "d/b.glsl.js".to_string()),
            ("s/a.glsl".to_string(), "d/a.glsl.js".to_string()),
        ]
    );
}

#[test]
fn pairing_fans_out_duplicate_matches() {
    let srcs = strings(&["s/a.glsl"]);
    let dests = strings(&["d1/a.glsl.js", "d2/a.glsl.js"]);
    let got: Vec<String> =
        get_corresponding_files(&srcs, &dests).into_iter().map(|p| p.dest).collect();
    assert_eq!(got, strings(&["d1/a.glsl.js", "d2/a.glsl.js"]));
}

#[test]
fn pairing_of_nothing_is_empty() {
    assert!(get_corresponding_files(&vec![], &strings(&["d/a.glsl.js"])).is_empty());
    assert!(get_corresponding_files(&strings(&["s/a.glsl"]), &vec![]).is_empty());
    assert!(get_corresponding_files(&strings(&["s/a.glsl"]), &strings(&["d/a.js"])).is_empty());
}

#[test]
fn file_name_is_last_component() {
    assert_eq!(file_name_of("a/b/c.glsl"), "c.glsl");
    assert_eq!(file_name_of("c.glsl"), "c.glsl");
    assert_eq!(file_name_of("a/b/"), "");
    assert_eq!(file_name_of(""), "");
}

#[test]
fn suffix_test() {
    assert!(ends_with("x.glsl", ".glsl"));
    assert!(!ends_with("x.glsl.js", ".glsl"));
    assert!(ends_with("", ""));
    assert!(!ends_with("js", ".js"));
}

#[test]
fn regular_files_keeps_files_in_order() {
    let entries = vec![
        DirEntry { path: "d/b.glsl".to_string(), is_file: true },
        DirEntry { path: "d/sub".to_string(), is_file: false },
        DirEntry { path: "d/a.glsl".to_string(), is_file: true },
    ];
    assert_eq!(regular_files(&entries), strings(&["d/b.glsl", "d/a.glsl"]));
    assert!(regular_files(&vec![]).is_empty());
}

#[test]
fn regular_files_beyond_ten() {
    let entries: Vec<DirEntry> = (0..25)
        .map(|k| DirEntry { path: format!("d/f{}.glsl", k), is_file: true })
        .collect();
    assert_eq!(regular_files(&entries).len(), 25);
}

#[test]
fn startup_rejects_wrong_extension() {
    let r = validate_paths("foo.txt", "bar.js", PathKind::File, PathKind::File);
    assert_eq!(r.unwrap_err(), WatchError::InvalidExtension);
    let r = validate_paths("foo.glsl", "bar.txt", PathKind::File, PathKind::File);
    assert_eq!(r.unwrap_err(), WatchError::InvalidExtension);
}

#[test]
fn startup_accepts_single_pair() {
    let t = validate_paths("foo.glsl", "bar.js", PathKind::File, PathKind::File).unwrap();
    assert_eq!(t.mode, Mode::Single);
    assert_eq!(t.source, "foo.glsl");
    assert_eq!(t.dest, "bar.js");
}

#[test]
fn startup_accepts_two_directories() {
    let t = validate_paths("src", "out", PathKind::Directory, PathKind::Directory).unwrap();
    assert_eq!(t.mode, Mode::Directory);
    assert_eq!(t.source, "src");
    assert_eq!(t.dest, "out");
}

#[test]
fn startup_rejects_mixed_modes() {
    let r = validate_paths("src", "bar.js", PathKind::Directory, PathKind::File);
    assert_eq!(r.unwrap_err(), WatchError::ModeMismatch);
    let r = validate_paths("foo.glsl", "out", PathKind::File, PathKind::Directory);
    assert_eq!(r.unwrap_err(), WatchError::ModeMismatch);
}

#[test]
fn startup_rejects_missing_paths() {
    let r = validate_paths("foo.glsl", "bar.js", PathKind::Missing, PathKind::File);
    assert_eq!(r.unwrap_err(), WatchError::PathNotFound);
    let r = validate_paths("src", "out", PathKind::Directory, PathKind::Missing);
    assert_eq!(r.unwrap_err(), WatchError::PathNotFound);
}
