use nix_inspect::path::BrowserPath;
use nix_inspect::syntax::is_name;

fn path(segments: &[&str]) -> BrowserPath {
    let mut p = BrowserPath::new(segments[0]).unwrap();
    for s in &segments[1..] {
        p = p.child(s);
    }
    p
}

#[test]
fn root_is_written_bare() {
    let p = path(&["nixosConfigurations"]);
    assert_eq!(p.to_expr(), "nixosConfigurations");
}

#[test]
fn deeper_segments_are_quoted() {
    let p = path(&["nixosConfigurations", "foo", "config"]);
    assert_eq!(p.to_expr(), "nixosConfigurations.\"foo\".\"config\"");
}

#[test]
fn special_characters_are_escaped() {
    let p = path(&["a", "x\"y", "b\\c", "${d}", "l1\nl2", "t\tr\r"]);
    assert_eq!(
        p.to_expr(),
        "a.\"x\\\"y\".\"b\\\\c\".\"\\${d}\".\"l1\\nl2\".\"t\\tr\\r\""
    );
}

#[test]
fn expression_holds_no_line_break() {
    let p = path(&["a", "l1\nl2\r\nl3"]);
    let text = p.to_expr();
    assert!(!text.contains('\n'));
    assert!(!text.contains('\r'));
}

#[test]
fn expression_is_read_back() {
    let p = path(&["a", "x\"y", "b\\c", "${d}", "l1\nl2", "", "dotted.name", "caf\u{e9}"]);
    let text = p.to_expr();
    let q = BrowserPath::from_expr(&text).unwrap();
    assert_eq!(q, p);
    assert_eq!(q.to_expr(), text);
}

#[test]
fn root_alone_is_read_back() {
    let q = BrowserPath::from_expr("nixosConfigurations").unwrap();
    assert_eq!(q.depth(), 1);
    assert_eq!(q.segment(0), Some("nixosConfigurations"));
    assert_eq!(q.to_expr(), "nixosConfigurations");
}

#[test]
fn distinct_paths_are_written_differently() {
    let one = path(&["a", "b\".\"c"]);
    let two = path(&["a", "b", "c"]);
    assert_ne!(one.to_expr(), two.to_expr());
    let three = path(&["a", "b.c"]);
    assert_ne!(three.to_expr(), two.to_expr());
}

#[test]
fn what_is_not_an_expression_is_refused() {
    assert_eq!(BrowserPath::from_expr(""), None);
    assert_eq!(BrowserPath::from_expr(".\"a\""), None);
    assert_eq!(BrowserPath::from_expr("1a"), None);
    assert_eq!(BrowserPath::from_expr("a b"), None);
    assert_eq!(BrowserPath::from_expr("a."), None);
    assert_eq!(BrowserPath::from_expr("a.b"), None);
    assert_eq!(BrowserPath::from_expr("a.\"b"), None);
    assert_eq!(BrowserPath::from_expr("a.\"b\"c"), None);
    assert_eq!(BrowserPath::from_expr("a.\"b\\"), None);
    assert_eq!(BrowserPath::from_expr("a.\"b\\x\""), None);
    assert_eq!(BrowserPath::from_expr("a.\"b$c\""), None);
    assert_eq!(BrowserPath::from_expr("a.\"b\tc\""), None);
    assert_eq!(BrowserPath::from_expr("a.\"b\"\n"), None);
}

#[test]
fn root_must_be_a_bare_name() {
    assert!(BrowserPath::new("nixosConfigurations").is_some());
    assert!(BrowserPath::new("_private").is_some());
    assert!(BrowserPath::new("a-b'c_9").is_some());
    assert!(BrowserPath::new("").is_none());
    assert!(BrowserPath::new("9lives").is_none());
    assert!(BrowserPath::new("-a").is_none());
    assert!(BrowserPath::new("a.b").is_none());
    assert!(BrowserPath::new("a b").is_none());
    assert!(BrowserPath::new("a\"").is_none());
    assert!(BrowserPath::new("caf\u{e9}").is_none());
}

#[test]
fn bare_names_are_recognised() {
    assert!(is_name("x"));
    assert!(is_name("Zed_0"));
    assert!(!is_name("'x"));
    assert!(!is_name("x y"));
}

#[test]
fn child_and_parent_are_inverse() {
    let root = path(&["nixosConfigurations"]);
    assert_eq!(root.parent(), None);
    let child = root.child("foo");
    assert_eq!(child.depth(), 2);
    assert_eq!(child.segment(0), Some("nixosConfigurations"));
    assert_eq!(child.segment(1), Some("foo"));
    assert_eq!(child.segment(2), None);
    assert_eq!(child.parent(), Some(root.clone()));
    assert_eq!(root.depth(), 1);
}

#[test]
fn paths_are_compared_by_their_segments() {
    let a = path(&["r", "x", "y"]);
    let b = path(&["r", "x"]).child("y");
    let c = path(&["r", "x", "z"]);
    let d = path(&["r", "x"]);
    assert!(a.same_as(&b));
    assert!(!a.same_as(&c));
    assert!(!a.same_as(&d));
    assert!(a.clone().same_as(&a));
}

/// A small deterministic generator of awkward segments.
fn awkward_segments(seed: u64, count: usize) -> Vec<String> {
    let alphabet: Vec<char> = vec![
        'a', 'Z', '0', '_', '-', '\'', '.', '"', '\\', '$', '{', '}', '\n', '\r', '\t', ' ', 'n',
        'r', 't', '\u{e9}', '\u{1F600}',
    ];
    let mut state = seed;
    let mut next = move || {
        state = state.wrapping_mul(6364136223846793005).wrapping_add(1442695040888963407);
        (state >> 33) as usize
    };
    let mut segments = Vec::new();
    for _ in 0..count {
        let length = next() % 6;
        let mut segment = String::new();
        for _ in 0..length {
            segment.push(alphabet[next() % alphabet.len()]);
        }
        segments.push(segment);
    }
    segments
}

#[test]
fn many_awkward_paths_are_read_back() {
    for seed in 0..400u64 {
        let mut p = BrowserPath::new("root").unwrap();
        for segment in awkward_segments(seed, (seed % 5) as usize) {
            p = p.child(&segment);
        }
        let text = p.to_expr();
        assert!(!text.contains('\n') && !text.contains('\r'));
        let q = BrowserPath::from_expr(&text);
        assert_eq!(q.as_ref(), Some(&p));
        assert_eq!(q.unwrap().to_expr(), text);
    }
}

#[test]
fn many_awkward_paths_are_written_differently() {
    let mut seen: Vec<(String, BrowserPath)> = Vec::new();
    for seed in 0..150u64 {
        let mut p = BrowserPath::new("root").unwrap();
        for segment in awkward_segments(seed, 1 + (seed % 3) as usize) {
            p = p.child(&segment);
        }
        let text = p.to_expr();
        for (other_text, other) in &seen {
            assert_eq!(*other_text == text, other.same_as(&p));
        }
        seen.push((text, p));
    }
}
