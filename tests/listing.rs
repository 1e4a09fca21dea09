use stone::listing::{Format, Revision};

fn revision(version: &str, release: &str) -> Revision {
    Revision { version: version.to_string(), release: release.to_string() }
}

#[test]
fn revision_size_counts_bytes() {
    assert_eq!(revision("1.2.3", "4").size(), 6);
    assert_eq!(revision("", "").size(), 0);
    assert_eq!(revision("é", "12").size(), 4);
}

#[test]
fn format_size_without_sync() {
    let f = Format {
        name: "bash".to_string(),
        summary: "shell".to_string(),
        revision: revision("5.2", "10"),
        explicit: true,
        sync: None,
    };
    assert_eq!(f.size(), 9);
}

#[test]
fn format_size_with_sync() {
    let f = Format {
        name: "zlib".to_string(),
        summary: String::new(),
        revision: revision("1.3", "1"),
        explicit: false,
        sync: Some(revision("1.3.1", "2")),
    };
    assert_eq!(f.size(), 4 + 4 + 6);
}
