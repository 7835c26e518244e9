use std::collections::HashSet;
use vtracer_service::workspace::{allocate, paths_for, temp_directory};

fn identifier_of(path: &str, prefix: &str) -> String {
    assert!(path.starts_with(prefix), "{path}");
    path[prefix.len()..prefix.len() + 36].to_string()
}

fn assert_identifier(id: &str) {
    assert_eq!(id.len(), 36);
    for (i, c) in id.chars().enumerate() {
        if i == 8 || i == 13 || i == 18 || i == 23 {
            assert_eq!(c, '-', "{id}");
        } else {
            assert!(c.is_ascii_digit() || ('a'..='f').contains(&c), "{id}");
        }
    }
    assert_eq!(id.as_bytes()[14], b'4');
    assert!(matches!(id.as_bytes()[19], b'8' | b'9' | b'a' | b'b'));
}

#[test]
fn temp_directory_is_tmp() {
    assert_eq!(temp_directory(), "/tmp");
}

#[test]
fn paths_are_derived_from_the_identifier() {
    let id = "67e55044-10b1-426f-9247-bb680e5fe0c8";
    let paths = paths_for(id, "png");
    assert_eq!(paths.input, "/tmp/input_67e55044-10b1-426f-9247-bb680e5fe0c8.png");
    assert_eq!(paths.output, "/tmp/output_67e55044-10b1-426f-9247-bb680e5fe0c8.svg");
}

#[test]
fn empty_extension_leaves_the_dot() {
    let paths = paths_for("id", "");
    assert_eq!(paths.input, "/tmp/input_id.");
    assert_eq!(paths.output, "/tmp/output_id.svg");
}

#[test]
fn allocate_uses_the_extension_and_a_fresh_identifier() {
    let paths = allocate("jpeg");
    let id = identifier_of(&paths.input, "/tmp/input_");
    assert_identifier(&id);
    assert_eq!(paths.input, format!("/tmp/input_{id}.jpeg"));
    assert_eq!(paths.output, format!("/tmp/output_{id}.svg"));
}

#[test]
fn allocations_never_collide() {
    let mut seen = HashSet::new();
    for _ in 0..20_000 {
        let paths = allocate("png");
        assert_ne!(paths.input, paths.output);
        assert!(seen.insert(paths.input), "input path drawn twice");
        assert!(seen.insert(paths.output), "output path drawn twice");
    }
    assert_eq!(seen.len(), 40_000);
}

#[test]
fn distinct_identifiers_give_distinct_paths_whatever_the_extension() {
    let a = paths_for("00000000-0000-4000-8000-000000000000", "b.c");
    let b = paths_for("00000000-0000-4000-8000-000000000001", "c");
    assert_ne!(a.input, b.input);
    assert_ne!(a.output, b.output);
    assert_ne!(a.input, b.output);
    assert_ne!(a.output, b.input);
}
