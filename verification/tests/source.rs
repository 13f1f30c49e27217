use std::path::PathBuf;

use casm::parse::{
    Diagnostic, Error, File, Label, LabelStyle, Severity, SourceId, SourceMap, Span,
};

fn id(index: usize) -> SourceId {
    let mut map = SourceMap::new();
    let mut issued = map.insert(File { path: PathBuf::new(), contents: String::new() });
    for _ in 0..index {
        issued = map.insert(File { path: PathBuf::new(), contents: String::new() });
    }
    issued
}

fn file(path: &str, contents: &str) -> File {
    File { path: PathBuf::from(path), contents: String::from(contents) }
}

#[test]
fn join_takes_smallest_start_and_largest_end() {
    let a = Span::new(id(1), 4, 9);
    let b = Span::new(id(1), 2, 6);
    let joined = a.join(b);
    assert_eq!(joined, Span::new(id(1), 2, 9));
    assert_eq!(joined.start, a.start.min(b.start));
    assert_eq!(joined.end, a.end.max(b.end));
}

#[test]
fn join_is_commutative_and_associative() {
    let spans = [
        Span::new(id(0), 0, 0),
        Span::new(id(0), 3, 5),
        Span::new(id(0), 4, 12),
        Span::new(id(0), 10, 11),
    ];
    for a in spans {
        for b in spans {
            assert_eq!(a.join(b), b.join(a));
            for c in spans {
                assert_eq!(a.join(b).join(c), a.join(b.join(c)));
            }
        }
    }
}

#[test]
fn bar_operator_joins() {
    let a = Span::new(id(1), 4, 9);
    let b = Span::new(id(1), 2, 6);
    assert_eq!(a | b, Span::new(id(1), 2, 9));
    assert_eq!(a | b, a.join(b));
    assert_eq!(b | a, a | b);
}

#[test]
fn span_bounds_can_be_replaced() {
    let span = Span::new(id(2), 3, 8);
    assert_eq!(span.with_start(5), Span::new(id(2), 5, 8));
    assert_eq!(span.with_end(4), Span::new(id(2), 3, 4));
}

#[test]
fn null_values_are_sentinels() {
    assert!(SourceId::null().is_null());
    assert!(!id(0).is_null());
    assert_ne!(SourceId::null(), id(0));
    let null = Span::null();
    assert!(null.source.is_null());
    assert_eq!((null.start, null.end), (usize::MAX, usize::MAX));
}

#[test]
fn labels_carry_span_and_style() {
    let span = Span::new(id(5), 1, 4);
    let primary = span.to_label_primary();
    assert_eq!(primary, Label::new(LabelStyle::Primary, id(5), 1, 4));
    let secondary = span.to_label_secondary();
    assert_eq!(secondary.style, LabelStyle::Secondary);
    assert_eq!((secondary.source, secondary.start, secondary.end), (id(5), 1, 4));
    assert_eq!(secondary.message, "");
    assert_eq!(span.to_label(LabelStyle::Secondary), secondary);
    assert_eq!(primary.with_message(String::from("here")).message, "here");
}

#[test]
fn diagnostic_builders() {
    let d = Diagnostic::error();
    assert_eq!(d.severity, Severity::Error);
    assert_eq!(d.message, "");
    assert!(d.labels.is_empty());
    let first = Span::new(id(0), 0, 1).to_label_primary();
    let second = Span::new(id(0), 2, 3).to_label_secondary();
    let d = d.with_message(String::from("m")).with_labels(vec![first.clone()]).with_labels(
        vec![second.clone()],
    );
    assert_eq!(d.message, "m");
    assert_eq!(d.labels, vec![first, second]);
}

#[test]
fn end_of_file_error_becomes_a_diagnostic() {
    let d = Error::UnexpectedEof(Span::new(id(1), 7, 7)).to_diagnostic();
    assert_eq!(d.severity, Severity::Error);
    assert_eq!(d.message, "Unexpected end of file");
    assert_eq!(d.labels.len(), 1);
    assert_eq!(d.labels[0].style, LabelStyle::Primary);
    assert_eq!((d.labels[0].source, d.labels[0].start, d.labels[0].end), (id(1), 7, 7));
    assert_eq!(d.labels[0].message, "expected more input here");
}

#[test]
fn unexpected_character_error_becomes_a_diagnostic() {
    let d = Error::UnexpectedChar(Span::new(id(0), 2, 3), '@').to_diagnostic();
    assert_eq!(d.severity, Severity::Error);
    assert_eq!(d.message, "Unexpected character: '@'");
    assert_eq!(d.labels.len(), 1);
    assert_eq!(d.labels[0].style, LabelStyle::Primary);
    assert_eq!((d.labels[0].source, d.labels[0].start, d.labels[0].end), (id(0), 2, 3));
    assert_eq!(d.labels[0].message, "this character is not expected here");
}

#[test]
fn inserting_twice_gives_distinct_handles() {
    let mut map = SourceMap::new();
    let first = map.insert(file("a.casm", "one"));
    let second = map.insert(file("b.casm", "two"));
    assert_ne!(first, second);
    assert!(!first.is_null());
    assert!(!second.is_null());
    assert_eq!(map.get(&first).unwrap().path, PathBuf::from("a.casm"));
    assert_eq!(map.get(&first).unwrap().contents, "one");
    assert_eq!(map.get(&second).unwrap().path, PathBuf::from("b.casm"));
    assert_eq!(map.get(&second).unwrap().contents, "two");
    assert_eq!(map[second].contents, "two");
    assert_eq!(map[first].contents, "one");
}

#[test]
fn lookup_of_unknown_handle_is_none() {
    let mut map = SourceMap::new();
    assert!(map.get(&id(0)).is_none());
    assert!(!map.is_full());
    let issued = map.insert(file("a", ""));
    assert_eq!(issued, id(0));
    assert!(map.get(&id(1)).is_none());
    assert!(map.get(&SourceId::null()).is_none());
    assert!(SourceMap::default().get(&issued).is_none());
}

#[test]
fn cloned_file_is_the_same_file() {
    let given = file("dir/a.casm", "text");
    let copy = given.clone();
    assert_eq!(copy.path, PathBuf::from("dir/a.casm"));
    assert_eq!(copy.contents, "text");
}

#[test]
fn cloned_registry_keeps_its_files() {
    let mut map = SourceMap::new();
    let first = map.insert(file("a", "one"));
    let mut copy = map.clone();
    let second = copy.insert(file("b", "two"));
    assert_ne!(first, second);
    assert_eq!(copy.get(&first).unwrap().contents, "one");
    assert!(map.get(&second).is_none());
}
