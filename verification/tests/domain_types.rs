use scrap_core::domain::types::{FilePath, QualifiedName, SourceRoot, Span, TestIdentity};

#[test]
fn span_line_count_basic() {
    assert_eq!(Span::new(1, 1, 1, 1).line_count(), 1);
    assert_eq!(Span::new(10, 19, 1, 1).line_count(), 10);
}

#[test]
fn span_new_carries_columns() {
    let span = Span::new(3, 7, 4, 9);
    assert_eq!(span.start_column, 4);
    assert_eq!(span.end_column, 9);
}

#[test]
fn span_new_same_line_equal_columns_is_zero_width_point() {
    let span = Span::new(5, 5, 7, 7);
    assert_eq!(span.start_column, span.end_column);
}

#[test]
fn span_try_new_rejects_inverted_range() {
    let err = Span::try_new(10, 5, 1, 1).unwrap_err();
    assert_eq!(err.start_line, 10);
    assert_eq!(err.end_line, 5);
    assert_eq!(err.to_string(), "inverted span: start_line 10 > end_line 5");
}

#[test]
fn span_try_new_accepts_equal_lines() {
    let span = Span::try_new(7, 7, 1, 8).unwrap();
    assert_eq!(span.line_count(), 1);
    assert_eq!(span.start_column, 1);
    assert_eq!(span.end_column, 8);
}

#[test]
fn span_try_new_does_not_validate_column_order() {
    let span = Span::try_new(4, 4, 20, 3).unwrap();
    assert_eq!(span.start_column, 20);
    assert_eq!(span.end_column, 3);
}

#[test]
fn source_root_as_path_round_trips() {
    let root = SourceRoot::new("a/b/c");
    assert_eq!(root.as_path(), "a/b/c");
}

#[test]
fn newtype_display_unwraps_inner() {
    assert_eq!(FilePath::new("a/b/c.rs").to_string(), "a/b/c.rs");
    assert_eq!(SourceRoot::new("crates/scrap4rs").to_string(), "crates/scrap4rs");
    assert_eq!(QualifiedName::new("foo::bar").to_string(), "foo::bar");
}

#[test]
fn span_line_count_is_end_minus_start_plus_one() {
    for (start, len) in [(1u32, 0u32), (1, 9_999), (999_999, 0), (500, 17), (42, 1)] {
        assert_eq!(Span::new(start, start + len, 1, 1).line_count(), len + 1);
    }
}

#[test]
fn span_line_count_saturates_and_counts_inverted_as_one() {
    let wide = Span::try_new(0, u32::MAX, 1, 1).unwrap();
    assert_eq!(wide.line_count(), u32::MAX);
    let span = Span { start_line: 9, end_line: 3, start_column: 1, end_column: 1 };
    assert_eq!(span.line_count(), 1);
}

#[test]
fn span_try_new_rejects_strictly_inverted() {
    for (end, len) in [(0u32, 1u32), (10, 5), (999_999, 9_999)] {
        assert!(Span::try_new(end + len, end, 1, 1).is_err());
    }
}

#[test]
fn test_identity_carries_its_coordinates() {
    let id = TestIdentity::new(FilePath::new("a.rs"), QualifiedName::new("a::t"), Span::new(1, 2, 3, 4));
    assert_eq!(id.file_path.as_path(), "a.rs");
    assert_eq!(id.qualified_name.as_str(), "a::t");
    assert_eq!(id.span, Span::new(1, 2, 3, 4));
}

#[test]
fn file_paths_compare_by_text() {
    assert!(FilePath::new("x/y.rs").same_as(&FilePath::new("x/y.rs")));
    assert!(!FilePath::new("x/y.rs").same_as(&FilePath::new("x/z.rs")));
}

#[test]
fn span_try_new_accepts_well_ordered() {
    for (start, len, col, col_len) in [(1u32, 0u32, 1u32, 0u32), (999_999, 9_999, 999, 999), (17, 3, 4, 1)] {
        let span = Span::try_new(start, start + len, col, col + col_len).unwrap();
        assert_eq!(span.line_count(), len + 1);
        assert_eq!(span.start_column, col);
        assert_eq!(span.end_column, col + col_len);
    }
}
