//! Source-coordinate primitives shared by every domain type.

use vstd::prelude::*;

use crate::text::{decimal, owned, push_decimal, push_str};

verus! {

/// Error returned by [`Span::try_new`] when the supplied line range is
/// inverted (`start_line > end_line`).
#[derive(Debug, Clone, Copy, PartialEq, Eq, Hash)]
pub struct InvertedSpan {
    /// The supplied start line.
    pub start_line: u32,
    /// The supplied end line.
    pub end_line: u32,
}

impl InvertedSpan {
    /// The human-readable rendering:
    /// `inverted span: start_line <start> > end_line <end>`.
    pub open spec fn message(self) -> Seq<char> {
        "inverted span: start_line "@ + decimal(self.start_line as nat) + " > end_line "@
            + decimal(self.end_line as nat)
    }

    /// Renders [`InvertedSpan::message`].
    pub fn to_string(&self) -> (r: String)
        ensures
            r@ == self.message(),
    {
        let mut s = owned("inverted span: start_line ");
        push_decimal(&mut s, self.start_line as u128);
        push_str(&mut s, " > end_line ");
        push_decimal(&mut s, self.end_line as u128);
        s
    }
}

/// 1-based inclusive line + column range into a source file.
#[derive(Debug, Clone, Copy, PartialEq, Eq, Hash)]
pub struct Span {
    /// 1-based inclusive line where the span begins.
    pub start_line: u32,
    /// 1-based inclusive line where the span ends.
    pub end_line: u32,
    /// 1-based inclusive column where the span begins.
    pub start_column: u32,
    /// 1-based inclusive column where the span ends.
    pub end_column: u32,
}

/// Line-primary, column-secondary ordering: the range does not run
/// backwards.
pub open spec fn well_ordered(start_line: u32, end_line: u32, start_column: u32, end_column: u32) -> bool {
    start_line < end_line || (start_line == end_line && start_column <= end_column)
}

impl Span {
    /// Number of lines covered, inclusive on both ends; an inverted span
    /// counts as one line, and the count saturates at `u32::MAX`.
    pub open spec fn spec_line_count(self) -> int {
        if self.end_line >= self.start_line {
            if self.end_line - self.start_line + 1 > u32::MAX {
                u32::MAX as int
            } else {
                self.end_line - self.start_line + 1
            }
        } else {
            1
        }
    }

    /// Construct a well-ordered span.
    pub fn new(start_line: u32, end_line: u32, start_column: u32, end_column: u32) -> (s: Self)
        requires
            well_ordered(start_line, end_line, start_column, end_column),
        ensures
            s == (Span { start_line, end_line, start_column, end_column }),
    {
        Span { start_line, end_line, start_column, end_column }
    }

    /// Fallible constructor: rejects exactly the ranges whose start line
    /// follows their end line. Columns are stored verbatim and are not
    /// checked.
    pub fn try_new(start_line: u32, end_line: u32, start_column: u32, end_column: u32) -> (r:
        Result<Self, InvertedSpan>)
        ensures
            start_line <= end_line ==> r == Ok::<Span, InvertedSpan>(
                Span { start_line, end_line, start_column, end_column },
            ),
            start_line > end_line ==> r == Err::<Span, InvertedSpan>(
                InvertedSpan { start_line, end_line },
            ),
    {
        if start_line > end_line {
            Err(InvertedSpan { start_line, end_line })
        } else {
            Ok(Span { start_line, end_line, start_column, end_column })
        }
    }

    /// Number of source lines covered, inclusive on both ends.
    pub fn line_count(&self) -> (n: u32)
        ensures
            n == self.spec_line_count(),
    {
        self.end_line.saturating_sub(self.start_line).saturating_add(1)
    }
}

/// Path of a source file, as the discovery adapter reported it.
#[derive(Debug, PartialEq, Eq, Hash)]
pub struct FilePath(String);

impl View for FilePath {
    type V = Seq<char>;

    closed spec fn view(&self) -> Seq<char> {
        self.0@
    }
}

impl Clone for FilePath {
    fn clone(&self) -> (r: Self)
        ensures
            r == *self,
    {
        FilePath(self.0.clone())
    }
}

impl FilePath {
    /// Wrap a path.
    pub fn new(path: &str) -> (r: Self)
        ensures
            r@ == path@,
    {
        FilePath(owned(path))
    }

    /// Borrow the wrapped path.
    pub fn as_path(&self) -> (r: &str)
        ensures
            r@ == self@,
    {
        self.0.as_str()
    }

    /// The path as text.
    pub fn to_string(&self) -> (r: String)
        ensures
            r@ == self@,
    {
        self.0.clone()
    }

    /// Whether both paths have the same text.
    pub fn same_as(&self, other: &FilePath) -> (r: bool)
        ensures
            r == (self@ == other@),
    {
        self.0 == other.0
    }
}

/// Fully qualified name of a test function (e.g. `foo::tests::it_works`).
#[derive(Debug, PartialEq, Eq, Hash)]
pub struct QualifiedName(String);

impl View for QualifiedName {
    type V = Seq<char>;

    closed spec fn view(&self) -> Seq<char> {
        self.0@
    }
}

impl Clone for QualifiedName {
    fn clone(&self) -> (r: Self)
        ensures
            r == *self,
    {
        QualifiedName(self.0.clone())
    }
}

impl QualifiedName {
    /// Wrap a name.
    pub fn new(name: &str) -> (r: Self)
        ensures
            r@ == name@,
    {
        QualifiedName(owned(name))
    }

    /// Borrow the wrapped name.
    pub fn as_str(&self) -> (r: &str)
        ensures
            r@ == self@,
    {
        self.0.as_str()
    }

    /// The name as text.
    pub fn to_string(&self) -> (r: String)
        ensures
            r@ == self@,
    {
        self.0.clone()
    }
}

/// Identity of a single test: file, qualified name and span.
#[derive(Debug, PartialEq, Eq, Hash)]
pub struct TestIdentity {
    /// Source file containing the test.
    pub file_path: FilePath,
    /// Fully qualified name of the test function.
    pub qualified_name: QualifiedName,
    /// Line range covered by the test.
    pub span: Span,
}

impl Clone for TestIdentity {
    fn clone(&self) -> (r: Self)
        ensures
            r == *self,
    {
        TestIdentity {
            file_path: self.file_path.clone(),
            qualified_name: self.qualified_name.clone(),
            span: self.span,
        }
    }
}

impl TestIdentity {
    /// Construct from its three coordinates.
    pub fn new(file_path: FilePath, qualified_name: QualifiedName, span: Span) -> (r: Self)
        ensures
            r == (TestIdentity { file_path, qualified_name, span }),
    {
        TestIdentity { file_path, qualified_name, span }
    }
}

/// Root directory under which test discovery operates.
#[derive(Debug, PartialEq, Eq, Hash)]
pub struct SourceRoot(String);

impl View for SourceRoot {
    type V = Seq<char>;

    closed spec fn view(&self) -> Seq<char> {
        self.0@
    }
}

impl Clone for SourceRoot {
    fn clone(&self) -> (r: Self)
        ensures
            r == *self,
    {
        SourceRoot(self.0.clone())
    }
}

impl SourceRoot {
    /// Wrap a root path.
    pub fn new(path: &str) -> (r: Self)
        ensures
            r@ == path@,
    {
        SourceRoot(owned(path))
    }

    /// Borrow the wrapped path.
    pub fn as_path(&self) -> (r: &str)
        ensures
            r@ == self@,
    {
        self.0.as_str()
    }

    /// The root as text.
    pub fn to_string(&self) -> (r: String)
        ensures
            r@ == self@,
    {
        self.0.clone()
    }
}

} // verus!
