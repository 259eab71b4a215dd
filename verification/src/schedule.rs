//! Course codes, term offerings and degree programs.

use vstd::prelude::*;

verus! {

/// The part of a course code after the subject stem: a catalogue number
/// such as `1250`; a label such as `E1250`, `COMP` or `PROGRAM` that names
/// an exam, a placement or an admission rather than a numbered course; or a
/// catalogue number with a tag, such as the exam `1000 EXAM` that stands for
/// course `1000`.
#[derive(Clone, Debug, PartialEq, Eq, Hash)]
pub enum CourseCodeSuffix {
    Number(u32),
    Special(String),
    Unique(u32, String),
}

/// A course code: a subject stem such as `MATH` and an identifier within it.
#[derive(Clone, Debug, PartialEq, Eq, Hash)]
pub struct CourseCode {
    pub stem: String,
    pub code: CourseCodeSuffix,
}

/// The mathematical value of a [`CourseCodeSuffix`].
#[verifier::ext_equal]
pub enum SuffixView {
    Number(u32),
    Special(Seq<char>),
    Unique(u32, Seq<char>),
}

/// The mathematical value of a [`CourseCode`].
#[verifier::ext_equal]
pub struct CourseCodeView {
    pub stem: Seq<char>,
    pub code: SuffixView,
}

impl DeepView for CourseCode {
    type V = CourseCodeView;

    open spec fn deep_view(&self) -> CourseCodeView {
        CourseCodeView {
            stem: self.stem@,
            code: match self.code {
                CourseCodeSuffix::Number(n) => SuffixView::Number(n),
                CourseCodeSuffix::Special(s) => SuffixView::Special(s@),
                CourseCodeSuffix::Unique(n, s) => SuffixView::Unique(n, s@),
            },
        }
    }
}

/// The value of the numbered course `number` of subject `stem`.
pub open spec fn course(stem: Seq<char>, number: u32) -> CourseCodeView {
    CourseCodeView { stem, code: SuffixView::Number(number) }
}

/// The value of the course of subject `stem` that carries the label `label`.
pub open spec fn special_course(stem: Seq<char>, label: Seq<char>) -> CourseCodeView {
    CourseCodeView { stem, code: SuffixView::Special(label) }
}

/// The value of the course `number` of subject `stem` with the tag `tag`.
pub open spec fn unique_course(stem: Seq<char>, number: u32, tag: Seq<char>) -> CourseCodeView {
    CourseCodeView { stem, code: SuffixView::Unique(number, tag) }
}

/// Every pair of `table` is keyed by a course of subject `stem`.
pub open spec fn keyed_by_stem<W>(table: Seq<(CourseCodeView, W)>, stem: Seq<char>) -> bool {
    forall|i: int| 0 <= i < table.len() ==> #[trigger] table[i].0.stem == stem
}

/// Every pair of `table` is keyed by a course whose subject stem is one of `stems`.
pub open spec fn stems_within<W>(table: Seq<(CourseCodeView, W)>, stems: Set<Seq<char>>) -> bool {
    forall|i: int| 0 <= i < table.len() ==> stems.contains(#[trigger] table[i].0.stem)
}

impl CourseCode {
    /// The numbered course `number` of subject `stem`.
    pub fn new(stem: &str, number: u32) -> (c: CourseCode)
        ensures
            c.deep_view() == course(stem@, number),
    {
        CourseCode { stem: stem.to_owned(), code: CourseCodeSuffix::Number(number) }
    }

    /// The course of subject `stem` named by `label` rather than by a number.
    pub fn special(stem: &str, label: &str) -> (c: CourseCode)
        ensures
            c.deep_view() == special_course(stem@, label@),
    {
        CourseCode { stem: stem.to_owned(), code: CourseCodeSuffix::Special(label.to_owned()) }
    }

    /// The course `number` of subject `stem` with the tag `tag`.
    pub fn unique(stem: &str, number: u32, tag: &str) -> (c: CourseCode)
        ensures
            c.deep_view() == unique_course(stem@, number, tag@),
    {
        CourseCode { stem: stem.to_owned(), code: CourseCodeSuffix::Unique(number, tag.to_owned()) }
    }

    /// Whether two course codes denote the same course.
    pub fn same_course(&self, other: &CourseCode) -> (same: bool)
        ensures
            same == (self.deep_view() == other.deep_view()),
    {
        if self.stem != other.stem {
            return false;
        }
        match (&self.code, &other.code) {
            (CourseCodeSuffix::Number(a), CourseCodeSuffix::Number(b)) => *a == *b,
            (CourseCodeSuffix::Unique(a, x), CourseCodeSuffix::Unique(b, y)) => {
                let r = *a == *b && *x == *y;
                proof {
                    if r {
                        assert(self.deep_view() =~= other.deep_view());
                    }
                }
                r
            },
            (CourseCodeSuffix::Special(a), CourseCodeSuffix::Special(b)) => {
                let r = *a == *b;
                proof {
                    if r {
                        assert(self.deep_view() =~= other.deep_view());
                    }
                }
                r
            },
            _ => false,
        }
    }
}

/// The terms in which a course is offered.
#[derive(Clone, Copy, Debug, PartialEq, Eq, Hash)]
pub enum CourseTermOffering {
    Fall,
    Spring,
    Both,
    Summer,
    Discretion,
    Infrequently,
}

impl DeepView for CourseTermOffering {
    type V = CourseTermOffering;

    open spec fn deep_view(&self) -> CourseTermOffering {
        *self
    }
}

/// A degree program: its courses semester by semester, its electives and the
/// subject stems associated with it.
#[derive(Clone, Debug, PartialEq, Eq)]
pub struct Program {
    pub name: String,
    pub semesters: Vec<Vec<CourseCode>>,
    pub electives: Vec<CourseCode>,
    pub assoc_stems: Vec<String>,
}

/// The mathematical value of a [`Program`].
#[verifier::ext_equal]
pub struct ProgramView {
    pub name: Seq<char>,
    pub semesters: Seq<Seq<CourseCodeView>>,
    pub electives: Seq<CourseCodeView>,
    pub assoc_stems: Seq<Seq<char>>,
}

impl DeepView for Program {
    type V = ProgramView;

    open spec fn deep_view(&self) -> ProgramView {
        ProgramView {
            name: self.name@,
            semesters: self.semesters.deep_view(),
            electives: self.electives.deep_view(),
            assoc_stems: self.assoc_stems.deep_view(),
        }
    }
}

} // verus!
