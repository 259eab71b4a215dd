//! General-education requirements.

use vstd::prelude::*;
use crate::schedule::{CourseCode, CourseCodeView};

verus! {

/// How a general-education requirement is met.
#[derive(Clone, Debug, PartialEq, Eq)]
pub enum GenEdReq {
    /// By taking `num` of the listed courses.
    Courses { num: u32, courses: Vec<CourseCode> },
    /// By taking every course of one of the listed sets.
    SetOpts(Vec<Vec<CourseCode>>),
}

/// A general-education requirement.
#[derive(Clone, Debug, PartialEq, Eq)]
pub enum GenEd {
    /// A requirement of the core curriculum, with its name.
    Core { name: String, req: GenEdReq },
}

/// The mathematical value of a [`GenEdReq`].
#[verifier::ext_equal]
pub enum GenEdReqView {
    Courses { num: u32, courses: Seq<CourseCodeView> },
    SetOpts(Seq<Seq<CourseCodeView>>),
}

/// The mathematical value of a [`GenEd`].
#[verifier::ext_equal]
pub enum GenEdView {
    Core { name: Seq<char>, req: GenEdReqView },
}

/// The requirement `g` names the course `c`: `c` is in its list of courses,
/// or in one of its sets of courses.
pub open spec fn names_course(g: GenEdView, c: CourseCodeView) -> bool {
    match g {
        GenEdView::Core { req, .. } => match req {
            GenEdReqView::Courses { courses, .. } => courses.contains(c),
            GenEdReqView::SetOpts(sets) => exists|j: int| 0 <= j < sets.len() && #[trigger] sets[j].contains(c),
        },
    }
}

/// The requirement `g` can be met and lists nothing twice: a count of courses
/// asks for at least one and at most as many as are listed, with no course
/// listed twice, and every set of courses to choose from is non-empty.
pub open spec fn well_formed_gened(g: GenEdView) -> bool {
    match g {
        GenEdView::Core { req, .. } => match req {
            GenEdReqView::Courses { num, courses } => {
                &&& 1 <= num <= courses.len()
                &&& courses.no_duplicates()
            },
            GenEdReqView::SetOpts(sets) => forall|j: int| 0 <= j < sets.len() ==> #[trigger] sets[j].len() > 0,
        },
    }
}

/// A requirement met by a count of courses asks for one of them.
pub open spec fn asks_for_one_course(g: GenEdView) -> bool {
    match g {
        GenEdView::Core { req, .. } => match req {
            GenEdReqView::Courses { num, .. } => num == 1,
            GenEdReqView::SetOpts(_) => true,
        },
    }
}

impl DeepView for GenEdReq {
    type V = GenEdReqView;

    open spec fn deep_view(&self) -> GenEdReqView {
        match self {
            GenEdReq::Courses { num, courses } => GenEdReqView::Courses {
                num: *num,
                courses: courses.deep_view(),
            },
            GenEdReq::SetOpts(sets) => GenEdReqView::SetOpts(sets.deep_view()),
        }
    }
}

impl DeepView for GenEd {
    type V = GenEdView;

    open spec fn deep_view(&self) -> GenEdView {
        match self {
            GenEd::Core { name, req } => GenEdView::Core { name: name@, req: req.deep_view() },
        }
    }
}

} // verus!
