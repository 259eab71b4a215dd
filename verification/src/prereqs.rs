//! Prerequisite rules: what a student must have taken, be taking, or be,
//! before enrolling in a course.

use vstd::prelude::*;
use crate::schedule::{CourseCode, CourseCodeView};

verus! {

/// The letter of a grade.
#[derive(Clone, Copy, Debug, PartialEq, Eq, Hash)]
pub enum GradeLetter {
    A,
    B,
    C,
    D,
    F,
}

/// The mark after a grade's letter: `+`, `-`, or none.
#[derive(Clone, Copy, Debug, PartialEq, Eq, Hash)]
pub enum GradeQualifier {
    Plus,
    Minus,
    Flat,
}

/// A letter grade such as `C+`.
#[derive(Clone, Copy, Debug, PartialEq, Eq, Hash)]
pub struct Grade {
    pub letter: GradeLetter,
    pub qualifier: GradeQualifier,
}

/// The grade with the given letter and mark.
pub open spec fn grade_of(letter: GradeLetter, qualifier: GradeQualifier) -> Grade {
    Grade { letter, qualifier }
}

impl Grade {
    /// The grade with the given letter and mark.
    pub fn new(letter: GradeLetter, qualifier: GradeQualifier) -> (g: Grade)
        ensures
            g == grade_of(letter, qualifier),
    {
        Grade { letter, qualifier }
    }
}

/// A student's year of study.
#[derive(Clone, Copy, Debug, PartialEq, Eq, Hash)]
pub enum ClassStanding {
    Freshman,
    Sophomore,
    Junior,
    Senior,
}

/// A prerequisite rule.
#[derive(Debug, PartialEq, Eq, Hash)]
pub enum CourseReq {
    /// Every one of the rules holds.
    And(Vec<CourseReq>),
    /// At least one of the rules holds.
    Or(Vec<CourseReq>),
    /// The course has been taken before.
    PreCourse(CourseCode),
    /// The course has been taken before, with at least the grade.
    PreCourseGrade(CourseCode, Grade),
    /// The course is taken before or in the same term.
    CoCourse(CourseCode),
    /// The student has reached the standing.
    Standing(ClassStanding),
    /// The instructor consents.
    Instructor,
}

/// The mathematical value of a [`CourseReq`].
#[verifier::ext_equal]
pub enum ReqView {
    And(Seq<ReqView>),
    Or(Seq<ReqView>),
    PreCourse(CourseCodeView),
    PreCourseGrade(CourseCodeView, Grade),
    CoCourse(CourseCodeView),
    Standing(ClassStanding),
    Instructor,
}

impl CourseReq {
    /// The value of the rule; the rules under `And` and `Or` are taken in order.
    pub open spec fn req_view(&self) -> ReqView
        decreases self,
    {
        match self {
            CourseReq::And(v) => ReqView::And(
                Seq::new(
                    v@.len(),
                    |i: int|
                        if 0 <= i < v@.len() {
                            v@[i].req_view()
                        } else {
                            ReqView::Instructor
                        },
                ),
            ),
            CourseReq::Or(v) => ReqView::Or(
                Seq::new(
                    v@.len(),
                    |i: int|
                        if 0 <= i < v@.len() {
                            v@[i].req_view()
                        } else {
                            ReqView::Instructor
                        },
                ),
            ),
            CourseReq::PreCourse(c) => ReqView::PreCourse(c.deep_view()),
            CourseReq::PreCourseGrade(c, g) => ReqView::PreCourseGrade(c.deep_view(), *g),
            CourseReq::CoCourse(c) => ReqView::CoCourse(c.deep_view()),
            CourseReq::Standing(s) => ReqView::Standing(*s),
            CourseReq::Instructor => ReqView::Instructor,
        }
    }

    /// The rule that holds when all of `reqs` hold.
    pub fn all_of(reqs: Vec<CourseReq>) -> (r: CourseReq)
        ensures
            r.deep_view() == ReqView::And(reqs.deep_view()),
    {
        let r = CourseReq::And(reqs);
        assert(r.deep_view()->And_0 =~= reqs.deep_view());
        r
    }

    /// The rule that holds when one of `reqs` holds.
    pub fn any_of(reqs: Vec<CourseReq>) -> (r: CourseReq)
        ensures
            r.deep_view() == ReqView::Or(reqs.deep_view()),
    {
        let r = CourseReq::Or(reqs);
        assert(r.deep_view()->Or_0 =~= reqs.deep_view());
        r
    }

    /// The rule that `course` has been taken.
    pub fn pre(course: CourseCode) -> (r: CourseReq)
        ensures
            r.deep_view() == ReqView::PreCourse(course.deep_view()),
    {
        CourseReq::PreCourse(course)
    }

    /// The rule that `course` has been taken with at least `grade`.
    pub fn pre_grade(course: CourseCode, grade: Grade) -> (r: CourseReq)
        ensures
            r.deep_view() == ReqView::PreCourseGrade(course.deep_view(), grade),
    {
        CourseReq::PreCourseGrade(course, grade)
    }

    /// The rule that `course` is taken before or alongside.
    pub fn co(course: CourseCode) -> (r: CourseReq)
        ensures
            r.deep_view() == ReqView::CoCourse(course.deep_view()),
    {
        CourseReq::CoCourse(course)
    }

    /// The rule that the student has reached `standing`.
    pub fn standing(standing: ClassStanding) -> (r: CourseReq)
        ensures
            r.deep_view() == ReqView::Standing(standing),
    {
        CourseReq::Standing(standing)
    }

    /// The rule that the instructor consents.
    pub fn instructor() -> (r: CourseReq)
        ensures
            r.deep_view() == ReqView::Instructor,
    {
        CourseReq::Instructor
    }
}

impl DeepView for CourseReq {
    type V = ReqView;

    open spec fn deep_view(&self) -> ReqView {
        self.req_view()
    }
}

/// The courses that the rule demands outright to have been taken before: those
/// it names as prior courses (with or without a grade), alone or among rules
/// that must all hold. A course named only among alternatives is not demanded.
pub open spec fn taken_before(r: ReqView) -> Set<CourseCodeView>
    decreases r,
{
    match r {
        ReqView::PreCourse(c) => set![c],
        ReqView::PreCourseGrade(c, _) => set![c],
        ReqView::And(rs) => taken_before_all(rs),
        _ => Set::empty(),
    }
}

/// The courses that each of the rules `rs` demands outright to have been taken before.
pub open spec fn taken_before_all(rs: Seq<ReqView>) -> Set<CourseCodeView>
    decreases rs,
{
    if rs.len() == 0 {
        Set::empty()
    } else {
        taken_before_all(rs.drop_last()).union(taken_before(rs.last()))
    }
}

/// The courses that the rule demands outright to be taken before or in the
/// same term: those it names as co-requisites, alone or among rules that must
/// all hold.
pub open spec fn taken_alongside(r: ReqView) -> Set<CourseCodeView>
    decreases r,
{
    match r {
        ReqView::CoCourse(c) => set![c],
        ReqView::And(rs) => taken_alongside_all(rs),
        _ => Set::empty(),
    }
}

/// The courses that each of the rules `rs` demands outright to be taken alongside.
pub open spec fn taken_alongside_all(rs: Seq<ReqView>) -> Set<CourseCodeView>
    decreases rs,
{
    if rs.len() == 0 {
        Set::empty()
    } else {
        taken_alongside_all(rs.drop_last()).union(taken_alongside(rs.last()))
    }
}

/// The single conditions that the rule is built from, wherever they stand in
/// it: prior courses (with their grades), co-requisites, standings and consent.
pub open spec fn conditions(r: ReqView) -> Set<ReqView>
    decreases r,
{
    match r {
        ReqView::And(rs) => conditions_all(rs),
        ReqView::Or(rs) => conditions_all(rs),
        _ => set![r],
    }
}

/// The single conditions that the rules `rs` are built from.
pub open spec fn conditions_all(rs: Seq<ReqView>) -> Set<ReqView>
    decreases rs,
{
    if rs.len() == 0 {
        Set::empty()
    } else {
        conditions_all(rs.drop_last()).union(conditions(rs.last()))
    }
}

/// The list of the two rules, in order.
pub(crate) fn reqs2(a: CourseReq, b: CourseReq) -> (v: Vec<CourseReq>)
    ensures
        v.deep_view() == seq![a.deep_view(), b.deep_view()],
{
    let v = vec![a, b];
    assert(v.deep_view() =~= seq![a.deep_view(), b.deep_view()]);
    v
}

/// The list of the three rules, in order.
pub(crate) fn reqs3(a: CourseReq, b: CourseReq, c: CourseReq) -> (v: Vec<CourseReq>)
    ensures
        v.deep_view() == seq![a.deep_view(), b.deep_view(), c.deep_view()],
{
    let v = vec![a, b, c];
    assert(v.deep_view() =~= seq![a.deep_view(), b.deep_view(), c.deep_view()]);
    v
}

/// The list of the four rules, in order.
pub(crate) fn reqs4(a: CourseReq, b: CourseReq, c: CourseReq, d: CourseReq) -> (v: Vec<CourseReq>)
    ensures
        v.deep_view() == seq![a.deep_view(), b.deep_view(), c.deep_view(), d.deep_view()],
{
    let v = vec![a, b, c, d];
    assert(v.deep_view() =~= seq![a.deep_view(), b.deep_view(), c.deep_view(), d.deep_view()]);
    v
}

/// The list of the five rules, in order.
pub(crate) fn reqs5(a: CourseReq, b: CourseReq, c: CourseReq, d: CourseReq, e: CourseReq) -> (v: Vec<
    CourseReq,
>)
    ensures
        v.deep_view() == seq![
            a.deep_view(),
            b.deep_view(),
            c.deep_view(),
            d.deep_view(),
            e.deep_view(),
        ],
{
    let v = vec![a, b, c, d, e];
    assert(v.deep_view() =~= seq![
        a.deep_view(),
        b.deep_view(),
        c.deep_view(),
        d.deep_view(),
        e.deep_view(),
    ]);
    v
}

/// The list of the six rules, in order.
pub(crate) fn reqs6(
    a: CourseReq,
    b: CourseReq,
    c: CourseReq,
    d: CourseReq,
    e: CourseReq,
    f: CourseReq,
) -> (v: Vec<CourseReq>)
    ensures
        v.deep_view() == seq![
            a.deep_view(),
            b.deep_view(),
            c.deep_view(),
            d.deep_view(),
            e.deep_view(),
            f.deep_view(),
        ],
{
    let v = vec![a, b, c, d, e, f];
    assert(v.deep_view() =~= seq![
        a.deep_view(),
        b.deep_view(),
        c.deep_view(),
        d.deep_view(),
        e.deep_view(),
        f.deep_view(),
    ]);
    v
}

} // verus!
