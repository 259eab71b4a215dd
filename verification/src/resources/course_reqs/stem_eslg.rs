//! Prerequisite rules of the ESLG courses.

use vstd::prelude::*;
use crate::prereqs::{conditions, conditions_all, taken_alongside, taken_alongside_all, taken_before, taken_before_all, CourseReq, ReqView, reqs2};
use crate::schedule::{CourseCode, CourseCodeView, course, keyed_by_stem};

verus! {

/// The prerequisite rule of each ESLG course, as pairs of course and rule in
/// the order in which they are listed.
#[verifier::opaque]
pub open spec fn prereq_table() -> Seq<(CourseCodeView, ReqView)> {
    seq![
        (
            course("ESLG"@, 2220),
            ReqView::Or(seq![ReqView::PreCourse(course("ESLG"@, 2050)), ReqView::Instructor]),
        ),
        (
            course("ESLG"@, 2930),
            ReqView::Or(seq![ReqView::PreCourse(course("ESLG"@, 2040)), ReqView::Instructor]),
        ),
    ]
}

/// The prerequisite rules of the ESLG courses, in the order in which they are listed.
pub fn prereqs() -> (table: Vec<(CourseCode, CourseReq)>)
    ensures
        table.deep_view() == prereq_table(),
        keyed_by_stem(table.deep_view(), "ESLG"@),
{
    proof {
        reveal(prereq_table);
    }
    let table = vec![
        (
            CourseCode::new("ESLG", 2220),
            CourseReq::any_of(
                reqs2(CourseReq::pre(CourseCode::new("ESLG", 2050)), CourseReq::instructor()),
            ),
        ),
        (
            CourseCode::new("ESLG", 2930),
            CourseReq::any_of(
                reqs2(CourseReq::pre(CourseCode::new("ESLG", 2040)), CourseReq::instructor()),
            ),
        ),
    ];
    assert(table.deep_view() =~= prereq_table());
    table
}

/// For each ESLG course in the order of the listing: the course, the courses
/// its rule demands outright to have been taken before, the courses it demands
/// outright to be taken before or alongside, and the single conditions that
/// its rule is built from.
pub open spec fn listed_demands() -> Seq<
    (CourseCodeView, Set<CourseCodeView>, Set<CourseCodeView>, Set<ReqView>),
> {
    seq![
        (
            course("ESLG"@, 2220),
            Set::empty(),
            Set::empty(),
            set![ReqView::PreCourse(course("ESLG"@, 2050)), ReqView::Instructor],
        ),
        (
            course("ESLG"@, 2930),
            Set::empty(),
            Set::empty(),
            set![ReqView::PreCourse(course("ESLG"@, 2040)), ReqView::Instructor],
        ),
    ]
}

/// Each ESLG rule demands before and alongside exactly the courses listed for
/// it, and is built from exactly the conditions listed for it.
pub proof fn law_listed_demands()
    ensures
        prereq_table().len() == listed_demands().len(),
        forall|i: int|
            0 <= i < prereq_table().len() ==> {
                &&& #[trigger] prereq_table()[i].0 == listed_demands()[i].0
                &&& taken_before(prereq_table()[i].1) == listed_demands()[i].1
                &&& taken_alongside(prereq_table()[i].1) == listed_demands()[i].2
                &&& conditions(prereq_table()[i].1) == listed_demands()[i].3
            },
{
    reveal(prereq_table);
    reveal_with_fuel(taken_before, 8);
    reveal_with_fuel(taken_before_all, 10);
    reveal_with_fuel(taken_alongside, 8);
    reveal_with_fuel(taken_alongside_all, 10);
    reveal_with_fuel(conditions, 8);
    reveal_with_fuel(conditions_all, 10);
    assert(taken_before(prereq_table()[0].1) =~= listed_demands()[0].1);
    assert(taken_alongside(prereq_table()[0].1) =~= listed_demands()[0].2);
    assert(conditions(prereq_table()[0].1) =~= listed_demands()[0].3);
    assert(taken_before(prereq_table()[1].1) =~= listed_demands()[1].1);
    assert(taken_alongside(prereq_table()[1].1) =~= listed_demands()[1].2);
    assert(conditions(prereq_table()[1].1) =~= listed_demands()[1].3);
}

/// Every course of the ESLG table is a course of subject ESLG.
pub proof fn law_keyed_by_subject()
    ensures
        keyed_by_stem(prereq_table(), "ESLG"@),
{
    reveal(prereq_table);
}

} // verus!
