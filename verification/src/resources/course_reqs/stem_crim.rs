//! Prerequisite rules of the CRIM courses.

use vstd::prelude::*;
use crate::prereqs::{conditions, conditions_all, taken_alongside, taken_alongside_all, taken_before, taken_before_all, CourseReq, ReqView};
use crate::schedule::{CourseCode, CourseCodeView, course, keyed_by_stem};

verus! {

/// The prerequisite rule of each CRIM course, as pairs of course and rule in
/// the order in which they are listed.
#[verifier::opaque]
pub open spec fn prereq_table() -> Seq<(CourseCodeView, ReqView)> {
    seq![
        (course("CRIM"@, 3000), ReqView::PreCourse(course("CRIM"@, 1000))),
        (course("CRIM"@, 3050), ReqView::PreCourse(course("CRIM"@, 1000))),
        (course("CRIM"@, 3220), ReqView::PreCourse(course("CRIM"@, 3100))),
    ]
}

/// The prerequisite rules of the CRIM courses, in the order in which they are listed.
pub fn prereqs() -> (table: Vec<(CourseCode, CourseReq)>)
    ensures
        table.deep_view() == prereq_table(),
        keyed_by_stem(table.deep_view(), "CRIM"@),
{
    proof {
        reveal(prereq_table);
    }
    let table = vec![
        (CourseCode::new("CRIM", 3000), CourseReq::pre(CourseCode::new("CRIM", 1000))),
        (CourseCode::new("CRIM", 3050), CourseReq::pre(CourseCode::new("CRIM", 1000))),
        (CourseCode::new("CRIM", 3220), CourseReq::pre(CourseCode::new("CRIM", 3100))),
    ];
    assert(table.deep_view() =~= prereq_table());
    table
}

/// For each CRIM course in the order of the listing: the course, the courses
/// its rule demands outright to have been taken before, the courses it demands
/// outright to be taken before or alongside, and the single conditions that
/// its rule is built from.
pub open spec fn listed_demands() -> Seq<
    (CourseCodeView, Set<CourseCodeView>, Set<CourseCodeView>, Set<ReqView>),
> {
    seq![
        (
            course("CRIM"@, 3000),
            set![course("CRIM"@, 1000)],
            Set::empty(),
            set![ReqView::PreCourse(course("CRIM"@, 1000))],
        ),
        (
            course("CRIM"@, 3050),
            set![course("CRIM"@, 1000)],
            Set::empty(),
            set![ReqView::PreCourse(course("CRIM"@, 1000))],
        ),
        (
            course("CRIM"@, 3220),
            set![course("CRIM"@, 3100)],
            Set::empty(),
            set![ReqView::PreCourse(course("CRIM"@, 3100))],
        ),
    ]
}

/// Each CRIM rule demands before and alongside exactly the courses listed for
/// it, and is built from exactly the conditions listed for it.
pub proof fn law_listed_demands()
    ensures
        prereq_table().len() == listed_demands().len(),
        forall|i: int|
            0 <= i < prereq_table().len() ==> {
                &&& #[trigger] prereq_table()[i].0 == listed_demands()[i].0
                &&& taken_before(prereq_table()[i].1) == listed_demands()[i].1
                &&& taken_alongside(prereq_table()[i].1) == listed_demands()[i].2
                &&& conditions(prereq_table()[i].1) == listed_demands()[i].3
            },
{
    reveal(prereq_table);
    reveal_with_fuel(taken_before, 8);
    reveal_with_fuel(taken_before_all, 10);
    reveal_with_fuel(taken_alongside, 8);
    reveal_with_fuel(taken_alongside_all, 10);
    reveal_with_fuel(conditions, 8);
    reveal_with_fuel(conditions_all, 10);
    assert(taken_before(prereq_table()[0].1) =~= listed_demands()[0].1);
    assert(taken_alongside(prereq_table()[0].1) =~= listed_demands()[0].2);
    assert(conditions(prereq_table()[0].1) =~= listed_demands()[0].3);
    assert(taken_before(prereq_table()[1].1) =~= listed_demands()[1].1);
    assert(taken_alongside(prereq_table()[1].1) =~= listed_demands()[1].2);
    assert(conditions(prereq_table()[1].1) =~= listed_demands()[1].3);
    assert(taken_before(prereq_table()[2].1) =~= listed_demands()[2].1);
    assert(taken_alongside(prereq_table()[2].1) =~= listed_demands()[2].2);
    assert(conditions(prereq_table()[2].1) =~= listed_demands()[2].3);
}

/// Every course of the CRIM table is a course of subject CRIM.
pub proof fn law_keyed_by_subject()
    ensures
        keyed_by_stem(prereq_table(), "CRIM"@),
{
    reveal(prereq_table);
}

} // verus!
