//! Prerequisite rules of the GRBK courses.

use vstd::prelude::*;
use crate::prereqs::{conditions, conditions_all, taken_alongside, taken_alongside_all, taken_before, taken_before_all, CourseReq, ReqView, reqs3};
use crate::schedule::{CourseCode, CourseCodeView, course, keyed_by_stem};

verus! {

/// The prerequisite rule of each GRBK course, as pairs of course and rule in
/// the order in which they are listed.
#[verifier::opaque]
pub open spec fn prereq_table() -> Seq<(CourseCodeView, ReqView)> {
    seq![
        (
            course("GRBK"@, 3750),
            ReqView::And(
                seq![
                    ReqView::PreCourse(course("GRBK"@, 1750)),
                    ReqView::PreCourse(course("GRBK"@, 2750)),
                    ReqView::PreCourse(course("GRBK"@, 2850)),
                ],
            ),
        ),
    ]
}

/// The prerequisite rules of the GRBK courses, in the order in which they are listed.
pub fn prereqs() -> (table: Vec<(CourseCode, CourseReq)>)
    ensures
        table.deep_view() == prereq_table(),
        keyed_by_stem(table.deep_view(), "GRBK"@),
{
    proof {
        reveal(prereq_table);
    }
    let table = vec![
        (
            CourseCode::new("GRBK", 3750),
            CourseReq::all_of(
                reqs3(
                    CourseReq::pre(CourseCode::new("GRBK", 1750)),
                    CourseReq::pre(CourseCode::new("GRBK", 2750)),
                    CourseReq::pre(CourseCode::new("GRBK", 2850)),
                ),
            ),
        ),
    ];
    assert(table.deep_view() =~= prereq_table());
    table
}

/// For each GRBK course in the order of the listing: the course, the courses
/// its rule demands outright to have been taken before, the courses it demands
/// outright to be taken before or alongside, and the single conditions that
/// its rule is built from.
pub open spec fn listed_demands() -> Seq<
    (CourseCodeView, Set<CourseCodeView>, Set<CourseCodeView>, Set<ReqView>),
> {
    seq![
        (
            course("GRBK"@, 3750),
            set![course("GRBK"@, 1750), course("GRBK"@, 2750), course("GRBK"@, 2850)],
            Set::empty(),
            set![ReqView::PreCourse(course("GRBK"@, 1750)), ReqView::PreCourse(course("GRBK"@, 2750)), ReqView::PreCourse(course("GRBK"@, 2850))],
        ),
    ]
}

/// Each GRBK rule demands before and alongside exactly the courses listed for
/// it, and is built from exactly the conditions listed for it.
pub proof fn law_listed_demands()
    ensures
        prereq_table().len() == listed_demands().len(),
        forall|i: int|
            0 <= i < prereq_table().len() ==> {
                &&& #[trigger] prereq_table()[i].0 == listed_demands()[i].0
                &&& taken_before(prereq_table()[i].1) == listed_demands()[i].1
                &&& taken_alongside(prereq_table()[i].1) == listed_demands()[i].2
                &&& conditions(prereq_table()[i].1) == listed_demands()[i].3
            },
{
    reveal(prereq_table);
    reveal_with_fuel(taken_before, 8);
    reveal_with_fuel(taken_before_all, 10);
    reveal_with_fuel(taken_alongside, 8);
    reveal_with_fuel(taken_alongside_all, 10);
    reveal_with_fuel(conditions, 8);
    reveal_with_fuel(conditions_all, 10);
    assert(taken_before(prereq_table()[0].1) =~= listed_demands()[0].1);
    assert(taken_alongside(prereq_table()[0].1) =~= listed_demands()[0].2);
    assert(conditions(prereq_table()[0].1) =~= listed_demands()[0].3);
}

/// Every course of the GRBK table is a course of subject GRBK.
pub proof fn law_keyed_by_subject()
    ensures
        keyed_by_stem(prereq_table(), "GRBK"@),
{
    reveal(prereq_table);
}

} // verus!
