//! Prerequisite rules of the ENTR courses.

use vstd::prelude::*;
use crate::prereqs::{conditions, conditions_all, taken_alongside, taken_alongside_all, taken_before, taken_before_all, CourseReq, ReqView, reqs4};
use crate::schedule::{CourseCode, CourseCodeView, course, keyed_by_stem};

verus! {

/// The prerequisite rule of each ENTR course, as pairs of course and rule in
/// the order in which they are listed.
#[verifier::opaque]
pub open spec fn prereq_table() -> Seq<(CourseCodeView, ReqView)> {
    seq![
        (course("ENTR"@, 3100), ReqView::PreCourse(course("MGMT"@, 2250))),
        (course("ENTR"@, 4100), ReqView::PreCourse(course("ENTR"@, 2100))),
        (
            course("ENTR"@, 4900),
            ReqView::And(
                seq![
                    ReqView::PreCourse(course("ENTR"@, 3100)),
                    ReqView::PreCourse(course("ENTR"@, 3110)),
                    ReqView::PreCourse(course("ENTR"@, 3120)),
                    ReqView::PreCourse(course("ENTR"@, 4110)),
                ],
            ),
        ),
    ]
}

/// The prerequisite rules of the ENTR courses, in the order in which they are listed.
pub fn prereqs() -> (table: Vec<(CourseCode, CourseReq)>)
    ensures
        table.deep_view() == prereq_table(),
        keyed_by_stem(table.deep_view(), "ENTR"@),
{
    proof {
        reveal(prereq_table);
    }
    let table = vec![
        (CourseCode::new("ENTR", 3100), CourseReq::pre(CourseCode::new("MGMT", 2250))),
        (CourseCode::new("ENTR", 4100), CourseReq::pre(CourseCode::new("ENTR", 2100))),
        (
            CourseCode::new("ENTR", 4900),
            CourseReq::all_of(
                reqs4(
                    CourseReq::pre(CourseCode::new("ENTR", 3100)),
                    CourseReq::pre(CourseCode::new("ENTR", 3110)),
                    CourseReq::pre(CourseCode::new("ENTR", 3120)),
                    CourseReq::pre(CourseCode::new("ENTR", 4110)),
                ),
            ),
        ),
    ];
    assert(table.deep_view() =~= prereq_table());
    table
}

/// For each ENTR course in the order of the listing: the course, the courses
/// its rule demands outright to have been taken before, the courses it demands
/// outright to be taken before or alongside, and the single conditions that
/// its rule is built from.
pub open spec fn listed_demands() -> Seq<
    (CourseCodeView, Set<CourseCodeView>, Set<CourseCodeView>, Set<ReqView>),
> {
    seq![
        (
            course("ENTR"@, 3100),
            set![course("MGMT"@, 2250)],
            Set::empty(),
            set![ReqView::PreCourse(course("MGMT"@, 2250))],
        ),
        (
            course("ENTR"@, 4100),
            set![course("ENTR"@, 2100)],
            Set::empty(),
            set![ReqView::PreCourse(course("ENTR"@, 2100))],
        ),
        (
            course("ENTR"@, 4900),
            set![course("ENTR"@, 3100), course("ENTR"@, 3110), course("ENTR"@, 3120), course("ENTR"@, 4110)],
            Set::empty(),
            set![ReqView::PreCourse(course("ENTR"@, 3100)), ReqView::PreCourse(course("ENTR"@, 3110)), ReqView::PreCourse(course("ENTR"@, 3120)), ReqView::PreCourse(course("ENTR"@, 4110))],
        ),
    ]
}

/// Each ENTR rule demands before and alongside exactly the courses listed for
/// it, and is built from exactly the conditions listed for it.
pub proof fn law_listed_demands()
    ensures
        prereq_table().len() == listed_demands().len(),
        forall|i: int|
            0 <= i < prereq_table().len() ==> {
                &&& #[trigger] prereq_table()[i].0 == listed_demands()[i].0
                &&& taken_before(prereq_table()[i].1) == listed_demands()[i].1
                &&& taken_alongside(prereq_table()[i].1) == listed_demands()[i].2
                &&& conditions(prereq_table()[i].1) == listed_demands()[i].3
            },
{
    reveal(prereq_table);
    reveal_with_fuel(taken_before, 8);
    reveal_with_fuel(taken_before_all, 10);
    reveal_with_fuel(taken_alongside, 8);
    reveal_with_fuel(taken_alongside_all, 10);
    reveal_with_fuel(conditions, 8);
    reveal_with_fuel(conditions_all, 10);
    assert(taken_before(prereq_table()[0].1) =~= listed_demands()[0].1);
    assert(taken_alongside(prereq_table()[0].1) =~= listed_demands()[0].2);
    assert(conditions(prereq_table()[0].1) =~= listed_demands()[0].3);
    assert(taken_before(prereq_table()[1].1) =~= listed_demands()[1].1);
    assert(taken_alongside(prereq_table()[1].1) =~= listed_demands()[1].2);
    assert(conditions(prereq_table()[1].1) =~= listed_demands()[1].3);
    assert(taken_before(prereq_table()[2].1) =~= listed_demands()[2].1);
    assert(taken_alongside(prereq_table()[2].1) =~= listed_demands()[2].2);
    assert(conditions(prereq_table()[2].1) =~= listed_demands()[2].3);
}

/// Every course of the ENTR table is a course of subject ENTR.
pub proof fn law_keyed_by_subject()
    ensures
        keyed_by_stem(prereq_table(), "ENTR"@),
{
    reveal(prereq_table);
}

} // verus!
