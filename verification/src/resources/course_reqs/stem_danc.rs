//! Prerequisite rules of the DANC courses.

use vstd::prelude::*;
use crate::prereqs::{conditions, conditions_all, taken_alongside, taken_alongside_all, taken_before, taken_before_all, CourseReq, ReqView, reqs2, reqs3};
use crate::schedule::{CourseCode, CourseCodeView, course, keyed_by_stem};

verus! {

/// The prerequisite rule of each DANC course, as pairs of course and rule in
/// the order in which they are listed.
#[verifier::opaque]
pub open spec fn prereq_table() -> Seq<(CourseCodeView, ReqView)> {
    seq![
        (
            course("DANC"@, 2020),
            ReqView::And(
                seq![
                    ReqView::PreCourse(course("DANC"@, 1010)),
                    ReqView::PreCourse(course("DANC"@, 2055)),
                ],
            ),
        ),
        (course("DANC"@, 2040), ReqView::PreCourse(course("DANC"@, 1010))),
        (course("DANC"@, 2050), ReqView::PreCourse(course("DANC"@, 1010))),
        (course("DANC"@, 2055), ReqView::PreCourse(course("DANC"@, 1010))),
        (course("DANC"@, 2065), ReqView::PreCourse(course("DANC"@, 1010))),
        (course("DANC"@, 2080), ReqView::PreCourse(course("DANC"@, 1010))),
        (course("DANC"@, 2085), ReqView::PreCourse(course("DANC"@, 1010))),
        (
            course("DANC"@, 3010),
            ReqView::And(
                seq![
                    ReqView::PreCourse(course("DANC"@, 2040)),
                    ReqView::PreCourse(course("DANC"@, 2055)),
                    ReqView::PreCourse(course("DANC"@, 2080)),
                ],
            ),
        ),
        (course("DANC"@, 3500), ReqView::PreCourse(course("DANC"@, 3010))),
    ]
}

/// The prerequisite rules of the DANC courses, in the order in which they are listed.
pub fn prereqs() -> (table: Vec<(CourseCode, CourseReq)>)
    ensures
        table.deep_view() == prereq_table(),
        keyed_by_stem(table.deep_view(), "DANC"@),
{
    proof {
        reveal(prereq_table);
    }
    let table = vec![
        (
            CourseCode::new("DANC", 2020),
            CourseReq::all_of(
                reqs2(
                    CourseReq::pre(CourseCode::new("DANC", 1010)),
                    CourseReq::pre(CourseCode::new("DANC", 2055)),
                ),
            ),
        ),
        (CourseCode::new("DANC", 2040), CourseReq::pre(CourseCode::new("DANC", 1010))),
        (CourseCode::new("DANC", 2050), CourseReq::pre(CourseCode::new("DANC", 1010))),
        (CourseCode::new("DANC", 2055), CourseReq::pre(CourseCode::new("DANC", 1010))),
        (CourseCode::new("DANC", 2065), CourseReq::pre(CourseCode::new("DANC", 1010))),
        (CourseCode::new("DANC", 2080), CourseReq::pre(CourseCode::new("DANC", 1010))),
        (CourseCode::new("DANC", 2085), CourseReq::pre(CourseCode::new("DANC", 1010))),
        (
            CourseCode::new("DANC", 3010),
            CourseReq::all_of(
                reqs3(
                    CourseReq::pre(CourseCode::new("DANC", 2040)),
                    CourseReq::pre(CourseCode::new("DANC", 2055)),
                    CourseReq::pre(CourseCode::new("DANC", 2080)),
                ),
            ),
        ),
        (CourseCode::new("DANC", 3500), CourseReq::pre(CourseCode::new("DANC", 3010))),
    ];
    assert(table.deep_view() =~= prereq_table());
    table
}

/// For each DANC course in the order of the listing: the course, the courses
/// its rule demands outright to have been taken before, the courses it demands
/// outright to be taken before or alongside, and the single conditions that
/// its rule is built from.
pub open spec fn listed_demands() -> Seq<
    (CourseCodeView, Set<CourseCodeView>, Set<CourseCodeView>, Set<ReqView>),
> {
    seq![
        (
            course("DANC"@, 2020),
            set![course("DANC"@, 1010), course("DANC"@, 2055)],
            Set::empty(),
            set![ReqView::PreCourse(course("DANC"@, 1010)), ReqView::PreCourse(course("DANC"@, 2055))],
        ),
        (
            course("DANC"@, 2040),
            set![course("DANC"@, 1010)],
            Set::empty(),
            set![ReqView::PreCourse(course("DANC"@, 1010))],
        ),
        (
            course("DANC"@, 2050),
            set![course("DANC"@, 1010)],
            Set::empty(),
            set![ReqView::PreCourse(course("DANC"@, 1010))],
        ),
        (
            course("DANC"@, 2055),
            set![course("DANC"@, 1010)],
            Set::empty(),
            set![ReqView::PreCourse(course("DANC"@, 1010))],
        ),
        (
            course("DANC"@, 2065),
            set![course("DANC"@, 1010)],
            Set::empty(),
            set![ReqView::PreCourse(course("DANC"@, 1010))],
        ),
        (
            course("DANC"@, 2080),
            set![course("DANC"@, 1010)],
            Set::empty(),
            set![ReqView::PreCourse(course("DANC"@, 1010))],
        ),
        (
            course("DANC"@, 2085),
            set![course("DANC"@, 1010)],
            Set::empty(),
            set![ReqView::PreCourse(course("DANC"@, 1010))],
        ),
        (
            course("DANC"@, 3010),
            set![course("DANC"@, 2040), course("DANC"@, 2055), course("DANC"@, 2080)],
            Set::empty(),
            set![ReqView::PreCourse(course("DANC"@, 2040)), ReqView::PreCourse(course("DANC"@, 2055)), ReqView::PreCourse(course("DANC"@, 2080))],
        ),
        (
            course("DANC"@, 3500),
            set![course("DANC"@, 3010)],
            Set::empty(),
            set![ReqView::PreCourse(course("DANC"@, 3010))],
        ),
    ]
}

/// Each DANC rule demands before and alongside exactly the courses listed for
/// it, and is built from exactly the conditions listed for it.
pub proof fn law_listed_demands()
    ensures
        prereq_table().len() == listed_demands().len(),
        forall|i: int|
            0 <= i < prereq_table().len() ==> {
                &&& #[trigger] prereq_table()[i].0 == listed_demands()[i].0
                &&& taken_before(prereq_table()[i].1) == listed_demands()[i].1
                &&& taken_alongside(prereq_table()[i].1) == listed_demands()[i].2
                &&& conditions(prereq_table()[i].1) == listed_demands()[i].3
            },
{
    reveal(prereq_table);
    reveal_with_fuel(taken_before, 8);
    reveal_with_fuel(taken_before_all, 10);
    reveal_with_fuel(taken_alongside, 8);
    reveal_with_fuel(taken_alongside_all, 10);
    reveal_with_fuel(conditions, 8);
    reveal_with_fuel(conditions_all, 10);
    assert(taken_before(prereq_table()[0].1) =~= listed_demands()[0].1);
    assert(taken_alongside(prereq_table()[0].1) =~= listed_demands()[0].2);
    assert(conditions(prereq_table()[0].1) =~= listed_demands()[0].3);
    assert(taken_before(prereq_table()[1].1) =~= listed_demands()[1].1);
    assert(taken_alongside(prereq_table()[1].1) =~= listed_demands()[1].2);
    assert(conditions(prereq_table()[1].1) =~= listed_demands()[1].3);
    assert(taken_before(prereq_table()[2].1) =~= listed_demands()[2].1);
    assert(taken_alongside(prereq_table()[2].1) =~= listed_demands()[2].2);
    assert(conditions(prereq_table()[2].1) =~= listed_demands()[2].3);
    assert(taken_before(prereq_table()[3].1) =~= listed_demands()[3].1);
    assert(taken_alongside(prereq_table()[3].1) =~= listed_demands()[3].2);
    assert(conditions(prereq_table()[3].1) =~= listed_demands()[3].3);
    assert(taken_before(prereq_table()[4].1) =~= listed_demands()[4].1);
    assert(taken_alongside(prereq_table()[4].1) =~= listed_demands()[4].2);
    assert(conditions(prereq_table()[4].1) =~= listed_demands()[4].3);
    assert(taken_before(prereq_table()[5].1) =~= listed_demands()[5].1);
    assert(taken_alongside(prereq_table()[5].1) =~= listed_demands()[5].2);
    assert(conditions(prereq_table()[5].1) =~= listed_demands()[5].3);
    assert(taken_before(prereq_table()[6].1) =~= listed_demands()[6].1);
    assert(taken_alongside(prereq_table()[6].1) =~= listed_demands()[6].2);
    assert(conditions(prereq_table()[6].1) =~= listed_demands()[6].3);
    assert(taken_before(prereq_table()[7].1) =~= listed_demands()[7].1);
    assert(taken_alongside(prereq_table()[7].1) =~= listed_demands()[7].2);
    assert(conditions(prereq_table()[7].1) =~= listed_demands()[7].3);
    assert(taken_before(prereq_table()[8].1) =~= listed_demands()[8].1);
    assert(taken_alongside(prereq_table()[8].1) =~= listed_demands()[8].2);
    assert(conditions(prereq_table()[8].1) =~= listed_demands()[8].3);
}

/// Every course of the DANC table is a course of subject DANC.
pub proof fn law_keyed_by_subject()
    ensures
        keyed_by_stem(prereq_table(), "DANC"@),
{
    reveal(prereq_table);
}

} // verus!
