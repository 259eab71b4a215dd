//! Prerequisite rules of the CHEM courses.

use vstd::prelude::*;
use crate::prereqs::{conditions, conditions_all, taken_alongside, taken_alongside_all, taken_before, taken_before_all, CourseReq, ReqView, reqs2, reqs3};
use crate::schedule::{CourseCode, CourseCodeView, course, special_course, keyed_by_stem};

verus! {

/// The prerequisite rule of each CHEM course, as pairs of course and rule in
/// the order in which they are listed.
#[verifier::opaque]
pub open spec fn prereq_table() -> Seq<(CourseCodeView, ReqView)> {
    seq![
        (
            course("CHEM"@, 2200),
            ReqView::And(
                seq![
                    ReqView::PreCourse(course("CHEM"@, 1210)),
                    ReqView::PreCourse(course("CHEM"@, 1211)),
                ],
            ),
        ),
        (course("CHEM"@, 1210), ReqView::PreCourse(course("CHEM"@, 1201))),
        (course("CHEM"@, 2210), ReqView::PreCourse(course("CHEM"@, 2200))),
        (course("CHEM"@, 2211), ReqView::PreCourse(course("CHEM"@, 2201))),
        (
            course("CHEM"@, 3150),
            ReqView::And(
                seq![
                    ReqView::PreCourse(course("CHEM"@, 1210)),
                    ReqView::PreCourse(course("MATH"@, 1350)),
                    ReqView::PreCourse(course("PHYS"@, 2110)),
                ],
            ),
        ),
        (course("CHEM"@, 3250), ReqView::PreCourse(course("CHEM"@, 2200))),
        (
            course("CHEM"@, 3300),
            ReqView::And(
                seq![
                    ReqView::PreCourse(course("CHEM"@, 1210)),
                    ReqView::PreCourse(course("CHEM"@, 1211)),
                ],
            ),
        ),
        (
            course("CHEM"@, 3311),
            ReqView::And(
                seq![
                    ReqView::PreCourse(course("CHEM"@, 3300)),
                    ReqView::PreCourse(course("CHEM"@, 3301)),
                ],
            ),
        ),
        (
            course("CHEM"@, 3400),
            ReqView::And(
                seq![
                    ReqView::PreCourse(course("CHEM"@, 2210)),
                    ReqView::PreCourse(course("CHEM"@, 2211)),
                ],
            ),
        ),
        (
            course("CHEM"@, 3500),
            ReqView::And(
                seq![
                    ReqView::PreCourse(course("CHEM"@, 2210)),
                    ReqView::PreCourse(course("CHEM"@, 2211)),
                ],
            ),
        ),
        (course("CHEM"@, 3510), ReqView::PreCourse(course("CHEM"@, 2500))),
        (course("CHEM"@, 3510), ReqView::PreCourse(course("CHEM"@, 3500))),
        (
            special_course("CHEM"@, "terminate"@),
            ReqView::PreCourse(special_course("CHEM"@, "EXIT"@)),
        ),
    ]
}

/// The prerequisite rules of the CHEM courses, in the order in which they are listed.
pub fn prereqs() -> (table: Vec<(CourseCode, CourseReq)>)
    ensures
        table.deep_view() == prereq_table(),
        keyed_by_stem(table.deep_view(), "CHEM"@),
{
    proof {
        reveal(prereq_table);
    }
    let table = vec![
        (
            CourseCode::new("CHEM", 2200),
            CourseReq::all_of(
                reqs2(
                    CourseReq::pre(CourseCode::new("CHEM", 1210)),
                    CourseReq::pre(CourseCode::new("CHEM", 1211)),
                ),
            ),
        ),
        (CourseCode::new("CHEM", 1210), CourseReq::pre(CourseCode::new("CHEM", 1201))),
        (CourseCode::new("CHEM", 2210), CourseReq::pre(CourseCode::new("CHEM", 2200))),
        (CourseCode::new("CHEM", 2211), CourseReq::pre(CourseCode::new("CHEM", 2201))),
        (
            CourseCode::new("CHEM", 3150),
            CourseReq::all_of(
                reqs3(
                    CourseReq::pre(CourseCode::new("CHEM", 1210)),
                    CourseReq::pre(CourseCode::new("MATH", 1350)),
                    CourseReq::pre(CourseCode::new("PHYS", 2110)),
                ),
            ),
        ),
        (CourseCode::new("CHEM", 3250), CourseReq::pre(CourseCode::new("CHEM", 2200))),
        (
            CourseCode::new("CHEM", 3300),
            CourseReq::all_of(
                reqs2(
                    CourseReq::pre(CourseCode::new("CHEM", 1210)),
                    CourseReq::pre(CourseCode::new("CHEM", 1211)),
                ),
            ),
        ),
        (
            CourseCode::new("CHEM", 3311),
            CourseReq::all_of(
                reqs2(
                    CourseReq::pre(CourseCode::new("CHEM", 3300)),
                    CourseReq::pre(CourseCode::new("CHEM", 3301)),
                ),
            ),
        ),
        (
            CourseCode::new("CHEM", 3400),
            CourseReq::all_of(
                reqs2(
                    CourseReq::pre(CourseCode::new("CHEM", 2210)),
                    CourseReq::pre(CourseCode::new("CHEM", 2211)),
                ),
            ),
        ),
        (
            CourseCode::new("CHEM", 3500),
            CourseReq::all_of(
                reqs2(
                    CourseReq::pre(CourseCode::new("CHEM", 2210)),
                    CourseReq::pre(CourseCode::new("CHEM", 2211)),
                ),
            ),
        ),
        (CourseCode::new("CHEM", 3510), CourseReq::pre(CourseCode::new("CHEM", 2500))),
        (CourseCode::new("CHEM", 3510), CourseReq::pre(CourseCode::new("CHEM", 3500))),
        (
            CourseCode::special("CHEM", "terminate"),
            CourseReq::pre(CourseCode::special("CHEM", "EXIT")),
        ),
    ];
    assert(table.deep_view() =~= prereq_table());
    table
}

/// For each CHEM course in the order of the listing: the course, the courses
/// its rule demands outright to have been taken before, the courses it demands
/// outright to be taken before or alongside, and the single conditions that
/// its rule is built from.
pub open spec fn listed_demands() -> Seq<
    (CourseCodeView, Set<CourseCodeView>, Set<CourseCodeView>, Set<ReqView>),
> {
    seq![
        (
            course("CHEM"@, 2200),
            set![course("CHEM"@, 1210), course("CHEM"@, 1211)],
            Set::empty(),
            set![ReqView::PreCourse(course("CHEM"@, 1210)), ReqView::PreCourse(course("CHEM"@, 1211))],
        ),
        (
            course("CHEM"@, 1210),
            set![course("CHEM"@, 1201)],
            Set::empty(),
            set![ReqView::PreCourse(course("CHEM"@, 1201))],
        ),
        (
            course("CHEM"@, 2210),
            set![course("CHEM"@, 2200)],
            Set::empty(),
            set![ReqView::PreCourse(course("CHEM"@, 2200))],
        ),
        (
            course("CHEM"@, 2211),
            set![course("CHEM"@, 2201)],
            Set::empty(),
            set![ReqView::PreCourse(course("CHEM"@, 2201))],
        ),
        (
            course("CHEM"@, 3150),
            set![course("CHEM"@, 1210), course("MATH"@, 1350), course("PHYS"@, 2110)],
            Set::empty(),
            set![ReqView::PreCourse(course("CHEM"@, 1210)), ReqView::PreCourse(course("MATH"@, 1350)), ReqView::PreCourse(course("PHYS"@, 2110))],
        ),
        (
            course("CHEM"@, 3250),
            set![course("CHEM"@, 2200)],
            Set::empty(),
            set![ReqView::PreCourse(course("CHEM"@, 2200))],
        ),
        (
            course("CHEM"@, 3300),
            set![course("CHEM"@, 1210), course("CHEM"@, 1211)],
            Set::empty(),
            set![ReqView::PreCourse(course("CHEM"@, 1210)), ReqView::PreCourse(course("CHEM"@, 1211))],
        ),
        (
            course("CHEM"@, 3311),
            set![course("CHEM"@, 3300), course("CHEM"@, 3301)],
            Set::empty(),
            set![ReqView::PreCourse(course("CHEM"@, 3300)), ReqView::PreCourse(course("CHEM"@, 3301))],
        ),
        (
            course("CHEM"@, 3400),
            set![course("CHEM"@, 2210), course("CHEM"@, 2211)],
            Set::empty(),
            set![ReqView::PreCourse(course("CHEM"@, 2210)), ReqView::PreCourse(course("CHEM"@, 2211))],
        ),
        (
            course("CHEM"@, 3500),
            set![course("CHEM"@, 2210), course("CHEM"@, 2211)],
            Set::empty(),
            set![ReqView::PreCourse(course("CHEM"@, 2210)), ReqView::PreCourse(course("CHEM"@, 2211))],
        ),
        (
            course("CHEM"@, 3510),
            set![course("CHEM"@, 2500)],
            Set::empty(),
            set![ReqView::PreCourse(course("CHEM"@, 2500))],
        ),
        (
            course("CHEM"@, 3510),
            set![course("CHEM"@, 3500)],
            Set::empty(),
            set![ReqView::PreCourse(course("CHEM"@, 3500))],
        ),
        (
            special_course("CHEM"@, "terminate"@),
            set![special_course("CHEM"@, "EXIT"@)],
            Set::empty(),
            set![ReqView::PreCourse(special_course("CHEM"@, "EXIT"@))],
        ),
    ]
}

/// Each CHEM rule demands before and alongside exactly the courses listed for
/// it, and is built from exactly the conditions listed for it.
pub proof fn law_listed_demands()
    ensures
        prereq_table().len() == listed_demands().len(),
        forall|i: int|
            0 <= i < prereq_table().len() ==> {
                &&& #[trigger] prereq_table()[i].0 == listed_demands()[i].0
                &&& taken_before(prereq_table()[i].1) == listed_demands()[i].1
                &&& taken_alongside(prereq_table()[i].1) == listed_demands()[i].2
                &&& conditions(prereq_table()[i].1) == listed_demands()[i].3
            },
{
    reveal(prereq_table);
    reveal_with_fuel(taken_before, 8);
    reveal_with_fuel(taken_before_all, 10);
    reveal_with_fuel(taken_alongside, 8);
    reveal_with_fuel(taken_alongside_all, 10);
    reveal_with_fuel(conditions, 8);
    reveal_with_fuel(conditions_all, 10);
    assert(taken_before(prereq_table()[0].1) =~= listed_demands()[0].1);
    assert(taken_alongside(prereq_table()[0].1) =~= listed_demands()[0].2);
    assert(conditions(prereq_table()[0].1) =~= listed_demands()[0].3);
    assert(taken_before(prereq_table()[1].1) =~= listed_demands()[1].1);
    assert(taken_alongside(prereq_table()[1].1) =~= listed_demands()[1].2);
    assert(conditions(prereq_table()[1].1) =~= listed_demands()[1].3);
    assert(taken_before(prereq_table()[2].1) =~= listed_demands()[2].1);
    assert(taken_alongside(prereq_table()[2].1) =~= listed_demands()[2].2);
    assert(conditions(prereq_table()[2].1) =~= listed_demands()[2].3);
    assert(taken_before(prereq_table()[3].1) =~= listed_demands()[3].1);
    assert(taken_alongside(prereq_table()[3].1) =~= listed_demands()[3].2);
    assert(conditions(prereq_table()[3].1) =~= listed_demands()[3].3);
    assert(taken_before(prereq_table()[4].1) =~= listed_demands()[4].1);
    assert(taken_alongside(prereq_table()[4].1) =~= listed_demands()[4].2);
    assert(conditions(prereq_table()[4].1) =~= listed_demands()[4].3);
    assert(taken_before(prereq_table()[5].1) =~= listed_demands()[5].1);
    assert(taken_alongside(prereq_table()[5].1) =~= listed_demands()[5].2);
    assert(conditions(prereq_table()[5].1) =~= listed_demands()[5].3);
    assert(taken_before(prereq_table()[6].1) =~= listed_demands()[6].1);
    assert(taken_alongside(prereq_table()[6].1) =~= listed_demands()[6].2);
    assert(conditions(prereq_table()[6].1) =~= listed_demands()[6].3);
    assert(taken_before(prereq_table()[7].1) =~= listed_demands()[7].1);
    assert(taken_alongside(prereq_table()[7].1) =~= listed_demands()[7].2);
    assert(conditions(prereq_table()[7].1) =~= listed_demands()[7].3);
    assert(taken_before(prereq_table()[8].1) =~= listed_demands()[8].1);
    assert(taken_alongside(prereq_table()[8].1) =~= listed_demands()[8].2);
    assert(conditions(prereq_table()[8].1) =~= listed_demands()[8].3);
    assert(taken_before(prereq_table()[9].1) =~= listed_demands()[9].1);
    assert(taken_alongside(prereq_table()[9].1) =~= listed_demands()[9].2);
    assert(conditions(prereq_table()[9].1) =~= listed_demands()[9].3);
    assert(taken_before(prereq_table()[10].1) =~= listed_demands()[10].1);
    assert(taken_alongside(prereq_table()[10].1) =~= listed_demands()[10].2);
    assert(conditions(prereq_table()[10].1) =~= listed_demands()[10].3);
    assert(taken_before(prereq_table()[11].1) =~= listed_demands()[11].1);
    assert(taken_alongside(prereq_table()[11].1) =~= listed_demands()[11].2);
    assert(conditions(prereq_table()[11].1) =~= listed_demands()[11].3);
    assert(taken_before(prereq_table()[12].1) =~= listed_demands()[12].1);
    assert(taken_alongside(prereq_table()[12].1) =~= listed_demands()[12].2);
    assert(conditions(prereq_table()[12].1) =~= listed_demands()[12].3);
}

/// Every course of the CHEM table is a course of subject CHEM.
pub proof fn law_keyed_by_subject()
    ensures
        keyed_by_stem(prereq_table(), "CHEM"@),
{
    reveal(prereq_table);
}

} // verus!
