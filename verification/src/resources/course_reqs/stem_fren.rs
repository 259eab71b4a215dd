//! Prerequisite rules of the FREN courses.

use vstd::prelude::*;
use crate::prereqs::{conditions, conditions_all, taken_alongside, taken_alongside_all, taken_before, taken_before_all, CourseReq, ReqView, reqs2};
use crate::schedule::{CourseCode, CourseCodeView, course, special_course, keyed_by_stem};

verus! {

/// The prerequisite rule of each FREN course, as pairs of course and rule in
/// the order in which they are listed.
#[verifier::opaque]
pub open spec fn prereq_table() -> Seq<(CourseCodeView, ReqView)> {
    seq![
        (course("FREN"@, 1020), ReqView::PreCourse(course("FREN"@, 1000))),
        (
            course("FREN"@, 2010),
            ReqView::Or(
                seq![
                    ReqView::PreCourse(course("FREN"@, 1020)),
                    ReqView::PreCourse(special_course("FREN"@, "E1020"@)),
                ],
            ),
        ),
        (
            course("FREN"@, 3010),
            ReqView::Or(
                seq![
                    ReqView::PreCourse(course("FREN"@, 1020)),
                    ReqView::PreCourse(special_course("FREN"@, "E1020"@)),
                ],
            ),
        ),
        (course("FREN"@, 3040), ReqView::PreCourse(course("FREN"@, 2010))),
        (course("FREN"@, 3300), ReqView::PreCourse(course("FREN"@, 2010))),
        (
            course("FREN"@, 3510),
            ReqView::Or(
                seq![
                    ReqView::PreCourse(course("FREN"@, 2010)),
                    ReqView::PreCourse(special_course("FREN"@, "E2010"@)),
                ],
            ),
        ),
        (
            course("FREN"@, 3610),
            ReqView::Or(
                seq![
                    ReqView::PreCourse(course("FREN"@, 2010)),
                    ReqView::PreCourse(special_course("FREN"@, "E2010"@)),
                ],
            ),
        ),
        (
            course("FREN"@, 3620),
            ReqView::Or(
                seq![
                    ReqView::PreCourse(course("FREN"@, 2010)),
                    ReqView::PreCourse(special_course("FREN"@, "E2010"@)),
                ],
            ),
        ),
        (
            course("FREN"@, 3630),
            ReqView::Or(
                seq![
                    ReqView::PreCourse(course("FREN"@, 2010)),
                    ReqView::PreCourse(special_course("FREN"@, "E2010"@)),
                ],
            ),
        ),
        (
            course("FREN"@, 3640),
            ReqView::Or(
                seq![
                    ReqView::PreCourse(course("FREN"@, 2010)),
                    ReqView::PreCourse(special_course("FREN"@, "E2010"@)),
                ],
            ),
        ),
        (
            course("FREN"@, 3650),
            ReqView::Or(
                seq![
                    ReqView::PreCourse(course("FREN"@, 2010)),
                    ReqView::PreCourse(special_course("FREN"@, "E2010"@)),
                ],
            ),
        ),
        (course("FREN"@, 4710), ReqView::Instructor),
        (course("FREN"@, 4720), ReqView::Instructor),
    ]
}

/// The prerequisite rules of the FREN courses, in the order in which they are listed.
pub fn prereqs() -> (table: Vec<(CourseCode, CourseReq)>)
    ensures
        table.deep_view() == prereq_table(),
        keyed_by_stem(table.deep_view(), "FREN"@),
{
    proof {
        reveal(prereq_table);
    }
    let table = vec![
        (CourseCode::new("FREN", 1020), CourseReq::pre(CourseCode::new("FREN", 1000))),
        (
            CourseCode::new("FREN", 2010),
            CourseReq::any_of(
                reqs2(
                    CourseReq::pre(CourseCode::new("FREN", 1020)),
                    CourseReq::pre(CourseCode::special("FREN", "E1020")),
                ),
            ),
        ),
        (
            CourseCode::new("FREN", 3010),
            CourseReq::any_of(
                reqs2(
                    CourseReq::pre(CourseCode::new("FREN", 1020)),
                    CourseReq::pre(CourseCode::special("FREN", "E1020")),
                ),
            ),
        ),
        (CourseCode::new("FREN", 3040), CourseReq::pre(CourseCode::new("FREN", 2010))),
        (CourseCode::new("FREN", 3300), CourseReq::pre(CourseCode::new("FREN", 2010))),
        (
            CourseCode::new("FREN", 3510),
            CourseReq::any_of(
                reqs2(
                    CourseReq::pre(CourseCode::new("FREN", 2010)),
                    CourseReq::pre(CourseCode::special("FREN", "E2010")),
                ),
            ),
        ),
        (
            CourseCode::new("FREN", 3610),
            CourseReq::any_of(
                reqs2(
                    CourseReq::pre(CourseCode::new("FREN", 2010)),
                    CourseReq::pre(CourseCode::special("FREN", "E2010")),
                ),
            ),
        ),
        (
            CourseCode::new("FREN", 3620),
            CourseReq::any_of(
                reqs2(
                    CourseReq::pre(CourseCode::new("FREN", 2010)),
                    CourseReq::pre(CourseCode::special("FREN", "E2010")),
                ),
            ),
        ),
        (
            CourseCode::new("FREN", 3630),
            CourseReq::any_of(
                reqs2(
                    CourseReq::pre(CourseCode::new("FREN", 2010)),
                    CourseReq::pre(CourseCode::special("FREN", "E2010")),
                ),
            ),
        ),
        (
            CourseCode::new("FREN", 3640),
            CourseReq::any_of(
                reqs2(
                    CourseReq::pre(CourseCode::new("FREN", 2010)),
                    CourseReq::pre(CourseCode::special("FREN", "E2010")),
                ),
            ),
        ),
        (
            CourseCode::new("FREN", 3650),
            CourseReq::any_of(
                reqs2(
                    CourseReq::pre(CourseCode::new("FREN", 2010)),
                    CourseReq::pre(CourseCode::special("FREN", "E2010")),
                ),
            ),
        ),
        (CourseCode::new("FREN", 4710), CourseReq::instructor()),
        (CourseCode::new("FREN", 4720), CourseReq::instructor()),
    ];
    assert(table.deep_view() =~= prereq_table());
    table
}

/// For each FREN course in the order of the listing: the course, the courses
/// its rule demands outright to have been taken before, the courses it demands
/// outright to be taken before or alongside, and the single conditions that
/// its rule is built from.
pub open spec fn listed_demands() -> Seq<
    (CourseCodeView, Set<CourseCodeView>, Set<CourseCodeView>, Set<ReqView>),
> {
    seq![
        (
            course("FREN"@, 1020),
            set![course("FREN"@, 1000)],
            Set::empty(),
            set![ReqView::PreCourse(course("FREN"@, 1000))],
        ),
        (
            course("FREN"@, 2010),
            Set::empty(),
            Set::empty(),
            set![ReqView::PreCourse(course("FREN"@, 1020)), ReqView::PreCourse(special_course("FREN"@, "E1020"@))],
        ),
        (
            course("FREN"@, 3010),
            Set::empty(),
            Set::empty(),
            set![ReqView::PreCourse(course("FREN"@, 1020)), ReqView::PreCourse(special_course("FREN"@, "E1020"@))],
        ),
        (
            course("FREN"@, 3040),
            set![course("FREN"@, 2010)],
            Set::empty(),
            set![ReqView::PreCourse(course("FREN"@, 2010))],
        ),
        (
            course("FREN"@, 3300),
            set![course("FREN"@, 2010)],
            Set::empty(),
            set![ReqView::PreCourse(course("FREN"@, 2010))],
        ),
        (
            course("FREN"@, 3510),
            Set::empty(),
            Set::empty(),
            set![ReqView::PreCourse(course("FREN"@, 2010)), ReqView::PreCourse(special_course("FREN"@, "E2010"@))],
        ),
        (
            course("FREN"@, 3610),
            Set::empty(),
            Set::empty(),
            set![ReqView::PreCourse(course("FREN"@, 2010)), ReqView::PreCourse(special_course("FREN"@, "E2010"@))],
        ),
        (
            course("FREN"@, 3620),
            Set::empty(),
            Set::empty(),
            set![ReqView::PreCourse(course("FREN"@, 2010)), ReqView::PreCourse(special_course("FREN"@, "E2010"@))],
        ),
        (
            course("FREN"@, 3630),
            Set::empty(),
            Set::empty(),
            set![ReqView::PreCourse(course("FREN"@, 2010)), ReqView::PreCourse(special_course("FREN"@, "E2010"@))],
        ),
        (
            course("FREN"@, 3640),
            Set::empty(),
            Set::empty(),
            set![ReqView::PreCourse(course("FREN"@, 2010)), ReqView::PreCourse(special_course("FREN"@, "E2010"@))],
        ),
        (
            course("FREN"@, 3650),
            Set::empty(),
            Set::empty(),
            set![ReqView::PreCourse(course("FREN"@, 2010)), ReqView::PreCourse(special_course("FREN"@, "E2010"@))],
        ),
        (
            course("FREN"@, 4710),
            Set::empty(),
            Set::empty(),
            set![ReqView::Instructor],
        ),
        (
            course("FREN"@, 4720),
            Set::empty(),
            Set::empty(),
            set![ReqView::Instructor],
        ),
    ]
}

/// Each FREN rule demands before and alongside exactly the courses listed for
/// it, and is built from exactly the conditions listed for it.
pub proof fn law_listed_demands()
    ensures
        prereq_table().len() == listed_demands().len(),
        forall|i: int|
            0 <= i < prereq_table().len() ==> {
                &&& #[trigger] prereq_table()[i].0 == listed_demands()[i].0
                &&& taken_before(prereq_table()[i].1) == listed_demands()[i].1
                &&& taken_alongside(prereq_table()[i].1) == listed_demands()[i].2
                &&& conditions(prereq_table()[i].1) == listed_demands()[i].3
            },
{
    reveal(prereq_table);
    reveal_with_fuel(taken_before, 8);
    reveal_with_fuel(taken_before_all, 10);
    reveal_with_fuel(taken_alongside, 8);
    reveal_with_fuel(taken_alongside_all, 10);
    reveal_with_fuel(conditions, 8);
    reveal_with_fuel(conditions_all, 10);
    assert(taken_before(prereq_table()[0].1) =~= listed_demands()[0].1);
    assert(taken_alongside(prereq_table()[0].1) =~= listed_demands()[0].2);
    assert(conditions(prereq_table()[0].1) =~= listed_demands()[0].3);
    assert(taken_before(prereq_table()[1].1) =~= listed_demands()[1].1);
    assert(taken_alongside(prereq_table()[1].1) =~= listed_demands()[1].2);
    assert(conditions(prereq_table()[1].1) =~= listed_demands()[1].3);
    assert(taken_before(prereq_table()[2].1) =~= listed_demands()[2].1);
    assert(taken_alongside(prereq_table()[2].1) =~= listed_demands()[2].2);
    assert(conditions(prereq_table()[2].1) =~= listed_demands()[2].3);
    assert(taken_before(prereq_table()[3].1) =~= listed_demands()[3].1);
    assert(taken_alongside(prereq_table()[3].1) =~= listed_demands()[3].2);
    assert(conditions(prereq_table()[3].1) =~= listed_demands()[3].3);
    assert(taken_before(prereq_table()[4].1) =~= listed_demands()[4].1);
    assert(taken_alongside(prereq_table()[4].1) =~= listed_demands()[4].2);
    assert(conditions(prereq_table()[4].1) =~= listed_demands()[4].3);
    assert(taken_before(prereq_table()[5].1) =~= listed_demands()[5].1);
    assert(taken_alongside(prereq_table()[5].1) =~= listed_demands()[5].2);
    assert(conditions(prereq_table()[5].1) =~= listed_demands()[5].3);
    assert(taken_before(prereq_table()[6].1) =~= listed_demands()[6].1);
    assert(taken_alongside(prereq_table()[6].1) =~= listed_demands()[6].2);
    assert(conditions(prereq_table()[6].1) =~= listed_demands()[6].3);
    assert(taken_before(prereq_table()[7].1) =~= listed_demands()[7].1);
    assert(taken_alongside(prereq_table()[7].1) =~= listed_demands()[7].2);
    assert(conditions(prereq_table()[7].1) =~= listed_demands()[7].3);
    assert(taken_before(prereq_table()[8].1) =~= listed_demands()[8].1);
    assert(taken_alongside(prereq_table()[8].1) =~= listed_demands()[8].2);
    assert(conditions(prereq_table()[8].1) =~= listed_demands()[8].3);
    assert(taken_before(prereq_table()[9].1) =~= listed_demands()[9].1);
    assert(taken_alongside(prereq_table()[9].1) =~= listed_demands()[9].2);
    assert(conditions(prereq_table()[9].1) =~= listed_demands()[9].3);
    assert(taken_before(prereq_table()[10].1) =~= listed_demands()[10].1);
    assert(taken_alongside(prereq_table()[10].1) =~= listed_demands()[10].2);
    assert(conditions(prereq_table()[10].1) =~= listed_demands()[10].3);
    assert(taken_before(prereq_table()[11].1) =~= listed_demands()[11].1);
    assert(taken_alongside(prereq_table()[11].1) =~= listed_demands()[11].2);
    assert(conditions(prereq_table()[11].1) =~= listed_demands()[11].3);
    assert(taken_before(prereq_table()[12].1) =~= listed_demands()[12].1);
    assert(taken_alongside(prereq_table()[12].1) =~= listed_demands()[12].2);
    assert(conditions(prereq_table()[12].1) =~= listed_demands()[12].3);
}

/// Every course of the FREN table is a course of subject FREN.
pub proof fn law_keyed_by_subject()
    ensures
        keyed_by_stem(prereq_table(), "FREN"@),
{
    reveal(prereq_table);
}

} // verus!
