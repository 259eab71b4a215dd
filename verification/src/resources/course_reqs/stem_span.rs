//! Prerequisite rules of the SPAN courses.

use vstd::prelude::*;
use crate::prereqs::{conditions, conditions_all, taken_alongside, taken_alongside_all, taken_before, taken_before_all, CourseReq, ReqView, reqs2};
use crate::schedule::{CourseCode, CourseCodeView, course, special_course, keyed_by_stem};

verus! {

/// The prerequisite rule of each SPAN course, as pairs of course and rule in
/// the order in which they are listed.
#[verifier::opaque]
pub open spec fn prereq_table() -> Seq<(CourseCodeView, ReqView)> {
    seq![
        (
            course("SPAN"@, 2010),
            ReqView::Or(
                seq![
                    ReqView::PreCourse(course("SPAN"@, 1020)),
                    ReqView::CoCourse(special_course("SPAN"@, "E1020"@)),
                ],
            ),
        ),
        (
            course("SPAN"@, 2020),
            ReqView::Or(
                seq![
                    ReqView::PreCourse(course("SPAN"@, 2010)),
                    ReqView::CoCourse(special_course("SPAN"@, "E2010"@)),
                ],
            ),
        ),
        (
            course("SPAN"@, 3010),
            ReqView::Or(
                seq![
                    ReqView::PreCourse(course("SPAN"@, 2020)),
                    ReqView::CoCourse(special_course("SPAN"@, "E2020"@)),
                ],
            ),
        ),
        (
            course("SPAN"@, 3020),
            ReqView::Or(
                seq![
                    ReqView::PreCourse(course("SPAN"@, 2020)),
                    ReqView::CoCourse(special_course("SPAN"@, "E2020"@)),
                ],
            ),
        ),
        (
            course("SPAN"@, 3040),
            ReqView::Or(
                seq![
                    ReqView::PreCourse(course("SPAN"@, 2020)),
                    ReqView::CoCourse(special_course("SPAN"@, "E2020"@)),
                ],
            ),
        ),
        (
            course("SPAN"@, 3400),
            ReqView::Or(
                seq![
                    ReqView::PreCourse(course("SPAN"@, 2020)),
                    ReqView::CoCourse(special_course("SPAN"@, "E2020"@)),
                ],
            ),
        ),
        (course("SPAN"@, 3650), ReqView::PreCourse(course("SPAN"@, 3040))),
        (course("SPAN"@, 3660), ReqView::PreCourse(course("SPAN"@, 3040))),
        (
            course("SPAN"@, 3710),
            ReqView::Or(
                seq![
                    ReqView::PreCourse(course("SPAN"@, 2020)),
                    ReqView::CoCourse(special_course("SPAN"@, "E2020"@)),
                ],
            ),
        ),
        (
            course("SPAN"@, 3720),
            ReqView::Or(
                seq![
                    ReqView::PreCourse(course("SPAN"@, 2020)),
                    ReqView::CoCourse(special_course("SPAN"@, "E2020"@)),
                ],
            ),
        ),
        (
            course("SPAN"@, 3750),
            ReqView::Or(
                seq![
                    ReqView::PreCourse(course("SPAN"@, 2020)),
                    ReqView::CoCourse(special_course("SPAN"@, "E2020"@)),
                ],
            ),
        ),
        (
            course("SPAN"@, 3800),
            ReqView::Or(
                seq![
                    ReqView::PreCourse(course("SPAN"@, 2010)),
                    ReqView::CoCourse(special_course("SPAN"@, "E2010"@)),
                ],
            ),
        ),
        (
            course("SPAN"@, 3801),
            ReqView::Or(
                seq![
                    ReqView::PreCourse(course("SPAN"@, 2010)),
                    ReqView::CoCourse(special_course("SPAN"@, "E2010"@)),
                ],
            ),
        ),
        (
            course("SPAN"@, 3802),
            ReqView::Or(
                seq![
                    ReqView::PreCourse(course("SPAN"@, 2010)),
                    ReqView::CoCourse(special_course("SPAN"@, "E2010"@)),
                ],
            ),
        ),
        (
            course("SPAN"@, 3803),
            ReqView::Or(
                seq![
                    ReqView::PreCourse(course("SPAN"@, 2010)),
                    ReqView::CoCourse(special_course("SPAN"@, "E2010"@)),
                ],
            ),
        ),
        (
            course("SPAN"@, 3804),
            ReqView::Or(
                seq![
                    ReqView::PreCourse(course("SPAN"@, 2010)),
                    ReqView::CoCourse(special_course("SPAN"@, "E2010"@)),
                ],
            ),
        ),
        (
            course("SPAN"@, 3805),
            ReqView::Or(
                seq![
                    ReqView::PreCourse(course("SPAN"@, 2010)),
                    ReqView::CoCourse(special_course("SPAN"@, "E2010"@)),
                ],
            ),
        ),
        (course("SPAN"@, 4700), ReqView::PreCourse(course("SPAN"@, 3040))),
        (course("SPAN"@, 4710), ReqView::PreCourse(special_course("SPAN"@, "PROGRAM"@))),
        (course("SPAN"@, 4720), ReqView::PreCourse(special_course("SPAN"@, "PROGRAM"@))),
        (course("SPAN"@, 4800), ReqView::PreCourse(course("SPAN"@, 3040))),
        (course("SPAN"@, 4810), ReqView::PreCourse(course("SPAN"@, 3400))),
    ]
}

/// The prerequisite rules of the SPAN courses, in the order in which they are listed.
pub fn prereqs() -> (table: Vec<(CourseCode, CourseReq)>)
    ensures
        table.deep_view() == prereq_table(),
        keyed_by_stem(table.deep_view(), "SPAN"@),
{
    proof {
        reveal(prereq_table);
    }
    let table = vec![
        (
            CourseCode::new("SPAN", 2010),
            CourseReq::any_of(
                reqs2(
                    CourseReq::pre(CourseCode::new("SPAN", 1020)),
                    CourseReq::co(CourseCode::special("SPAN", "E1020")),
                ),
            ),
        ),
        (
            CourseCode::new("SPAN", 2020),
            CourseReq::any_of(
                reqs2(
                    CourseReq::pre(CourseCode::new("SPAN", 2010)),
                    CourseReq::co(CourseCode::special("SPAN", "E2010")),
                ),
            ),
        ),
        (
            CourseCode::new("SPAN", 3010),
            CourseReq::any_of(
                reqs2(
                    CourseReq::pre(CourseCode::new("SPAN", 2020)),
                    CourseReq::co(CourseCode::special("SPAN", "E2020")),
                ),
            ),
        ),
        (
            CourseCode::new("SPAN", 3020),
            CourseReq::any_of(
                reqs2(
                    CourseReq::pre(CourseCode::new("SPAN", 2020)),
                    CourseReq::co(CourseCode::special("SPAN", "E2020")),
                ),
            ),
        ),
        (
            CourseCode::new("SPAN", 3040),
            CourseReq::any_of(
                reqs2(
                    CourseReq::pre(CourseCode::new("SPAN", 2020)),
                    CourseReq::co(CourseCode::special("SPAN", "E2020")),
                ),
            ),
        ),
        (
            CourseCode::new("SPAN", 3400),
            CourseReq::any_of(
                reqs2(
                    CourseReq::pre(CourseCode::new("SPAN", 2020)),
                    CourseReq::co(CourseCode::special("SPAN", "E2020")),
                ),
            ),
        ),
        (CourseCode::new("SPAN", 3650), CourseReq::pre(CourseCode::new("SPAN", 3040))),
        (CourseCode::new("SPAN", 3660), CourseReq::pre(CourseCode::new("SPAN", 3040))),
        (
            CourseCode::new("SPAN", 3710),
            CourseReq::any_of(
                reqs2(
                    CourseReq::pre(CourseCode::new("SPAN", 2020)),
                    CourseReq::co(CourseCode::special("SPAN", "E2020")),
                ),
            ),
        ),
        (
            CourseCode::new("SPAN", 3720),
            CourseReq::any_of(
                reqs2(
                    CourseReq::pre(CourseCode::new("SPAN", 2020)),
                    CourseReq::co(CourseCode::special("SPAN", "E2020")),
                ),
            ),
        ),
        (
            CourseCode::new("SPAN", 3750),
            CourseReq::any_of(
                reqs2(
                    CourseReq::pre(CourseCode::new("SPAN", 2020)),
                    CourseReq::co(CourseCode::special("SPAN", "E2020")),
                ),
            ),
        ),
        (
            CourseCode::new("SPAN", 3800),
            CourseReq::any_of(
                reqs2(
                    CourseReq::pre(CourseCode::new("SPAN", 2010)),
                    CourseReq::co(CourseCode::special("SPAN", "E2010")),
                ),
            ),
        ),
        (
            CourseCode::new("SPAN", 3801),
            CourseReq::any_of(
                reqs2(
                    CourseReq::pre(CourseCode::new("SPAN", 2010)),
                    CourseReq::co(CourseCode::special("SPAN", "E2010")),
                ),
            ),
        ),
        (
            CourseCode::new("SPAN", 3802),
            CourseReq::any_of(
                reqs2(
                    CourseReq::pre(CourseCode::new("SPAN", 2010)),
                    CourseReq::co(CourseCode::special("SPAN", "E2010")),
                ),
            ),
        ),
        (
            CourseCode::new("SPAN", 3803),
            CourseReq::any_of(
                reqs2(
                    CourseReq::pre(CourseCode::new("SPAN", 2010)),
                    CourseReq::co(CourseCode::special("SPAN", "E2010")),
                ),
            ),
        ),
        (
            CourseCode::new("SPAN", 3804),
            CourseReq::any_of(
                reqs2(
                    CourseReq::pre(CourseCode::new("SPAN", 2010)),
                    CourseReq::co(CourseCode::special("SPAN", "E2010")),
                ),
            ),
        ),
        (
            CourseCode::new("SPAN", 3805),
            CourseReq::any_of(
                reqs2(
                    CourseReq::pre(CourseCode::new("SPAN", 2010)),
                    CourseReq::co(CourseCode::special("SPAN", "E2010")),
                ),
            ),
        ),
        (CourseCode::new("SPAN", 4700), CourseReq::pre(CourseCode::new("SPAN", 3040))),
        (CourseCode::new("SPAN", 4710), CourseReq::pre(CourseCode::special("SPAN", "PROGRAM"))),
        (CourseCode::new("SPAN", 4720), CourseReq::pre(CourseCode::special("SPAN", "PROGRAM"))),
        (CourseCode::new("SPAN", 4800), CourseReq::pre(CourseCode::new("SPAN", 3040))),
        (CourseCode::new("SPAN", 4810), CourseReq::pre(CourseCode::new("SPAN", 3400))),
    ];
    assert(table.deep_view() =~= prereq_table());
    table
}

/// For each SPAN course in the order of the listing: the course, the courses
/// its rule demands outright to have been taken before, the courses it demands
/// outright to be taken before or alongside, and the single conditions that
/// its rule is built from.
pub open spec fn listed_demands() -> Seq<
    (CourseCodeView, Set<CourseCodeView>, Set<CourseCodeView>, Set<ReqView>),
> {
    seq![
        (
            course("SPAN"@, 2010),
            Set::empty(),
            Set::empty(),
            set![ReqView::PreCourse(course("SPAN"@, 1020)), ReqView::CoCourse(special_course("SPAN"@, "E1020"@))],
        ),
        (
            course("SPAN"@, 2020),
            Set::empty(),
            Set::empty(),
            set![ReqView::PreCourse(course("SPAN"@, 2010)), ReqView::CoCourse(special_course("SPAN"@, "E2010"@))],
        ),
        (
            course("SPAN"@, 3010),
            Set::empty(),
            Set::empty(),
            set![ReqView::PreCourse(course("SPAN"@, 2020)), ReqView::CoCourse(special_course("SPAN"@, "E2020"@))],
        ),
        (
            course("SPAN"@, 3020),
            Set::empty(),
            Set::empty(),
            set![ReqView::PreCourse(course("SPAN"@, 2020)), ReqView::CoCourse(special_course("SPAN"@, "E2020"@))],
        ),
        (
            course("SPAN"@, 3040),
            Set::empty(),
            Set::empty(),
            set![ReqView::PreCourse(course("SPAN"@, 2020)), ReqView::CoCourse(special_course("SPAN"@, "E2020"@))],
        ),
        (
            course("SPAN"@, 3400),
            Set::empty(),
            Set::empty(),
            set![ReqView::PreCourse(course("SPAN"@, 2020)), ReqView::CoCourse(special_course("SPAN"@, "E2020"@))],
        ),
        (
            course("SPAN"@, 3650),
            set![course("SPAN"@, 3040)],
            Set::empty(),
            set![ReqView::PreCourse(course("SPAN"@, 3040))],
        ),
        (
            course("SPAN"@, 3660),
            set![course("SPAN"@, 3040)],
            Set::empty(),
            set![ReqView::PreCourse(course("SPAN"@, 3040))],
        ),
        (
            course("SPAN"@, 3710),
            Set::empty(),
            Set::empty(),
            set![ReqView::PreCourse(course("SPAN"@, 2020)), ReqView::CoCourse(special_course("SPAN"@, "E2020"@))],
        ),
        (
            course("SPAN"@, 3720),
            Set::empty(),
            Set::empty(),
            set![ReqView::PreCourse(course("SPAN"@, 2020)), ReqView::CoCourse(special_course("SPAN"@, "E2020"@))],
        ),
        (
            course("SPAN"@, 3750),
            Set::empty(),
            Set::empty(),
            set![ReqView::PreCourse(course("SPAN"@, 2020)), ReqView::CoCourse(special_course("SPAN"@, "E2020"@))],
        ),
        (
            course("SPAN"@, 3800),
            Set::empty(),
            Set::empty(),
            set![ReqView::PreCourse(course("SPAN"@, 2010)), ReqView::CoCourse(special_course("SPAN"@, "E2010"@))],
        ),
        (
            course("SPAN"@, 3801),
            Set::empty(),
            Set::empty(),
            set![ReqView::PreCourse(course("SPAN"@, 2010)), ReqView::CoCourse(special_course("SPAN"@, "E2010"@))],
        ),
        (
            course("SPAN"@, 3802),
            Set::empty(),
            Set::empty(),
            set![ReqView::PreCourse(course("SPAN"@, 2010)), ReqView::CoCourse(special_course("SPAN"@, "E2010"@))],
        ),
        (
            course("SPAN"@, 3803),
            Set::empty(),
            Set::empty(),
            set![ReqView::PreCourse(course("SPAN"@, 2010)), ReqView::CoCourse(special_course("SPAN"@, "E2010"@))],
        ),
        (
            course("SPAN"@, 3804),
            Set::empty(),
            Set::empty(),
            set![ReqView::PreCourse(course("SPAN"@, 2010)), ReqView::CoCourse(special_course("SPAN"@, "E2010"@))],
        ),
        (
            course("SPAN"@, 3805),
            Set::empty(),
            Set::empty(),
            set![ReqView::PreCourse(course("SPAN"@, 2010)), ReqView::CoCourse(special_course("SPAN"@, "E2010"@))],
        ),
        (
            course("SPAN"@, 4700),
            set![course("SPAN"@, 3040)],
            Set::empty(),
            set![ReqView::PreCourse(course("SPAN"@, 3040))],
        ),
        (
            course("SPAN"@, 4710),
            set![special_course("SPAN"@, "PROGRAM"@)],
            Set::empty(),
            set![ReqView::PreCourse(special_course("SPAN"@, "PROGRAM"@))],
        ),
        (
            course("SPAN"@, 4720),
            set![special_course("SPAN"@, "PROGRAM"@)],
            Set::empty(),
            set![ReqView::PreCourse(special_course("SPAN"@, "PROGRAM"@))],
        ),
        (
            course("SPAN"@, 4800),
            set![course("SPAN"@, 3040)],
            Set::empty(),
            set![ReqView::PreCourse(course("SPAN"@, 3040))],
        ),
        (
            course("SPAN"@, 4810),
            set![course("SPAN"@, 3400)],
            Set::empty(),
            set![ReqView::PreCourse(course("SPAN"@, 3400))],
        ),
    ]
}

/// Each SPAN rule demands before and alongside exactly the courses listed for
/// it, and is built from exactly the conditions listed for it.
pub proof fn law_listed_demands()
    ensures
        prereq_table().len() == listed_demands().len(),
        forall|i: int|
            0 <= i < prereq_table().len() ==> {
                &&& #[trigger] prereq_table()[i].0 == listed_demands()[i].0
                &&& taken_before(prereq_table()[i].1) == listed_demands()[i].1
                &&& taken_alongside(prereq_table()[i].1) == listed_demands()[i].2
                &&& conditions(prereq_table()[i].1) == listed_demands()[i].3
            },
{
    reveal(prereq_table);
    reveal_with_fuel(taken_before, 8);
    reveal_with_fuel(taken_before_all, 10);
    reveal_with_fuel(taken_alongside, 8);
    reveal_with_fuel(taken_alongside_all, 10);
    reveal_with_fuel(conditions, 8);
    reveal_with_fuel(conditions_all, 10);
    assert(taken_before(prereq_table()[0].1) =~= listed_demands()[0].1);
    assert(taken_alongside(prereq_table()[0].1) =~= listed_demands()[0].2);
    assert(conditions(prereq_table()[0].1) =~= listed_demands()[0].3);
    assert(taken_before(prereq_table()[1].1) =~= listed_demands()[1].1);
    assert(taken_alongside(prereq_table()[1].1) =~= listed_demands()[1].2);
    assert(conditions(prereq_table()[1].1) =~= listed_demands()[1].3);
    assert(taken_before(prereq_table()[2].1) =~= listed_demands()[2].1);
    assert(taken_alongside(prereq_table()[2].1) =~= listed_demands()[2].2);
    assert(conditions(prereq_table()[2].1) =~= listed_demands()[2].3);
    assert(taken_before(prereq_table()[3].1) =~= listed_demands()[3].1);
    assert(taken_alongside(prereq_table()[3].1) =~= listed_demands()[3].2);
    assert(conditions(prereq_table()[3].1) =~= listed_demands()[3].3);
    assert(taken_before(prereq_table()[4].1) =~= listed_demands()[4].1);
    assert(taken_alongside(prereq_table()[4].1) =~= listed_demands()[4].2);
    assert(conditions(prereq_table()[4].1) =~= listed_demands()[4].3);
    assert(taken_before(prereq_table()[5].1) =~= listed_demands()[5].1);
    assert(taken_alongside(prereq_table()[5].1) =~= listed_demands()[5].2);
    assert(conditions(prereq_table()[5].1) =~= listed_demands()[5].3);
    assert(taken_before(prereq_table()[6].1) =~= listed_demands()[6].1);
    assert(taken_alongside(prereq_table()[6].1) =~= listed_demands()[6].2);
    assert(conditions(prereq_table()[6].1) =~= listed_demands()[6].3);
    assert(taken_before(prereq_table()[7].1) =~= listed_demands()[7].1);
    assert(taken_alongside(prereq_table()[7].1) =~= listed_demands()[7].2);
    assert(conditions(prereq_table()[7].1) =~= listed_demands()[7].3);
    assert(taken_before(prereq_table()[8].1) =~= listed_demands()[8].1);
    assert(taken_alongside(prereq_table()[8].1) =~= listed_demands()[8].2);
    assert(conditions(prereq_table()[8].1) =~= listed_demands()[8].3);
    assert(taken_before(prereq_table()[9].1) =~= listed_demands()[9].1);
    assert(taken_alongside(prereq_table()[9].1) =~= listed_demands()[9].2);
    assert(conditions(prereq_table()[9].1) =~= listed_demands()[9].3);
    assert(taken_before(prereq_table()[10].1) =~= listed_demands()[10].1);
    assert(taken_alongside(prereq_table()[10].1) =~= listed_demands()[10].2);
    assert(conditions(prereq_table()[10].1) =~= listed_demands()[10].3);
    assert(taken_before(prereq_table()[11].1) =~= listed_demands()[11].1);
    assert(taken_alongside(prereq_table()[11].1) =~= listed_demands()[11].2);
    assert(conditions(prereq_table()[11].1) =~= listed_demands()[11].3);
    assert(taken_before(prereq_table()[12].1) =~= listed_demands()[12].1);
    assert(taken_alongside(prereq_table()[12].1) =~= listed_demands()[12].2);
    assert(conditions(prereq_table()[12].1) =~= listed_demands()[12].3);
    assert(taken_before(prereq_table()[13].1) =~= listed_demands()[13].1);
    assert(taken_alongside(prereq_table()[13].1) =~= listed_demands()[13].2);
    assert(conditions(prereq_table()[13].1) =~= listed_demands()[13].3);
    assert(taken_before(prereq_table()[14].1) =~= listed_demands()[14].1);
    assert(taken_alongside(prereq_table()[14].1) =~= listed_demands()[14].2);
    assert(conditions(prereq_table()[14].1) =~= listed_demands()[14].3);
    assert(taken_before(prereq_table()[15].1) =~= listed_demands()[15].1);
    assert(taken_alongside(prereq_table()[15].1) =~= listed_demands()[15].2);
    assert(conditions(prereq_table()[15].1) =~= listed_demands()[15].3);
    assert(taken_before(prereq_table()[16].1) =~= listed_demands()[16].1);
    assert(taken_alongside(prereq_table()[16].1) =~= listed_demands()[16].2);
    assert(conditions(prereq_table()[16].1) =~= listed_demands()[16].3);
    assert(taken_before(prereq_table()[17].1) =~= listed_demands()[17].1);
    assert(taken_alongside(prereq_table()[17].1) =~= listed_demands()[17].2);
    assert(conditions(prereq_table()[17].1) =~= listed_demands()[17].3);
    assert(taken_before(prereq_table()[18].1) =~= listed_demands()[18].1);
    assert(taken_alongside(prereq_table()[18].1) =~= listed_demands()[18].2);
    assert(conditions(prereq_table()[18].1) =~= listed_demands()[18].3);
    assert(taken_before(prereq_table()[19].1) =~= listed_demands()[19].1);
    assert(taken_alongside(prereq_table()[19].1) =~= listed_demands()[19].2);
    assert(conditions(prereq_table()[19].1) =~= listed_demands()[19].3);
    assert(taken_before(prereq_table()[20].1) =~= listed_demands()[20].1);
    assert(taken_alongside(prereq_table()[20].1) =~= listed_demands()[20].2);
    assert(conditions(prereq_table()[20].1) =~= listed_demands()[20].3);
    assert(taken_before(prereq_table()[21].1) =~= listed_demands()[21].1);
    assert(taken_alongside(prereq_table()[21].1) =~= listed_demands()[21].2);
    assert(conditions(prereq_table()[21].1) =~= listed_demands()[21].3);
}

/// Every course of the SPAN table is a course of subject SPAN.
pub proof fn law_keyed_by_subject()
    ensures
        keyed_by_stem(prereq_table(), "SPAN"@),
{
    reveal(prereq_table);
}

} // verus!
