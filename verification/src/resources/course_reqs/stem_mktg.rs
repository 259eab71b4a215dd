//! Prerequisite rules of the MKTG courses.

use vstd::prelude::*;
use crate::prereqs::{conditions, conditions_all, taken_alongside, taken_alongside_all, taken_before, taken_before_all, CourseReq, ReqView, ClassStanding, reqs2};
use crate::schedule::{CourseCode, CourseCodeView, course, special_course, keyed_by_stem};

verus! {

/// The prerequisite rule of each MKTG course, as pairs of course and rule in
/// the order in which they are listed.
#[verifier::opaque]
pub open spec fn prereq_table() -> Seq<(CourseCodeView, ReqView)> {
    seq![
        (course("MKTG"@, 3650), ReqView::PreCourse(course("MKTG"@, 3100))),
        (course("MKTG"@, 3750), ReqView::PreCourse(course("MKTG"@, 3100))),
        (course("MKTG"@, 3810), ReqView::PreCourse(course("MKTG"@, 3100))),
        (course("MKTG"@, 3880), ReqView::PreCourse(course("MKTG"@, 3100))),
        (course("MKTG"@, 4460), ReqView::PreCourse(course("MKTG"@, 3100))),
        (course("MKTG"@, 4470), ReqView::PreCourse(course("MKTG"@, 3100))),
        (course("MKTG"@, 4480), ReqView::PreCourse(course("MKTG"@, 3100))),
        (
            course("MKTG"@, 4650),
            ReqView::And(
                seq![
                    ReqView::PreCourse(course("MKTG"@, 3100)),
                    ReqView::PreCourse(course("MKTG"@, 3650)),
                ],
            ),
        ),
        (
            course("MKTG"@, 4750),
            ReqView::And(
                seq![
                    ReqView::PreCourse(course("MKTG"@, 3100)),
                    ReqView::PreCourse(course("MKTG"@, 3750)),
                ],
            ),
        ),
        (
            course("MKTG"@, 4780),
            ReqView::And(
                seq![
                    ReqView::Or(
                        seq![
                            ReqView::Standing(ClassStanding::Junior),
                            ReqView::PreCourse(special_course("MKTG"@, "SE"@)),
                        ],
                    ),
                    ReqView::Instructor,
                ],
            ),
        ),
        (
            course("MKTG"@, 4790),
            ReqView::And(
                seq![
                    ReqView::Or(
                        seq![
                            ReqView::Standing(ClassStanding::Junior),
                            ReqView::PreCourse(special_course("MKTG"@, "SE"@)),
                        ],
                    ),
                    ReqView::Instructor,
                ],
            ),
        ),
        (course("MKTG"@, 4810), ReqView::PreCourse(course("MKTG"@, 3100))),
        (
            course("MKTG"@, 4830),
            ReqView::And(
                seq![
                    ReqView::PreCourse(course("MKTG"@, 3100)),
                    ReqView::PreCourse(course("BUSI"@, 2650)),
                ],
            ),
        ),
        (
            course("MKTG"@, 4850),
            ReqView::And(
                seq![
                    ReqView::PreCourse(course("MKTG"@, 3100)),
                    ReqView::PreCourse(special_course("MKTG"@, "SE"@)),
                ],
            ),
        ),
    ]
}

/// The prerequisite rules of the MKTG courses, in the order in which they are listed.
pub fn prereqs() -> (table: Vec<(CourseCode, CourseReq)>)
    ensures
        table.deep_view() == prereq_table(),
        keyed_by_stem(table.deep_view(), "MKTG"@),
{
    proof {
        reveal(prereq_table);
    }
    let table = vec![
        (CourseCode::new("MKTG", 3650), CourseReq::pre(CourseCode::new("MKTG", 3100))),
        (CourseCode::new("MKTG", 3750), CourseReq::pre(CourseCode::new("MKTG", 3100))),
        (CourseCode::new("MKTG", 3810), CourseReq::pre(CourseCode::new("MKTG", 3100))),
        (CourseCode::new("MKTG", 3880), CourseReq::pre(CourseCode::new("MKTG", 3100))),
        (CourseCode::new("MKTG", 4460), CourseReq::pre(CourseCode::new("MKTG", 3100))),
        (CourseCode::new("MKTG", 4470), CourseReq::pre(CourseCode::new("MKTG", 3100))),
        (CourseCode::new("MKTG", 4480), CourseReq::pre(CourseCode::new("MKTG", 3100))),
        (
            CourseCode::new("MKTG", 4650),
            CourseReq::all_of(
                reqs2(
                    CourseReq::pre(CourseCode::new("MKTG", 3100)),
                    CourseReq::pre(CourseCode::new("MKTG", 3650)),
                ),
            ),
        ),
        (
            CourseCode::new("MKTG", 4750),
            CourseReq::all_of(
                reqs2(
                    CourseReq::pre(CourseCode::new("MKTG", 3100)),
                    CourseReq::pre(CourseCode::new("MKTG", 3750)),
                ),
            ),
        ),
        (
            CourseCode::new("MKTG", 4780),
            CourseReq::all_of(
                reqs2(
                    CourseReq::any_of(
                        reqs2(
                            CourseReq::standing(ClassStanding::Junior),
                            CourseReq::pre(CourseCode::special("MKTG", "SE")),
                        ),
                    ),
                    CourseReq::instructor(),
                ),
            ),
        ),
        (
            CourseCode::new("MKTG", 4790),
            CourseReq::all_of(
                reqs2(
                    CourseReq::any_of(
                        reqs2(
                            CourseReq::standing(ClassStanding::Junior),
                            CourseReq::pre(CourseCode::special("MKTG", "SE")),
                        ),
                    ),
                    CourseReq::instructor(),
                ),
            ),
        ),
        (CourseCode::new("MKTG", 4810), CourseReq::pre(CourseCode::new("MKTG", 3100))),
        (
            CourseCode::new("MKTG", 4830),
            CourseReq::all_of(
                reqs2(
                    CourseReq::pre(CourseCode::new("MKTG", 3100)),
                    CourseReq::pre(CourseCode::new("BUSI", 2650)),
                ),
            ),
        ),
        (
            CourseCode::new("MKTG", 4850),
            CourseReq::all_of(
                reqs2(
                    CourseReq::pre(CourseCode::new("MKTG", 3100)),
                    CourseReq::pre(CourseCode::special("MKTG", "SE")),
                ),
            ),
        ),
    ];
    assert(table.deep_view() =~= prereq_table());
    table
}

/// For each MKTG course in the order of the listing: the course, the courses
/// its rule demands outright to have been taken before, the courses it demands
/// outright to be taken before or alongside, and the single conditions that
/// its rule is built from.
pub open spec fn listed_demands() -> Seq<
    (CourseCodeView, Set<CourseCodeView>, Set<CourseCodeView>, Set<ReqView>),
> {
    seq![
        (
            course("MKTG"@, 3650),
            set![course("MKTG"@, 3100)],
            Set::empty(),
            set![ReqView::PreCourse(course("MKTG"@, 3100))],
        ),
        (
            course("MKTG"@, 3750),
            set![course("MKTG"@, 3100)],
            Set::empty(),
            set![ReqView::PreCourse(course("MKTG"@, 3100))],
        ),
        (
            course("MKTG"@, 3810),
            set![course("MKTG"@, 3100)],
            Set::empty(),
            set![ReqView::PreCourse(course("MKTG"@, 3100))],
        ),
        (
            course("MKTG"@, 3880),
            set![course("MKTG"@, 3100)],
            Set::empty(),
            set![ReqView::PreCourse(course("MKTG"@, 3100))],
        ),
        (
            course("MKTG"@, 4460),
            set![course("MKTG"@, 3100)],
            Set::empty(),
            set![ReqView::PreCourse(course("MKTG"@, 3100))],
        ),
        (
            course("MKTG"@, 4470),
            set![course("MKTG"@, 3100)],
            Set::empty(),
            set![ReqView::PreCourse(course("MKTG"@, 3100))],
        ),
        (
            course("MKTG"@, 4480),
            set![course("MKTG"@, 3100)],
            Set::empty(),
            set![ReqView::PreCourse(course("MKTG"@, 3100))],
        ),
        (
            course("MKTG"@, 4650),
            set![course("MKTG"@, 3100), course("MKTG"@, 3650)],
            Set::empty(),
            set![ReqView::PreCourse(course("MKTG"@, 3100)), ReqView::PreCourse(course("MKTG"@, 3650))],
        ),
        (
            course("MKTG"@, 4750),
            set![course("MKTG"@, 3100), course("MKTG"@, 3750)],
            Set::empty(),
            set![ReqView::PreCourse(course("MKTG"@, 3100)), ReqView::PreCourse(course("MKTG"@, 3750))],
        ),
        (
            course("MKTG"@, 4780),
            Set::empty(),
            Set::empty(),
            set![ReqView::Standing(ClassStanding::Junior), ReqView::PreCourse(special_course("MKTG"@, "SE"@)), ReqView::Instructor],
        ),
        (
            course("MKTG"@, 4790),
            Set::empty(),
            Set::empty(),
            set![ReqView::Standing(ClassStanding::Junior), ReqView::PreCourse(special_course("MKTG"@, "SE"@)), ReqView::Instructor],
        ),
        (
            course("MKTG"@, 4810),
            set![course("MKTG"@, 3100)],
            Set::empty(),
            set![ReqView::PreCourse(course("MKTG"@, 3100))],
        ),
        (
            course("MKTG"@, 4830),
            set![course("MKTG"@, 3100), course("BUSI"@, 2650)],
            Set::empty(),
            set![ReqView::PreCourse(course("MKTG"@, 3100)), ReqView::PreCourse(course("BUSI"@, 2650))],
        ),
        (
            course("MKTG"@, 4850),
            set![course("MKTG"@, 3100), special_course("MKTG"@, "SE"@)],
            Set::empty(),
            set![ReqView::PreCourse(course("MKTG"@, 3100)), ReqView::PreCourse(special_course("MKTG"@, "SE"@))],
        ),
    ]
}

/// Each MKTG rule demands before and alongside exactly the courses listed for
/// it, and is built from exactly the conditions listed for it.
pub proof fn law_listed_demands()
    ensures
        prereq_table().len() == listed_demands().len(),
        forall|i: int|
            0 <= i < prereq_table().len() ==> {
                &&& #[trigger] prereq_table()[i].0 == listed_demands()[i].0
                &&& taken_before(prereq_table()[i].1) == listed_demands()[i].1
                &&& taken_alongside(prereq_table()[i].1) == listed_demands()[i].2
                &&& conditions(prereq_table()[i].1) == listed_demands()[i].3
            },
{
    reveal(prereq_table);
    reveal_with_fuel(taken_before, 8);
    reveal_with_fuel(taken_before_all, 10);
    reveal_with_fuel(taken_alongside, 8);
    reveal_with_fuel(taken_alongside_all, 10);
    reveal_with_fuel(conditions, 8);
    reveal_with_fuel(conditions_all, 10);
    assert(taken_before(prereq_table()[0].1) =~= listed_demands()[0].1);
    assert(taken_alongside(prereq_table()[0].1) =~= listed_demands()[0].2);
    assert(conditions(prereq_table()[0].1) =~= listed_demands()[0].3);
    assert(taken_before(prereq_table()[1].1) =~= listed_demands()[1].1);
    assert(taken_alongside(prereq_table()[1].1) =~= listed_demands()[1].2);
    assert(conditions(prereq_table()[1].1) =~= listed_demands()[1].3);
    assert(taken_before(prereq_table()[2].1) =~= listed_demands()[2].1);
    assert(taken_alongside(prereq_table()[2].1) =~= listed_demands()[2].2);
    assert(conditions(prereq_table()[2].1) =~= listed_demands()[2].3);
    assert(taken_before(prereq_table()[3].1) =~= listed_demands()[3].1);
    assert(taken_alongside(prereq_table()[3].1) =~= listed_demands()[3].2);
    assert(conditions(prereq_table()[3].1) =~= listed_demands()[3].3);
    assert(taken_before(prereq_table()[4].1) =~= listed_demands()[4].1);
    assert(taken_alongside(prereq_table()[4].1) =~= listed_demands()[4].2);
    assert(conditions(prereq_table()[4].1) =~= listed_demands()[4].3);
    assert(taken_before(prereq_table()[5].1) =~= listed_demands()[5].1);
    assert(taken_alongside(prereq_table()[5].1) =~= listed_demands()[5].2);
    assert(conditions(prereq_table()[5].1) =~= listed_demands()[5].3);
    assert(taken_before(prereq_table()[6].1) =~= listed_demands()[6].1);
    assert(taken_alongside(prereq_table()[6].1) =~= listed_demands()[6].2);
    assert(conditions(prereq_table()[6].1) =~= listed_demands()[6].3);
    assert(taken_before(prereq_table()[7].1) =~= listed_demands()[7].1);
    assert(taken_alongside(prereq_table()[7].1) =~= listed_demands()[7].2);
    assert(conditions(prereq_table()[7].1) =~= listed_demands()[7].3);
    assert(taken_before(prereq_table()[8].1) =~= listed_demands()[8].1);
    assert(taken_alongside(prereq_table()[8].1) =~= listed_demands()[8].2);
    assert(conditions(prereq_table()[8].1) =~= listed_demands()[8].3);
    assert(taken_before(prereq_table()[9].1) =~= listed_demands()[9].1);
    assert(taken_alongside(prereq_table()[9].1) =~= listed_demands()[9].2);
    assert(conditions(prereq_table()[9].1) =~= listed_demands()[9].3);
    assert(taken_before(prereq_table()[10].1) =~= listed_demands()[10].1);
    assert(taken_alongside(prereq_table()[10].1) =~= listed_demands()[10].2);
    assert(conditions(prereq_table()[10].1) =~= listed_demands()[10].3);
    assert(taken_before(prereq_table()[11].1) =~= listed_demands()[11].1);
    assert(taken_alongside(prereq_table()[11].1) =~= listed_demands()[11].2);
    assert(conditions(prereq_table()[11].1) =~= listed_demands()[11].3);
    assert(taken_before(prereq_table()[12].1) =~= listed_demands()[12].1);
    assert(taken_alongside(prereq_table()[12].1) =~= listed_demands()[12].2);
    assert(conditions(prereq_table()[12].1) =~= listed_demands()[12].3);
    assert(taken_before(prereq_table()[13].1) =~= listed_demands()[13].1);
    assert(taken_alongside(prereq_table()[13].1) =~= listed_demands()[13].2);
    assert(conditions(prereq_table()[13].1) =~= listed_demands()[13].3);
}

/// Every course of the MKTG table is a course of subject MKTG.
pub proof fn law_keyed_by_subject()
    ensures
        keyed_by_stem(prereq_table(), "MKTG"@),
{
    reveal(prereq_table);
}

} // verus!
