//! Prerequisite rules of the MILS courses.

use vstd::prelude::*;
use crate::prereqs::{conditions, conditions_all, taken_alongside, taken_alongside_all, taken_before, taken_before_all, CourseReq, ReqView, reqs2};
use crate::schedule::{CourseCode, CourseCodeView, course, keyed_by_stem};

verus! {

/// The prerequisite rule of each MILS course, as pairs of course and rule in
/// the order in which they are listed.
#[verifier::opaque]
pub open spec fn prereq_table() -> Seq<(CourseCodeView, ReqView)> {
    seq![
        (course("MILS"@, 1260), ReqView::PreCourse(course("MILS"@, 1160))),
        (
            course("MILS"@, 1480),
            ReqView::And(
                seq![
                    ReqView::PreCourse(course("MILS"@, 1440)),
                    ReqView::CoCourse(course("MILS"@, 1000)),
                ],
            ),
        ),
        (course("MILS"@, 2160), ReqView::PreCourse(course("MILS"@, 1260))),
        (course("MILS"@, 3020), ReqView::CoCourse(course("MILS"@, 3160))),
        (course("MILS"@, 3120), ReqView::CoCourse(course("MILS"@, 3260))),
        (course("MILS"@, 3160), ReqView::CoCourse(course("MILS"@, 3020))),
        (
            course("MILS"@, 3260),
            ReqView::And(
                seq![
                    ReqView::PreCourse(course("MILS"@, 3160)),
                    ReqView::CoCourse(course("MILS"@, 3120)),
                ],
            ),
        ),
        (course("MILS"@, 4020), ReqView::CoCourse(course("MILS"@, 4160))),
        (
            course("MILS"@, 4040),
            ReqView::And(
                seq![
                    ReqView::PreCourse(course("MILS"@, 3480)),
                    ReqView::CoCourse(course("MILS"@, 1000)),
                ],
            ),
        ),
        (
            course("MILS"@, 4080),
            ReqView::And(
                seq![
                    ReqView::PreCourse(course("MILS"@, 4040)),
                    ReqView::CoCourse(course("MILS"@, 1000)),
                ],
            ),
        ),
        (course("MILS"@, 4120), ReqView::CoCourse(course("MILS"@, 4260))),
        (course("MILS"@, 4160), ReqView::CoCourse(course("MILS"@, 4020))),
        (
            course("MILS"@, 4260),
            ReqView::And(
                seq![
                    ReqView::PreCourse(course("MILS"@, 4160)),
                    ReqView::CoCourse(course("MILS"@, 4120)),
                ],
            ),
        ),
    ]
}

/// The prerequisite rules of the MILS courses, in the order in which they are listed.
pub fn prereqs() -> (table: Vec<(CourseCode, CourseReq)>)
    ensures
        table.deep_view() == prereq_table(),
        keyed_by_stem(table.deep_view(), "MILS"@),
{
    proof {
        reveal(prereq_table);
    }
    let table = vec![
        (CourseCode::new("MILS", 1260), CourseReq::pre(CourseCode::new("MILS", 1160))),
        (
            CourseCode::new("MILS", 1480),
            CourseReq::all_of(
                reqs2(
                    CourseReq::pre(CourseCode::new("MILS", 1440)),
                    CourseReq::co(CourseCode::new("MILS", 1000)),
                ),
            ),
        ),
        (CourseCode::new("MILS", 2160), CourseReq::pre(CourseCode::new("MILS", 1260))),
        (CourseCode::new("MILS", 3020), CourseReq::co(CourseCode::new("MILS", 3160))),
        (CourseCode::new("MILS", 3120), CourseReq::co(CourseCode::new("MILS", 3260))),
        (CourseCode::new("MILS", 3160), CourseReq::co(CourseCode::new("MILS", 3020))),
        (
            CourseCode::new("MILS", 3260),
            CourseReq::all_of(
                reqs2(
                    CourseReq::pre(CourseCode::new("MILS", 3160)),
                    CourseReq::co(CourseCode::new("MILS", 3120)),
                ),
            ),
        ),
        (CourseCode::new("MILS", 4020), CourseReq::co(CourseCode::new("MILS", 4160))),
        (
            CourseCode::new("MILS", 4040),
            CourseReq::all_of(
                reqs2(
                    CourseReq::pre(CourseCode::new("MILS", 3480)),
                    CourseReq::co(CourseCode::new("MILS", 1000)),
                ),
            ),
        ),
        (
            CourseCode::new("MILS", 4080),
            CourseReq::all_of(
                reqs2(
                    CourseReq::pre(CourseCode::new("MILS", 4040)),
                    CourseReq::co(CourseCode::new("MILS", 1000)),
                ),
            ),
        ),
        (CourseCode::new("MILS", 4120), CourseReq::co(CourseCode::new("MILS", 4260))),
        (CourseCode::new("MILS", 4160), CourseReq::co(CourseCode::new("MILS", 4020))),
        (
            CourseCode::new("MILS", 4260),
            CourseReq::all_of(
                reqs2(
                    CourseReq::pre(CourseCode::new("MILS", 4160)),
                    CourseReq::co(CourseCode::new("MILS", 4120)),
                ),
            ),
        ),
    ];
    assert(table.deep_view() =~= prereq_table());
    table
}

/// For each MILS course in the order of the listing: the course, the courses
/// its rule demands outright to have been taken before, the courses it demands
/// outright to be taken before or alongside, and the single conditions that
/// its rule is built from.
pub open spec fn listed_demands() -> Seq<
    (CourseCodeView, Set<CourseCodeView>, Set<CourseCodeView>, Set<ReqView>),
> {
    seq![
        (
            course("MILS"@, 1260),
            set![course("MILS"@, 1160)],
            Set::empty(),
            set![ReqView::PreCourse(course("MILS"@, 1160))],
        ),
        (
            course("MILS"@, 1480),
            set![course("MILS"@, 1440)],
            set![course("MILS"@, 1000)],
            set![ReqView::PreCourse(course("MILS"@, 1440)), ReqView::CoCourse(course("MILS"@, 1000))],
        ),
        (
            course("MILS"@, 2160),
            set![course("MILS"@, 1260)],
            Set::empty(),
            set![ReqView::PreCourse(course("MILS"@, 1260))],
        ),
        (
            course("MILS"@, 3020),
            Set::empty(),
            set![course("MILS"@, 3160)],
            set![ReqView::CoCourse(course("MILS"@, 3160))],
        ),
        (
            course("MILS"@, 3120),
            Set::empty(),
            set![course("MILS"@, 3260)],
            set![ReqView::CoCourse(course("MILS"@, 3260))],
        ),
        (
            course("MILS"@, 3160),
            Set::empty(),
            set![course("MILS"@, 3020)],
            set![ReqView::CoCourse(course("MILS"@, 3020))],
        ),
        (
            course("MILS"@, 3260),
            set![course("MILS"@, 3160)],
            set![course("MILS"@, 3120)],
            set![ReqView::PreCourse(course("MILS"@, 3160)), ReqView::CoCourse(course("MILS"@, 3120))],
        ),
        (
            course("MILS"@, 4020),
            Set::empty(),
            set![course("MILS"@, 4160)],
            set![ReqView::CoCourse(course("MILS"@, 4160))],
        ),
        (
            course("MILS"@, 4040),
            set![course("MILS"@, 3480)],
            set![course("MILS"@, 1000)],
            set![ReqView::PreCourse(course("MILS"@, 3480)), ReqView::CoCourse(course("MILS"@, 1000))],
        ),
        (
            course("MILS"@, 4080),
            set![course("MILS"@, 4040)],
            set![course("MILS"@, 1000)],
            set![ReqView::PreCourse(course("MILS"@, 4040)), ReqView::CoCourse(course("MILS"@, 1000))],
        ),
        (
            course("MILS"@, 4120),
            Set::empty(),
            set![course("MILS"@, 4260)],
            set![ReqView::CoCourse(course("MILS"@, 4260))],
        ),
        (
            course("MILS"@, 4160),
            Set::empty(),
            set![course("MILS"@, 4020)],
            set![ReqView::CoCourse(course("MILS"@, 4020))],
        ),
        (
            course("MILS"@, 4260),
            set![course("MILS"@, 4160)],
            set![course("MILS"@, 4120)],
            set![ReqView::PreCourse(course("MILS"@, 4160)), ReqView::CoCourse(course("MILS"@, 4120))],
        ),
    ]
}

/// Each MILS rule demands before and alongside exactly the courses listed for
/// it, and is built from exactly the conditions listed for it.
pub proof fn law_listed_demands()
    ensures
        prereq_table().len() == listed_demands().len(),
        forall|i: int|
            0 <= i < prereq_table().len() ==> {
                &&& #[trigger] prereq_table()[i].0 == listed_demands()[i].0
                &&& taken_before(prereq_table()[i].1) == listed_demands()[i].1
                &&& taken_alongside(prereq_table()[i].1) == listed_demands()[i].2
                &&& conditions(prereq_table()[i].1) == listed_demands()[i].3
            },
{
    reveal(prereq_table);
    reveal_with_fuel(taken_before, 8);
    reveal_with_fuel(taken_before_all, 10);
    reveal_with_fuel(taken_alongside, 8);
    reveal_with_fuel(taken_alongside_all, 10);
    reveal_with_fuel(conditions, 8);
    reveal_with_fuel(conditions_all, 10);
    assert(taken_before(prereq_table()[0].1) =~= listed_demands()[0].1);
    assert(taken_alongside(prereq_table()[0].1) =~= listed_demands()[0].2);
    assert(conditions(prereq_table()[0].1) =~= listed_demands()[0].3);
    assert(taken_before(prereq_table()[1].1) =~= listed_demands()[1].1);
    assert(taken_alongside(prereq_table()[1].1) =~= listed_demands()[1].2);
    assert(conditions(prereq_table()[1].1) =~= listed_demands()[1].3);
    assert(taken_before(prereq_table()[2].1) =~= listed_demands()[2].1);
    assert(taken_alongside(prereq_table()[2].1) =~= listed_demands()[2].2);
    assert(conditions(prereq_table()[2].1) =~= listed_demands()[2].3);
    assert(taken_before(prereq_table()[3].1) =~= listed_demands()[3].1);
    assert(taken_alongside(prereq_table()[3].1) =~= listed_demands()[3].2);
    assert(conditions(prereq_table()[3].1) =~= listed_demands()[3].3);
    assert(taken_before(prereq_table()[4].1) =~= listed_demands()[4].1);
    assert(taken_alongside(prereq_table()[4].1) =~= listed_demands()[4].2);
    assert(conditions(prereq_table()[4].1) =~= listed_demands()[4].3);
    assert(taken_before(prereq_table()[5].1) =~= listed_demands()[5].1);
    assert(taken_alongside(prereq_table()[5].1) =~= listed_demands()[5].2);
    assert(conditions(prereq_table()[5].1) =~= listed_demands()[5].3);
    assert(taken_before(prereq_table()[6].1) =~= listed_demands()[6].1);
    assert(taken_alongside(prereq_table()[6].1) =~= listed_demands()[6].2);
    assert(conditions(prereq_table()[6].1) =~= listed_demands()[6].3);
    assert(taken_before(prereq_table()[7].1) =~= listed_demands()[7].1);
    assert(taken_alongside(prereq_table()[7].1) =~= listed_demands()[7].2);
    assert(conditions(prereq_table()[7].1) =~= listed_demands()[7].3);
    assert(taken_before(prereq_table()[8].1) =~= listed_demands()[8].1);
    assert(taken_alongside(prereq_table()[8].1) =~= listed_demands()[8].2);
    assert(conditions(prereq_table()[8].1) =~= listed_demands()[8].3);
    assert(taken_before(prereq_table()[9].1) =~= listed_demands()[9].1);
    assert(taken_alongside(prereq_table()[9].1) =~= listed_demands()[9].2);
    assert(conditions(prereq_table()[9].1) =~= listed_demands()[9].3);
    assert(taken_before(prereq_table()[10].1) =~= listed_demands()[10].1);
    assert(taken_alongside(prereq_table()[10].1) =~= listed_demands()[10].2);
    assert(conditions(prereq_table()[10].1) =~= listed_demands()[10].3);
    assert(taken_before(prereq_table()[11].1) =~= listed_demands()[11].1);
    assert(taken_alongside(prereq_table()[11].1) =~= listed_demands()[11].2);
    assert(conditions(prereq_table()[11].1) =~= listed_demands()[11].3);
    assert(taken_before(prereq_table()[12].1) =~= listed_demands()[12].1);
    assert(taken_alongside(prereq_table()[12].1) =~= listed_demands()[12].2);
    assert(conditions(prereq_table()[12].1) =~= listed_demands()[12].3);
}

/// Every course of the MILS table is a course of subject MILS.
pub proof fn law_keyed_by_subject()
    ensures
        keyed_by_stem(prereq_table(), "MILS"@),
{
    reveal(prereq_table);
}

} // verus!
