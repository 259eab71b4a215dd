//! Prerequisite rules of the MGMT courses.

use vstd::prelude::*;
use crate::prereqs::{conditions, conditions_all, taken_alongside, taken_alongside_all, taken_before, taken_before_all, CourseReq, ReqView, ClassStanding, reqs2};
use crate::schedule::{CourseCode, CourseCodeView, course, keyed_by_stem};

verus! {

/// The prerequisite rule of each MGMT course, as pairs of course and rule in
/// the order in which they are listed.
#[verifier::opaque]
pub open spec fn prereq_table() -> Seq<(CourseCodeView, ReqView)> {
    seq![
        (course("MGMT"@, 2550), ReqView::PreCourse(course("BUSI"@, 1550))),
        (course("MGMT"@, 3250), ReqView::PreCourse(course("MGMT"@, 2250))),
        (course("MGMT"@, 3400), ReqView::PreCourse(course("MGMT"@, 2250))),
        (
            course("MGMT"@, 3510),
            ReqView::And(
                seq![
                    ReqView::PreCourse(course("MGMT"@, 2250)),
                    ReqView::PreCourse(course("ACCT"@, 2090)),
                ],
            ),
        ),
        (
            course("MGMT"@, 3550),
            ReqView::Or(seq![ReqView::Standing(ClassStanding::Junior), ReqView::Instructor]),
        ),
        (
            course("MGMT"@, 3660),
            ReqView::And(
                seq![
                    ReqView::PreCourse(course("MGMT"@, 2250)),
                    ReqView::Or(
                        seq![
                            ReqView::PreCourse(course("BUSI"@, 2650)),
                            ReqView::PreCourse(course("MATH"@, 1220)),
                        ],
                    ),
                ],
            ),
        ),
        (course("MGMT"@, 4450), ReqView::PreCourse(course("MGMT"@, 3450))),
        (
            course("MGMT"@, 4500),
            ReqView::And(
                seq![
                    ReqView::PreCourse(course("MGMT"@, 2250)),
                    ReqView::PreCourse(course("MGMT"@, 3500)),
                ],
            ),
        ),
        (course("MGMT"@, 4560), ReqView::PreCourse(course("MGMT"@, 2250))),
        (
            course("MGMT"@, 4660),
            ReqView::And(
                seq![
                    ReqView::PreCourse(course("MGMT"@, 2250)),
                    ReqView::Or(
                        seq![
                            ReqView::PreCourse(course("BUSI"@, 2650)),
                            ReqView::PreCourse(course("MATH"@, 1220)),
                        ],
                    ),
                ],
            ),
        ),
        (course("MGMT"@, 4720), ReqView::PreCourse(course("BUSI"@, 3710))),
        (course("MGMT"@, 4730), ReqView::PreCourse(course("BUSI"@, 4500))),
        (course("MGMT"@, 4740), ReqView::PreCourse(course("BUSI"@, 3710))),
        (course("MGMT"@, 4750), ReqView::PreCourse(course("MGMT"@, 2250))),
        (
            course("MGMT"@, 4780),
            ReqView::And(seq![ReqView::Standing(ClassStanding::Junior), ReqView::Instructor]),
        ),
        (course("MGMT"@, 4890), ReqView::Instructor),
    ]
}

/// The prerequisite rules of the MGMT courses, in the order in which they are listed.
pub fn prereqs() -> (table: Vec<(CourseCode, CourseReq)>)
    ensures
        table.deep_view() == prereq_table(),
        keyed_by_stem(table.deep_view(), "MGMT"@),
{
    proof {
        reveal(prereq_table);
    }
    let table = vec![
        (CourseCode::new("MGMT", 2550), CourseReq::pre(CourseCode::new("BUSI", 1550))),
        (CourseCode::new("MGMT", 3250), CourseReq::pre(CourseCode::new("MGMT", 2250))),
        (CourseCode::new("MGMT", 3400), CourseReq::pre(CourseCode::new("MGMT", 2250))),
        (
            CourseCode::new("MGMT", 3510),
            CourseReq::all_of(
                reqs2(
                    CourseReq::pre(CourseCode::new("MGMT", 2250)),
                    CourseReq::pre(CourseCode::new("ACCT", 2090)),
                ),
            ),
        ),
        (
            CourseCode::new("MGMT", 3550),
            CourseReq::any_of(
                reqs2(CourseReq::standing(ClassStanding::Junior), CourseReq::instructor()),
            ),
        ),
        (
            CourseCode::new("MGMT", 3660),
            CourseReq::all_of(
                reqs2(
                    CourseReq::pre(CourseCode::new("MGMT", 2250)),
                    CourseReq::any_of(
                        reqs2(
                            CourseReq::pre(CourseCode::new("BUSI", 2650)),
                            CourseReq::pre(CourseCode::new("MATH", 1220)),
                        ),
                    ),
                ),
            ),
        ),
        (CourseCode::new("MGMT", 4450), CourseReq::pre(CourseCode::new("MGMT", 3450))),
        (
            CourseCode::new("MGMT", 4500),
            CourseReq::all_of(
                reqs2(
                    CourseReq::pre(CourseCode::new("MGMT", 2250)),
                    CourseReq::pre(CourseCode::new("MGMT", 3500)),
                ),
            ),
        ),
        (CourseCode::new("MGMT", 4560), CourseReq::pre(CourseCode::new("MGMT", 2250))),
        (
            CourseCode::new("MGMT", 4660),
            CourseReq::all_of(
                reqs2(
                    CourseReq::pre(CourseCode::new("MGMT", 2250)),
                    CourseReq::any_of(
                        reqs2(
                            CourseReq::pre(CourseCode::new("BUSI", 2650)),
                            CourseReq::pre(CourseCode::new("MATH", 1220)),
                        ),
                    ),
                ),
            ),
        ),
        (CourseCode::new("MGMT", 4720), CourseReq::pre(CourseCode::new("BUSI", 3710))),
        (CourseCode::new("MGMT", 4730), CourseReq::pre(CourseCode::new("BUSI", 4500))),
        (CourseCode::new("MGMT", 4740), CourseReq::pre(CourseCode::new("BUSI", 3710))),
        (CourseCode::new("MGMT", 4750), CourseReq::pre(CourseCode::new("MGMT", 2250))),
        (
            CourseCode::new("MGMT", 4780),
            CourseReq::all_of(
                reqs2(CourseReq::standing(ClassStanding::Junior), CourseReq::instructor()),
            ),
        ),
        (CourseCode::new("MGMT", 4890), CourseReq::instructor()),
    ];
    assert(table.deep_view() =~= prereq_table());
    table
}

/// For each MGMT course in the order of the listing: the course, the courses
/// its rule demands outright to have been taken before, the courses it demands
/// outright to be taken before or alongside, and the single conditions that
/// its rule is built from.
pub open spec fn listed_demands() -> Seq<
    (CourseCodeView, Set<CourseCodeView>, Set<CourseCodeView>, Set<ReqView>),
> {
    seq![
        (
            course("MGMT"@, 2550),
            set![course("BUSI"@, 1550)],
            Set::empty(),
            set![ReqView::PreCourse(course("BUSI"@, 1550))],
        ),
        (
            course("MGMT"@, 3250),
            set![course("MGMT"@, 2250)],
            Set::empty(),
            set![ReqView::PreCourse(course("MGMT"@, 2250))],
        ),
        (
            course("MGMT"@, 3400),
            set![course("MGMT"@, 2250)],
            Set::empty(),
            set![ReqView::PreCourse(course("MGMT"@, 2250))],
        ),
        (
            course("MGMT"@, 3510),
            set![course("MGMT"@, 2250), course("ACCT"@, 2090)],
            Set::empty(),
            set![ReqView::PreCourse(course("MGMT"@, 2250)), ReqView::PreCourse(course("ACCT"@, 2090))],
        ),
        (
            course("MGMT"@, 3550),
            Set::empty(),
            Set::empty(),
            set![ReqView::Standing(ClassStanding::Junior), ReqView::Instructor],
        ),
        (
            course("MGMT"@, 3660),
            set![course("MGMT"@, 2250)],
            Set::empty(),
            set![ReqView::PreCourse(course("MGMT"@, 2250)), ReqView::PreCourse(course("BUSI"@, 2650)), ReqView::PreCourse(course("MATH"@, 1220))],
        ),
        (
            course("MGMT"@, 4450),
            set![course("MGMT"@, 3450)],
            Set::empty(),
            set![ReqView::PreCourse(course("MGMT"@, 3450))],
        ),
        (
            course("MGMT"@, 4500),
            set![course("MGMT"@, 2250), course("MGMT"@, 3500)],
            Set::empty(),
            set![ReqView::PreCourse(course("MGMT"@, 2250)), ReqView::PreCourse(course("MGMT"@, 3500))],
        ),
        (
            course("MGMT"@, 4560),
            set![course("MGMT"@, 2250)],
            Set::empty(),
            set![ReqView::PreCourse(course("MGMT"@, 2250))],
        ),
        (
            course("MGMT"@, 4660),
            set![course("MGMT"@, 2250)],
            Set::empty(),
            set![ReqView::PreCourse(course("MGMT"@, 2250)), ReqView::PreCourse(course("BUSI"@, 2650)), ReqView::PreCourse(course("MATH"@, 1220))],
        ),
        (
            course("MGMT"@, 4720),
            set![course("BUSI"@, 3710)],
            Set::empty(),
            set![ReqView::PreCourse(course("BUSI"@, 3710))],
        ),
        (
            course("MGMT"@, 4730),
            set![course("BUSI"@, 4500)],
            Set::empty(),
            set![ReqView::PreCourse(course("BUSI"@, 4500))],
        ),
        (
            course("MGMT"@, 4740),
            set![course("BUSI"@, 3710)],
            Set::empty(),
            set![ReqView::PreCourse(course("BUSI"@, 3710))],
        ),
        (
            course("MGMT"@, 4750),
            set![course("MGMT"@, 2250)],
            Set::empty(),
            set![ReqView::PreCourse(course("MGMT"@, 2250))],
        ),
        (
            course("MGMT"@, 4780),
            Set::empty(),
            Set::empty(),
            set![ReqView::Standing(ClassStanding::Junior), ReqView::Instructor],
        ),
        (
            course("MGMT"@, 4890),
            Set::empty(),
            Set::empty(),
            set![ReqView::Instructor],
        ),
    ]
}

/// Each MGMT rule demands before and alongside exactly the courses listed for
/// it, and is built from exactly the conditions listed for it.
pub proof fn law_listed_demands()
    ensures
        prereq_table().len() == listed_demands().len(),
        forall|i: int|
            0 <= i < prereq_table().len() ==> {
                &&& #[trigger] prereq_table()[i].0 == listed_demands()[i].0
                &&& taken_before(prereq_table()[i].1) == listed_demands()[i].1
                &&& taken_alongside(prereq_table()[i].1) == listed_demands()[i].2
                &&& conditions(prereq_table()[i].1) == listed_demands()[i].3
            },
{
    reveal(prereq_table);
    reveal_with_fuel(taken_before, 8);
    reveal_with_fuel(taken_before_all, 10);
    reveal_with_fuel(taken_alongside, 8);
    reveal_with_fuel(taken_alongside_all, 10);
    reveal_with_fuel(conditions, 8);
    reveal_with_fuel(conditions_all, 10);
    assert(taken_before(prereq_table()[0].1) =~= listed_demands()[0].1);
    assert(taken_alongside(prereq_table()[0].1) =~= listed_demands()[0].2);
    assert(conditions(prereq_table()[0].1) =~= listed_demands()[0].3);
    assert(taken_before(prereq_table()[1].1) =~= listed_demands()[1].1);
    assert(taken_alongside(prereq_table()[1].1) =~= listed_demands()[1].2);
    assert(conditions(prereq_table()[1].1) =~= listed_demands()[1].3);
    assert(taken_before(prereq_table()[2].1) =~= listed_demands()[2].1);
    assert(taken_alongside(prereq_table()[2].1) =~= listed_demands()[2].2);
    assert(conditions(prereq_table()[2].1) =~= listed_demands()[2].3);
    assert(taken_before(prereq_table()[3].1) =~= listed_demands()[3].1);
    assert(taken_alongside(prereq_table()[3].1) =~= listed_demands()[3].2);
    assert(conditions(prereq_table()[3].1) =~= listed_demands()[3].3);
    assert(taken_before(prereq_table()[4].1) =~= listed_demands()[4].1);
    assert(taken_alongside(prereq_table()[4].1) =~= listed_demands()[4].2);
    assert(conditions(prereq_table()[4].1) =~= listed_demands()[4].3);
    assert(taken_before(prereq_table()[5].1) =~= listed_demands()[5].1);
    assert(taken_alongside(prereq_table()[5].1) =~= listed_demands()[5].2);
    assert(conditions(prereq_table()[5].1) =~= listed_demands()[5].3);
    assert(taken_before(prereq_table()[6].1) =~= listed_demands()[6].1);
    assert(taken_alongside(prereq_table()[6].1) =~= listed_demands()[6].2);
    assert(conditions(prereq_table()[6].1) =~= listed_demands()[6].3);
    assert(taken_before(prereq_table()[7].1) =~= listed_demands()[7].1);
    assert(taken_alongside(prereq_table()[7].1) =~= listed_demands()[7].2);
    assert(conditions(prereq_table()[7].1) =~= listed_demands()[7].3);
    assert(taken_before(prereq_table()[8].1) =~= listed_demands()[8].1);
    assert(taken_alongside(prereq_table()[8].1) =~= listed_demands()[8].2);
    assert(conditions(prereq_table()[8].1) =~= listed_demands()[8].3);
    assert(taken_before(prereq_table()[9].1) =~= listed_demands()[9].1);
    assert(taken_alongside(prereq_table()[9].1) =~= listed_demands()[9].2);
    assert(conditions(prereq_table()[9].1) =~= listed_demands()[9].3);
    assert(taken_before(prereq_table()[10].1) =~= listed_demands()[10].1);
    assert(taken_alongside(prereq_table()[10].1) =~= listed_demands()[10].2);
    assert(conditions(prereq_table()[10].1) =~= listed_demands()[10].3);
    assert(taken_before(prereq_table()[11].1) =~= listed_demands()[11].1);
    assert(taken_alongside(prereq_table()[11].1) =~= listed_demands()[11].2);
    assert(conditions(prereq_table()[11].1) =~= listed_demands()[11].3);
    assert(taken_before(prereq_table()[12].1) =~= listed_demands()[12].1);
    assert(taken_alongside(prereq_table()[12].1) =~= listed_demands()[12].2);
    assert(conditions(prereq_table()[12].1) =~= listed_demands()[12].3);
    assert(taken_before(prereq_table()[13].1) =~= listed_demands()[13].1);
    assert(taken_alongside(prereq_table()[13].1) =~= listed_demands()[13].2);
    assert(conditions(prereq_table()[13].1) =~= listed_demands()[13].3);
    assert(taken_before(prereq_table()[14].1) =~= listed_demands()[14].1);
    assert(taken_alongside(prereq_table()[14].1) =~= listed_demands()[14].2);
    assert(conditions(prereq_table()[14].1) =~= listed_demands()[14].3);
    assert(taken_before(prereq_table()[15].1) =~= listed_demands()[15].1);
    assert(taken_alongside(prereq_table()[15].1) =~= listed_demands()[15].2);
    assert(conditions(prereq_table()[15].1) =~= listed_demands()[15].3);
}

/// Every course of the MGMT table is a course of subject MGMT.
pub proof fn law_keyed_by_subject()
    ensures
        keyed_by_stem(prereq_table(), "MGMT"@),
{
    reveal(prereq_table);
}

} // verus!
