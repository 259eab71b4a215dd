//! Prerequisite rules of the CSCI courses.

use vstd::prelude::*;
use crate::prereqs::{conditions, conditions_all, taken_alongside, taken_alongside_all, taken_before, taken_before_all, CourseReq, ReqView, reqs2};
use crate::schedule::{CourseCode, CourseCodeView, course, special_course, keyed_by_stem};

verus! {

/// The prerequisite rule of each CSCI course, as pairs of course and rule in
/// the order in which they are listed.
#[verifier::opaque]
pub open spec fn prereq_table() -> Seq<(CourseCodeView, ReqView)> {
    seq![
        (course("CSCI"@, 2000), ReqView::Instructor),
        (course("CSCI"@, 2150), ReqView::PreCourse(course("CSCI"@, 1140))),
        (course("CSCI"@, 2300), ReqView::PreCourse(course("MATH"@, 1300))),
        (
            course("CSCI"@, 2650),
            ReqView::And(
                seq![
                    ReqView::PreCourse(course("MATH"@, 2550)),
                    ReqView::PreCourse(course("CSCI"@, 1140)),
                ],
            ),
        ),
        (
            course("CSCI"@, 3100),
            ReqView::And(
                seq![
                    ReqView::PreCourse(course("MATH"@, 2550)),
                    ReqView::PreCourse(course("CSCI"@, 2150)),
                ],
            ),
        ),
        (
            course("CSCI"@, 3500),
            ReqView::And(
                seq![
                    ReqView::PreCourse(course("CSCI"@, 2150)),
                    ReqView::PreCourse(course("CSCI"@, 2560)),
                ],
            ),
        ),
        (
            course("CSCI"@, 3570),
            ReqView::And(
                seq![
                    ReqView::PreCourse(course("CSCI"@, 2150)),
                    ReqView::PreCourse(course("CSCI"@, 2560)),
                ],
            ),
        ),
        (course("CSCI"@, 3600), ReqView::PreCourse(course("CSCI"@, 2150))),
        (course("CSCI"@, 3800), ReqView::PreCourse(course("CSCI"@, 2150))),
        (
            course("CSCI"@, 4200),
            ReqView::And(
                seq![
                    ReqView::PreCourse(course("MATH"@, 2550)),
                    ReqView::PreCourse(course("CSCI"@, 2150)),
                ],
            ),
        ),
        (
            course("CSCI"@, 4400),
            ReqView::And(
                seq![
                    ReqView::PreCourse(course("MATH"@, 2550)),
                    ReqView::PreCourse(course("CSCI"@, 2150)),
                ],
            ),
        ),
        (course("CSCI"@, 4790), ReqView::Instructor),
        (course("CSCI"@, 4900), ReqView::CoCourse(special_course("CSCI"@, "COMP"@))),
        (course("CSCI"@, 4930), ReqView::PreCourse(course("CSCI"@, 4920))),
    ]
}

/// The prerequisite rules of the CSCI courses, in the order in which they are listed.
pub fn prereqs() -> (table: Vec<(CourseCode, CourseReq)>)
    ensures
        table.deep_view() == prereq_table(),
        keyed_by_stem(table.deep_view(), "CSCI"@),
{
    proof {
        reveal(prereq_table);
    }
    let table = vec![
        (CourseCode::new("CSCI", 2000), CourseReq::instructor()),
        (CourseCode::new("CSCI", 2150), CourseReq::pre(CourseCode::new("CSCI", 1140))),
        (CourseCode::new("CSCI", 2300), CourseReq::pre(CourseCode::new("MATH", 1300))),
        (
            CourseCode::new("CSCI", 2650),
            CourseReq::all_of(
                reqs2(
                    CourseReq::pre(CourseCode::new("MATH", 2550)),
                    CourseReq::pre(CourseCode::new("CSCI", 1140)),
                ),
            ),
        ),
        (
            CourseCode::new("CSCI", 3100),
            CourseReq::all_of(
                reqs2(
                    CourseReq::pre(CourseCode::new("MATH", 2550)),
                    CourseReq::pre(CourseCode::new("CSCI", 2150)),
                ),
            ),
        ),
        (
            CourseCode::new("CSCI", 3500),
            CourseReq::all_of(
                reqs2(
                    CourseReq::pre(CourseCode::new("CSCI", 2150)),
                    CourseReq::pre(CourseCode::new("CSCI", 2560)),
                ),
            ),
        ),
        (
            CourseCode::new("CSCI", 3570),
            CourseReq::all_of(
                reqs2(
                    CourseReq::pre(CourseCode::new("CSCI", 2150)),
                    CourseReq::pre(CourseCode::new("CSCI", 2560)),
                ),
            ),
        ),
        (CourseCode::new("CSCI", 3600), CourseReq::pre(CourseCode::new("CSCI", 2150))),
        (CourseCode::new("CSCI", 3800), CourseReq::pre(CourseCode::new("CSCI", 2150))),
        (
            CourseCode::new("CSCI", 4200),
            CourseReq::all_of(
                reqs2(
                    CourseReq::pre(CourseCode::new("MATH", 2550)),
                    CourseReq::pre(CourseCode::new("CSCI", 2150)),
                ),
            ),
        ),
        (
            CourseCode::new("CSCI", 4400),
            CourseReq::all_of(
                reqs2(
                    CourseReq::pre(CourseCode::new("MATH", 2550)),
                    CourseReq::pre(CourseCode::new("CSCI", 2150)),
                ),
            ),
        ),
        (CourseCode::new("CSCI", 4790), CourseReq::instructor()),
        (CourseCode::new("CSCI", 4900), CourseReq::co(CourseCode::special("CSCI", "COMP"))),
        (CourseCode::new("CSCI", 4930), CourseReq::pre(CourseCode::new("CSCI", 4920))),
    ];
    assert(table.deep_view() =~= prereq_table());
    table
}

/// For each CSCI course in the order of the listing: the course, the courses
/// its rule demands outright to have been taken before, the courses it demands
/// outright to be taken before or alongside, and the single conditions that
/// its rule is built from.
pub open spec fn listed_demands() -> Seq<
    (CourseCodeView, Set<CourseCodeView>, Set<CourseCodeView>, Set<ReqView>),
> {
    seq![
        (
            course("CSCI"@, 2000),
            Set::empty(),
            Set::empty(),
            set![ReqView::Instructor],
        ),
        (
            course("CSCI"@, 2150),
            set![course("CSCI"@, 1140)],
            Set::empty(),
            set![ReqView::PreCourse(course("CSCI"@, 1140))],
        ),
        (
            course("CSCI"@, 2300),
            set![course("MATH"@, 1300)],
            Set::empty(),
            set![ReqView::PreCourse(course("MATH"@, 1300))],
        ),
        (
            course("CSCI"@, 2650),
            set![course("MATH"@, 2550), course("CSCI"@, 1140)],
            Set::empty(),
            set![ReqView::PreCourse(course("MATH"@, 2550)), ReqView::PreCourse(course("CSCI"@, 1140))],
        ),
        (
            course("CSCI"@, 3100),
            set![course("MATH"@, 2550), course("CSCI"@, 2150)],
            Set::empty(),
            set![ReqView::PreCourse(course("MATH"@, 2550)), ReqView::PreCourse(course("CSCI"@, 2150))],
        ),
        (
            course("CSCI"@, 3500),
            set![course("CSCI"@, 2150), course("CSCI"@, 2560)],
            Set::empty(),
            set![ReqView::PreCourse(course("CSCI"@, 2150)), ReqView::PreCourse(course("CSCI"@, 2560))],
        ),
        (
            course("CSCI"@, 3570),
            set![course("CSCI"@, 2150), course("CSCI"@, 2560)],
            Set::empty(),
            set![ReqView::PreCourse(course("CSCI"@, 2150)), ReqView::PreCourse(course("CSCI"@, 2560))],
        ),
        (
            course("CSCI"@, 3600),
            set![course("CSCI"@, 2150)],
            Set::empty(),
            set![ReqView::PreCourse(course("CSCI"@, 2150))],
        ),
        (
            course("CSCI"@, 3800),
            set![course("CSCI"@, 2150)],
            Set::empty(),
            set![ReqView::PreCourse(course("CSCI"@, 2150))],
        ),
        (
            course("CSCI"@, 4200),
            set![course("MATH"@, 2550), course("CSCI"@, 2150)],
            Set::empty(),
            set![ReqView::PreCourse(course("MATH"@, 2550)), ReqView::PreCourse(course("CSCI"@, 2150))],
        ),
        (
            course("CSCI"@, 4400),
            set![course("MATH"@, 2550), course("CSCI"@, 2150)],
            Set::empty(),
            set![ReqView::PreCourse(course("MATH"@, 2550)), ReqView::PreCourse(course("CSCI"@, 2150))],
        ),
        (
            course("CSCI"@, 4790),
            Set::empty(),
            Set::empty(),
            set![ReqView::Instructor],
        ),
        (
            course("CSCI"@, 4900),
            Set::empty(),
            set![special_course("CSCI"@, "COMP"@)],
            set![ReqView::CoCourse(special_course("CSCI"@, "COMP"@))],
        ),
        (
            course("CSCI"@, 4930),
            set![course("CSCI"@, 4920)],
            Set::empty(),
            set![ReqView::PreCourse(course("CSCI"@, 4920))],
        ),
    ]
}

/// Each CSCI rule demands before and alongside exactly the courses listed for
/// it, and is built from exactly the conditions listed for it.
pub proof fn law_listed_demands()
    ensures
        prereq_table().len() == listed_demands().len(),
        forall|i: int|
            0 <= i < prereq_table().len() ==> {
                &&& #[trigger] prereq_table()[i].0 == listed_demands()[i].0
                &&& taken_before(prereq_table()[i].1) == listed_demands()[i].1
                &&& taken_alongside(prereq_table()[i].1) == listed_demands()[i].2
                &&& conditions(prereq_table()[i].1) == listed_demands()[i].3
            },
{
    reveal(prereq_table);
    reveal_with_fuel(taken_before, 8);
    reveal_with_fuel(taken_before_all, 10);
    reveal_with_fuel(taken_alongside, 8);
    reveal_with_fuel(taken_alongside_all, 10);
    reveal_with_fuel(conditions, 8);
    reveal_with_fuel(conditions_all, 10);
    assert(taken_before(prereq_table()[0].1) =~= listed_demands()[0].1);
    assert(taken_alongside(prereq_table()[0].1) =~= listed_demands()[0].2);
    assert(conditions(prereq_table()[0].1) =~= listed_demands()[0].3);
    assert(taken_before(prereq_table()[1].1) =~= listed_demands()[1].1);
    assert(taken_alongside(prereq_table()[1].1) =~= listed_demands()[1].2);
    assert(conditions(prereq_table()[1].1) =~= listed_demands()[1].3);
    assert(taken_before(prereq_table()[2].1) =~= listed_demands()[2].1);
    assert(taken_alongside(prereq_table()[2].1) =~= listed_demands()[2].2);
    assert(conditions(prereq_table()[2].1) =~= listed_demands()[2].3);
    assert(taken_before(prereq_table()[3].1) =~= listed_demands()[3].1);
    assert(taken_alongside(prereq_table()[3].1) =~= listed_demands()[3].2);
    assert(conditions(prereq_table()[3].1) =~= listed_demands()[3].3);
    assert(taken_before(prereq_table()[4].1) =~= listed_demands()[4].1);
    assert(taken_alongside(prereq_table()[4].1) =~= listed_demands()[4].2);
    assert(conditions(prereq_table()[4].1) =~= listed_demands()[4].3);
    assert(taken_before(prereq_table()[5].1) =~= listed_demands()[5].1);
    assert(taken_alongside(prereq_table()[5].1) =~= listed_demands()[5].2);
    assert(conditions(prereq_table()[5].1) =~= listed_demands()[5].3);
    assert(taken_before(prereq_table()[6].1) =~= listed_demands()[6].1);
    assert(taken_alongside(prereq_table()[6].1) =~= listed_demands()[6].2);
    assert(conditions(prereq_table()[6].1) =~= listed_demands()[6].3);
    assert(taken_before(prereq_table()[7].1) =~= listed_demands()[7].1);
    assert(taken_alongside(prereq_table()[7].1) =~= listed_demands()[7].2);
    assert(conditions(prereq_table()[7].1) =~= listed_demands()[7].3);
    assert(taken_before(prereq_table()[8].1) =~= listed_demands()[8].1);
    assert(taken_alongside(prereq_table()[8].1) =~= listed_demands()[8].2);
    assert(conditions(prereq_table()[8].1) =~= listed_demands()[8].3);
    assert(taken_before(prereq_table()[9].1) =~= listed_demands()[9].1);
    assert(taken_alongside(prereq_table()[9].1) =~= listed_demands()[9].2);
    assert(conditions(prereq_table()[9].1) =~= listed_demands()[9].3);
    assert(taken_before(prereq_table()[10].1) =~= listed_demands()[10].1);
    assert(taken_alongside(prereq_table()[10].1) =~= listed_demands()[10].2);
    assert(conditions(prereq_table()[10].1) =~= listed_demands()[10].3);
    assert(taken_before(prereq_table()[11].1) =~= listed_demands()[11].1);
    assert(taken_alongside(prereq_table()[11].1) =~= listed_demands()[11].2);
    assert(conditions(prereq_table()[11].1) =~= listed_demands()[11].3);
    assert(taken_before(prereq_table()[12].1) =~= listed_demands()[12].1);
    assert(taken_alongside(prereq_table()[12].1) =~= listed_demands()[12].2);
    assert(conditions(prereq_table()[12].1) =~= listed_demands()[12].3);
    assert(taken_before(prereq_table()[13].1) =~= listed_demands()[13].1);
    assert(taken_alongside(prereq_table()[13].1) =~= listed_demands()[13].2);
    assert(conditions(prereq_table()[13].1) =~= listed_demands()[13].3);
}

/// Every course of the CSCI table is a course of subject CSCI.
pub proof fn law_keyed_by_subject()
    ensures
        keyed_by_stem(prereq_table(), "CSCI"@),
{
    reveal(prereq_table);
}

} // verus!
