//! Prerequisite rules of the THTR courses.

use vstd::prelude::*;
use crate::prereqs::{conditions, conditions_all, taken_alongside, taken_alongside_all, taken_before, taken_before_all, CourseReq, ReqView, reqs2, reqs3};
use crate::schedule::{CourseCode, CourseCodeView, course, keyed_by_stem};

verus! {

/// The prerequisite rule of each THTR course, as pairs of course and rule in
/// the order in which they are listed.
#[verifier::opaque]
pub open spec fn prereq_table() -> Seq<(CourseCodeView, ReqView)> {
    seq![
        (
            course("THTR"@, 2150),
            ReqView::And(
                seq![
                    ReqView::PreCourse(course("THTR"@, 1150)),
                    ReqView::PreCourse(course("THTR"@, 1800)),
                ],
            ),
        ),
        (
            course("THTR"@, 2250),
            ReqView::And(
                seq![
                    ReqView::PreCourse(course("THTR"@, 1150)),
                    ReqView::PreCourse(course("THTR"@, 1800)),
                ],
            ),
        ),
        (
            course("THTR"@, 3020),
            ReqView::And(
                seq![
                    ReqView::PreCourse(course("THTR"@, 1150)),
                    ReqView::PreCourse(course("ENGL"@, 1010)),
                ],
            ),
        ),
        (course("THTR"@, 3150), ReqView::PreCourse(course("THTR"@, 2150))),
        (course("THTR"@, 3250), ReqView::PreCourse(course("THTR"@, 2250))),
        (
            course("THTR"@, 3520),
            ReqView::And(
                seq![
                    ReqView::PreCourse(course("THTR"@, 1550)),
                    ReqView::PreCourse(course("THTR"@, 1800)),
                ],
            ),
        ),
        (
            course("THTR"@, 3540),
            ReqView::And(
                seq![
                    ReqView::PreCourse(course("THTR"@, 1550)),
                    ReqView::PreCourse(course("THTR"@, 1800)),
                ],
            ),
        ),
        (
            course("THTR"@, 3560),
            ReqView::And(
                seq![
                    ReqView::PreCourse(course("THTR"@, 1550)),
                    ReqView::PreCourse(course("THTR"@, 1800)),
                ],
            ),
        ),
        (
            course("THTR"@, 3580),
            ReqView::And(
                seq![
                    ReqView::PreCourse(course("THTR"@, 1550)),
                    ReqView::PreCourse(course("THTR"@, 1800)),
                ],
            ),
        ),
        (course("THTR"@, 3600), ReqView::PreCourse(course("THTR"@, 1550))),
        (
            course("THTR"@, 3800),
            ReqView::And(
                seq![
                    ReqView::PreCourse(course("THTR"@, 1550)),
                    ReqView::PreCourse(course("THTR"@, 1800)),
                    ReqView::PreCourse(course("ENGL"@, 1010)),
                ],
            ),
        ),
        (
            course("THTR"@, 3810),
            ReqView::And(
                seq![
                    ReqView::PreCourse(course("THTR"@, 1800)),
                    ReqView::PreCourse(course("ENGL"@, 1010)),
                ],
            ),
        ),
        (
            course("THTR"@, 3820),
            ReqView::And(
                seq![
                    ReqView::PreCourse(course("THTR"@, 1800)),
                    ReqView::PreCourse(course("ENGL"@, 1010)),
                ],
            ),
        ),
        (
            course("THTR"@, 3830),
            ReqView::And(
                seq![
                    ReqView::PreCourse(course("THTR"@, 1800)),
                    ReqView::PreCourse(course("ENGL"@, 1010)),
                ],
            ),
        ),
        (course("THTR"@, 4150), ReqView::PreCourse(course("THTR"@, 2245))),
        (course("THTR"@, 4790), ReqView::Instructor),
    ]
}

/// The prerequisite rules of the THTR courses, in the order in which they are listed.
pub fn prereqs() -> (table: Vec<(CourseCode, CourseReq)>)
    ensures
        table.deep_view() == prereq_table(),
        keyed_by_stem(table.deep_view(), "THTR"@),
{
    proof {
        reveal(prereq_table);
    }
    let table = vec![
        (
            CourseCode::new("THTR", 2150),
            CourseReq::all_of(
                reqs2(
                    CourseReq::pre(CourseCode::new("THTR", 1150)),
                    CourseReq::pre(CourseCode::new("THTR", 1800)),
                ),
            ),
        ),
        (
            CourseCode::new("THTR", 2250),
            CourseReq::all_of(
                reqs2(
                    CourseReq::pre(CourseCode::new("THTR", 1150)),
                    CourseReq::pre(CourseCode::new("THTR", 1800)),
                ),
            ),
        ),
        (
            CourseCode::new("THTR", 3020),
            CourseReq::all_of(
                reqs2(
                    CourseReq::pre(CourseCode::new("THTR", 1150)),
                    CourseReq::pre(CourseCode::new("ENGL", 1010)),
                ),
            ),
        ),
        (CourseCode::new("THTR", 3150), CourseReq::pre(CourseCode::new("THTR", 2150))),
        (CourseCode::new("THTR", 3250), CourseReq::pre(CourseCode::new("THTR", 2250))),
        (
            CourseCode::new("THTR", 3520),
            CourseReq::all_of(
                reqs2(
                    CourseReq::pre(CourseCode::new("THTR", 1550)),
                    CourseReq::pre(CourseCode::new("THTR", 1800)),
                ),
            ),
        ),
        (
            CourseCode::new("THTR", 3540),
            CourseReq::all_of(
                reqs2(
                    CourseReq::pre(CourseCode::new("THTR", 1550)),
                    CourseReq::pre(CourseCode::new("THTR", 1800)),
                ),
            ),
        ),
        (
            CourseCode::new("THTR", 3560),
            CourseReq::all_of(
                reqs2(
                    CourseReq::pre(CourseCode::new("THTR", 1550)),
                    CourseReq::pre(CourseCode::new("THTR", 1800)),
                ),
            ),
        ),
        (
            CourseCode::new("THTR", 3580),
            CourseReq::all_of(
                reqs2(
                    CourseReq::pre(CourseCode::new("THTR", 1550)),
                    CourseReq::pre(CourseCode::new("THTR", 1800)),
                ),
            ),
        ),
        (CourseCode::new("THTR", 3600), CourseReq::pre(CourseCode::new("THTR", 1550))),
        (
            CourseCode::new("THTR", 3800),
            CourseReq::all_of(
                reqs3(
                    CourseReq::pre(CourseCode::new("THTR", 1550)),
                    CourseReq::pre(CourseCode::new("THTR", 1800)),
                    CourseReq::pre(CourseCode::new("ENGL", 1010)),
                ),
            ),
        ),
        (
            CourseCode::new("THTR", 3810),
            CourseReq::all_of(
                reqs2(
                    CourseReq::pre(CourseCode::new("THTR", 1800)),
                    CourseReq::pre(CourseCode::new("ENGL", 1010)),
                ),
            ),
        ),
        (
            CourseCode::new("THTR", 3820),
            CourseReq::all_of(
                reqs2(
                    CourseReq::pre(CourseCode::new("THTR", 1800)),
                    CourseReq::pre(CourseCode::new("ENGL", 1010)),
                ),
            ),
        ),
        (
            CourseCode::new("THTR", 3830),
            CourseReq::all_of(
                reqs2(
                    CourseReq::pre(CourseCode::new("THTR", 1800)),
                    CourseReq::pre(CourseCode::new("ENGL", 1010)),
                ),
            ),
        ),
        (CourseCode::new("THTR", 4150), CourseReq::pre(CourseCode::new("THTR", 2245))),
        (CourseCode::new("THTR", 4790), CourseReq::instructor()),
    ];
    assert(table.deep_view() =~= prereq_table());
    table
}

/// For each THTR course in the order of the listing: the course, the courses
/// its rule demands outright to have been taken before, the courses it demands
/// outright to be taken before or alongside, and the single conditions that
/// its rule is built from.
pub open spec fn listed_demands() -> Seq<
    (CourseCodeView, Set<CourseCodeView>, Set<CourseCodeView>, Set<ReqView>),
> {
    seq![
        (
            course("THTR"@, 2150),
            set![course("THTR"@, 1150), course("THTR"@, 1800)],
            Set::empty(),
            set![ReqView::PreCourse(course("THTR"@, 1150)), ReqView::PreCourse(course("THTR"@, 1800))],
        ),
        (
            course("THTR"@, 2250),
            set![course("THTR"@, 1150), course("THTR"@, 1800)],
            Set::empty(),
            set![ReqView::PreCourse(course("THTR"@, 1150)), ReqView::PreCourse(course("THTR"@, 1800))],
        ),
        (
            course("THTR"@, 3020),
            set![course("THTR"@, 1150), course("ENGL"@, 1010)],
            Set::empty(),
            set![ReqView::PreCourse(course("THTR"@, 1150)), ReqView::PreCourse(course("ENGL"@, 1010))],
        ),
        (
            course("THTR"@, 3150),
            set![course("THTR"@, 2150)],
            Set::empty(),
            set![ReqView::PreCourse(course("THTR"@, 2150))],
        ),
        (
            course("THTR"@, 3250),
            set![course("THTR"@, 2250)],
            Set::empty(),
            set![ReqView::PreCourse(course("THTR"@, 2250))],
        ),
        (
            course("THTR"@, 3520),
            set![course("THTR"@, 1550), course("THTR"@, 1800)],
            Set::empty(),
            set![ReqView::PreCourse(course("THTR"@, 1550)), ReqView::PreCourse(course("THTR"@, 1800))],
        ),
        (
            course("THTR"@, 3540),
            set![course("THTR"@, 1550), course("THTR"@, 1800)],
            Set::empty(),
            set![ReqView::PreCourse(course("THTR"@, 1550)), ReqView::PreCourse(course("THTR"@, 1800))],
        ),
        (
            course("THTR"@, 3560),
            set![course("THTR"@, 1550), course("THTR"@, 1800)],
            Set::empty(),
            set![ReqView::PreCourse(course("THTR"@, 1550)), ReqView::PreCourse(course("THTR"@, 1800))],
        ),
        (
            course("THTR"@, 3580),
            set![course("THTR"@, 1550), course("THTR"@, 1800)],
            Set::empty(),
            set![ReqView::PreCourse(course("THTR"@, 1550)), ReqView::PreCourse(course("THTR"@, 1800))],
        ),
        (
            course("THTR"@, 3600),
            set![course("THTR"@, 1550)],
            Set::empty(),
            set![ReqView::PreCourse(course("THTR"@, 1550))],
        ),
        (
            course("THTR"@, 3800),
            set![course("THTR"@, 1550), course("THTR"@, 1800), course("ENGL"@, 1010)],
            Set::empty(),
            set![ReqView::PreCourse(course("THTR"@, 1550)), ReqView::PreCourse(course("THTR"@, 1800)), ReqView::PreCourse(course("ENGL"@, 1010))],
        ),
        (
            course("THTR"@, 3810),
            set![course("THTR"@, 1800), course("ENGL"@, 1010)],
            Set::empty(),
            set![ReqView::PreCourse(course("THTR"@, 1800)), ReqView::PreCourse(course("ENGL"@, 1010))],
        ),
        (
            course("THTR"@, 3820),
            set![course("THTR"@, 1800), course("ENGL"@, 1010)],
            Set::empty(),
            set![ReqView::PreCourse(course("THTR"@, 1800)), ReqView::PreCourse(course("ENGL"@, 1010))],
        ),
        (
            course("THTR"@, 3830),
            set![course("THTR"@, 1800), course("ENGL"@, 1010)],
            Set::empty(),
            set![ReqView::PreCourse(course("THTR"@, 1800)), ReqView::PreCourse(course("ENGL"@, 1010))],
        ),
        (
            course("THTR"@, 4150),
            set![course("THTR"@, 2245)],
            Set::empty(),
            set![ReqView::PreCourse(course("THTR"@, 2245))],
        ),
        (
            course("THTR"@, 4790),
            Set::empty(),
            Set::empty(),
            set![ReqView::Instructor],
        ),
    ]
}

/// Each THTR rule demands before and alongside exactly the courses listed for
/// it, and is built from exactly the conditions listed for it.
pub proof fn law_listed_demands()
    ensures
        prereq_table().len() == listed_demands().len(),
        forall|i: int|
            0 <= i < prereq_table().len() ==> {
                &&& #[trigger] prereq_table()[i].0 == listed_demands()[i].0
                &&& taken_before(prereq_table()[i].1) == listed_demands()[i].1
                &&& taken_alongside(prereq_table()[i].1) == listed_demands()[i].2
                &&& conditions(prereq_table()[i].1) == listed_demands()[i].3
            },
{
    reveal(prereq_table);
    reveal_with_fuel(taken_before, 8);
    reveal_with_fuel(taken_before_all, 10);
    reveal_with_fuel(taken_alongside, 8);
    reveal_with_fuel(taken_alongside_all, 10);
    reveal_with_fuel(conditions, 8);
    reveal_with_fuel(conditions_all, 10);
    assert(taken_before(prereq_table()[0].1) =~= listed_demands()[0].1);
    assert(taken_alongside(prereq_table()[0].1) =~= listed_demands()[0].2);
    assert(conditions(prereq_table()[0].1) =~= listed_demands()[0].3);
    assert(taken_before(prereq_table()[1].1) =~= listed_demands()[1].1);
    assert(taken_alongside(prereq_table()[1].1) =~= listed_demands()[1].2);
    assert(conditions(prereq_table()[1].1) =~= listed_demands()[1].3);
    assert(taken_before(prereq_table()[2].1) =~= listed_demands()[2].1);
    assert(taken_alongside(prereq_table()[2].1) =~= listed_demands()[2].2);
    assert(conditions(prereq_table()[2].1) =~= listed_demands()[2].3);
    assert(taken_before(prereq_table()[3].1) =~= listed_demands()[3].1);
    assert(taken_alongside(prereq_table()[3].1) =~= listed_demands()[3].2);
    assert(conditions(prereq_table()[3].1) =~= listed_demands()[3].3);
    assert(taken_before(prereq_table()[4].1) =~= listed_demands()[4].1);
    assert(taken_alongside(prereq_table()[4].1) =~= listed_demands()[4].2);
    assert(conditions(prereq_table()[4].1) =~= listed_demands()[4].3);
    assert(taken_before(prereq_table()[5].1) =~= listed_demands()[5].1);
    assert(taken_alongside(prereq_table()[5].1) =~= listed_demands()[5].2);
    assert(conditions(prereq_table()[5].1) =~= listed_demands()[5].3);
    assert(taken_before(prereq_table()[6].1) =~= listed_demands()[6].1);
    assert(taken_alongside(prereq_table()[6].1) =~= listed_demands()[6].2);
    assert(conditions(prereq_table()[6].1) =~= listed_demands()[6].3);
    assert(taken_before(prereq_table()[7].1) =~= listed_demands()[7].1);
    assert(taken_alongside(prereq_table()[7].1) =~= listed_demands()[7].2);
    assert(conditions(prereq_table()[7].1) =~= listed_demands()[7].3);
    assert(taken_before(prereq_table()[8].1) =~= listed_demands()[8].1);
    assert(taken_alongside(prereq_table()[8].1) =~= listed_demands()[8].2);
    assert(conditions(prereq_table()[8].1) =~= listed_demands()[8].3);
    assert(taken_before(prereq_table()[9].1) =~= listed_demands()[9].1);
    assert(taken_alongside(prereq_table()[9].1) =~= listed_demands()[9].2);
    assert(conditions(prereq_table()[9].1) =~= listed_demands()[9].3);
    assert(taken_before(prereq_table()[10].1) =~= listed_demands()[10].1);
    assert(taken_alongside(prereq_table()[10].1) =~= listed_demands()[10].2);
    assert(conditions(prereq_table()[10].1) =~= listed_demands()[10].3);
    assert(taken_before(prereq_table()[11].1) =~= listed_demands()[11].1);
    assert(taken_alongside(prereq_table()[11].1) =~= listed_demands()[11].2);
    assert(conditions(prereq_table()[11].1) =~= listed_demands()[11].3);
    assert(taken_before(prereq_table()[12].1) =~= listed_demands()[12].1);
    assert(taken_alongside(prereq_table()[12].1) =~= listed_demands()[12].2);
    assert(conditions(prereq_table()[12].1) =~= listed_demands()[12].3);
    assert(taken_before(prereq_table()[13].1) =~= listed_demands()[13].1);
    assert(taken_alongside(prereq_table()[13].1) =~= listed_demands()[13].2);
    assert(conditions(prereq_table()[13].1) =~= listed_demands()[13].3);
    assert(taken_before(prereq_table()[14].1) =~= listed_demands()[14].1);
    assert(taken_alongside(prereq_table()[14].1) =~= listed_demands()[14].2);
    assert(conditions(prereq_table()[14].1) =~= listed_demands()[14].3);
    assert(taken_before(prereq_table()[15].1) =~= listed_demands()[15].1);
    assert(taken_alongside(prereq_table()[15].1) =~= listed_demands()[15].2);
    assert(conditions(prereq_table()[15].1) =~= listed_demands()[15].3);
}

/// Every course of the THTR table is a course of subject THTR.
pub proof fn law_keyed_by_subject()
    ensures
        keyed_by_stem(prereq_table(), "THTR"@),
{
    reveal(prereq_table);
}

} // verus!
