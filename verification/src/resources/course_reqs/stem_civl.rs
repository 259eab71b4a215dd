//! Prerequisite rules of the CIVL courses.

use vstd::prelude::*;
use crate::prereqs::{conditions, conditions_all, taken_alongside, taken_alongside_all, taken_before, taken_before_all, CourseReq, ReqView, reqs2, reqs3};
use crate::schedule::{CourseCode, CourseCodeView, course, keyed_by_stem};

verus! {

/// The prerequisite rule of each CIVL course, as pairs of course and rule in
/// the order in which they are listed.
#[verifier::opaque]
pub open spec fn prereq_table() -> Seq<(CourseCodeView, ReqView)> {
    seq![
        (
            course("CIVL"@, 3010),
            ReqView::And(
                seq![
                    ReqView::PreCourse(course("ENGR"@, 2320)),
                    ReqView::PreCourse(course("ENGR"@, 3150)),
                    ReqView::PreCourse(course("ENGL"@, 1010)),
                ],
            ),
        ),
        (
            course("CIVL"@, 3020),
            ReqView::And(
                seq![
                    ReqView::PreCourse(course("ENGR"@, 3150)),
                    ReqView::PreCourse(course("CIVL"@, 3310)),
                    ReqView::PreCourse(course("ENGL"@, 1010)),
                ],
            ),
        ),
        (course("CIVL"@, 3120), ReqView::PreCourse(course("ENGR"@, 2320))),
        (course("CIVL"@, 3230), ReqView::PreCourse(course("ENGR"@, 3300))),
        (
            course("CIVL"@, 3310),
            ReqView::And(
                seq![
                    ReqView::PreCourse(course("ENGR"@, 3300)),
                    ReqView::Or(
                        seq![
                            ReqView::PreCourse(course("CIVL"@, 2310)),
                            ReqView::PreCourse(course("CHEM"@, 1210)),
                        ],
                    ),
                ],
            ),
        ),
        (course("CIVL"@, 3510), ReqView::PreCourse(course("ENGR"@, 2320))),
        (course("CIVL"@, 3550), ReqView::PreCourse(course("ENGR"@, 2320))),
        (course("CIVL"@, 4140), ReqView::PreCourse(course("CIVL"@, 3120))),
        (course("CIVL"@, 4160), ReqView::PreCourse(course("CIVL"@, 3120))),
        (course("CIVL"@, 4210), ReqView::PreCourse(course("ENGR"@, 3300))),
        (course("CIVL"@, 4320), ReqView::PreCourse(course("CIVL"@, 3310))),
        (course("CIVL"@, 4510), ReqView::PreCourse(course("CIVL"@, 3510))),
        (course("CIVL"@, 4530), ReqView::PreCourse(course("CIVL"@, 4530))),
        (course("CIVL"@, 4530), ReqView::PreCourse(course("CIVL"@, 3510))),
    ]
}

/// The prerequisite rules of the CIVL courses, in the order in which they are listed.
pub fn prereqs() -> (table: Vec<(CourseCode, CourseReq)>)
    ensures
        table.deep_view() == prereq_table(),
        keyed_by_stem(table.deep_view(), "CIVL"@),
{
    proof {
        reveal(prereq_table);
    }
    let table = vec![
        (
            CourseCode::new("CIVL", 3010),
            CourseReq::all_of(
                reqs3(
                    CourseReq::pre(CourseCode::new("ENGR", 2320)),
                    CourseReq::pre(CourseCode::new("ENGR", 3150)),
                    CourseReq::pre(CourseCode::new("ENGL", 1010)),
                ),
            ),
        ),
        (
            CourseCode::new("CIVL", 3020),
            CourseReq::all_of(
                reqs3(
                    CourseReq::pre(CourseCode::new("ENGR", 3150)),
                    CourseReq::pre(CourseCode::new("CIVL", 3310)),
                    CourseReq::pre(CourseCode::new("ENGL", 1010)),
                ),
            ),
        ),
        (CourseCode::new("CIVL", 3120), CourseReq::pre(CourseCode::new("ENGR", 2320))),
        (CourseCode::new("CIVL", 3230), CourseReq::pre(CourseCode::new("ENGR", 3300))),
        (
            CourseCode::new("CIVL", 3310),
            CourseReq::all_of(
                reqs2(
                    CourseReq::pre(CourseCode::new("ENGR", 3300)),
                    CourseReq::any_of(
                        reqs2(
                            CourseReq::pre(CourseCode::new("CIVL", 2310)),
                            CourseReq::pre(CourseCode::new("CHEM", 1210)),
                        ),
                    ),
                ),
            ),
        ),
        (CourseCode::new("CIVL", 3510), CourseReq::pre(CourseCode::new("ENGR", 2320))),
        (CourseCode::new("CIVL", 3550), CourseReq::pre(CourseCode::new("ENGR", 2320))),
        (CourseCode::new("CIVL", 4140), CourseReq::pre(CourseCode::new("CIVL", 3120))),
        (CourseCode::new("CIVL", 4160), CourseReq::pre(CourseCode::new("CIVL", 3120))),
        (CourseCode::new("CIVL", 4210), CourseReq::pre(CourseCode::new("ENGR", 3300))),
        (CourseCode::new("CIVL", 4320), CourseReq::pre(CourseCode::new("CIVL", 3310))),
        (CourseCode::new("CIVL", 4510), CourseReq::pre(CourseCode::new("CIVL", 3510))),
        (CourseCode::new("CIVL", 4530), CourseReq::pre(CourseCode::new("CIVL", 4530))),
        (CourseCode::new("CIVL", 4530), CourseReq::pre(CourseCode::new("CIVL", 3510))),
    ];
    assert(table.deep_view() =~= prereq_table());
    table
}

/// For each CIVL course in the order of the listing: the course, the courses
/// its rule demands outright to have been taken before, the courses it demands
/// outright to be taken before or alongside, and the single conditions that
/// its rule is built from.
pub open spec fn listed_demands() -> Seq<
    (CourseCodeView, Set<CourseCodeView>, Set<CourseCodeView>, Set<ReqView>),
> {
    seq![
        (
            course("CIVL"@, 3010),
            set![course("ENGR"@, 2320), course("ENGR"@, 3150), course("ENGL"@, 1010)],
            Set::empty(),
            set![ReqView::PreCourse(course("ENGR"@, 2320)), ReqView::PreCourse(course("ENGR"@, 3150)), ReqView::PreCourse(course("ENGL"@, 1010))],
        ),
        (
            course("CIVL"@, 3020),
            set![course("ENGR"@, 3150), course("CIVL"@, 3310), course("ENGL"@, 1010)],
            Set::empty(),
            set![ReqView::PreCourse(course("ENGR"@, 3150)), ReqView::PreCourse(course("CIVL"@, 3310)), ReqView::PreCourse(course("ENGL"@, 1010))],
        ),
        (
            course("CIVL"@, 3120),
            set![course("ENGR"@, 2320)],
            Set::empty(),
            set![ReqView::PreCourse(course("ENGR"@, 2320))],
        ),
        (
            course("CIVL"@, 3230),
            set![course("ENGR"@, 3300)],
            Set::empty(),
            set![ReqView::PreCourse(course("ENGR"@, 3300))],
        ),
        (
            course("CIVL"@, 3310),
            set![course("ENGR"@, 3300)],
            Set::empty(),
            set![ReqView::PreCourse(course("ENGR"@, 3300)), ReqView::PreCourse(course("CIVL"@, 2310)), ReqView::PreCourse(course("CHEM"@, 1210))],
        ),
        (
            course("CIVL"@, 3510),
            set![course("ENGR"@, 2320)],
            Set::empty(),
            set![ReqView::PreCourse(course("ENGR"@, 2320))],
        ),
        (
            course("CIVL"@, 3550),
            set![course("ENGR"@, 2320)],
            Set::empty(),
            set![ReqView::PreCourse(course("ENGR"@, 2320))],
        ),
        (
            course("CIVL"@, 4140),
            set![course("CIVL"@, 3120)],
            Set::empty(),
            set![ReqView::PreCourse(course("CIVL"@, 3120))],
        ),
        (
            course("CIVL"@, 4160),
            set![course("CIVL"@, 3120)],
            Set::empty(),
            set![ReqView::PreCourse(course("CIVL"@, 3120))],
        ),
        (
            course("CIVL"@, 4210),
            set![course("ENGR"@, 3300)],
            Set::empty(),
            set![ReqView::PreCourse(course("ENGR"@, 3300))],
        ),
        (
            course("CIVL"@, 4320),
            set![course("CIVL"@, 3310)],
            Set::empty(),
            set![ReqView::PreCourse(course("CIVL"@, 3310))],
        ),
        (
            course("CIVL"@, 4510),
            set![course("CIVL"@, 3510)],
            Set::empty(),
            set![ReqView::PreCourse(course("CIVL"@, 3510))],
        ),
        (
            course("CIVL"@, 4530),
            set![course("CIVL"@, 4530)],
            Set::empty(),
            set![ReqView::PreCourse(course("CIVL"@, 4530))],
        ),
        (
            course("CIVL"@, 4530),
            set![course("CIVL"@, 3510)],
            Set::empty(),
            set![ReqView::PreCourse(course("CIVL"@, 3510))],
        ),
    ]
}

/// Each CIVL rule demands before and alongside exactly the courses listed for
/// it, and is built from exactly the conditions listed for it.
pub proof fn law_listed_demands()
    ensures
        prereq_table().len() == listed_demands().len(),
        forall|i: int|
            0 <= i < prereq_table().len() ==> {
                &&& #[trigger] prereq_table()[i].0 == listed_demands()[i].0
                &&& taken_before(prereq_table()[i].1) == listed_demands()[i].1
                &&& taken_alongside(prereq_table()[i].1) == listed_demands()[i].2
                &&& conditions(prereq_table()[i].1) == listed_demands()[i].3
            },
{
    reveal(prereq_table);
    reveal_with_fuel(taken_before, 8);
    reveal_with_fuel(taken_before_all, 10);
    reveal_with_fuel(taken_alongside, 8);
    reveal_with_fuel(taken_alongside_all, 10);
    reveal_with_fuel(conditions, 8);
    reveal_with_fuel(conditions_all, 10);
    assert(taken_before(prereq_table()[0].1) =~= listed_demands()[0].1);
    assert(taken_alongside(prereq_table()[0].1) =~= listed_demands()[0].2);
    assert(conditions(prereq_table()[0].1) =~= listed_demands()[0].3);
    assert(taken_before(prereq_table()[1].1) =~= listed_demands()[1].1);
    assert(taken_alongside(prereq_table()[1].1) =~= listed_demands()[1].2);
    assert(conditions(prereq_table()[1].1) =~= listed_demands()[1].3);
    assert(taken_before(prereq_table()[2].1) =~= listed_demands()[2].1);
    assert(taken_alongside(prereq_table()[2].1) =~= listed_demands()[2].2);
    assert(conditions(prereq_table()[2].1) =~= listed_demands()[2].3);
    assert(taken_before(prereq_table()[3].1) =~= listed_demands()[3].1);
    assert(taken_alongside(prereq_table()[3].1) =~= listed_demands()[3].2);
    assert(conditions(prereq_table()[3].1) =~= listed_demands()[3].3);
    assert(taken_before(prereq_table()[4].1) =~= listed_demands()[4].1);
    assert(taken_alongside(prereq_table()[4].1) =~= listed_demands()[4].2);
    assert(conditions(prereq_table()[4].1) =~= listed_demands()[4].3);
    assert(taken_before(prereq_table()[5].1) =~= listed_demands()[5].1);
    assert(taken_alongside(prereq_table()[5].1) =~= listed_demands()[5].2);
    assert(conditions(prereq_table()[5].1) =~= listed_demands()[5].3);
    assert(taken_before(prereq_table()[6].1) =~= listed_demands()[6].1);
    assert(taken_alongside(prereq_table()[6].1) =~= listed_demands()[6].2);
    assert(conditions(prereq_table()[6].1) =~= listed_demands()[6].3);
    assert(taken_before(prereq_table()[7].1) =~= listed_demands()[7].1);
    assert(taken_alongside(prereq_table()[7].1) =~= listed_demands()[7].2);
    assert(conditions(prereq_table()[7].1) =~= listed_demands()[7].3);
    assert(taken_before(prereq_table()[8].1) =~= listed_demands()[8].1);
    assert(taken_alongside(prereq_table()[8].1) =~= listed_demands()[8].2);
    assert(conditions(prereq_table()[8].1) =~= listed_demands()[8].3);
    assert(taken_before(prereq_table()[9].1) =~= listed_demands()[9].1);
    assert(taken_alongside(prereq_table()[9].1) =~= listed_demands()[9].2);
    assert(conditions(prereq_table()[9].1) =~= listed_demands()[9].3);
    assert(taken_before(prereq_table()[10].1) =~= listed_demands()[10].1);
    assert(taken_alongside(prereq_table()[10].1) =~= listed_demands()[10].2);
    assert(conditions(prereq_table()[10].1) =~= listed_demands()[10].3);
    assert(taken_before(prereq_table()[11].1) =~= listed_demands()[11].1);
    assert(taken_alongside(prereq_table()[11].1) =~= listed_demands()[11].2);
    assert(conditions(prereq_table()[11].1) =~= listed_demands()[11].3);
    assert(taken_before(prereq_table()[12].1) =~= listed_demands()[12].1);
    assert(taken_alongside(prereq_table()[12].1) =~= listed_demands()[12].2);
    assert(conditions(prereq_table()[12].1) =~= listed_demands()[12].3);
    assert(taken_before(prereq_table()[13].1) =~= listed_demands()[13].1);
    assert(taken_alongside(prereq_table()[13].1) =~= listed_demands()[13].2);
    assert(conditions(prereq_table()[13].1) =~= listed_demands()[13].3);
}

/// Every course of the CIVL table is a course of subject CIVL.
pub proof fn law_keyed_by_subject()
    ensures
        keyed_by_stem(prereq_table(), "CIVL"@),
{
    reveal(prereq_table);
}

} // verus!
