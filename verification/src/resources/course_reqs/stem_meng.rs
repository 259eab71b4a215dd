//! Prerequisite rules of the MENG courses.

use vstd::prelude::*;
use crate::prereqs::{conditions, conditions_all, taken_alongside, taken_alongside_all, taken_before, taken_before_all, CourseReq, ReqView, reqs2, reqs3};
use crate::schedule::{CourseCode, CourseCodeView, course, keyed_by_stem};

verus! {

/// The prerequisite rule of each MENG course, as pairs of course and rule in
/// the order in which they are listed.
#[verifier::opaque]
pub open spec fn prereq_table() -> Seq<(CourseCodeView, ReqView)> {
    seq![
        (
            course("MENG"@, 3180),
            ReqView::And(
                seq![
                    ReqView::PreCourse(course("ENGR"@, 1500)),
                    ReqView::PreCourse(course("ENGR"@, 3500)),
                    ReqView::CoCourse(course("ENGR"@, 3500)),
                ],
            ),
        ),
        (
            course("MENG"@, 3220),
            ReqView::And(
                seq![
                    ReqView::PreCourse(course("ENGR"@, 2000)),
                    ReqView::PreCourse(course("ENGR"@, 2310)),
                    ReqView::PreCourse(course("ENGR"@, 2320)),
                ],
            ),
        ),
        (
            course("MENG"@, 3240),
            ReqView::And(
                seq![
                    ReqView::PreCourse(course("MENG"@, 3220)),
                    ReqView::PreCourse(course("MENG"@, 3180)),
                    ReqView::CoCourse(course("MENG"@, 3180)),
                ],
            ),
        ),
        (
            course("MENG"@, 3820),
            ReqView::Or(
                seq![
                    ReqView::And(
                        seq![
                            ReqView::PreCourse(course("ENGR"@, 1500)),
                            ReqView::PreCourse(course("ENGR"@, 3150)),
                        ],
                    ),
                    ReqView::And(
                        seq![
                            ReqView::CoCourse(course("ENGR"@, 1500)),
                            ReqView::CoCourse(course("ENGR"@, 3150)),
                        ],
                    ),
                ],
            ),
        ),
        (
            course("MENG"@, 4240),
            ReqView::Or(
                seq![
                    ReqView::And(
                        seq![
                            ReqView::PreCourse(course("ENGR"@, 2000)),
                            ReqView::PreCourse(course("ENGR"@, 2310)),
                            ReqView::PreCourse(course("MATH"@, 3100)),
                        ],
                    ),
                    ReqView::And(
                        seq![
                            ReqView::CoCourse(course("ENGR"@, 2000)),
                            ReqView::CoCourse(course("ENGR"@, 2310)),
                            ReqView::CoCourse(course("ENGR"@, 3100)),
                        ],
                    ),
                ],
            ),
        ),
        (
            course("MENG"@, 4600),
            ReqView::And(
                seq![
                    ReqView::PreCourse(course("MENG"@, 3240)),
                    ReqView::PreCourse(course("ENGR"@, 3170)),
                ],
            ),
        ),
        (course("MENG"@, 4610), ReqView::PreCourse(course("MENG"@, 4600))),
        (course("MENG"@, 4700), ReqView::PreCourse(course("MENG"@, 3240))),
        (course("MENG"@, 4730), ReqView::PreCourse(course("MENG"@, 4240))),
        (course("MENG"@, 4810), ReqView::PreCourse(course("MENG"@, 4240))),
        (course("MENG"@, 4820), ReqView::PreCourse(course("ENGR"@, 2320))),
        (
            course("MENG"@, 4830),
            ReqView::Or(seq![ReqView::PreCourse(course("MENG"@, 3240)), ReqView::Instructor]),
        ),
        (
            course("MENG"@, 4840),
            ReqView::And(
                seq![
                    ReqView::PreCourse(course("ENGR"@, 2000)),
                    ReqView::PreCourse(course("MATH"@, 1350)),
                ],
            ),
        ),
        (
            course("MENG"@, 4850),
            ReqView::And(
                seq![
                    ReqView::PreCourse(course("MENG"@, 3250)),
                    ReqView::PreCourse(course("MENG"@, 3600)),
                ],
            ),
        ),
        (course("MENG"@, 4860), ReqView::PreCourse(course("MENG"@, 3250))),
        (
            course("MENG"@, 4870),
            ReqView::And(
                seq![
                    ReqView::And(
                        seq![
                            ReqView::PreCourse(course("ENGR"@, 2000)),
                            ReqView::PreCourse(course("MENG"@, 3220)),
                        ],
                    ),
                    ReqView::And(
                        seq![
                            ReqView::PreCourse(course("EENG"@, 2060)),
                            ReqView::PreCourse(course("EENG"@, 3060)),
                        ],
                    ),
                ],
            ),
        ),
        (
            course("MENG"@, 4910),
            ReqView::And(
                seq![
                    ReqView::PreCourse(course("ENGR"@, 1500)),
                    ReqView::PreCourse(course("ENGR"@, 3250)),
                    ReqView::PreCourse(course("ENGR"@, 3300)),
                ],
            ),
        ),
        (
            course("MENG"@, 4920),
            ReqView::And(
                seq![
                    ReqView::PreCourse(course("MATH"@, 3100)),
                    ReqView::PreCourse(course("ENGR"@, 2000)),
                ],
            ),
        ),
    ]
}

/// The prerequisite rules of the MENG courses, in the order in which they are listed.
pub fn prereqs() -> (table: Vec<(CourseCode, CourseReq)>)
    ensures
        table.deep_view() == prereq_table(),
        keyed_by_stem(table.deep_view(), "MENG"@),
{
    proof {
        reveal(prereq_table);
    }
    let table = vec![
        (
            CourseCode::new("MENG", 3180),
            CourseReq::all_of(
                reqs3(
                    CourseReq::pre(CourseCode::new("ENGR", 1500)),
                    CourseReq::pre(CourseCode::new("ENGR", 3500)),
                    CourseReq::co(CourseCode::new("ENGR", 3500)),
                ),
            ),
        ),
        (
            CourseCode::new("MENG", 3220),
            CourseReq::all_of(
                reqs3(
                    CourseReq::pre(CourseCode::new("ENGR", 2000)),
                    CourseReq::pre(CourseCode::new("ENGR", 2310)),
                    CourseReq::pre(CourseCode::new("ENGR", 2320)),
                ),
            ),
        ),
        (
            CourseCode::new("MENG", 3240),
            CourseReq::all_of(
                reqs3(
                    CourseReq::pre(CourseCode::new("MENG", 3220)),
                    CourseReq::pre(CourseCode::new("MENG", 3180)),
                    CourseReq::co(CourseCode::new("MENG", 3180)),
                ),
            ),
        ),
        (
            CourseCode::new("MENG", 3820),
            CourseReq::any_of(
                reqs2(
                    CourseReq::all_of(
                        reqs2(
                            CourseReq::pre(CourseCode::new("ENGR", 1500)),
                            CourseReq::pre(CourseCode::new("ENGR", 3150)),
                        ),
                    ),
                    CourseReq::all_of(
                        reqs2(
                            CourseReq::co(CourseCode::new("ENGR", 1500)),
                            CourseReq::co(CourseCode::new("ENGR", 3150)),
                        ),
                    ),
                ),
            ),
        ),
        (
            CourseCode::new("MENG", 4240),
            CourseReq::any_of(
                reqs2(
                    CourseReq::all_of(
                        reqs3(
                            CourseReq::pre(CourseCode::new("ENGR", 2000)),
                            CourseReq::pre(CourseCode::new("ENGR", 2310)),
                            CourseReq::pre(CourseCode::new("MATH", 3100)),
                        ),
                    ),
                    CourseReq::all_of(
                        reqs3(
                            CourseReq::co(CourseCode::new("ENGR", 2000)),
                            CourseReq::co(CourseCode::new("ENGR", 2310)),
                            CourseReq::co(CourseCode::new("ENGR", 3100)),
                        ),
                    ),
                ),
            ),
        ),
        (
            CourseCode::new("MENG", 4600),
            CourseReq::all_of(
                reqs2(
                    CourseReq::pre(CourseCode::new("MENG", 3240)),
                    CourseReq::pre(CourseCode::new("ENGR", 3170)),
                ),
            ),
        ),
        (CourseCode::new("MENG", 4610), CourseReq::pre(CourseCode::new("MENG", 4600))),
        (CourseCode::new("MENG", 4700), CourseReq::pre(CourseCode::new("MENG", 3240))),
        (CourseCode::new("MENG", 4730), CourseReq::pre(CourseCode::new("MENG", 4240))),
        (CourseCode::new("MENG", 4810), CourseReq::pre(CourseCode::new("MENG", 4240))),
        (CourseCode::new("MENG", 4820), CourseReq::pre(CourseCode::new("ENGR", 2320))),
        (
            CourseCode::new("MENG", 4830),
            CourseReq::any_of(
                reqs2(CourseReq::pre(CourseCode::new("MENG", 3240)), CourseReq::instructor()),
            ),
        ),
        (
            CourseCode::new("MENG", 4840),
            CourseReq::all_of(
                reqs2(
                    CourseReq::pre(CourseCode::new("ENGR", 2000)),
                    CourseReq::pre(CourseCode::new("MATH", 1350)),
                ),
            ),
        ),
        (
            CourseCode::new("MENG", 4850),
            CourseReq::all_of(
                reqs2(
                    CourseReq::pre(CourseCode::new("MENG", 3250)),
                    CourseReq::pre(CourseCode::new("MENG", 3600)),
                ),
            ),
        ),
        (CourseCode::new("MENG", 4860), CourseReq::pre(CourseCode::new("MENG", 3250))),
        (
            CourseCode::new("MENG", 4870),
            CourseReq::all_of(
                reqs2(
                    CourseReq::all_of(
                        reqs2(
                            CourseReq::pre(CourseCode::new("ENGR", 2000)),
                            CourseReq::pre(CourseCode::new("MENG", 3220)),
                        ),
                    ),
                    CourseReq::all_of(
                        reqs2(
                            CourseReq::pre(CourseCode::new("EENG", 2060)),
                            CourseReq::pre(CourseCode::new("EENG", 3060)),
                        ),
                    ),
                ),
            ),
        ),
        (
            CourseCode::new("MENG", 4910),
            CourseReq::all_of(
                reqs3(
                    CourseReq::pre(CourseCode::new("ENGR", 1500)),
                    CourseReq::pre(CourseCode::new("ENGR", 3250)),
                    CourseReq::pre(CourseCode::new("ENGR", 3300)),
                ),
            ),
        ),
        (
            CourseCode::new("MENG", 4920),
            CourseReq::all_of(
                reqs2(
                    CourseReq::pre(CourseCode::new("MATH", 3100)),
                    CourseReq::pre(CourseCode::new("ENGR", 2000)),
                ),
            ),
        ),
    ];
    assert(table.deep_view() =~= prereq_table());
    table
}

/// For each MENG course in the order of the listing: the course, the courses
/// its rule demands outright to have been taken before, the courses it demands
/// outright to be taken before or alongside, and the single conditions that
/// its rule is built from.
pub open spec fn listed_demands() -> Seq<
    (CourseCodeView, Set<CourseCodeView>, Set<CourseCodeView>, Set<ReqView>),
> {
    seq![
        (
            course("MENG"@, 3180),
            set![course("ENGR"@, 1500), course("ENGR"@, 3500)],
            set![course("ENGR"@, 3500)],
            set![ReqView::PreCourse(course("ENGR"@, 1500)), ReqView::PreCourse(course("ENGR"@, 3500)), ReqView::CoCourse(course("ENGR"@, 3500))],
        ),
        (
            course("MENG"@, 3220),
            set![course("ENGR"@, 2000), course("ENGR"@, 2310), course("ENGR"@, 2320)],
            Set::empty(),
            set![ReqView::PreCourse(course("ENGR"@, 2000)), ReqView::PreCourse(course("ENGR"@, 2310)), ReqView::PreCourse(course("ENGR"@, 2320))],
        ),
        (
            course("MENG"@, 3240),
            set![course("MENG"@, 3220), course("MENG"@, 3180)],
            set![course("MENG"@, 3180)],
            set![ReqView::PreCourse(course("MENG"@, 3220)), ReqView::PreCourse(course("MENG"@, 3180)), ReqView::CoCourse(course("MENG"@, 3180))],
        ),
        (
            course("MENG"@, 3820),
            Set::empty(),
            Set::empty(),
            set![ReqView::PreCourse(course("ENGR"@, 1500)), ReqView::PreCourse(course("ENGR"@, 3150)), ReqView::CoCourse(course("ENGR"@, 1500)), ReqView::CoCourse(course("ENGR"@, 3150))],
        ),
        (
            course("MENG"@, 4240),
            Set::empty(),
            Set::empty(),
            set![ReqView::PreCourse(course("ENGR"@, 2000)), ReqView::PreCourse(course("ENGR"@, 2310)), ReqView::PreCourse(course("MATH"@, 3100)), ReqView::CoCourse(course("ENGR"@, 2000)), ReqView::CoCourse(course("ENGR"@, 2310)), ReqView::CoCourse(course("ENGR"@, 3100))],
        ),
        (
            course("MENG"@, 4600),
            set![course("MENG"@, 3240), course("ENGR"@, 3170)],
            Set::empty(),
            set![ReqView::PreCourse(course("MENG"@, 3240)), ReqView::PreCourse(course("ENGR"@, 3170))],
        ),
        (
            course("MENG"@, 4610),
            set![course("MENG"@, 4600)],
            Set::empty(),
            set![ReqView::PreCourse(course("MENG"@, 4600))],
        ),
        (
            course("MENG"@, 4700),
            set![course("MENG"@, 3240)],
            Set::empty(),
            set![ReqView::PreCourse(course("MENG"@, 3240))],
        ),
        (
            course("MENG"@, 4730),
            set![course("MENG"@, 4240)],
            Set::empty(),
            set![ReqView::PreCourse(course("MENG"@, 4240))],
        ),
        (
            course("MENG"@, 4810),
            set![course("MENG"@, 4240)],
            Set::empty(),
            set![ReqView::PreCourse(course("MENG"@, 4240))],
        ),
        (
            course("MENG"@, 4820),
            set![course("ENGR"@, 2320)],
            Set::empty(),
            set![ReqView::PreCourse(course("ENGR"@, 2320))],
        ),
        (
            course("MENG"@, 4830),
            Set::empty(),
            Set::empty(),
            set![ReqView::PreCourse(course("MENG"@, 3240)), ReqView::Instructor],
        ),
        (
            course("MENG"@, 4840),
            set![course("ENGR"@, 2000), course("MATH"@, 1350)],
            Set::empty(),
            set![ReqView::PreCourse(course("ENGR"@, 2000)), ReqView::PreCourse(course("MATH"@, 1350))],
        ),
        (
            course("MENG"@, 4850),
            set![course("MENG"@, 3250), course("MENG"@, 3600)],
            Set::empty(),
            set![ReqView::PreCourse(course("MENG"@, 3250)), ReqView::PreCourse(course("MENG"@, 3600))],
        ),
        (
            course("MENG"@, 4860),
            set![course("MENG"@, 3250)],
            Set::empty(),
            set![ReqView::PreCourse(course("MENG"@, 3250))],
        ),
        (
            course("MENG"@, 4870),
            set![course("ENGR"@, 2000), course("MENG"@, 3220), course("EENG"@, 2060), course("EENG"@, 3060)],
            Set::empty(),
            set![ReqView::PreCourse(course("ENGR"@, 2000)), ReqView::PreCourse(course("MENG"@, 3220)), ReqView::PreCourse(course("EENG"@, 2060)), ReqView::PreCourse(course("EENG"@, 3060))],
        ),
        (
            course("MENG"@, 4910),
            set![course("ENGR"@, 1500), course("ENGR"@, 3250), course("ENGR"@, 3300)],
            Set::empty(),
            set![ReqView::PreCourse(course("ENGR"@, 1500)), ReqView::PreCourse(course("ENGR"@, 3250)), ReqView::PreCourse(course("ENGR"@, 3300))],
        ),
        (
            course("MENG"@, 4920),
            set![course("MATH"@, 3100), course("ENGR"@, 2000)],
            Set::empty(),
            set![ReqView::PreCourse(course("MATH"@, 3100)), ReqView::PreCourse(course("ENGR"@, 2000))],
        ),
    ]
}

/// Each MENG rule demands before and alongside exactly the courses listed for
/// it, and is built from exactly the conditions listed for it.
pub proof fn law_listed_demands()
    ensures
        prereq_table().len() == listed_demands().len(),
        forall|i: int|
            0 <= i < prereq_table().len() ==> {
                &&& #[trigger] prereq_table()[i].0 == listed_demands()[i].0
                &&& taken_before(prereq_table()[i].1) == listed_demands()[i].1
                &&& taken_alongside(prereq_table()[i].1) == listed_demands()[i].2
                &&& conditions(prereq_table()[i].1) == listed_demands()[i].3
            },
{
    reveal(prereq_table);
    reveal_with_fuel(taken_before, 8);
    reveal_with_fuel(taken_before_all, 10);
    reveal_with_fuel(taken_alongside, 8);
    reveal_with_fuel(taken_alongside_all, 10);
    reveal_with_fuel(conditions, 8);
    reveal_with_fuel(conditions_all, 10);
    assert(taken_before(prereq_table()[0].1) =~= listed_demands()[0].1);
    assert(taken_alongside(prereq_table()[0].1) =~= listed_demands()[0].2);
    assert(conditions(prereq_table()[0].1) =~= listed_demands()[0].3);
    assert(taken_before(prereq_table()[1].1) =~= listed_demands()[1].1);
    assert(taken_alongside(prereq_table()[1].1) =~= listed_demands()[1].2);
    assert(conditions(prereq_table()[1].1) =~= listed_demands()[1].3);
    assert(taken_before(prereq_table()[2].1) =~= listed_demands()[2].1);
    assert(taken_alongside(prereq_table()[2].1) =~= listed_demands()[2].2);
    assert(conditions(prereq_table()[2].1) =~= listed_demands()[2].3);
    assert(taken_before(prereq_table()[3].1) =~= listed_demands()[3].1);
    assert(taken_alongside(prereq_table()[3].1) =~= listed_demands()[3].2);
    assert(conditions(prereq_table()[3].1) =~= listed_demands()[3].3);
    assert(taken_before(prereq_table()[4].1) =~= listed_demands()[4].1);
    assert(taken_alongside(prereq_table()[4].1) =~= listed_demands()[4].2);
    assert(conditions(prereq_table()[4].1) =~= listed_demands()[4].3);
    assert(taken_before(prereq_table()[5].1) =~= listed_demands()[5].1);
    assert(taken_alongside(prereq_table()[5].1) =~= listed_demands()[5].2);
    assert(conditions(prereq_table()[5].1) =~= listed_demands()[5].3);
    assert(taken_before(prereq_table()[6].1) =~= listed_demands()[6].1);
    assert(taken_alongside(prereq_table()[6].1) =~= listed_demands()[6].2);
    assert(conditions(prereq_table()[6].1) =~= listed_demands()[6].3);
    assert(taken_before(prereq_table()[7].1) =~= listed_demands()[7].1);
    assert(taken_alongside(prereq_table()[7].1) =~= listed_demands()[7].2);
    assert(conditions(prereq_table()[7].1) =~= listed_demands()[7].3);
    assert(taken_before(prereq_table()[8].1) =~= listed_demands()[8].1);
    assert(taken_alongside(prereq_table()[8].1) =~= listed_demands()[8].2);
    assert(conditions(prereq_table()[8].1) =~= listed_demands()[8].3);
    assert(taken_before(prereq_table()[9].1) =~= listed_demands()[9].1);
    assert(taken_alongside(prereq_table()[9].1) =~= listed_demands()[9].2);
    assert(conditions(prereq_table()[9].1) =~= listed_demands()[9].3);
    assert(taken_before(prereq_table()[10].1) =~= listed_demands()[10].1);
    assert(taken_alongside(prereq_table()[10].1) =~= listed_demands()[10].2);
    assert(conditions(prereq_table()[10].1) =~= listed_demands()[10].3);
    assert(taken_before(prereq_table()[11].1) =~= listed_demands()[11].1);
    assert(taken_alongside(prereq_table()[11].1) =~= listed_demands()[11].2);
    assert(conditions(prereq_table()[11].1) =~= listed_demands()[11].3);
    assert(taken_before(prereq_table()[12].1) =~= listed_demands()[12].1);
    assert(taken_alongside(prereq_table()[12].1) =~= listed_demands()[12].2);
    assert(conditions(prereq_table()[12].1) =~= listed_demands()[12].3);
    assert(taken_before(prereq_table()[13].1) =~= listed_demands()[13].1);
    assert(taken_alongside(prereq_table()[13].1) =~= listed_demands()[13].2);
    assert(conditions(prereq_table()[13].1) =~= listed_demands()[13].3);
    assert(taken_before(prereq_table()[14].1) =~= listed_demands()[14].1);
    assert(taken_alongside(prereq_table()[14].1) =~= listed_demands()[14].2);
    assert(conditions(prereq_table()[14].1) =~= listed_demands()[14].3);
    assert(taken_before(prereq_table()[15].1) =~= listed_demands()[15].1);
    assert(taken_alongside(prereq_table()[15].1) =~= listed_demands()[15].2);
    assert(conditions(prereq_table()[15].1) =~= listed_demands()[15].3);
    assert(taken_before(prereq_table()[16].1) =~= listed_demands()[16].1);
    assert(taken_alongside(prereq_table()[16].1) =~= listed_demands()[16].2);
    assert(conditions(prereq_table()[16].1) =~= listed_demands()[16].3);
    assert(taken_before(prereq_table()[17].1) =~= listed_demands()[17].1);
    assert(taken_alongside(prereq_table()[17].1) =~= listed_demands()[17].2);
    assert(conditions(prereq_table()[17].1) =~= listed_demands()[17].3);
}

/// Every course of the MENG table is a course of subject MENG.
pub proof fn law_keyed_by_subject()
    ensures
        keyed_by_stem(prereq_table(), "MENG"@),
{
    reveal(prereq_table);
}

} // verus!
