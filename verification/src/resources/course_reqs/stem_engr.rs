//! Prerequisite rules of the ENGR courses.

use vstd::prelude::*;
use crate::prereqs::{conditions, conditions_all, taken_alongside, taken_alongside_all, taken_before, taken_before_all, CourseReq, ReqView, reqs2, reqs3};
use crate::schedule::{CourseCode, CourseCodeView, course, keyed_by_stem};

verus! {

/// The prerequisite rule of each ENGR course, as pairs of course and rule in
/// the order in which they are listed.
#[verifier::opaque]
pub open spec fn prereq_table() -> Seq<(CourseCodeView, ReqView)> {
    seq![
        (course("ENGR"@, 1001), ReqView::PreCourse(course("MATH"@, 1020))),
        (
            course("ENGR"@, 1200),
            ReqView::Or(
                seq![
                    ReqView::Or(
                        seq![
                            ReqView::PreCourse(course("MATH"@, 1250)),
                            ReqView::PreCourse(course("MATH"@, 1300)),
                        ],
                    ),
                    ReqView::Or(
                        seq![
                            ReqView::CoCourse(course("MATH"@, 1250)),
                            ReqView::CoCourse(course("MATH"@, 1300)),
                        ],
                    ),
                ],
            ),
        ),
        (course("ENGR"@, 1520), ReqView::PreCourse(course("ENGR"@, 1500))),
        (course("ENGR"@, 2000), ReqView::CoCourse(course("ENGR"@, 1200))),
        (
            course("ENGR"@, 2300),
            ReqView::Or(
                seq![
                    ReqView::PreCourse(course("PHYS"@, 2100)),
                    ReqView::PreCourse(course("PHYS"@, 2000)),
                ],
            ),
        ),
        (
            course("ENGR"@, 2310),
            ReqView::Or(
                seq![
                    ReqView::And(
                        seq![
                            ReqView::PreCourse(course("ENGR"@, 2300)),
                            ReqView::PreCourse(course("ENGR"@, 2000)),
                        ],
                    ),
                    ReqView::PreCourse(course("CIVL"@, 2000)),
                ],
            ),
        ),
        (course("ENGR"@, 2320), ReqView::PreCourse(course("ENGR"@, 2300))),
        (
            course("ENGR"@, 3150),
            ReqView::And(
                seq![
                    ReqView::PreCourse(course("MATH"@, 2300)),
                    ReqView::CoCourse(course("MATH"@, 2300)),
                ],
            ),
        ),
        (
            course("ENGR"@, 3250),
            ReqView::And(
                seq![
                    ReqView::PreCourse(course("PHYS"@, 2100)),
                    ReqView::PreCourse(course("MATH"@, 1350)),
                ],
            ),
        ),
        (
            course("ENGR"@, 3300),
            ReqView::And(
                seq![
                    ReqView::PreCourse(course("MATH"@, 2300)),
                    ReqView::PreCourse(course("PHYS"@, 2100)),
                    ReqView::Or(
                        seq![
                            ReqView::PreCourse(course("ENGR"@, 2300)),
                            ReqView::PreCourse(course("CENG"@, 2010)),
                        ],
                    ),
                ],
            ),
        ),
        (
            course("ENGR"@, 3400),
            ReqView::Or(
                seq![
                    ReqView::PreCourse(course("ENGR"@, 2320)),
                    ReqView::PreCourse(course("ENGR"@, 3500)),
                ],
            ),
        ),
        (
            course("ENGR"@, 3410),
            ReqView::And(
                seq![
                    ReqView::PreCourse(course("ENGR"@, 3150)),
                    ReqView::PreCourse(course("ENGR"@, 3600)),
                    ReqView::CoCourse(course("ENGR"@, 3600)),
                ],
            ),
        ),
        (course("ENGR"@, 3500), ReqView::PreCourse(course("CHEM"@, 1200))),
        (
            course("ENGR"@, 3600),
            ReqView::Or(
                seq![
                    ReqView::PreCourse(course("ENGR"@, 3300)),
                    ReqView::And(
                        seq![
                            ReqView::PreCourse(course("CENG"@, 3300)),
                            ReqView::PreCourse(course("ENGR"@, 3250)),
                        ],
                    ),
                    ReqView::PreCourse(course("CENG"@, 3250)),
                ],
            ),
        ),
        (course("ENGR"@, 4150), ReqView::PreCourse(course("ENGR"@, 3150))),
        (course("ENGR"@, 4840), ReqView::PreCourse(course("ENGR"@, 3150))),
    ]
}

/// The prerequisite rules of the ENGR courses, in the order in which they are listed.
pub fn prereqs() -> (table: Vec<(CourseCode, CourseReq)>)
    ensures
        table.deep_view() == prereq_table(),
        keyed_by_stem(table.deep_view(), "ENGR"@),
{
    proof {
        reveal(prereq_table);
    }
    let table = vec![
        (CourseCode::new("ENGR", 1001), CourseReq::pre(CourseCode::new("MATH", 1020))),
        (
            CourseCode::new("ENGR", 1200),
            CourseReq::any_of(
                reqs2(
                    CourseReq::any_of(
                        reqs2(
                            CourseReq::pre(CourseCode::new("MATH", 1250)),
                            CourseReq::pre(CourseCode::new("MATH", 1300)),
                        ),
                    ),
                    CourseReq::any_of(
                        reqs2(
                            CourseReq::co(CourseCode::new("MATH", 1250)),
                            CourseReq::co(CourseCode::new("MATH", 1300)),
                        ),
                    ),
                ),
            ),
        ),
        (CourseCode::new("ENGR", 1520), CourseReq::pre(CourseCode::new("ENGR", 1500))),
        (CourseCode::new("ENGR", 2000), CourseReq::co(CourseCode::new("ENGR", 1200))),
        (
            CourseCode::new("ENGR", 2300),
            CourseReq::any_of(
                reqs2(
                    CourseReq::pre(CourseCode::new("PHYS", 2100)),
                    CourseReq::pre(CourseCode::new("PHYS", 2000)),
                ),
            ),
        ),
        (
            CourseCode::new("ENGR", 2310),
            CourseReq::any_of(
                reqs2(
                    CourseReq::all_of(
                        reqs2(
                            CourseReq::pre(CourseCode::new("ENGR", 2300)),
                            CourseReq::pre(CourseCode::new("ENGR", 2000)),
                        ),
                    ),
                    CourseReq::pre(CourseCode::new("CIVL", 2000)),
                ),
            ),
        ),
        (CourseCode::new("ENGR", 2320), CourseReq::pre(CourseCode::new("ENGR", 2300))),
        (
            CourseCode::new("ENGR", 3150),
            CourseReq::all_of(
                reqs2(
                    CourseReq::pre(CourseCode::new("MATH", 2300)),
                    CourseReq::co(CourseCode::new("MATH", 2300)),
                ),
            ),
        ),
        (
            CourseCode::new("ENGR", 3250),
            CourseReq::all_of(
                reqs2(
                    CourseReq::pre(CourseCode::new("PHYS", 2100)),
                    CourseReq::pre(CourseCode::new("MATH", 1350)),
                ),
            ),
        ),
        (
            CourseCode::new("ENGR", 3300),
            CourseReq::all_of(
                reqs3(
                    CourseReq::pre(CourseCode::new("MATH", 2300)),
                    CourseReq::pre(CourseCode::new("PHYS", 2100)),
                    CourseReq::any_of(
                        reqs2(
                            CourseReq::pre(CourseCode::new("ENGR", 2300)),
                            CourseReq::pre(CourseCode::new("CENG", 2010)),
                        ),
                    ),
                ),
            ),
        ),
        (
            CourseCode::new("ENGR", 3400),
            CourseReq::any_of(
                reqs2(
                    CourseReq::pre(CourseCode::new("ENGR", 2320)),
                    CourseReq::pre(CourseCode::new("ENGR", 3500)),
                ),
            ),
        ),
        (
            CourseCode::new("ENGR", 3410),
            CourseReq::all_of(
                reqs3(
                    CourseReq::pre(CourseCode::new("ENGR", 3150)),
                    CourseReq::pre(CourseCode::new("ENGR", 3600)),
                    CourseReq::co(CourseCode::new("ENGR", 3600)),
                ),
            ),
        ),
        (CourseCode::new("ENGR", 3500), CourseReq::pre(CourseCode::new("CHEM", 1200))),
        (
            CourseCode::new("ENGR", 3600),
            CourseReq::any_of(
                reqs3(
                    CourseReq::pre(CourseCode::new("ENGR", 3300)),
                    CourseReq::all_of(
                        reqs2(
                            CourseReq::pre(CourseCode::new("CENG", 3300)),
                            CourseReq::pre(CourseCode::new("ENGR", 3250)),
                        ),
                    ),
                    CourseReq::pre(CourseCode::new("CENG", 3250)),
                ),
            ),
        ),
        (CourseCode::new("ENGR", 4150), CourseReq::pre(CourseCode::new("ENGR", 3150))),
        (CourseCode::new("ENGR", 4840), CourseReq::pre(CourseCode::new("ENGR", 3150))),
    ];
    assert(table.deep_view() =~= prereq_table());
    table
}

/// For each ENGR course in the order of the listing: the course, the courses
/// its rule demands outright to have been taken before, the courses it demands
/// outright to be taken before or alongside, and the single conditions that
/// its rule is built from.
pub open spec fn listed_demands() -> Seq<
    (CourseCodeView, Set<CourseCodeView>, Set<CourseCodeView>, Set<ReqView>),
> {
    seq![
        (
            course("ENGR"@, 1001),
            set![course("MATH"@, 1020)],
            Set::empty(),
            set![ReqView::PreCourse(course("MATH"@, 1020))],
        ),
        (
            course("ENGR"@, 1200),
            Set::empty(),
            Set::empty(),
            set![ReqView::PreCourse(course("MATH"@, 1250)), ReqView::PreCourse(course("MATH"@, 1300)), ReqView::CoCourse(course("MATH"@, 1250)), ReqView::CoCourse(course("MATH"@, 1300))],
        ),
        (
            course("ENGR"@, 1520),
            set![course("ENGR"@, 1500)],
            Set::empty(),
            set![ReqView::PreCourse(course("ENGR"@, 1500))],
        ),
        (
            course("ENGR"@, 2000),
            Set::empty(),
            set![course("ENGR"@, 1200)],
            set![ReqView::CoCourse(course("ENGR"@, 1200))],
        ),
        (
            course("ENGR"@, 2300),
            Set::empty(),
            Set::empty(),
            set![ReqView::PreCourse(course("PHYS"@, 2100)), ReqView::PreCourse(course("PHYS"@, 2000))],
        ),
        (
            course("ENGR"@, 2310),
            Set::empty(),
            Set::empty(),
            set![ReqView::PreCourse(course("ENGR"@, 2300)), ReqView::PreCourse(course("ENGR"@, 2000)), ReqView::PreCourse(course("CIVL"@, 2000))],
        ),
        (
            course("ENGR"@, 2320),
            set![course("ENGR"@, 2300)],
            Set::empty(),
            set![ReqView::PreCourse(course("ENGR"@, 2300))],
        ),
        (
            course("ENGR"@, 3150),
            set![course("MATH"@, 2300)],
            set![course("MATH"@, 2300)],
            set![ReqView::PreCourse(course("MATH"@, 2300)), ReqView::CoCourse(course("MATH"@, 2300))],
        ),
        (
            course("ENGR"@, 3250),
            set![course("PHYS"@, 2100), course("MATH"@, 1350)],
            Set::empty(),
            set![ReqView::PreCourse(course("PHYS"@, 2100)), ReqView::PreCourse(course("MATH"@, 1350))],
        ),
        (
            course("ENGR"@, 3300),
            set![course("MATH"@, 2300), course("PHYS"@, 2100)],
            Set::empty(),
            set![ReqView::PreCourse(course("MATH"@, 2300)), ReqView::PreCourse(course("PHYS"@, 2100)), ReqView::PreCourse(course("ENGR"@, 2300)), ReqView::PreCourse(course("CENG"@, 2010))],
        ),
        (
            course("ENGR"@, 3400),
            Set::empty(),
            Set::empty(),
            set![ReqView::PreCourse(course("ENGR"@, 2320)), ReqView::PreCourse(course("ENGR"@, 3500))],
        ),
        (
            course("ENGR"@, 3410),
            set![course("ENGR"@, 3150), course("ENGR"@, 3600)],
            set![course("ENGR"@, 3600)],
            set![ReqView::PreCourse(course("ENGR"@, 3150)), ReqView::PreCourse(course("ENGR"@, 3600)), ReqView::CoCourse(course("ENGR"@, 3600))],
        ),
        (
            course("ENGR"@, 3500),
            set![course("CHEM"@, 1200)],
            Set::empty(),
            set![ReqView::PreCourse(course("CHEM"@, 1200))],
        ),
        (
            course("ENGR"@, 3600),
            Set::empty(),
            Set::empty(),
            set![ReqView::PreCourse(course("ENGR"@, 3300)), ReqView::PreCourse(course("CENG"@, 3300)), ReqView::PreCourse(course("ENGR"@, 3250)), ReqView::PreCourse(course("CENG"@, 3250))],
        ),
        (
            course("ENGR"@, 4150),
            set![course("ENGR"@, 3150)],
            Set::empty(),
            set![ReqView::PreCourse(course("ENGR"@, 3150))],
        ),
        (
            course("ENGR"@, 4840),
            set![course("ENGR"@, 3150)],
            Set::empty(),
            set![ReqView::PreCourse(course("ENGR"@, 3150))],
        ),
    ]
}

/// Each ENGR rule demands before and alongside exactly the courses listed for
/// it, and is built from exactly the conditions listed for it.
pub proof fn law_listed_demands()
    ensures
        prereq_table().len() == listed_demands().len(),
        forall|i: int|
            0 <= i < prereq_table().len() ==> {
                &&& #[trigger] prereq_table()[i].0 == listed_demands()[i].0
                &&& taken_before(prereq_table()[i].1) == listed_demands()[i].1
                &&& taken_alongside(prereq_table()[i].1) == listed_demands()[i].2
                &&& conditions(prereq_table()[i].1) == listed_demands()[i].3
            },
{
    reveal(prereq_table);
    reveal_with_fuel(taken_before, 8);
    reveal_with_fuel(taken_before_all, 10);
    reveal_with_fuel(taken_alongside, 8);
    reveal_with_fuel(taken_alongside_all, 10);
    reveal_with_fuel(conditions, 8);
    reveal_with_fuel(conditions_all, 10);
    assert(taken_before(prereq_table()[0].1) =~= listed_demands()[0].1);
    assert(taken_alongside(prereq_table()[0].1) =~= listed_demands()[0].2);
    assert(conditions(prereq_table()[0].1) =~= listed_demands()[0].3);
    assert(taken_before(prereq_table()[1].1) =~= listed_demands()[1].1);
    assert(taken_alongside(prereq_table()[1].1) =~= listed_demands()[1].2);
    assert(conditions(prereq_table()[1].1) =~= listed_demands()[1].3);
    assert(taken_before(prereq_table()[2].1) =~= listed_demands()[2].1);
    assert(taken_alongside(prereq_table()[2].1) =~= listed_demands()[2].2);
    assert(conditions(prereq_table()[2].1) =~= listed_demands()[2].3);
    assert(taken_before(prereq_table()[3].1) =~= listed_demands()[3].1);
    assert(taken_alongside(prereq_table()[3].1) =~= listed_demands()[3].2);
    assert(conditions(prereq_table()[3].1) =~= listed_demands()[3].3);
    assert(taken_before(prereq_table()[4].1) =~= listed_demands()[4].1);
    assert(taken_alongside(prereq_table()[4].1) =~= listed_demands()[4].2);
    assert(conditions(prereq_table()[4].1) =~= listed_demands()[4].3);
    assert(taken_before(prereq_table()[5].1) =~= listed_demands()[5].1);
    assert(taken_alongside(prereq_table()[5].1) =~= listed_demands()[5].2);
    assert(conditions(prereq_table()[5].1) =~= listed_demands()[5].3);
    assert(taken_before(prereq_table()[6].1) =~= listed_demands()[6].1);
    assert(taken_alongside(prereq_table()[6].1) =~= listed_demands()[6].2);
    assert(conditions(prereq_table()[6].1) =~= listed_demands()[6].3);
    assert(taken_before(prereq_table()[7].1) =~= listed_demands()[7].1);
    assert(taken_alongside(prereq_table()[7].1) =~= listed_demands()[7].2);
    assert(conditions(prereq_table()[7].1) =~= listed_demands()[7].3);
    assert(taken_before(prereq_table()[8].1) =~= listed_demands()[8].1);
    assert(taken_alongside(prereq_table()[8].1) =~= listed_demands()[8].2);
    assert(conditions(prereq_table()[8].1) =~= listed_demands()[8].3);
    assert(taken_before(prereq_table()[9].1) =~= listed_demands()[9].1);
    assert(taken_alongside(prereq_table()[9].1) =~= listed_demands()[9].2);
    assert(conditions(prereq_table()[9].1) =~= listed_demands()[9].3);
    assert(taken_before(prereq_table()[10].1) =~= listed_demands()[10].1);
    assert(taken_alongside(prereq_table()[10].1) =~= listed_demands()[10].2);
    assert(conditions(prereq_table()[10].1) =~= listed_demands()[10].3);
    assert(taken_before(prereq_table()[11].1) =~= listed_demands()[11].1);
    assert(taken_alongside(prereq_table()[11].1) =~= listed_demands()[11].2);
    assert(conditions(prereq_table()[11].1) =~= listed_demands()[11].3);
    assert(taken_before(prereq_table()[12].1) =~= listed_demands()[12].1);
    assert(taken_alongside(prereq_table()[12].1) =~= listed_demands()[12].2);
    assert(conditions(prereq_table()[12].1) =~= listed_demands()[12].3);
    assert(taken_before(prereq_table()[13].1) =~= listed_demands()[13].1);
    assert(taken_alongside(prereq_table()[13].1) =~= listed_demands()[13].2);
    assert(conditions(prereq_table()[13].1) =~= listed_demands()[13].3);
    assert(taken_before(prereq_table()[14].1) =~= listed_demands()[14].1);
    assert(taken_alongside(prereq_table()[14].1) =~= listed_demands()[14].2);
    assert(conditions(prereq_table()[14].1) =~= listed_demands()[14].3);
    assert(taken_before(prereq_table()[15].1) =~= listed_demands()[15].1);
    assert(taken_alongside(prereq_table()[15].1) =~= listed_demands()[15].2);
    assert(conditions(prereq_table()[15].1) =~= listed_demands()[15].3);
}

/// Every course of the ENGR table is a course of subject ENGR.
pub proof fn law_keyed_by_subject()
    ensures
        keyed_by_stem(prereq_table(), "ENGR"@),
{
    reveal(prereq_table);
}

} // verus!
