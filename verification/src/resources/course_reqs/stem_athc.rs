//! Prerequisite rules of the ATHC courses.

use vstd::prelude::*;
use crate::prereqs::{conditions, conditions_all, taken_alongside, taken_alongside_all, taken_before, taken_before_all, CourseReq, ReqView, reqs2, reqs3};
use crate::schedule::{CourseCode, CourseCodeView, course, keyed_by_stem};

verus! {

/// The prerequisite rule of each ATHC course, as pairs of course and rule in
/// the order in which they are listed.
#[verifier::opaque]
pub open spec fn prereq_table() -> Seq<(CourseCodeView, ReqView)> {
    seq![
        (
            course("ATHC"@, 2212),
            ReqView::And(
                seq![
                    ReqView::PreCourse(course("EXSC"@, 2210)),
                    ReqView::PreCourse(course("EXSC"@, 2263)),
                ],
            ),
        ),
        (
            course("ATHC"@, 2213),
            ReqView::And(
                seq![
                    ReqView::PreCourse(course("EXSC"@, 2210)),
                    ReqView::PreCourse(course("EXSC"@, 2263)),
                ],
            ),
        ),
        (
            course("ATHC"@, 3312),
            ReqView::Or(
                seq![
                    ReqView::And(
                        seq![
                            ReqView::PreCourse(course("EXSC"@, 2209)),
                            ReqView::PreCourse(course("ATHC"@, 3364)),
                            ReqView::PreCourse(course("ATHC"@, 3374)),
                        ],
                    ),
                    ReqView::And(
                        seq![
                            ReqView::PreCourse(course("BIOL"@, 2242)),
                            ReqView::PreCourse(course("BIOL"@, 2243)),
                        ],
                    ),
                ],
            ),
        ),
        (course("ATHC"@, 3313), ReqView::Instructor),
        (
            course("ATHC"@, 3361),
            ReqView::And(
                seq![
                    ReqView::PreCourse(course("EXSC"@, 2210)),
                    ReqView::PreCourse(course("EXSC"@, 2263)),
                    ReqView::PreCourse(course("EXSC"@, 3380)),
                ],
            ),
        ),
        (
            course("ATHC"@, 3362),
            ReqView::And(
                seq![
                    ReqView::PreCourse(course("EXSC"@, 2210)),
                    ReqView::PreCourse(course("EXSC"@, 2263)),
                ],
            ),
        ),
        (
            course("ATHC"@, 3364),
            ReqView::Or(
                seq![
                    ReqView::PreCourse(course("EXSC"@, 2263)),
                    ReqView::And(
                        seq![
                            ReqView::PreCourse(course("BIOL"@, 2242)),
                            ReqView::PreCourse(course("BIOL"@, 2243)),
                        ],
                    ),
                ],
            ),
        ),
        (
            course("ATHC"@, 3374),
            ReqView::And(
                seq![
                    ReqView::PreCourse(course("EXSC"@, 2263)),
                    ReqView::PreCourse(course("BIOL"@, 2242)),
                    ReqView::PreCourse(course("BIOL"@, 2243)),
                ],
            ),
        ),
        (course("ATHC"@, 4406), ReqView::PreCourse(course("EXSC"@, 2263))),
        (
            course("ATHC"@, 4407),
            ReqView::Or(
                seq![
                    ReqView::PreCourse(course("EXSC"@, 2263)),
                    ReqView::PreCourse(course("EXSC"@, 3366)),
                ],
            ),
        ),
        (
            course("ATHC"@, 4412),
            ReqView::And(
                seq![
                    ReqView::PreCourse(course("ATHC"@, 3364)),
                    ReqView::PreCourse(course("ATHC"@, 4406)),
                ],
            ),
        ),
        (course("ATHC"@, 4413), ReqView::PreCourse(course("ATHC"@, 4412))),
    ]
}

/// The prerequisite rules of the ATHC courses, in the order in which they are listed.
pub fn prereqs() -> (table: Vec<(CourseCode, CourseReq)>)
    ensures
        table.deep_view() == prereq_table(),
        keyed_by_stem(table.deep_view(), "ATHC"@),
{
    proof {
        reveal(prereq_table);
    }
    let table = vec![
        (
            CourseCode::new("ATHC", 2212),
            CourseReq::all_of(
                reqs2(
                    CourseReq::pre(CourseCode::new("EXSC", 2210)),
                    CourseReq::pre(CourseCode::new("EXSC", 2263)),
                ),
            ),
        ),
        (
            CourseCode::new("ATHC", 2213),
            CourseReq::all_of(
                reqs2(
                    CourseReq::pre(CourseCode::new("EXSC", 2210)),
                    CourseReq::pre(CourseCode::new("EXSC", 2263)),
                ),
            ),
        ),
        (
            CourseCode::new("ATHC", 3312),
            CourseReq::any_of(
                reqs2(
                    CourseReq::all_of(
                        reqs3(
                            CourseReq::pre(CourseCode::new("EXSC", 2209)),
                            CourseReq::pre(CourseCode::new("ATHC", 3364)),
                            CourseReq::pre(CourseCode::new("ATHC", 3374)),
                        ),
                    ),
                    CourseReq::all_of(
                        reqs2(
                            CourseReq::pre(CourseCode::new("BIOL", 2242)),
                            CourseReq::pre(CourseCode::new("BIOL", 2243)),
                        ),
                    ),
                ),
            ),
        ),
        (CourseCode::new("ATHC", 3313), CourseReq::instructor()),
        (
            CourseCode::new("ATHC", 3361),
            CourseReq::all_of(
                reqs3(
                    CourseReq::pre(CourseCode::new("EXSC", 2210)),
                    CourseReq::pre(CourseCode::new("EXSC", 2263)),
                    CourseReq::pre(CourseCode::new("EXSC", 3380)),
                ),
            ),
        ),
        (
            CourseCode::new("ATHC", 3362),
            CourseReq::all_of(
                reqs2(
                    CourseReq::pre(CourseCode::new("EXSC", 2210)),
                    CourseReq::pre(CourseCode::new("EXSC", 2263)),
                ),
            ),
        ),
        (
            CourseCode::new("ATHC", 3364),
            CourseReq::any_of(
                reqs2(
                    CourseReq::pre(CourseCode::new("EXSC", 2263)),
                    CourseReq::all_of(
                        reqs2(
                            CourseReq::pre(CourseCode::new("BIOL", 2242)),
                            CourseReq::pre(CourseCode::new("BIOL", 2243)),
                        ),
                    ),
                ),
            ),
        ),
        (
            CourseCode::new("ATHC", 3374),
            CourseReq::all_of(
                reqs3(
                    CourseReq::pre(CourseCode::new("EXSC", 2263)),
                    CourseReq::pre(CourseCode::new("BIOL", 2242)),
                    CourseReq::pre(CourseCode::new("BIOL", 2243)),
                ),
            ),
        ),
        (CourseCode::new("ATHC", 4406), CourseReq::pre(CourseCode::new("EXSC", 2263))),
        (
            CourseCode::new("ATHC", 4407),
            CourseReq::any_of(
                reqs2(
                    CourseReq::pre(CourseCode::new("EXSC", 2263)),
                    CourseReq::pre(CourseCode::new("EXSC", 3366)),
                ),
            ),
        ),
        (
            CourseCode::new("ATHC", 4412),
            CourseReq::all_of(
                reqs2(
                    CourseReq::pre(CourseCode::new("ATHC", 3364)),
                    CourseReq::pre(CourseCode::new("ATHC", 4406)),
                ),
            ),
        ),
        (CourseCode::new("ATHC", 4413), CourseReq::pre(CourseCode::new("ATHC", 4412))),
    ];
    assert(table.deep_view() =~= prereq_table());
    table
}

/// For each ATHC course in the order of the listing: the course, the courses
/// its rule demands outright to have been taken before, the courses it demands
/// outright to be taken before or alongside, and the single conditions that
/// its rule is built from.
pub open spec fn listed_demands() -> Seq<
    (CourseCodeView, Set<CourseCodeView>, Set<CourseCodeView>, Set<ReqView>),
> {
    seq![
        (
            course("ATHC"@, 2212),
            set![course("EXSC"@, 2210), course("EXSC"@, 2263)],
            Set::empty(),
            set![ReqView::PreCourse(course("EXSC"@, 2210)), ReqView::PreCourse(course("EXSC"@, 2263))],
        ),
        (
            course("ATHC"@, 2213),
            set![course("EXSC"@, 2210), course("EXSC"@, 2263)],
            Set::empty(),
            set![ReqView::PreCourse(course("EXSC"@, 2210)), ReqView::PreCourse(course("EXSC"@, 2263))],
        ),
        (
            course("ATHC"@, 3312),
            Set::empty(),
            Set::empty(),
            set![ReqView::PreCourse(course("EXSC"@, 2209)), ReqView::PreCourse(course("ATHC"@, 3364)), ReqView::PreCourse(course("ATHC"@, 3374)), ReqView::PreCourse(course("BIOL"@, 2242)), ReqView::PreCourse(course("BIOL"@, 2243))],
        ),
        (
            course("ATHC"@, 3313),
            Set::empty(),
            Set::empty(),
            set![ReqView::Instructor],
        ),
        (
            course("ATHC"@, 3361),
            set![course("EXSC"@, 2210), course("EXSC"@, 2263), course("EXSC"@, 3380)],
            Set::empty(),
            set![ReqView::PreCourse(course("EXSC"@, 2210)), ReqView::PreCourse(course("EXSC"@, 2263)), ReqView::PreCourse(course("EXSC"@, 3380))],
        ),
        (
            course("ATHC"@, 3362),
            set![course("EXSC"@, 2210), course("EXSC"@, 2263)],
            Set::empty(),
            set![ReqView::PreCourse(course("EXSC"@, 2210)), ReqView::PreCourse(course("EXSC"@, 2263))],
        ),
        (
            course("ATHC"@, 3364),
            Set::empty(),
            Set::empty(),
            set![ReqView::PreCourse(course("EXSC"@, 2263)), ReqView::PreCourse(course("BIOL"@, 2242)), ReqView::PreCourse(course("BIOL"@, 2243))],
        ),
        (
            course("ATHC"@, 3374),
            set![course("EXSC"@, 2263), course("BIOL"@, 2242), course("BIOL"@, 2243)],
            Set::empty(),
            set![ReqView::PreCourse(course("EXSC"@, 2263)), ReqView::PreCourse(course("BIOL"@, 2242)), ReqView::PreCourse(course("BIOL"@, 2243))],
        ),
        (
            course("ATHC"@, 4406),
            set![course("EXSC"@, 2263)],
            Set::empty(),
            set![ReqView::PreCourse(course("EXSC"@, 2263))],
        ),
        (
            course("ATHC"@, 4407),
            Set::empty(),
            Set::empty(),
            set![ReqView::PreCourse(course("EXSC"@, 2263)), ReqView::PreCourse(course("EXSC"@, 3366))],
        ),
        (
            course("ATHC"@, 4412),
            set![course("ATHC"@, 3364), course("ATHC"@, 4406)],
            Set::empty(),
            set![ReqView::PreCourse(course("ATHC"@, 3364)), ReqView::PreCourse(course("ATHC"@, 4406))],
        ),
        (
            course("ATHC"@, 4413),
            set![course("ATHC"@, 4412)],
            Set::empty(),
            set![ReqView::PreCourse(course("ATHC"@, 4412))],
        ),
    ]
}

/// Each ATHC rule demands before and alongside exactly the courses listed for
/// it, and is built from exactly the conditions listed for it.
pub proof fn law_listed_demands()
    ensures
        prereq_table().len() == listed_demands().len(),
        forall|i: int|
            0 <= i < prereq_table().len() ==> {
                &&& #[trigger] prereq_table()[i].0 == listed_demands()[i].0
                &&& taken_before(prereq_table()[i].1) == listed_demands()[i].1
                &&& taken_alongside(prereq_table()[i].1) == listed_demands()[i].2
                &&& conditions(prereq_table()[i].1) == listed_demands()[i].3
            },
{
    reveal(prereq_table);
    reveal_with_fuel(taken_before, 8);
    reveal_with_fuel(taken_before_all, 10);
    reveal_with_fuel(taken_alongside, 8);
    reveal_with_fuel(taken_alongside_all, 10);
    reveal_with_fuel(conditions, 8);
    reveal_with_fuel(conditions_all, 10);
    assert(taken_before(prereq_table()[0].1) =~= listed_demands()[0].1);
    assert(taken_alongside(prereq_table()[0].1) =~= listed_demands()[0].2);
    assert(conditions(prereq_table()[0].1) =~= listed_demands()[0].3);
    assert(taken_before(prereq_table()[1].1) =~= listed_demands()[1].1);
    assert(taken_alongside(prereq_table()[1].1) =~= listed_demands()[1].2);
    assert(conditions(prereq_table()[1].1) =~= listed_demands()[1].3);
    assert(taken_before(prereq_table()[2].1) =~= listed_demands()[2].1);
    assert(taken_alongside(prereq_table()[2].1) =~= listed_demands()[2].2);
    assert(conditions(prereq_table()[2].1) =~= listed_demands()[2].3);
    assert(taken_before(prereq_table()[3].1) =~= listed_demands()[3].1);
    assert(taken_alongside(prereq_table()[3].1) =~= listed_demands()[3].2);
    assert(conditions(prereq_table()[3].1) =~= listed_demands()[3].3);
    assert(taken_before(prereq_table()[4].1) =~= listed_demands()[4].1);
    assert(taken_alongside(prereq_table()[4].1) =~= listed_demands()[4].2);
    assert(conditions(prereq_table()[4].1) =~= listed_demands()[4].3);
    assert(taken_before(prereq_table()[5].1) =~= listed_demands()[5].1);
    assert(taken_alongside(prereq_table()[5].1) =~= listed_demands()[5].2);
    assert(conditions(prereq_table()[5].1) =~= listed_demands()[5].3);
    assert(taken_before(prereq_table()[6].1) =~= listed_demands()[6].1);
    assert(taken_alongside(prereq_table()[6].1) =~= listed_demands()[6].2);
    assert(conditions(prereq_table()[6].1) =~= listed_demands()[6].3);
    assert(taken_before(prereq_table()[7].1) =~= listed_demands()[7].1);
    assert(taken_alongside(prereq_table()[7].1) =~= listed_demands()[7].2);
    assert(conditions(prereq_table()[7].1) =~= listed_demands()[7].3);
    assert(taken_before(prereq_table()[8].1) =~= listed_demands()[8].1);
    assert(taken_alongside(prereq_table()[8].1) =~= listed_demands()[8].2);
    assert(conditions(prereq_table()[8].1) =~= listed_demands()[8].3);
    assert(taken_before(prereq_table()[9].1) =~= listed_demands()[9].1);
    assert(taken_alongside(prereq_table()[9].1) =~= listed_demands()[9].2);
    assert(conditions(prereq_table()[9].1) =~= listed_demands()[9].3);
    assert(taken_before(prereq_table()[10].1) =~= listed_demands()[10].1);
    assert(taken_alongside(prereq_table()[10].1) =~= listed_demands()[10].2);
    assert(conditions(prereq_table()[10].1) =~= listed_demands()[10].3);
    assert(taken_before(prereq_table()[11].1) =~= listed_demands()[11].1);
    assert(taken_alongside(prereq_table()[11].1) =~= listed_demands()[11].2);
    assert(conditions(prereq_table()[11].1) =~= listed_demands()[11].3);
}

/// Every course of the ATHC table is a course of subject ATHC.
pub proof fn law_keyed_by_subject()
    ensures
        keyed_by_stem(prereq_table(), "ATHC"@),
{
    reveal(prereq_table);
}

} // verus!
