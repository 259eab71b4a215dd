//! Prerequisite rules of the PSYC courses.

use vstd::prelude::*;
use crate::prereqs::{conditions, conditions_all, taken_alongside, taken_alongside_all, taken_before, taken_before_all, CourseReq, ReqView, ClassStanding, reqs2, reqs3};
use crate::schedule::{CourseCode, CourseCodeView, course, special_course, keyed_by_stem};

verus! {

/// The prerequisite rule of each PSYC course, as pairs of course and rule in
/// the order in which they are listed.
#[verifier::opaque]
pub open spec fn prereq_table() -> Seq<(CourseCodeView, ReqView)> {
    seq![
        (course("PSYC"@, 2000), ReqView::PreCourse(course("PSYC"@, 1000))),
        (course("PSYC"@, 2010), ReqView::PreCourse(course("PSYC"@, 2000))),
        (course("PSYC"@, 2401), ReqView::PreCourse(course("PSYC"@, 1000))),
        (course("PSYC"@, 2503), ReqView::PreCourse(course("PSYC"@, 1000))),
        (course("PSYC"@, 2631), ReqView::PreCourse(course("PSYC"@, 1000))),
        (course("PSYC"@, 2641), ReqView::PreCourse(course("PSYC"@, 1000))),
        (course("PSYC"@, 2731), ReqView::PreCourse(course("PSYC"@, 1000))),
        (
            course("PSYC"@, 2852),
            ReqView::Or(
                seq![
                    ReqView::PreCourse(course("PSYC"@, 1000)),
                    ReqView::PreCourse(course("SOCI"@, 1000)),
                ],
            ),
        ),
        (
            course("PSYC"@, 3152),
            ReqView::Or(
                seq![
                    ReqView::And(
                        seq![
                            ReqView::PreCourse(course("PSYC"@, 2010)),
                            ReqView::PreCourse(course("PSYC"@, 3901)),
                        ],
                    ),
                    ReqView::Instructor,
                ],
            ),
        ),
        (
            course("PSYC"@, 3500),
            ReqView::And(seq![ReqView::PreCourse(course("PSYC"@, 2010)), ReqView::Instructor]),
        ),
        (course("PSYC"@, 3710), ReqView::PreCourse(course("PSYC"@, 2010))),
        (course("PSYC"@, 3720), ReqView::PreCourse(course("PSYC"@, 1000))),
        (course("PSYC"@, 3801), ReqView::PreCourse(course("PSYC"@, 1000))),
        (
            course("PSYC"@, 3901),
            ReqView::And(
                seq![
                    ReqView::PreCourse(course("PSYC"@, 1000)),
                    ReqView::Standing(ClassStanding::Sophomore),
                    ReqView::PreCourse(course("PSYC"@, 2731)),
                ],
            ),
        ),
        (
            course("PSYC"@, 4012),
            ReqView::And(
                seq![
                    ReqView::Or(
                        seq![
                            ReqView::PreCourse(course("PSYC"@, 2731)),
                            ReqView::PreCourse(course("PSYC"@, 3901)),
                        ],
                    ),
                    ReqView::Standing(ClassStanding::Junior),
                    ReqView::PreCourse(special_course("PSYC"@, "PROGRAM"@)),
                ],
            ),
        ),
        (
            course("PSYC"@, 4050),
            ReqView::And(
                seq![
                    ReqView::PreCourse(course("PSYC"@, 2010)),
                    ReqView::PreCourse(course("BIOL"@, 1107)),
                ],
            ),
        ),
        (course("PSYC"@, 4210), ReqView::Standing(ClassStanding::Junior)),
        (course("PSYC"@, 4502), ReqView::Standing(ClassStanding::Junior)),
        (
            course("PSYC"@, 4820),
            ReqView::And(
                seq![
                    ReqView::Or(
                        seq![
                            ReqView::PreCourse(course("PSYC"@, 1000)),
                            ReqView::PreCourse(course("SOCI"@, 1000)),
                        ],
                    ),
                    ReqView::Standing(ClassStanding::Junior),
                ],
            ),
        ),
        (
            course("PSYC"@, 4850),
            ReqView::And(
                seq![
                    ReqView::PreCourse(special_course("PSYC"@, "PROGRAM"@)),
                    ReqView::Standing(ClassStanding::Junior),
                ],
            ),
        ),
        (
            course("PSYC"@, 4910),
            ReqView::Or(
                seq![ReqView::PreCourse(special_course("PSYC"@, "SE"@)), ReqView::Instructor],
            ),
        ),
        (course("PSYC"@, 4975), ReqView::Instructor),
    ]
}

/// The prerequisite rules of the PSYC courses, in the order in which they are listed.
pub fn prereqs() -> (table: Vec<(CourseCode, CourseReq)>)
    ensures
        table.deep_view() == prereq_table(),
        keyed_by_stem(table.deep_view(), "PSYC"@),
{
    proof {
        reveal(prereq_table);
    }
    let table = vec![
        (CourseCode::new("PSYC", 2000), CourseReq::pre(CourseCode::new("PSYC", 1000))),
        (CourseCode::new("PSYC", 2010), CourseReq::pre(CourseCode::new("PSYC", 2000))),
        (CourseCode::new("PSYC", 2401), CourseReq::pre(CourseCode::new("PSYC", 1000))),
        (CourseCode::new("PSYC", 2503), CourseReq::pre(CourseCode::new("PSYC", 1000))),
        (CourseCode::new("PSYC", 2631), CourseReq::pre(CourseCode::new("PSYC", 1000))),
        (CourseCode::new("PSYC", 2641), CourseReq::pre(CourseCode::new("PSYC", 1000))),
        (CourseCode::new("PSYC", 2731), CourseReq::pre(CourseCode::new("PSYC", 1000))),
        (
            CourseCode::new("PSYC", 2852),
            CourseReq::any_of(
                reqs2(
                    CourseReq::pre(CourseCode::new("PSYC", 1000)),
                    CourseReq::pre(CourseCode::new("SOCI", 1000)),
                ),
            ),
        ),
        (
            CourseCode::new("PSYC", 3152),
            CourseReq::any_of(
                reqs2(
                    CourseReq::all_of(
                        reqs2(
                            CourseReq::pre(CourseCode::new("PSYC", 2010)),
                            CourseReq::pre(CourseCode::new("PSYC", 3901)),
                        ),
                    ),
                    CourseReq::instructor(),
                ),
            ),
        ),
        (
            CourseCode::new("PSYC", 3500),
            CourseReq::all_of(
                reqs2(CourseReq::pre(CourseCode::new("PSYC", 2010)), CourseReq::instructor()),
            ),
        ),
        (CourseCode::new("PSYC", 3710), CourseReq::pre(CourseCode::new("PSYC", 2010))),
        (CourseCode::new("PSYC", 3720), CourseReq::pre(CourseCode::new("PSYC", 1000))),
        (CourseCode::new("PSYC", 3801), CourseReq::pre(CourseCode::new("PSYC", 1000))),
        (
            CourseCode::new("PSYC", 3901),
            CourseReq::all_of(
                reqs3(
                    CourseReq::pre(CourseCode::new("PSYC", 1000)),
                    CourseReq::standing(ClassStanding::Sophomore),
                    CourseReq::pre(CourseCode::new("PSYC", 2731)),
                ),
            ),
        ),
        (
            CourseCode::new("PSYC", 4012),
            CourseReq::all_of(
                reqs3(
                    CourseReq::any_of(
                        reqs2(
                            CourseReq::pre(CourseCode::new("PSYC", 2731)),
                            CourseReq::pre(CourseCode::new("PSYC", 3901)),
                        ),
                    ),
                    CourseReq::standing(ClassStanding::Junior),
                    CourseReq::pre(CourseCode::special("PSYC", "PROGRAM")),
                ),
            ),
        ),
        (
            CourseCode::new("PSYC", 4050),
            CourseReq::all_of(
                reqs2(
                    CourseReq::pre(CourseCode::new("PSYC", 2010)),
                    CourseReq::pre(CourseCode::new("BIOL", 1107)),
                ),
            ),
        ),
        (CourseCode::new("PSYC", 4210), CourseReq::standing(ClassStanding::Junior)),
        (CourseCode::new("PSYC", 4502), CourseReq::standing(ClassStanding::Junior)),
        (
            CourseCode::new("PSYC", 4820),
            CourseReq::all_of(
                reqs2(
                    CourseReq::any_of(
                        reqs2(
                            CourseReq::pre(CourseCode::new("PSYC", 1000)),
                            CourseReq::pre(CourseCode::new("SOCI", 1000)),
                        ),
                    ),
                    CourseReq::standing(ClassStanding::Junior),
                ),
            ),
        ),
        (
            CourseCode::new("PSYC", 4850),
            CourseReq::all_of(
                reqs2(
                    CourseReq::pre(CourseCode::special("PSYC", "PROGRAM")),
                    CourseReq::standing(ClassStanding::Junior),
                ),
            ),
        ),
        (
            CourseCode::new("PSYC", 4910),
            CourseReq::any_of(
                reqs2(
                    CourseReq::pre(CourseCode::special("PSYC", "SE")),
                    CourseReq::instructor(),
                ),
            ),
        ),
        (CourseCode::new("PSYC", 4975), CourseReq::instructor()),
    ];
    assert(table.deep_view() =~= prereq_table());
    table
}

/// For each PSYC course in the order of the listing: the course, the courses
/// its rule demands outright to have been taken before, the courses it demands
/// outright to be taken before or alongside, and the single conditions that
/// its rule is built from.
pub open spec fn listed_demands() -> Seq<
    (CourseCodeView, Set<CourseCodeView>, Set<CourseCodeView>, Set<ReqView>),
> {
    seq![
        (
            course("PSYC"@, 2000),
            set![course("PSYC"@, 1000)],
            Set::empty(),
            set![ReqView::PreCourse(course("PSYC"@, 1000))],
        ),
        (
            course("PSYC"@, 2010),
            set![course("PSYC"@, 2000)],
            Set::empty(),
            set![ReqView::PreCourse(course("PSYC"@, 2000))],
        ),
        (
            course("PSYC"@, 2401),
            set![course("PSYC"@, 1000)],
            Set::empty(),
            set![ReqView::PreCourse(course("PSYC"@, 1000))],
        ),
        (
            course("PSYC"@, 2503),
            set![course("PSYC"@, 1000)],
            Set::empty(),
            set![ReqView::PreCourse(course("PSYC"@, 1000))],
        ),
        (
            course("PSYC"@, 2631),
            set![course("PSYC"@, 1000)],
            Set::empty(),
            set![ReqView::PreCourse(course("PSYC"@, 1000))],
        ),
        (
            course("PSYC"@, 2641),
            set![course("PSYC"@, 1000)],
            Set::empty(),
            set![ReqView::PreCourse(course("PSYC"@, 1000))],
        ),
        (
            course("PSYC"@, 2731),
            set![course("PSYC"@, 1000)],
            Set::empty(),
            set![ReqView::PreCourse(course("PSYC"@, 1000))],
        ),
        (
            course("PSYC"@, 2852),
            Set::empty(),
            Set::empty(),
            set![ReqView::PreCourse(course("PSYC"@, 1000)), ReqView::PreCourse(course("SOCI"@, 1000))],
        ),
        (
            course("PSYC"@, 3152),
            Set::empty(),
            Set::empty(),
            set![ReqView::PreCourse(course("PSYC"@, 2010)), ReqView::PreCourse(course("PSYC"@, 3901)), ReqView::Instructor],
        ),
        (
            course("PSYC"@, 3500),
            set![course("PSYC"@, 2010)],
            Set::empty(),
            set![ReqView::PreCourse(course("PSYC"@, 2010)), ReqView::Instructor],
        ),
        (
            course("PSYC"@, 3710),
            set![course("PSYC"@, 2010)],
            Set::empty(),
            set![ReqView::PreCourse(course("PSYC"@, 2010))],
        ),
        (
            course("PSYC"@, 3720),
            set![course("PSYC"@, 1000)],
            Set::empty(),
            set![ReqView::PreCourse(course("PSYC"@, 1000))],
        ),
        (
            course("PSYC"@, 3801),
            set![course("PSYC"@, 1000)],
            Set::empty(),
            set![ReqView::PreCourse(course("PSYC"@, 1000))],
        ),
        (
            course("PSYC"@, 3901),
            set![course("PSYC"@, 1000), course("PSYC"@, 2731)],
            Set::empty(),
            set![ReqView::PreCourse(course("PSYC"@, 1000)), ReqView::Standing(ClassStanding::Sophomore), ReqView::PreCourse(course("PSYC"@, 2731))],
        ),
        (
            course("PSYC"@, 4012),
            set![special_course("PSYC"@, "PROGRAM"@)],
            Set::empty(),
            set![ReqView::PreCourse(course("PSYC"@, 2731)), ReqView::PreCourse(course("PSYC"@, 3901)), ReqView::Standing(ClassStanding::Junior), ReqView::PreCourse(special_course("PSYC"@, "PROGRAM"@))],
        ),
        (
            course("PSYC"@, 4050),
            set![course("PSYC"@, 2010), course("BIOL"@, 1107)],
            Set::empty(),
            set![ReqView::PreCourse(course("PSYC"@, 2010)), ReqView::PreCourse(course("BIOL"@, 1107))],
        ),
        (
            course("PSYC"@, 4210),
            Set::empty(),
            Set::empty(),
            set![ReqView::Standing(ClassStanding::Junior)],
        ),
        (
            course("PSYC"@, 4502),
            Set::empty(),
            Set::empty(),
            set![ReqView::Standing(ClassStanding::Junior)],
        ),
        (
            course("PSYC"@, 4820),
            Set::empty(),
            Set::empty(),
            set![ReqView::PreCourse(course("PSYC"@, 1000)), ReqView::PreCourse(course("SOCI"@, 1000)), ReqView::Standing(ClassStanding::Junior)],
        ),
        (
            course("PSYC"@, 4850),
            set![special_course("PSYC"@, "PROGRAM"@)],
            Set::empty(),
            set![ReqView::PreCourse(special_course("PSYC"@, "PROGRAM"@)), ReqView::Standing(ClassStanding::Junior)],
        ),
        (
            course("PSYC"@, 4910),
            Set::empty(),
            Set::empty(),
            set![ReqView::PreCourse(special_course("PSYC"@, "SE"@)), ReqView::Instructor],
        ),
        (
            course("PSYC"@, 4975),
            Set::empty(),
            Set::empty(),
            set![ReqView::Instructor],
        ),
    ]
}

/// Each PSYC rule demands before and alongside exactly the courses listed for
/// it, and is built from exactly the conditions listed for it.
pub proof fn law_listed_demands()
    ensures
        prereq_table().len() == listed_demands().len(),
        forall|i: int|
            0 <= i < prereq_table().len() ==> {
                &&& #[trigger] prereq_table()[i].0 == listed_demands()[i].0
                &&& taken_before(prereq_table()[i].1) == listed_demands()[i].1
                &&& taken_alongside(prereq_table()[i].1) == listed_demands()[i].2
                &&& conditions(prereq_table()[i].1) == listed_demands()[i].3
            },
{
    reveal(prereq_table);
    reveal_with_fuel(taken_before, 8);
    reveal_with_fuel(taken_before_all, 10);
    reveal_with_fuel(taken_alongside, 8);
    reveal_with_fuel(taken_alongside_all, 10);
    reveal_with_fuel(conditions, 8);
    reveal_with_fuel(conditions_all, 10);
    assert(taken_before(prereq_table()[0].1) =~= listed_demands()[0].1);
    assert(taken_alongside(prereq_table()[0].1) =~= listed_demands()[0].2);
    assert(conditions(prereq_table()[0].1) =~= listed_demands()[0].3);
    assert(taken_before(prereq_table()[1].1) =~= listed_demands()[1].1);
    assert(taken_alongside(prereq_table()[1].1) =~= listed_demands()[1].2);
    assert(conditions(prereq_table()[1].1) =~= listed_demands()[1].3);
    assert(taken_before(prereq_table()[2].1) =~= listed_demands()[2].1);
    assert(taken_alongside(prereq_table()[2].1) =~= listed_demands()[2].2);
    assert(conditions(prereq_table()[2].1) =~= listed_demands()[2].3);
    assert(taken_before(prereq_table()[3].1) =~= listed_demands()[3].1);
    assert(taken_alongside(prereq_table()[3].1) =~= listed_demands()[3].2);
    assert(conditions(prereq_table()[3].1) =~= listed_demands()[3].3);
    assert(taken_before(prereq_table()[4].1) =~= listed_demands()[4].1);
    assert(taken_alongside(prereq_table()[4].1) =~= listed_demands()[4].2);
    assert(conditions(prereq_table()[4].1) =~= listed_demands()[4].3);
    assert(taken_before(prereq_table()[5].1) =~= listed_demands()[5].1);
    assert(taken_alongside(prereq_table()[5].1) =~= listed_demands()[5].2);
    assert(conditions(prereq_table()[5].1) =~= listed_demands()[5].3);
    assert(taken_before(prereq_table()[6].1) =~= listed_demands()[6].1);
    assert(taken_alongside(prereq_table()[6].1) =~= listed_demands()[6].2);
    assert(conditions(prereq_table()[6].1) =~= listed_demands()[6].3);
    assert(taken_before(prereq_table()[7].1) =~= listed_demands()[7].1);
    assert(taken_alongside(prereq_table()[7].1) =~= listed_demands()[7].2);
    assert(conditions(prereq_table()[7].1) =~= listed_demands()[7].3);
    assert(taken_before(prereq_table()[8].1) =~= listed_demands()[8].1);
    assert(taken_alongside(prereq_table()[8].1) =~= listed_demands()[8].2);
    assert(conditions(prereq_table()[8].1) =~= listed_demands()[8].3);
    assert(taken_before(prereq_table()[9].1) =~= listed_demands()[9].1);
    assert(taken_alongside(prereq_table()[9].1) =~= listed_demands()[9].2);
    assert(conditions(prereq_table()[9].1) =~= listed_demands()[9].3);
    assert(taken_before(prereq_table()[10].1) =~= listed_demands()[10].1);
    assert(taken_alongside(prereq_table()[10].1) =~= listed_demands()[10].2);
    assert(conditions(prereq_table()[10].1) =~= listed_demands()[10].3);
    assert(taken_before(prereq_table()[11].1) =~= listed_demands()[11].1);
    assert(taken_alongside(prereq_table()[11].1) =~= listed_demands()[11].2);
    assert(conditions(prereq_table()[11].1) =~= listed_demands()[11].3);
    assert(taken_before(prereq_table()[12].1) =~= listed_demands()[12].1);
    assert(taken_alongside(prereq_table()[12].1) =~= listed_demands()[12].2);
    assert(conditions(prereq_table()[12].1) =~= listed_demands()[12].3);
    assert(taken_before(prereq_table()[13].1) =~= listed_demands()[13].1);
    assert(taken_alongside(prereq_table()[13].1) =~= listed_demands()[13].2);
    assert(conditions(prereq_table()[13].1) =~= listed_demands()[13].3);
    assert(taken_before(prereq_table()[14].1) =~= listed_demands()[14].1);
    assert(taken_alongside(prereq_table()[14].1) =~= listed_demands()[14].2);
    assert(conditions(prereq_table()[14].1) =~= listed_demands()[14].3);
    assert(taken_before(prereq_table()[15].1) =~= listed_demands()[15].1);
    assert(taken_alongside(prereq_table()[15].1) =~= listed_demands()[15].2);
    assert(conditions(prereq_table()[15].1) =~= listed_demands()[15].3);
    assert(taken_before(prereq_table()[16].1) =~= listed_demands()[16].1);
    assert(taken_alongside(prereq_table()[16].1) =~= listed_demands()[16].2);
    assert(conditions(prereq_table()[16].1) =~= listed_demands()[16].3);
    assert(taken_before(prereq_table()[17].1) =~= listed_demands()[17].1);
    assert(taken_alongside(prereq_table()[17].1) =~= listed_demands()[17].2);
    assert(conditions(prereq_table()[17].1) =~= listed_demands()[17].3);
    assert(taken_before(prereq_table()[18].1) =~= listed_demands()[18].1);
    assert(taken_alongside(prereq_table()[18].1) =~= listed_demands()[18].2);
    assert(conditions(prereq_table()[18].1) =~= listed_demands()[18].3);
    assert(taken_before(prereq_table()[19].1) =~= listed_demands()[19].1);
    assert(taken_alongside(prereq_table()[19].1) =~= listed_demands()[19].2);
    assert(conditions(prereq_table()[19].1) =~= listed_demands()[19].3);
    assert(taken_before(prereq_table()[20].1) =~= listed_demands()[20].1);
    assert(taken_alongside(prereq_table()[20].1) =~= listed_demands()[20].2);
    assert(conditions(prereq_table()[20].1) =~= listed_demands()[20].3);
    assert(taken_before(prereq_table()[21].1) =~= listed_demands()[21].1);
    assert(taken_alongside(prereq_table()[21].1) =~= listed_demands()[21].2);
    assert(conditions(prereq_table()[21].1) =~= listed_demands()[21].3);
}

/// Every course of the PSYC table is a course of subject PSYC.
pub proof fn law_keyed_by_subject()
    ensures
        keyed_by_stem(prereq_table(), "PSYC"@),
{
    reveal(prereq_table);
}

} // verus!
