//! Prerequisite rules of the EENG courses.

use vstd::prelude::*;
use crate::prereqs::{conditions, conditions_all, taken_alongside, taken_alongside_all, taken_before, taken_before_all, CourseReq, ReqView, reqs2, reqs3, reqs4};
use crate::schedule::{CourseCode, CourseCodeView, course, keyed_by_stem};

verus! {

/// The prerequisite rule of each EENG course, as pairs of course and rule in
/// the order in which they are listed.
#[verifier::opaque]
pub open spec fn prereq_table() -> Seq<(CourseCodeView, ReqView)> {
    seq![
        (course("EENG"@, 2020), ReqView::CoCourse(course("EENG"@, 2010))),
        (course("EENG"@, 2060), ReqView::PreCourse(course("PHYS"@, 2110))),
        (course("EENG"@, 3060), ReqView::CoCourse(course("EENG"@, 2060))),
        (course("EENG"@, 3070), ReqView::CoCourse(course("EENG"@, 3130))),
        (course("EENG"@, 3080), ReqView::PreCourse(course("EENG"@, 3070))),
        (
            course("EENG"@, 3130),
            ReqView::And(
                seq![
                    ReqView::PreCourse(course("EENG"@, 2060)),
                    ReqView::CoCourse(course("MATH"@, 3100)),
                ],
            ),
        ),
        (
            course("EENG"@, 3140),
            ReqView::And(
                seq![
                    ReqView::PreCourse(course("EENG"@, 3130)),
                    ReqView::CoCourse(course("MATH"@, 3100)),
                ],
            ),
        ),
        (
            course("EENG"@, 3160),
            ReqView::And(
                seq![
                    ReqView::PreCourse(course("EENG"@, 2060)),
                    ReqView::CoCourse(course("MATH"@, 3100)),
                ],
            ),
        ),
        (
            course("EENG"@, 3210),
            ReqView::And(
                seq![
                    ReqView::PreCourse(course("EENG"@, 3130)),
                    ReqView::CoCourse(course("EENG"@, 3080)),
                ],
            ),
        ),
        (course("EENG"@, 4010), ReqView::PreCourse(course("EENG"@, 3210))),
        (
            course("EENG"@, 4020),
            ReqView::And(
                seq![
                    ReqView::PreCourse(course("EENG"@, 3210)),
                    ReqView::CoCourse(course("EENG"@, 4010)),
                ],
            ),
        ),
        (
            course("EENG"@, 4050),
            ReqView::And(
                seq![
                    ReqView::PreCourse(course("EENG"@, 3140)),
                    ReqView::PreCourse(course("MATH"@, 3100)),
                ],
            ),
        ),
        (course("EENG"@, 4060), ReqView::CoCourse(course("EENG"@, 4050))),
        (
            course("EENG"@, 4090),
            ReqView::And(
                seq![
                    ReqView::PreCourse(course("EENG"@, 3130)),
                    ReqView::PreCourse(course("EENG"@, 3160)),
                ],
            ),
        ),
        (
            course("EENG"@, 4210),
            ReqView::And(
                seq![
                    ReqView::PreCourse(course("EENG"@, 3210)),
                    ReqView::CoCourse(course("EENG"@, 3090)),
                ],
            ),
        ),
        (course("EENG"@, 4220), ReqView::PreCourse(course("EENG"@, 3080))),
        (
            course("EENG"@, 4510),
            ReqView::And(
                seq![
                    ReqView::PreCourse(course("EENG"@, 2010)),
                    ReqView::PreCourse(course("CSCI"@, 2300)),
                ],
            ),
        ),
        (
            course("EENG"@, 4520),
            ReqView::And(
                seq![
                    ReqView::PreCourse(course("EENG"@, 2010)),
                    ReqView::PreCourse(course("CSCI"@, 2300)),
                    ReqView::PreCourse(course("EENG"@, 3210)),
                    ReqView::CoCourse(course("EENG"@, 4530)),
                ],
            ),
        ),
        (course("EENG"@, 4530), ReqView::CoCourse(course("EENG"@, 4520))),
        (
            course("EENG"@, 4600),
            ReqView::And(
                seq![
                    ReqView::PreCourse(course("EENG"@, 4050)),
                    ReqView::PreCourse(course("EENG"@, 4210)),
                    ReqView::PreCourse(course("EENG"@, 4520)),
                ],
            ),
        ),
        (course("EENG"@, 4610), ReqView::PreCourse(course("EENG"@, 4600))),
        (
            course("EENG"@, 4810),
            ReqView::And(
                seq![
                    ReqView::PreCourse(course("EENG"@, 3210)),
                    ReqView::PreCourse(course("EENG"@, 4090)),
                ],
            ),
        ),
        (course("EENG"@, 4820), ReqView::PreCourse(course("EENG"@, 3130))),
        (course("EENG"@, 4910), ReqView::PreCourse(course("EENG"@, 4210))),
        (course("EENG"@, 4940), ReqView::PreCourse(course("EENG"@, 3140))),
    ]
}

/// The prerequisite rules of the EENG courses, in the order in which they are listed.
pub fn prereqs() -> (table: Vec<(CourseCode, CourseReq)>)
    ensures
        table.deep_view() == prereq_table(),
        keyed_by_stem(table.deep_view(), "EENG"@),
{
    proof {
        reveal(prereq_table);
    }
    let table = vec![
        (CourseCode::new("EENG", 2020), CourseReq::co(CourseCode::new("EENG", 2010))),
        (CourseCode::new("EENG", 2060), CourseReq::pre(CourseCode::new("PHYS", 2110))),
        (CourseCode::new("EENG", 3060), CourseReq::co(CourseCode::new("EENG", 2060))),
        (CourseCode::new("EENG", 3070), CourseReq::co(CourseCode::new("EENG", 3130))),
        (CourseCode::new("EENG", 3080), CourseReq::pre(CourseCode::new("EENG", 3070))),
        (
            CourseCode::new("EENG", 3130),
            CourseReq::all_of(
                reqs2(
                    CourseReq::pre(CourseCode::new("EENG", 2060)),
                    CourseReq::co(CourseCode::new("MATH", 3100)),
                ),
            ),
        ),
        (
            CourseCode::new("EENG", 3140),
            CourseReq::all_of(
                reqs2(
                    CourseReq::pre(CourseCode::new("EENG", 3130)),
                    CourseReq::co(CourseCode::new("MATH", 3100)),
                ),
            ),
        ),
        (
            CourseCode::new("EENG", 3160),
            CourseReq::all_of(
                reqs2(
                    CourseReq::pre(CourseCode::new("EENG", 2060)),
                    CourseReq::co(CourseCode::new("MATH", 3100)),
                ),
            ),
        ),
        (
            CourseCode::new("EENG", 3210),
            CourseReq::all_of(
                reqs2(
                    CourseReq::pre(CourseCode::new("EENG", 3130)),
                    CourseReq::co(CourseCode::new("EENG", 3080)),
                ),
            ),
        ),
        (CourseCode::new("EENG", 4010), CourseReq::pre(CourseCode::new("EENG", 3210))),
        (
            CourseCode::new("EENG", 4020),
            CourseReq::all_of(
                reqs2(
                    CourseReq::pre(CourseCode::new("EENG", 3210)),
                    CourseReq::co(CourseCode::new("EENG", 4010)),
                ),
            ),
        ),
        (
            CourseCode::new("EENG", 4050),
            CourseReq::all_of(
                reqs2(
                    CourseReq::pre(CourseCode::new("EENG", 3140)),
                    CourseReq::pre(CourseCode::new("MATH", 3100)),
                ),
            ),
        ),
        (CourseCode::new("EENG", 4060), CourseReq::co(CourseCode::new("EENG", 4050))),
        (
            CourseCode::new("EENG", 4090),
            CourseReq::all_of(
                reqs2(
                    CourseReq::pre(CourseCode::new("EENG", 3130)),
                    CourseReq::pre(CourseCode::new("EENG", 3160)),
                ),
            ),
        ),
        (
            CourseCode::new("EENG", 4210),
            CourseReq::all_of(
                reqs2(
                    CourseReq::pre(CourseCode::new("EENG", 3210)),
                    CourseReq::co(CourseCode::new("EENG", 3090)),
                ),
            ),
        ),
        (CourseCode::new("EENG", 4220), CourseReq::pre(CourseCode::new("EENG", 3080))),
        (
            CourseCode::new("EENG", 4510),
            CourseReq::all_of(
                reqs2(
                    CourseReq::pre(CourseCode::new("EENG", 2010)),
                    CourseReq::pre(CourseCode::new("CSCI", 2300)),
                ),
            ),
        ),
        (
            CourseCode::new("EENG", 4520),
            CourseReq::all_of(
                reqs4(
                    CourseReq::pre(CourseCode::new("EENG", 2010)),
                    CourseReq::pre(CourseCode::new("CSCI", 2300)),
                    CourseReq::pre(CourseCode::new("EENG", 3210)),
                    CourseReq::co(CourseCode::new("EENG", 4530)),
                ),
            ),
        ),
        (CourseCode::new("EENG", 4530), CourseReq::co(CourseCode::new("EENG", 4520))),
        (
            CourseCode::new("EENG", 4600),
            CourseReq::all_of(
                reqs3(
                    CourseReq::pre(CourseCode::new("EENG", 4050)),
                    CourseReq::pre(CourseCode::new("EENG", 4210)),
                    CourseReq::pre(CourseCode::new("EENG", 4520)),
                ),
            ),
        ),
        (CourseCode::new("EENG", 4610), CourseReq::pre(CourseCode::new("EENG", 4600))),
        (
            CourseCode::new("EENG", 4810),
            CourseReq::all_of(
                reqs2(
                    CourseReq::pre(CourseCode::new("EENG", 3210)),
                    CourseReq::pre(CourseCode::new("EENG", 4090)),
                ),
            ),
        ),
        (CourseCode::new("EENG", 4820), CourseReq::pre(CourseCode::new("EENG", 3130))),
        (CourseCode::new("EENG", 4910), CourseReq::pre(CourseCode::new("EENG", 4210))),
        (CourseCode::new("EENG", 4940), CourseReq::pre(CourseCode::new("EENG", 3140))),
    ];
    assert(table.deep_view() =~= prereq_table());
    table
}

/// For each EENG course in the order of the listing: the course, the courses
/// its rule demands outright to have been taken before, the courses it demands
/// outright to be taken before or alongside, and the single conditions that
/// its rule is built from.
pub open spec fn listed_demands() -> Seq<
    (CourseCodeView, Set<CourseCodeView>, Set<CourseCodeView>, Set<ReqView>),
> {
    seq![
        (
            course("EENG"@, 2020),
            Set::empty(),
            set![course("EENG"@, 2010)],
            set![ReqView::CoCourse(course("EENG"@, 2010))],
        ),
        (
            course("EENG"@, 2060),
            set![course("PHYS"@, 2110)],
            Set::empty(),
            set![ReqView::PreCourse(course("PHYS"@, 2110))],
        ),
        (
            course("EENG"@, 3060),
            Set::empty(),
            set![course("EENG"@, 2060)],
            set![ReqView::CoCourse(course("EENG"@, 2060))],
        ),
        (
            course("EENG"@, 3070),
            Set::empty(),
            set![course("EENG"@, 3130)],
            set![ReqView::CoCourse(course("EENG"@, 3130))],
        ),
        (
            course("EENG"@, 3080),
            set![course("EENG"@, 3070)],
            Set::empty(),
            set![ReqView::PreCourse(course("EENG"@, 3070))],
        ),
        (
            course("EENG"@, 3130),
            set![course("EENG"@, 2060)],
            set![course("MATH"@, 3100)],
            set![ReqView::PreCourse(course("EENG"@, 2060)), ReqView::CoCourse(course("MATH"@, 3100))],
        ),
        (
            course("EENG"@, 3140),
            set![course("EENG"@, 3130)],
            set![course("MATH"@, 3100)],
            set![ReqView::PreCourse(course("EENG"@, 3130)), ReqView::CoCourse(course("MATH"@, 3100))],
        ),
        (
            course("EENG"@, 3160),
            set![course("EENG"@, 2060)],
            set![course("MATH"@, 3100)],
            set![ReqView::PreCourse(course("EENG"@, 2060)), ReqView::CoCourse(course("MATH"@, 3100))],
        ),
        (
            course("EENG"@, 3210),
            set![course("EENG"@, 3130)],
            set![course("EENG"@, 3080)],
            set![ReqView::PreCourse(course("EENG"@, 3130)), ReqView::CoCourse(course("EENG"@, 3080))],
        ),
        (
            course("EENG"@, 4010),
            set![course("EENG"@, 3210)],
            Set::empty(),
            set![ReqView::PreCourse(course("EENG"@, 3210))],
        ),
        (
            course("EENG"@, 4020),
            set![course("EENG"@, 3210)],
            set![course("EENG"@, 4010)],
            set![ReqView::PreCourse(course("EENG"@, 3210)), ReqView::CoCourse(course("EENG"@, 4010))],
        ),
        (
            course("EENG"@, 4050),
            set![course("EENG"@, 3140), course("MATH"@, 3100)],
            Set::empty(),
            set![ReqView::PreCourse(course("EENG"@, 3140)), ReqView::PreCourse(course("MATH"@, 3100))],
        ),
        (
            course("EENG"@, 4060),
            Set::empty(),
            set![course("EENG"@, 4050)],
            set![ReqView::CoCourse(course("EENG"@, 4050))],
        ),
        (
            course("EENG"@, 4090),
            set![course("EENG"@, 3130), course("EENG"@, 3160)],
            Set::empty(),
            set![ReqView::PreCourse(course("EENG"@, 3130)), ReqView::PreCourse(course("EENG"@, 3160))],
        ),
        (
            course("EENG"@, 4210),
            set![course("EENG"@, 3210)],
            set![course("EENG"@, 3090)],
            set![ReqView::PreCourse(course("EENG"@, 3210)), ReqView::CoCourse(course("EENG"@, 3090))],
        ),
        (
            course("EENG"@, 4220),
            set![course("EENG"@, 3080)],
            Set::empty(),
            set![ReqView::PreCourse(course("EENG"@, 3080))],
        ),
        (
            course("EENG"@, 4510),
            set![course("EENG"@, 2010), course("CSCI"@, 2300)],
            Set::empty(),
            set![ReqView::PreCourse(course("EENG"@, 2010)), ReqView::PreCourse(course("CSCI"@, 2300))],
        ),
        (
            course("EENG"@, 4520),
            set![course("EENG"@, 2010), course("CSCI"@, 2300), course("EENG"@, 3210)],
            set![course("EENG"@, 4530)],
            set![ReqView::PreCourse(course("EENG"@, 2010)), ReqView::PreCourse(course("CSCI"@, 2300)), ReqView::PreCourse(course("EENG"@, 3210)), ReqView::CoCourse(course("EENG"@, 4530))],
        ),
        (
            course("EENG"@, 4530),
            Set::empty(),
            set![course("EENG"@, 4520)],
            set![ReqView::CoCourse(course("EENG"@, 4520))],
        ),
        (
            course("EENG"@, 4600),
            set![course("EENG"@, 4050), course("EENG"@, 4210), course("EENG"@, 4520)],
            Set::empty(),
            set![ReqView::PreCourse(course("EENG"@, 4050)), ReqView::PreCourse(course("EENG"@, 4210)), ReqView::PreCourse(course("EENG"@, 4520))],
        ),
        (
            course("EENG"@, 4610),
            set![course("EENG"@, 4600)],
            Set::empty(),
            set![ReqView::PreCourse(course("EENG"@, 4600))],
        ),
        (
            course("EENG"@, 4810),
            set![course("EENG"@, 3210), course("EENG"@, 4090)],
            Set::empty(),
            set![ReqView::PreCourse(course("EENG"@, 3210)), ReqView::PreCourse(course("EENG"@, 4090))],
        ),
        (
            course("EENG"@, 4820),
            set![course("EENG"@, 3130)],
            Set::empty(),
            set![ReqView::PreCourse(course("EENG"@, 3130))],
        ),
        (
            course("EENG"@, 4910),
            set![course("EENG"@, 4210)],
            Set::empty(),
            set![ReqView::PreCourse(course("EENG"@, 4210))],
        ),
        (
            course("EENG"@, 4940),
            set![course("EENG"@, 3140)],
            Set::empty(),
            set![ReqView::PreCourse(course("EENG"@, 3140))],
        ),
    ]
}

/// Each EENG rule demands before and alongside exactly the courses listed for
/// it, and is built from exactly the conditions listed for it.
pub proof fn law_listed_demands()
    ensures
        prereq_table().len() == listed_demands().len(),
        forall|i: int|
            0 <= i < prereq_table().len() ==> {
                &&& #[trigger] prereq_table()[i].0 == listed_demands()[i].0
                &&& taken_before(prereq_table()[i].1) == listed_demands()[i].1
                &&& taken_alongside(prereq_table()[i].1) == listed_demands()[i].2
                &&& conditions(prereq_table()[i].1) == listed_demands()[i].3
            },
{
    reveal(prereq_table);
    reveal_with_fuel(taken_before, 8);
    reveal_with_fuel(taken_before_all, 10);
    reveal_with_fuel(taken_alongside, 8);
    reveal_with_fuel(taken_alongside_all, 10);
    reveal_with_fuel(conditions, 8);
    reveal_with_fuel(conditions_all, 10);
    assert(taken_before(prereq_table()[0].1) =~= listed_demands()[0].1);
    assert(taken_alongside(prereq_table()[0].1) =~= listed_demands()[0].2);
    assert(conditions(prereq_table()[0].1) =~= listed_demands()[0].3);
    assert(taken_before(prereq_table()[1].1) =~= listed_demands()[1].1);
    assert(taken_alongside(prereq_table()[1].1) =~= listed_demands()[1].2);
    assert(conditions(prereq_table()[1].1) =~= listed_demands()[1].3);
    assert(taken_before(prereq_table()[2].1) =~= listed_demands()[2].1);
    assert(taken_alongside(prereq_table()[2].1) =~= listed_demands()[2].2);
    assert(conditions(prereq_table()[2].1) =~= listed_demands()[2].3);
    assert(taken_before(prereq_table()[3].1) =~= listed_demands()[3].1);
    assert(taken_alongside(prereq_table()[3].1) =~= listed_demands()[3].2);
    assert(conditions(prereq_table()[3].1) =~= listed_demands()[3].3);
    assert(taken_before(prereq_table()[4].1) =~= listed_demands()[4].1);
    assert(taken_alongside(prereq_table()[4].1) =~= listed_demands()[4].2);
    assert(conditions(prereq_table()[4].1) =~= listed_demands()[4].3);
    assert(taken_before(prereq_table()[5].1) =~= listed_demands()[5].1);
    assert(taken_alongside(prereq_table()[5].1) =~= listed_demands()[5].2);
    assert(conditions(prereq_table()[5].1) =~= listed_demands()[5].3);
    assert(taken_before(prereq_table()[6].1) =~= listed_demands()[6].1);
    assert(taken_alongside(prereq_table()[6].1) =~= listed_demands()[6].2);
    assert(conditions(prereq_table()[6].1) =~= listed_demands()[6].3);
    assert(taken_before(prereq_table()[7].1) =~= listed_demands()[7].1);
    assert(taken_alongside(prereq_table()[7].1) =~= listed_demands()[7].2);
    assert(conditions(prereq_table()[7].1) =~= listed_demands()[7].3);
    assert(taken_before(prereq_table()[8].1) =~= listed_demands()[8].1);
    assert(taken_alongside(prereq_table()[8].1) =~= listed_demands()[8].2);
    assert(conditions(prereq_table()[8].1) =~= listed_demands()[8].3);
    assert(taken_before(prereq_table()[9].1) =~= listed_demands()[9].1);
    assert(taken_alongside(prereq_table()[9].1) =~= listed_demands()[9].2);
    assert(conditions(prereq_table()[9].1) =~= listed_demands()[9].3);
    assert(taken_before(prereq_table()[10].1) =~= listed_demands()[10].1);
    assert(taken_alongside(prereq_table()[10].1) =~= listed_demands()[10].2);
    assert(conditions(prereq_table()[10].1) =~= listed_demands()[10].3);
    assert(taken_before(prereq_table()[11].1) =~= listed_demands()[11].1);
    assert(taken_alongside(prereq_table()[11].1) =~= listed_demands()[11].2);
    assert(conditions(prereq_table()[11].1) =~= listed_demands()[11].3);
    assert(taken_before(prereq_table()[12].1) =~= listed_demands()[12].1);
    assert(taken_alongside(prereq_table()[12].1) =~= listed_demands()[12].2);
    assert(conditions(prereq_table()[12].1) =~= listed_demands()[12].3);
    assert(taken_before(prereq_table()[13].1) =~= listed_demands()[13].1);
    assert(taken_alongside(prereq_table()[13].1) =~= listed_demands()[13].2);
    assert(conditions(prereq_table()[13].1) =~= listed_demands()[13].3);
    assert(taken_before(prereq_table()[14].1) =~= listed_demands()[14].1);
    assert(taken_alongside(prereq_table()[14].1) =~= listed_demands()[14].2);
    assert(conditions(prereq_table()[14].1) =~= listed_demands()[14].3);
    assert(taken_before(prereq_table()[15].1) =~= listed_demands()[15].1);
    assert(taken_alongside(prereq_table()[15].1) =~= listed_demands()[15].2);
    assert(conditions(prereq_table()[15].1) =~= listed_demands()[15].3);
    assert(taken_before(prereq_table()[16].1) =~= listed_demands()[16].1);
    assert(taken_alongside(prereq_table()[16].1) =~= listed_demands()[16].2);
    assert(conditions(prereq_table()[16].1) =~= listed_demands()[16].3);
    assert(taken_before(prereq_table()[17].1) =~= listed_demands()[17].1);
    assert(taken_alongside(prereq_table()[17].1) =~= listed_demands()[17].2);
    assert(conditions(prereq_table()[17].1) =~= listed_demands()[17].3);
    assert(taken_before(prereq_table()[18].1) =~= listed_demands()[18].1);
    assert(taken_alongside(prereq_table()[18].1) =~= listed_demands()[18].2);
    assert(conditions(prereq_table()[18].1) =~= listed_demands()[18].3);
    assert(taken_before(prereq_table()[19].1) =~= listed_demands()[19].1);
    assert(taken_alongside(prereq_table()[19].1) =~= listed_demands()[19].2);
    assert(conditions(prereq_table()[19].1) =~= listed_demands()[19].3);
    assert(taken_before(prereq_table()[20].1) =~= listed_demands()[20].1);
    assert(taken_alongside(prereq_table()[20].1) =~= listed_demands()[20].2);
    assert(conditions(prereq_table()[20].1) =~= listed_demands()[20].3);
    assert(taken_before(prereq_table()[21].1) =~= listed_demands()[21].1);
    assert(taken_alongside(prereq_table()[21].1) =~= listed_demands()[21].2);
    assert(conditions(prereq_table()[21].1) =~= listed_demands()[21].3);
    assert(taken_before(prereq_table()[22].1) =~= listed_demands()[22].1);
    assert(taken_alongside(prereq_table()[22].1) =~= listed_demands()[22].2);
    assert(conditions(prereq_table()[22].1) =~= listed_demands()[22].3);
    assert(taken_before(prereq_table()[23].1) =~= listed_demands()[23].1);
    assert(taken_alongside(prereq_table()[23].1) =~= listed_demands()[23].2);
    assert(conditions(prereq_table()[23].1) =~= listed_demands()[23].3);
    assert(taken_before(prereq_table()[24].1) =~= listed_demands()[24].1);
    assert(taken_alongside(prereq_table()[24].1) =~= listed_demands()[24].2);
    assert(conditions(prereq_table()[24].1) =~= listed_demands()[24].3);
}

/// Every course of the EENG table is a course of subject EENG.
pub proof fn law_keyed_by_subject()
    ensures
        keyed_by_stem(prereq_table(), "EENG"@),
{
    reveal(prereq_table);
}

} // verus!
