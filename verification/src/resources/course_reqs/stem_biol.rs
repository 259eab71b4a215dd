//! Prerequisite rules of the BIOL courses.

use vstd::prelude::*;
use crate::prereqs::{conditions, conditions_all, taken_alongside, taken_alongside_all, taken_before, taken_before_all, CourseReq, ReqView, reqs2};
use crate::schedule::{CourseCode, CourseCodeView, course, keyed_by_stem};

verus! {

/// The prerequisite rule of each BIOL course, as pairs of course and rule in
/// the order in which they are listed.
#[verifier::opaque]
pub open spec fn prereq_table() -> Seq<(CourseCodeView, ReqView)> {
    seq![
        (course("BIOL"@, 2260), ReqView::PreCourse(course("BIOL"@, 1121))),
        (
            course("BIOL"@, 3305),
            ReqView::And(
                seq![
                    ReqView::PreCourse(course("BIOL"@, 1121)),
                    ReqView::PreCourse(course("BIOL"@, 1122)),
                ],
            ),
        ),
        (
            course("BIOL"@, 3310),
            ReqView::And(
                seq![
                    ReqView::PreCourse(course("BIOL"@, 1121)),
                    ReqView::PreCourse(course("BIOL"@, 1122)),
                ],
            ),
        ),
        (course("BIOL"@, 3312), ReqView::PreCourse(course("CHEM"@, 1210))),
        (course("BIOL"@, 3313), ReqView::PreCourse(course("CHEM"@, 1210))),
        (course("BIOL"@, 3345), ReqView::PreCourse(course("CHEM"@, 1210))),
        (course("BIOL"@, 3346), ReqView::PreCourse(course("CHEM"@, 1210))),
        (course("BIOL"@, 3346), ReqView::PreCourse(course("CHEM"@, 1210))),
        (course("BIOL"@, 3347), ReqView::PreCourse(course("CHEM"@, 1210))),
        (course("BIOL"@, 3353), ReqView::PreCourse(course("CHEM"@, 1210))),
        (course("BIOL"@, 3354), ReqView::PreCourse(course("CHEM"@, 1210))),
        (course("BIOL"@, 3355), ReqView::PreCourse(course("CHEM"@, 1210))),
        (
            course("BIOL"@, 3360),
            ReqView::Or(
                seq![
                    ReqView::PreCourse(course("CHEM"@, 2200)),
                    ReqView::PreCourse(course("BIOL"@, 3370)),
                ],
            ),
        ),
        (course("BIOL"@, 3370), ReqView::PreCourse(course("CHEM"@, 1210))),
        (course("BIOL"@, 4410), ReqView::PreCourse(course("CHEM"@, 1210))),
        (course("BIOL"@, 4475), ReqView::PreCourse(course("CHEM"@, 2200))),
        (course("BIOL"@, 4476), ReqView::PreCourse(course("CHEM"@, 2200))),
        (course("BIOL"@, 4482), ReqView::PreCourse(course("CHEM"@, 1210))),
        (course("BIOL"@, 4484), ReqView::PreCourse(course("CHEM"@, 2200))),
        (course("BIOL"@, 4486), ReqView::PreCourse(course("CHEM"@, 1210))),
    ]
}

/// The prerequisite rules of the BIOL courses, in the order in which they are listed.
pub fn prereqs() -> (table: Vec<(CourseCode, CourseReq)>)
    ensures
        table.deep_view() == prereq_table(),
        keyed_by_stem(table.deep_view(), "BIOL"@),
{
    proof {
        reveal(prereq_table);
    }
    let table = vec![
        (CourseCode::new("BIOL", 2260), CourseReq::pre(CourseCode::new("BIOL", 1121))),
        (
            CourseCode::new("BIOL", 3305),
            CourseReq::all_of(
                reqs2(
                    CourseReq::pre(CourseCode::new("BIOL", 1121)),
                    CourseReq::pre(CourseCode::new("BIOL", 1122)),
                ),
            ),
        ),
        (
            CourseCode::new("BIOL", 3310),
            CourseReq::all_of(
                reqs2(
                    CourseReq::pre(CourseCode::new("BIOL", 1121)),
                    CourseReq::pre(CourseCode::new("BIOL", 1122)),
                ),
            ),
        ),
        (CourseCode::new("BIOL", 3312), CourseReq::pre(CourseCode::new("CHEM", 1210))),
        (CourseCode::new("BIOL", 3313), CourseReq::pre(CourseCode::new("CHEM", 1210))),
        (CourseCode::new("BIOL", 3345), CourseReq::pre(CourseCode::new("CHEM", 1210))),
        (CourseCode::new("BIOL", 3346), CourseReq::pre(CourseCode::new("CHEM", 1210))),
        (CourseCode::new("BIOL", 3346), CourseReq::pre(CourseCode::new("CHEM", 1210))),
        (CourseCode::new("BIOL", 3347), CourseReq::pre(CourseCode::new("CHEM", 1210))),
        (CourseCode::new("BIOL", 3353), CourseReq::pre(CourseCode::new("CHEM", 1210))),
        (CourseCode::new("BIOL", 3354), CourseReq::pre(CourseCode::new("CHEM", 1210))),
        (CourseCode::new("BIOL", 3355), CourseReq::pre(CourseCode::new("CHEM", 1210))),
        (
            CourseCode::new("BIOL", 3360),
            CourseReq::any_of(
                reqs2(
                    CourseReq::pre(CourseCode::new("CHEM", 2200)),
                    CourseReq::pre(CourseCode::new("BIOL", 3370)),
                ),
            ),
        ),
        (CourseCode::new("BIOL", 3370), CourseReq::pre(CourseCode::new("CHEM", 1210))),
        (CourseCode::new("BIOL", 4410), CourseReq::pre(CourseCode::new("CHEM", 1210))),
        (CourseCode::new("BIOL", 4475), CourseReq::pre(CourseCode::new("CHEM", 2200))),
        (CourseCode::new("BIOL", 4476), CourseReq::pre(CourseCode::new("CHEM", 2200))),
        (CourseCode::new("BIOL", 4482), CourseReq::pre(CourseCode::new("CHEM", 1210))),
        (CourseCode::new("BIOL", 4484), CourseReq::pre(CourseCode::new("CHEM", 2200))),
        (CourseCode::new("BIOL", 4486), CourseReq::pre(CourseCode::new("CHEM", 1210))),
    ];
    assert(table.deep_view() =~= prereq_table());
    table
}

/// For each BIOL course in the order of the listing: the course, the courses
/// its rule demands outright to have been taken before, the courses it demands
/// outright to be taken before or alongside, and the single conditions that
/// its rule is built from.
pub open spec fn listed_demands() -> Seq<
    (CourseCodeView, Set<CourseCodeView>, Set<CourseCodeView>, Set<ReqView>),
> {
    seq![
        (
            course("BIOL"@, 2260),
            set![course("BIOL"@, 1121)],
            Set::empty(),
            set![ReqView::PreCourse(course("BIOL"@, 1121))],
        ),
        (
            course("BIOL"@, 3305),
            set![course("BIOL"@, 1121), course("BIOL"@, 1122)],
            Set::empty(),
            set![ReqView::PreCourse(course("BIOL"@, 1121)), ReqView::PreCourse(course("BIOL"@, 1122))],
        ),
        (
            course("BIOL"@, 3310),
            set![course("BIOL"@, 1121), course("BIOL"@, 1122)],
            Set::empty(),
            set![ReqView::PreCourse(course("BIOL"@, 1121)), ReqView::PreCourse(course("BIOL"@, 1122))],
        ),
        (
            course("BIOL"@, 3312),
            set![course("CHEM"@, 1210)],
            Set::empty(),
            set![ReqView::PreCourse(course("CHEM"@, 1210))],
        ),
        (
            course("BIOL"@, 3313),
            set![course("CHEM"@, 1210)],
            Set::empty(),
            set![ReqView::PreCourse(course("CHEM"@, 1210))],
        ),
        (
            course("BIOL"@, 3345),
            set![course("CHEM"@, 1210)],
            Set::empty(),
            set![ReqView::PreCourse(course("CHEM"@, 1210))],
        ),
        (
            course("BIOL"@, 3346),
            set![course("CHEM"@, 1210)],
            Set::empty(),
            set![ReqView::PreCourse(course("CHEM"@, 1210))],
        ),
        (
            course("BIOL"@, 3346),
            set![course("CHEM"@, 1210)],
            Set::empty(),
            set![ReqView::PreCourse(course("CHEM"@, 1210))],
        ),
        (
            course("BIOL"@, 3347),
            set![course("CHEM"@, 1210)],
            Set::empty(),
            set![ReqView::PreCourse(course("CHEM"@, 1210))],
        ),
        (
            course("BIOL"@, 3353),
            set![course("CHEM"@, 1210)],
            Set::empty(),
            set![ReqView::PreCourse(course("CHEM"@, 1210))],
        ),
        (
            course("BIOL"@, 3354),
            set![course("CHEM"@, 1210)],
            Set::empty(),
            set![ReqView::PreCourse(course("CHEM"@, 1210))],
        ),
        (
            course("BIOL"@, 3355),
            set![course("CHEM"@, 1210)],
            Set::empty(),
            set![ReqView::PreCourse(course("CHEM"@, 1210))],
        ),
        (
            course("BIOL"@, 3360),
            Set::empty(),
            Set::empty(),
            set![ReqView::PreCourse(course("CHEM"@, 2200)), ReqView::PreCourse(course("BIOL"@, 3370))],
        ),
        (
            course("BIOL"@, 3370),
            set![course("CHEM"@, 1210)],
            Set::empty(),
            set![ReqView::PreCourse(course("CHEM"@, 1210))],
        ),
        (
            course("BIOL"@, 4410),
            set![course("CHEM"@, 1210)],
            Set::empty(),
            set![ReqView::PreCourse(course("CHEM"@, 1210))],
        ),
        (
            course("BIOL"@, 4475),
            set![course("CHEM"@, 2200)],
            Set::empty(),
            set![ReqView::PreCourse(course("CHEM"@, 2200))],
        ),
        (
            course("BIOL"@, 4476),
            set![course("CHEM"@, 2200)],
            Set::empty(),
            set![ReqView::PreCourse(course("CHEM"@, 2200))],
        ),
        (
            course("BIOL"@, 4482),
            set![course("CHEM"@, 1210)],
            Set::empty(),
            set![ReqView::PreCourse(course("CHEM"@, 1210))],
        ),
        (
            course("BIOL"@, 4484),
            set![course("CHEM"@, 2200)],
            Set::empty(),
            set![ReqView::PreCourse(course("CHEM"@, 2200))],
        ),
        (
            course("BIOL"@, 4486),
            set![course("CHEM"@, 1210)],
            Set::empty(),
            set![ReqView::PreCourse(course("CHEM"@, 1210))],
        ),
    ]
}

/// Each BIOL rule demands before and alongside exactly the courses listed for
/// it, and is built from exactly the conditions listed for it.
pub proof fn law_listed_demands()
    ensures
        prereq_table().len() == listed_demands().len(),
        forall|i: int|
            0 <= i < prereq_table().len() ==> {
                &&& #[trigger] prereq_table()[i].0 == listed_demands()[i].0
                &&& taken_before(prereq_table()[i].1) == listed_demands()[i].1
                &&& taken_alongside(prereq_table()[i].1) == listed_demands()[i].2
                &&& conditions(prereq_table()[i].1) == listed_demands()[i].3
            },
{
    reveal(prereq_table);
    reveal_with_fuel(taken_before, 8);
    reveal_with_fuel(taken_before_all, 10);
    reveal_with_fuel(taken_alongside, 8);
    reveal_with_fuel(taken_alongside_all, 10);
    reveal_with_fuel(conditions, 8);
    reveal_with_fuel(conditions_all, 10);
    assert(taken_before(prereq_table()[0].1) =~= listed_demands()[0].1);
    assert(taken_alongside(prereq_table()[0].1) =~= listed_demands()[0].2);
    assert(conditions(prereq_table()[0].1) =~= listed_demands()[0].3);
    assert(taken_before(prereq_table()[1].1) =~= listed_demands()[1].1);
    assert(taken_alongside(prereq_table()[1].1) =~= listed_demands()[1].2);
    assert(conditions(prereq_table()[1].1) =~= listed_demands()[1].3);
    assert(taken_before(prereq_table()[2].1) =~= listed_demands()[2].1);
    assert(taken_alongside(prereq_table()[2].1) =~= listed_demands()[2].2);
    assert(conditions(prereq_table()[2].1) =~= listed_demands()[2].3);
    assert(taken_before(prereq_table()[3].1) =~= listed_demands()[3].1);
    assert(taken_alongside(prereq_table()[3].1) =~= listed_demands()[3].2);
    assert(conditions(prereq_table()[3].1) =~= listed_demands()[3].3);
    assert(taken_before(prereq_table()[4].1) =~= listed_demands()[4].1);
    assert(taken_alongside(prereq_table()[4].1) =~= listed_demands()[4].2);
    assert(conditions(prereq_table()[4].1) =~= listed_demands()[4].3);
    assert(taken_before(prereq_table()[5].1) =~= listed_demands()[5].1);
    assert(taken_alongside(prereq_table()[5].1) =~= listed_demands()[5].2);
    assert(conditions(prereq_table()[5].1) =~= listed_demands()[5].3);
    assert(taken_before(prereq_table()[6].1) =~= listed_demands()[6].1);
    assert(taken_alongside(prereq_table()[6].1) =~= listed_demands()[6].2);
    assert(conditions(prereq_table()[6].1) =~= listed_demands()[6].3);
    assert(taken_before(prereq_table()[7].1) =~= listed_demands()[7].1);
    assert(taken_alongside(prereq_table()[7].1) =~= listed_demands()[7].2);
    assert(conditions(prereq_table()[7].1) =~= listed_demands()[7].3);
    assert(taken_before(prereq_table()[8].1) =~= listed_demands()[8].1);
    assert(taken_alongside(prereq_table()[8].1) =~= listed_demands()[8].2);
    assert(conditions(prereq_table()[8].1) =~= listed_demands()[8].3);
    assert(taken_before(prereq_table()[9].1) =~= listed_demands()[9].1);
    assert(taken_alongside(prereq_table()[9].1) =~= listed_demands()[9].2);
    assert(conditions(prereq_table()[9].1) =~= listed_demands()[9].3);
    assert(taken_before(prereq_table()[10].1) =~= listed_demands()[10].1);
    assert(taken_alongside(prereq_table()[10].1) =~= listed_demands()[10].2);
    assert(conditions(prereq_table()[10].1) =~= listed_demands()[10].3);
    assert(taken_before(prereq_table()[11].1) =~= listed_demands()[11].1);
    assert(taken_alongside(prereq_table()[11].1) =~= listed_demands()[11].2);
    assert(conditions(prereq_table()[11].1) =~= listed_demands()[11].3);
    assert(taken_before(prereq_table()[12].1) =~= listed_demands()[12].1);
    assert(taken_alongside(prereq_table()[12].1) =~= listed_demands()[12].2);
    assert(conditions(prereq_table()[12].1) =~= listed_demands()[12].3);
    assert(taken_before(prereq_table()[13].1) =~= listed_demands()[13].1);
    assert(taken_alongside(prereq_table()[13].1) =~= listed_demands()[13].2);
    assert(conditions(prereq_table()[13].1) =~= listed_demands()[13].3);
    assert(taken_before(prereq_table()[14].1) =~= listed_demands()[14].1);
    assert(taken_alongside(prereq_table()[14].1) =~= listed_demands()[14].2);
    assert(conditions(prereq_table()[14].1) =~= listed_demands()[14].3);
    assert(taken_before(prereq_table()[15].1) =~= listed_demands()[15].1);
    assert(taken_alongside(prereq_table()[15].1) =~= listed_demands()[15].2);
    assert(conditions(prereq_table()[15].1) =~= listed_demands()[15].3);
    assert(taken_before(prereq_table()[16].1) =~= listed_demands()[16].1);
    assert(taken_alongside(prereq_table()[16].1) =~= listed_demands()[16].2);
    assert(conditions(prereq_table()[16].1) =~= listed_demands()[16].3);
    assert(taken_before(prereq_table()[17].1) =~= listed_demands()[17].1);
    assert(taken_alongside(prereq_table()[17].1) =~= listed_demands()[17].2);
    assert(conditions(prereq_table()[17].1) =~= listed_demands()[17].3);
    assert(taken_before(prereq_table()[18].1) =~= listed_demands()[18].1);
    assert(taken_alongside(prereq_table()[18].1) =~= listed_demands()[18].2);
    assert(conditions(prereq_table()[18].1) =~= listed_demands()[18].3);
    assert(taken_before(prereq_table()[19].1) =~= listed_demands()[19].1);
    assert(taken_alongside(prereq_table()[19].1) =~= listed_demands()[19].2);
    assert(conditions(prereq_table()[19].1) =~= listed_demands()[19].3);
}

/// Every course of the BIOL table is a course of subject BIOL.
pub proof fn law_keyed_by_subject()
    ensures
        keyed_by_stem(prereq_table(), "BIOL"@),
{
    reveal(prereq_table);
}

} // verus!
