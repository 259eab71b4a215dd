//! Prerequisite rules of the THEO courses.

use vstd::prelude::*;
use crate::prereqs::{conditions, conditions_all, taken_alongside, taken_alongside_all, taken_before, taken_before_all, CourseReq, ReqView, reqs3};
use crate::schedule::{CourseCode, CourseCodeView, course, special_course, keyed_by_stem};

verus! {

/// The prerequisite rule of each THEO course, as pairs of course and rule in
/// the order in which they are listed.
#[verifier::opaque]
pub open spec fn prereq_table() -> Seq<(CourseCodeView, ReqView)> {
    seq![
        (course("THEO"@, 2000), ReqView::PreCourse(course("THEO"@, 1100))),
        (course("THEO"@, 2100), ReqView::PreCourse(course("THEO"@, 1100))),
        (course("THEO"@, 2144), ReqView::PreCourse(course("THEO"@, 1100))),
        (course("THEO"@, 2150), ReqView::PreCourse(course("THEO"@, 1100))),
        (course("THEO"@, 3100), ReqView::PreCourse(course("THEO"@, 1100))),
        (course("THEO"@, 3133), ReqView::PreCourse(course("THEO"@, 1100))),
        (course("THEO"@, 3144), ReqView::PreCourse(course("THEO"@, 1100))),
        (course("THEO"@, 3150), ReqView::PreCourse(course("THEO"@, 1100))),
        (course("THEO"@, 3160), ReqView::PreCourse(course("THEO"@, 1100))),
        (course("THEO"@, 3200), ReqView::PreCourse(course("THEO"@, 1100))),
        (course("THEO"@, 3220), ReqView::PreCourse(course("THEO"@, 1100))),
        (course("THEO"@, 3230), ReqView::PreCourse(course("THEO"@, 1100))),
        (course("THEO"@, 3240), ReqView::PreCourse(course("THEO"@, 1100))),
        (course("THEO"@, 3260), ReqView::PreCourse(course("THEO"@, 1100))),
        (course("THEO"@, 3420), ReqView::PreCourse(course("THEO"@, 1100))),
        (course("THEO"@, 3430), ReqView::PreCourse(course("THEO"@, 1100))),
        (course("THEO"@, 3620), ReqView::PreCourse(course("THEO"@, 1100))),
        (course("THEO"@, 3640), ReqView::PreCourse(course("THEO"@, 1100))),
        (course("THEO"@, 3660), ReqView::PreCourse(course("THEO"@, 1100))),
        (course("THEO"@, 3680), ReqView::PreCourse(course("PHIL"@, 3670))),
        (
            course("THEO"@, 3690),
            ReqView::And(
                seq![
                    ReqView::PreCourse(course("PHIL"@, 3670)),
                    ReqView::PreCourse(course("THEO"@, 3680)),
                    ReqView::CoCourse(course("PHIL"@, 3690)),
                ],
            ),
        ),
        (course("THEO"@, 3820), ReqView::PreCourse(course("THEO"@, 1100))),
        (course("THEO"@, 3840), ReqView::PreCourse(course("THEO"@, 1100))),
        (course("THEO"@, 3920), ReqView::PreCourse(course("THEO"@, 1100))),
        (course("THEO"@, 3940), ReqView::PreCourse(course("THEO"@, 1100))),
        (course("THEO"@, 3950), ReqView::PreCourse(course("THEO"@, 1100))),
        (course("THEO"@, 3960), ReqView::PreCourse(course("THEO"@, 1100))),
        (course("THEO"@, 3970), ReqView::PreCourse(course("THEO"@, 1100))),
        (course("THEO"@, 4000), ReqView::PreCourse(course("THEO"@, 1100))),
        (course("THEO"@, 4457), ReqView::PreCourse(course("THEO"@, 1100))),
        (course("THEO"@, 4500), ReqView::PreCourse(special_course("THEO"@, "PROGRAM"@))),
        (course("THEO"@, 4980), ReqView::PreCourse(course("THEO"@, 1100))),
    ]
}

/// The prerequisite rules of the THEO courses, in the order in which they are listed.
pub fn prereqs() -> (table: Vec<(CourseCode, CourseReq)>)
    ensures
        table.deep_view() == prereq_table(),
        keyed_by_stem(table.deep_view(), "THEO"@),
{
    proof {
        reveal(prereq_table);
    }
    let table = vec![
        (CourseCode::new("THEO", 2000), CourseReq::pre(CourseCode::new("THEO", 1100))),
        (CourseCode::new("THEO", 2100), CourseReq::pre(CourseCode::new("THEO", 1100))),
        (CourseCode::new("THEO", 2144), CourseReq::pre(CourseCode::new("THEO", 1100))),
        (CourseCode::new("THEO", 2150), CourseReq::pre(CourseCode::new("THEO", 1100))),
        (CourseCode::new("THEO", 3100), CourseReq::pre(CourseCode::new("THEO", 1100))),
        (CourseCode::new("THEO", 3133), CourseReq::pre(CourseCode::new("THEO", 1100))),
        (CourseCode::new("THEO", 3144), CourseReq::pre(CourseCode::new("THEO", 1100))),
        (CourseCode::new("THEO", 3150), CourseReq::pre(CourseCode::new("THEO", 1100))),
        (CourseCode::new("THEO", 3160), CourseReq::pre(CourseCode::new("THEO", 1100))),
        (CourseCode::new("THEO", 3200), CourseReq::pre(CourseCode::new("THEO", 1100))),
        (CourseCode::new("THEO", 3220), CourseReq::pre(CourseCode::new("THEO", 1100))),
        (CourseCode::new("THEO", 3230), CourseReq::pre(CourseCode::new("THEO", 1100))),
        (CourseCode::new("THEO", 3240), CourseReq::pre(CourseCode::new("THEO", 1100))),
        (CourseCode::new("THEO", 3260), CourseReq::pre(CourseCode::new("THEO", 1100))),
        (CourseCode::new("THEO", 3420), CourseReq::pre(CourseCode::new("THEO", 1100))),
        (CourseCode::new("THEO", 3430), CourseReq::pre(CourseCode::new("THEO", 1100))),
        (CourseCode::new("THEO", 3620), CourseReq::pre(CourseCode::new("THEO", 1100))),
        (CourseCode::new("THEO", 3640), CourseReq::pre(CourseCode::new("THEO", 1100))),
        (CourseCode::new("THEO", 3660), CourseReq::pre(CourseCode::new("THEO", 1100))),
        (CourseCode::new("THEO", 3680), CourseReq::pre(CourseCode::new("PHIL", 3670))),
        (
            CourseCode::new("THEO", 3690),
            CourseReq::all_of(
                reqs3(
                    CourseReq::pre(CourseCode::new("PHIL", 3670)),
                    CourseReq::pre(CourseCode::new("THEO", 3680)),
                    CourseReq::co(CourseCode::new("PHIL", 3690)),
                ),
            ),
        ),
        (CourseCode::new("THEO", 3820), CourseReq::pre(CourseCode::new("THEO", 1100))),
        (CourseCode::new("THEO", 3840), CourseReq::pre(CourseCode::new("THEO", 1100))),
        (CourseCode::new("THEO", 3920), CourseReq::pre(CourseCode::new("THEO", 1100))),
        (CourseCode::new("THEO", 3940), CourseReq::pre(CourseCode::new("THEO", 1100))),
        (CourseCode::new("THEO", 3950), CourseReq::pre(CourseCode::new("THEO", 1100))),
        (CourseCode::new("THEO", 3960), CourseReq::pre(CourseCode::new("THEO", 1100))),
        (CourseCode::new("THEO", 3970), CourseReq::pre(CourseCode::new("THEO", 1100))),
        (CourseCode::new("THEO", 4000), CourseReq::pre(CourseCode::new("THEO", 1100))),
        (CourseCode::new("THEO", 4457), CourseReq::pre(CourseCode::new("THEO", 1100))),
        (CourseCode::new("THEO", 4500), CourseReq::pre(CourseCode::special("THEO", "PROGRAM"))),
        (CourseCode::new("THEO", 4980), CourseReq::pre(CourseCode::new("THEO", 1100))),
    ];
    assert(table.deep_view() =~= prereq_table());
    table
}

/// For each THEO course in the order of the listing: the course, the courses
/// its rule demands outright to have been taken before, the courses it demands
/// outright to be taken before or alongside, and the single conditions that
/// its rule is built from.
pub open spec fn listed_demands() -> Seq<
    (CourseCodeView, Set<CourseCodeView>, Set<CourseCodeView>, Set<ReqView>),
> {
    seq![
        (
            course("THEO"@, 2000),
            set![course("THEO"@, 1100)],
            Set::empty(),
            set![ReqView::PreCourse(course("THEO"@, 1100))],
        ),
        (
            course("THEO"@, 2100),
            set![course("THEO"@, 1100)],
            Set::empty(),
            set![ReqView::PreCourse(course("THEO"@, 1100))],
        ),
        (
            course("THEO"@, 2144),
            set![course("THEO"@, 1100)],
            Set::empty(),
            set![ReqView::PreCourse(course("THEO"@, 1100))],
        ),
        (
            course("THEO"@, 2150),
            set![course("THEO"@, 1100)],
            Set::empty(),
            set![ReqView::PreCourse(course("THEO"@, 1100))],
        ),
        (
            course("THEO"@, 3100),
            set![course("THEO"@, 1100)],
            Set::empty(),
            set![ReqView::PreCourse(course("THEO"@, 1100))],
        ),
        (
            course("THEO"@, 3133),
            set![course("THEO"@, 1100)],
            Set::empty(),
            set![ReqView::PreCourse(course("THEO"@, 1100))],
        ),
        (
            course("THEO"@, 3144),
            set![course("THEO"@, 1100)],
            Set::empty(),
            set![ReqView::PreCourse(course("THEO"@, 1100))],
        ),
        (
            course("THEO"@, 3150),
            set![course("THEO"@, 1100)],
            Set::empty(),
            set![ReqView::PreCourse(course("THEO"@, 1100))],
        ),
        (
            course("THEO"@, 3160),
            set![course("THEO"@, 1100)],
            Set::empty(),
            set![ReqView::PreCourse(course("THEO"@, 1100))],
        ),
        (
            course("THEO"@, 3200),
            set![course("THEO"@, 1100)],
            Set::empty(),
            set![ReqView::PreCourse(course("THEO"@, 1100))],
        ),
        (
            course("THEO"@, 3220),
            set![course("THEO"@, 1100)],
            Set::empty(),
            set![ReqView::PreCourse(course("THEO"@, 1100))],
        ),
        (
            course("THEO"@, 3230),
            set![course("THEO"@, 1100)],
            Set::empty(),
            set![ReqView::PreCourse(course("THEO"@, 1100))],
        ),
        (
            course("THEO"@, 3240),
            set![course("THEO"@, 1100)],
            Set::empty(),
            set![ReqView::PreCourse(course("THEO"@, 1100))],
        ),
        (
            course("THEO"@, 3260),
            set![course("THEO"@, 1100)],
            Set::empty(),
            set![ReqView::PreCourse(course("THEO"@, 1100))],
        ),
        (
            course("THEO"@, 3420),
            set![course("THEO"@, 1100)],
            Set::empty(),
            set![ReqView::PreCourse(course("THEO"@, 1100))],
        ),
        (
            course("THEO"@, 3430),
            set![course("THEO"@, 1100)],
            Set::empty(),
            set![ReqView::PreCourse(course("THEO"@, 1100))],
        ),
        (
            course("THEO"@, 3620),
            set![course("THEO"@, 1100)],
            Set::empty(),
            set![ReqView::PreCourse(course("THEO"@, 1100))],
        ),
        (
            course("THEO"@, 3640),
            set![course("THEO"@, 1100)],
            Set::empty(),
            set![ReqView::PreCourse(course("THEO"@, 1100))],
        ),
        (
            course("THEO"@, 3660),
            set![course("THEO"@, 1100)],
            Set::empty(),
            set![ReqView::PreCourse(course("THEO"@, 1100))],
        ),
        (
            course("THEO"@, 3680),
            set![course("PHIL"@, 3670)],
            Set::empty(),
            set![ReqView::PreCourse(course("PHIL"@, 3670))],
        ),
        (
            course("THEO"@, 3690),
            set![course("PHIL"@, 3670), course("THEO"@, 3680)],
            set![course("PHIL"@, 3690)],
            set![ReqView::PreCourse(course("PHIL"@, 3670)), ReqView::PreCourse(course("THEO"@, 3680)), ReqView::CoCourse(course("PHIL"@, 3690))],
        ),
        (
            course("THEO"@, 3820),
            set![course("THEO"@, 1100)],
            Set::empty(),
            set![ReqView::PreCourse(course("THEO"@, 1100))],
        ),
        (
            course("THEO"@, 3840),
            set![course("THEO"@, 1100)],
            Set::empty(),
            set![ReqView::PreCourse(course("THEO"@, 1100))],
        ),
        (
            course("THEO"@, 3920),
            set![course("THEO"@, 1100)],
            Set::empty(),
            set![ReqView::PreCourse(course("THEO"@, 1100))],
        ),
        (
            course("THEO"@, 3940),
            set![course("THEO"@, 1100)],
            Set::empty(),
            set![ReqView::PreCourse(course("THEO"@, 1100))],
        ),
        (
            course("THEO"@, 3950),
            set![course("THEO"@, 1100)],
            Set::empty(),
            set![ReqView::PreCourse(course("THEO"@, 1100))],
        ),
        (
            course("THEO"@, 3960),
            set![course("THEO"@, 1100)],
            Set::empty(),
            set![ReqView::PreCourse(course("THEO"@, 1100))],
        ),
        (
            course("THEO"@, 3970),
            set![course("THEO"@, 1100)],
            Set::empty(),
            set![ReqView::PreCourse(course("THEO"@, 1100))],
        ),
        (
            course("THEO"@, 4000),
            set![course("THEO"@, 1100)],
            Set::empty(),
            set![ReqView::PreCourse(course("THEO"@, 1100))],
        ),
        (
            course("THEO"@, 4457),
            set![course("THEO"@, 1100)],
            Set::empty(),
            set![ReqView::PreCourse(course("THEO"@, 1100))],
        ),
        (
            course("THEO"@, 4500),
            set![special_course("THEO"@, "PROGRAM"@)],
            Set::empty(),
            set![ReqView::PreCourse(special_course("THEO"@, "PROGRAM"@))],
        ),
        (
            course("THEO"@, 4980),
            set![course("THEO"@, 1100)],
            Set::empty(),
            set![ReqView::PreCourse(course("THEO"@, 1100))],
        ),
    ]
}

/// Each THEO rule demands before and alongside exactly the courses listed for
/// it, and is built from exactly the conditions listed for it.
pub proof fn law_listed_demands()
    ensures
        prereq_table().len() == listed_demands().len(),
        forall|i: int|
            0 <= i < prereq_table().len() ==> {
                &&& #[trigger] prereq_table()[i].0 == listed_demands()[i].0
                &&& taken_before(prereq_table()[i].1) == listed_demands()[i].1
                &&& taken_alongside(prereq_table()[i].1) == listed_demands()[i].2
                &&& conditions(prereq_table()[i].1) == listed_demands()[i].3
            },
{
    reveal(prereq_table);
    reveal_with_fuel(taken_before, 8);
    reveal_with_fuel(taken_before_all, 10);
    reveal_with_fuel(taken_alongside, 8);
    reveal_with_fuel(taken_alongside_all, 10);
    reveal_with_fuel(conditions, 8);
    reveal_with_fuel(conditions_all, 10);
    assert(taken_before(prereq_table()[0].1) =~= listed_demands()[0].1);
    assert(taken_alongside(prereq_table()[0].1) =~= listed_demands()[0].2);
    assert(conditions(prereq_table()[0].1) =~= listed_demands()[0].3);
    assert(taken_before(prereq_table()[1].1) =~= listed_demands()[1].1);
    assert(taken_alongside(prereq_table()[1].1) =~= listed_demands()[1].2);
    assert(conditions(prereq_table()[1].1) =~= listed_demands()[1].3);
    assert(taken_before(prereq_table()[2].1) =~= listed_demands()[2].1);
    assert(taken_alongside(prereq_table()[2].1) =~= listed_demands()[2].2);
    assert(conditions(prereq_table()[2].1) =~= listed_demands()[2].3);
    assert(taken_before(prereq_table()[3].1) =~= listed_demands()[3].1);
    assert(taken_alongside(prereq_table()[3].1) =~= listed_demands()[3].2);
    assert(conditions(prereq_table()[3].1) =~= listed_demands()[3].3);
    assert(taken_before(prereq_table()[4].1) =~= listed_demands()[4].1);
    assert(taken_alongside(prereq_table()[4].1) =~= listed_demands()[4].2);
    assert(conditions(prereq_table()[4].1) =~= listed_demands()[4].3);
    assert(taken_before(prereq_table()[5].1) =~= listed_demands()[5].1);
    assert(taken_alongside(prereq_table()[5].1) =~= listed_demands()[5].2);
    assert(conditions(prereq_table()[5].1) =~= listed_demands()[5].3);
    assert(taken_before(prereq_table()[6].1) =~= listed_demands()[6].1);
    assert(taken_alongside(prereq_table()[6].1) =~= listed_demands()[6].2);
    assert(conditions(prereq_table()[6].1) =~= listed_demands()[6].3);
    assert(taken_before(prereq_table()[7].1) =~= listed_demands()[7].1);
    assert(taken_alongside(prereq_table()[7].1) =~= listed_demands()[7].2);
    assert(conditions(prereq_table()[7].1) =~= listed_demands()[7].3);
    assert(taken_before(prereq_table()[8].1) =~= listed_demands()[8].1);
    assert(taken_alongside(prereq_table()[8].1) =~= listed_demands()[8].2);
    assert(conditions(prereq_table()[8].1) =~= listed_demands()[8].3);
    assert(taken_before(prereq_table()[9].1) =~= listed_demands()[9].1);
    assert(taken_alongside(prereq_table()[9].1) =~= listed_demands()[9].2);
    assert(conditions(prereq_table()[9].1) =~= listed_demands()[9].3);
    assert(taken_before(prereq_table()[10].1) =~= listed_demands()[10].1);
    assert(taken_alongside(prereq_table()[10].1) =~= listed_demands()[10].2);
    assert(conditions(prereq_table()[10].1) =~= listed_demands()[10].3);
    assert(taken_before(prereq_table()[11].1) =~= listed_demands()[11].1);
    assert(taken_alongside(prereq_table()[11].1) =~= listed_demands()[11].2);
    assert(conditions(prereq_table()[11].1) =~= listed_demands()[11].3);
    assert(taken_before(prereq_table()[12].1) =~= listed_demands()[12].1);
    assert(taken_alongside(prereq_table()[12].1) =~= listed_demands()[12].2);
    assert(conditions(prereq_table()[12].1) =~= listed_demands()[12].3);
    assert(taken_before(prereq_table()[13].1) =~= listed_demands()[13].1);
    assert(taken_alongside(prereq_table()[13].1) =~= listed_demands()[13].2);
    assert(conditions(prereq_table()[13].1) =~= listed_demands()[13].3);
    assert(taken_before(prereq_table()[14].1) =~= listed_demands()[14].1);
    assert(taken_alongside(prereq_table()[14].1) =~= listed_demands()[14].2);
    assert(conditions(prereq_table()[14].1) =~= listed_demands()[14].3);
    assert(taken_before(prereq_table()[15].1) =~= listed_demands()[15].1);
    assert(taken_alongside(prereq_table()[15].1) =~= listed_demands()[15].2);
    assert(conditions(prereq_table()[15].1) =~= listed_demands()[15].3);
    assert(taken_before(prereq_table()[16].1) =~= listed_demands()[16].1);
    assert(taken_alongside(prereq_table()[16].1) =~= listed_demands()[16].2);
    assert(conditions(prereq_table()[16].1) =~= listed_demands()[16].3);
    assert(taken_before(prereq_table()[17].1) =~= listed_demands()[17].1);
    assert(taken_alongside(prereq_table()[17].1) =~= listed_demands()[17].2);
    assert(conditions(prereq_table()[17].1) =~= listed_demands()[17].3);
    assert(taken_before(prereq_table()[18].1) =~= listed_demands()[18].1);
    assert(taken_alongside(prereq_table()[18].1) =~= listed_demands()[18].2);
    assert(conditions(prereq_table()[18].1) =~= listed_demands()[18].3);
    assert(taken_before(prereq_table()[19].1) =~= listed_demands()[19].1);
    assert(taken_alongside(prereq_table()[19].1) =~= listed_demands()[19].2);
    assert(conditions(prereq_table()[19].1) =~= listed_demands()[19].3);
    assert(taken_before(prereq_table()[20].1) =~= listed_demands()[20].1);
    assert(taken_alongside(prereq_table()[20].1) =~= listed_demands()[20].2);
    assert(conditions(prereq_table()[20].1) =~= listed_demands()[20].3);
    assert(taken_before(prereq_table()[21].1) =~= listed_demands()[21].1);
    assert(taken_alongside(prereq_table()[21].1) =~= listed_demands()[21].2);
    assert(conditions(prereq_table()[21].1) =~= listed_demands()[21].3);
    assert(taken_before(prereq_table()[22].1) =~= listed_demands()[22].1);
    assert(taken_alongside(prereq_table()[22].1) =~= listed_demands()[22].2);
    assert(conditions(prereq_table()[22].1) =~= listed_demands()[22].3);
    assert(taken_before(prereq_table()[23].1) =~= listed_demands()[23].1);
    assert(taken_alongside(prereq_table()[23].1) =~= listed_demands()[23].2);
    assert(conditions(prereq_table()[23].1) =~= listed_demands()[23].3);
    assert(taken_before(prereq_table()[24].1) =~= listed_demands()[24].1);
    assert(taken_alongside(prereq_table()[24].1) =~= listed_demands()[24].2);
    assert(conditions(prereq_table()[24].1) =~= listed_demands()[24].3);
    assert(taken_before(prereq_table()[25].1) =~= listed_demands()[25].1);
    assert(taken_alongside(prereq_table()[25].1) =~= listed_demands()[25].2);
    assert(conditions(prereq_table()[25].1) =~= listed_demands()[25].3);
    assert(taken_before(prereq_table()[26].1) =~= listed_demands()[26].1);
    assert(taken_alongside(prereq_table()[26].1) =~= listed_demands()[26].2);
    assert(conditions(prereq_table()[26].1) =~= listed_demands()[26].3);
    assert(taken_before(prereq_table()[27].1) =~= listed_demands()[27].1);
    assert(taken_alongside(prereq_table()[27].1) =~= listed_demands()[27].2);
    assert(conditions(prereq_table()[27].1) =~= listed_demands()[27].3);
    assert(taken_before(prereq_table()[28].1) =~= listed_demands()[28].1);
    assert(taken_alongside(prereq_table()[28].1) =~= listed_demands()[28].2);
    assert(conditions(prereq_table()[28].1) =~= listed_demands()[28].3);
    assert(taken_before(prereq_table()[29].1) =~= listed_demands()[29].1);
    assert(taken_alongside(prereq_table()[29].1) =~= listed_demands()[29].2);
    assert(conditions(prereq_table()[29].1) =~= listed_demands()[29].3);
    assert(taken_before(prereq_table()[30].1) =~= listed_demands()[30].1);
    assert(taken_alongside(prereq_table()[30].1) =~= listed_demands()[30].2);
    assert(conditions(prereq_table()[30].1) =~= listed_demands()[30].3);
    assert(taken_before(prereq_table()[31].1) =~= listed_demands()[31].1);
    assert(taken_alongside(prereq_table()[31].1) =~= listed_demands()[31].2);
    assert(conditions(prereq_table()[31].1) =~= listed_demands()[31].3);
}

/// Every course of the THEO table is a course of subject THEO.
pub proof fn law_keyed_by_subject()
    ensures
        keyed_by_stem(prereq_table(), "THEO"@),
{
    reveal(prereq_table);
}

} // verus!
