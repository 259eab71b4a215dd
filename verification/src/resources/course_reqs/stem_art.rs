//! Prerequisite rules of the ART courses.

use vstd::prelude::*;
use crate::prereqs::{conditions, conditions_all, taken_alongside, taken_alongside_all, taken_before, taken_before_all, CourseReq, ReqView, reqs2};
use crate::schedule::{CourseCode, CourseCodeView, course, keyed_by_stem};

verus! {

/// The prerequisite rule of each ART course, as pairs of course and rule in
/// the order in which they are listed.
#[verifier::opaque]
pub open spec fn prereq_table() -> Seq<(CourseCodeView, ReqView)> {
    seq![
        (course("ART"@, 2110), ReqView::PreCourse(course("ART"@, 1000))),
        (
            course("ART"@, 2200),
            ReqView::Or(
                seq![
                    ReqView::PreCourse(course("ART"@, 1000)),
                    ReqView::PreCourse(course("ART"@, 1030)),
                ],
            ),
        ),
        (course("ART"@, 2300), ReqView::PreCourse(course("ART"@, 1010))),
        (course("ART"@, 2500), ReqView::PreCourse(course("ART"@, 1000))),
        (course("ART"@, 3001), ReqView::PreCourse(course("ART"@, 1000))),
        (course("ART"@, 3002), ReqView::PreCourse(course("ART"@, 3001))),
        (course("ART"@, 3111), ReqView::PreCourse(course("ART"@, 2110))),
        (course("ART"@, 3112), ReqView::PreCourse(course("ART"@, 3111))),
        (course("ART"@, 3121), ReqView::PreCourse(course("ART"@, 1000))),
        (course("ART"@, 3122), ReqView::PreCourse(course("ART"@, 3131))),
        (course("ART"@, 3131), ReqView::Instructor),
        (course("ART"@, 3132), ReqView::Instructor),
        (course("ART"@, 3201), ReqView::PreCourse(course("ART"@, 2200))),
        (course("ART"@, 3202), ReqView::PreCourse(course("ART"@, 3201))),
        (
            course("ART"@, 3210),
            ReqView::Or(
                seq![
                    ReqView::PreCourse(course("ART"@, 1000)),
                    ReqView::PreCourse(course("ART"@, 1030)),
                ],
            ),
        ),
        (course("ART"@, 3301), ReqView::PreCourse(course("ART"@, 2300))),
        (course("ART"@, 3302), ReqView::PreCourse(course("ART"@, 3301))),
        (course("ART"@, 3310), ReqView::PreCourse(course("ART"@, 2300))),
        (course("ART"@, 3501), ReqView::PreCourse(course("ART"@, 2500))),
        (course("ART"@, 3502), ReqView::PreCourse(course("ART"@, 3501))),
        (course("ART"@, 3801), ReqView::PreCourse(course("ART"@, 2800))),
        (course("ART"@, 3802), ReqView::PreCourse(course("ART"@, 3801))),
        (course("ART"@, 4000), ReqView::PreCourse(course("ART"@, 3002))),
        (course("ART"@, 4110), ReqView::PreCourse(course("ART"@, 3112))),
        (course("ART"@, 4200), ReqView::PreCourse(course("ART"@, 3202))),
        (course("ART"@, 4300), ReqView::PreCourse(course("ART"@, 3302))),
        (course("ART"@, 4461), ReqView::PreCourse(course("ART"@, 4460))),
        (course("ART"@, 4462), ReqView::PreCourse(course("ART"@, 4461))),
        (course("ART"@, 4500), ReqView::PreCourse(course("ART"@, 1000))),
        (course("ART"@, 4800), ReqView::PreCourse(course("ART"@, 3802))),
        (course("ART"@, 4900), ReqView::PreCourse(course("ART"@, 3900))),
        (course("ART"@, 4901), ReqView::PreCourse(course("ART"@, 4900))),
        (
            course("ART"@, 4950),
            ReqView::And(
                seq![
                    ReqView::PreCourse(course("ART"@, 4310)),
                    ReqView::PreCourse(course("ART"@, 4311)),
                ],
            ),
        ),
    ]
}

/// The prerequisite rules of the ART courses, in the order in which they are listed.
pub fn prereqs() -> (table: Vec<(CourseCode, CourseReq)>)
    ensures
        table.deep_view() == prereq_table(),
        keyed_by_stem(table.deep_view(), "ART"@),
{
    proof {
        reveal(prereq_table);
    }
    let table = vec![
        (CourseCode::new("ART", 2110), CourseReq::pre(CourseCode::new("ART", 1000))),
        (
            CourseCode::new("ART", 2200),
            CourseReq::any_of(
                reqs2(
                    CourseReq::pre(CourseCode::new("ART", 1000)),
                    CourseReq::pre(CourseCode::new("ART", 1030)),
                ),
            ),
        ),
        (CourseCode::new("ART", 2300), CourseReq::pre(CourseCode::new("ART", 1010))),
        (CourseCode::new("ART", 2500), CourseReq::pre(CourseCode::new("ART", 1000))),
        (CourseCode::new("ART", 3001), CourseReq::pre(CourseCode::new("ART", 1000))),
        (CourseCode::new("ART", 3002), CourseReq::pre(CourseCode::new("ART", 3001))),
        (CourseCode::new("ART", 3111), CourseReq::pre(CourseCode::new("ART", 2110))),
        (CourseCode::new("ART", 3112), CourseReq::pre(CourseCode::new("ART", 3111))),
        (CourseCode::new("ART", 3121), CourseReq::pre(CourseCode::new("ART", 1000))),
        (CourseCode::new("ART", 3122), CourseReq::pre(CourseCode::new("ART", 3131))),
        (CourseCode::new("ART", 3131), CourseReq::instructor()),
        (CourseCode::new("ART", 3132), CourseReq::instructor()),
        (CourseCode::new("ART", 3201), CourseReq::pre(CourseCode::new("ART", 2200))),
        (CourseCode::new("ART", 3202), CourseReq::pre(CourseCode::new("ART", 3201))),
        (
            CourseCode::new("ART", 3210),
            CourseReq::any_of(
                reqs2(
                    CourseReq::pre(CourseCode::new("ART", 1000)),
                    CourseReq::pre(CourseCode::new("ART", 1030)),
                ),
            ),
        ),
        (CourseCode::new("ART", 3301), CourseReq::pre(CourseCode::new("ART", 2300))),
        (CourseCode::new("ART", 3302), CourseReq::pre(CourseCode::new("ART", 3301))),
        (CourseCode::new("ART", 3310), CourseReq::pre(CourseCode::new("ART", 2300))),
        (CourseCode::new("ART", 3501), CourseReq::pre(CourseCode::new("ART", 2500))),
        (CourseCode::new("ART", 3502), CourseReq::pre(CourseCode::new("ART", 3501))),
        (CourseCode::new("ART", 3801), CourseReq::pre(CourseCode::new("ART", 2800))),
        (CourseCode::new("ART", 3802), CourseReq::pre(CourseCode::new("ART", 3801))),
        (CourseCode::new("ART", 4000), CourseReq::pre(CourseCode::new("ART", 3002))),
        (CourseCode::new("ART", 4110), CourseReq::pre(CourseCode::new("ART", 3112))),
        (CourseCode::new("ART", 4200), CourseReq::pre(CourseCode::new("ART", 3202))),
        (CourseCode::new("ART", 4300), CourseReq::pre(CourseCode::new("ART", 3302))),
        (CourseCode::new("ART", 4461), CourseReq::pre(CourseCode::new("ART", 4460))),
        (CourseCode::new("ART", 4462), CourseReq::pre(CourseCode::new("ART", 4461))),
        (CourseCode::new("ART", 4500), CourseReq::pre(CourseCode::new("ART", 1000))),
        (CourseCode::new("ART", 4800), CourseReq::pre(CourseCode::new("ART", 3802))),
        (CourseCode::new("ART", 4900), CourseReq::pre(CourseCode::new("ART", 3900))),
        (CourseCode::new("ART", 4901), CourseReq::pre(CourseCode::new("ART", 4900))),
        (
            CourseCode::new("ART", 4950),
            CourseReq::all_of(
                reqs2(
                    CourseReq::pre(CourseCode::new("ART", 4310)),
                    CourseReq::pre(CourseCode::new("ART", 4311)),
                ),
            ),
        ),
    ];
    assert(table.deep_view() =~= prereq_table());
    table
}

/// For each ART course in the order of the listing: the course, the courses
/// its rule demands outright to have been taken before, the courses it demands
/// outright to be taken before or alongside, and the single conditions that
/// its rule is built from.
pub open spec fn listed_demands() -> Seq<
    (CourseCodeView, Set<CourseCodeView>, Set<CourseCodeView>, Set<ReqView>),
> {
    seq![
        (
            course("ART"@, 2110),
            set![course("ART"@, 1000)],
            Set::empty(),
            set![ReqView::PreCourse(course("ART"@, 1000))],
        ),
        (
            course("ART"@, 2200),
            Set::empty(),
            Set::empty(),
            set![ReqView::PreCourse(course("ART"@, 1000)), ReqView::PreCourse(course("ART"@, 1030))],
        ),
        (
            course("ART"@, 2300),
            set![course("ART"@, 1010)],
            Set::empty(),
            set![ReqView::PreCourse(course("ART"@, 1010))],
        ),
        (
            course("ART"@, 2500),
            set![course("ART"@, 1000)],
            Set::empty(),
            set![ReqView::PreCourse(course("ART"@, 1000))],
        ),
        (
            course("ART"@, 3001),
            set![course("ART"@, 1000)],
            Set::empty(),
            set![ReqView::PreCourse(course("ART"@, 1000))],
        ),
        (
            course("ART"@, 3002),
            set![course("ART"@, 3001)],
            Set::empty(),
            set![ReqView::PreCourse(course("ART"@, 3001))],
        ),
        (
            course("ART"@, 3111),
            set![course("ART"@, 2110)],
            Set::empty(),
            set![ReqView::PreCourse(course("ART"@, 2110))],
        ),
        (
            course("ART"@, 3112),
            set![course("ART"@, 3111)],
            Set::empty(),
            set![ReqView::PreCourse(course("ART"@, 3111))],
        ),
        (
            course("ART"@, 3121),
            set![course("ART"@, 1000)],
            Set::empty(),
            set![ReqView::PreCourse(course("ART"@, 1000))],
        ),
        (
            course("ART"@, 3122),
            set![course("ART"@, 3131)],
            Set::empty(),
            set![ReqView::PreCourse(course("ART"@, 3131))],
        ),
        (
            course("ART"@, 3131),
            Set::empty(),
            Set::empty(),
            set![ReqView::Instructor],
        ),
        (
            course("ART"@, 3132),
            Set::empty(),
            Set::empty(),
            set![ReqView::Instructor],
        ),
        (
            course("ART"@, 3201),
            set![course("ART"@, 2200)],
            Set::empty(),
            set![ReqView::PreCourse(course("ART"@, 2200))],
        ),
        (
            course("ART"@, 3202),
            set![course("ART"@, 3201)],
            Set::empty(),
            set![ReqView::PreCourse(course("ART"@, 3201))],
        ),
        (
            course("ART"@, 3210),
            Set::empty(),
            Set::empty(),
            set![ReqView::PreCourse(course("ART"@, 1000)), ReqView::PreCourse(course("ART"@, 1030))],
        ),
        (
            course("ART"@, 3301),
            set![course("ART"@, 2300)],
            Set::empty(),
            set![ReqView::PreCourse(course("ART"@, 2300))],
        ),
        (
            course("ART"@, 3302),
            set![course("ART"@, 3301)],
            Set::empty(),
            set![ReqView::PreCourse(course("ART"@, 3301))],
        ),
        (
            course("ART"@, 3310),
            set![course("ART"@, 2300)],
            Set::empty(),
            set![ReqView::PreCourse(course("ART"@, 2300))],
        ),
        (
            course("ART"@, 3501),
            set![course("ART"@, 2500)],
            Set::empty(),
            set![ReqView::PreCourse(course("ART"@, 2500))],
        ),
        (
            course("ART"@, 3502),
            set![course("ART"@, 3501)],
            Set::empty(),
            set![ReqView::PreCourse(course("ART"@, 3501))],
        ),
        (
            course("ART"@, 3801),
            set![course("ART"@, 2800)],
            Set::empty(),
            set![ReqView::PreCourse(course("ART"@, 2800))],
        ),
        (
            course("ART"@, 3802),
            set![course("ART"@, 3801)],
            Set::empty(),
            set![ReqView::PreCourse(course("ART"@, 3801))],
        ),
        (
            course("ART"@, 4000),
            set![course("ART"@, 3002)],
            Set::empty(),
            set![ReqView::PreCourse(course("ART"@, 3002))],
        ),
        (
            course("ART"@, 4110),
            set![course("ART"@, 3112)],
            Set::empty(),
            set![ReqView::PreCourse(course("ART"@, 3112))],
        ),
        (
            course("ART"@, 4200),
            set![course("ART"@, 3202)],
            Set::empty(),
            set![ReqView::PreCourse(course("ART"@, 3202))],
        ),
        (
            course("ART"@, 4300),
            set![course("ART"@, 3302)],
            Set::empty(),
            set![ReqView::PreCourse(course("ART"@, 3302))],
        ),
        (
            course("ART"@, 4461),
            set![course("ART"@, 4460)],
            Set::empty(),
            set![ReqView::PreCourse(course("ART"@, 4460))],
        ),
        (
            course("ART"@, 4462),
            set![course("ART"@, 4461)],
            Set::empty(),
            set![ReqView::PreCourse(course("ART"@, 4461))],
        ),
        (
            course("ART"@, 4500),
            set![course("ART"@, 1000)],
            Set::empty(),
            set![ReqView::PreCourse(course("ART"@, 1000))],
        ),
        (
            course("ART"@, 4800),
            set![course("ART"@, 3802)],
            Set::empty(),
            set![ReqView::PreCourse(course("ART"@, 3802))],
        ),
        (
            course("ART"@, 4900),
            set![course("ART"@, 3900)],
            Set::empty(),
            set![ReqView::PreCourse(course("ART"@, 3900))],
        ),
        (
            course("ART"@, 4901),
            set![course("ART"@, 4900)],
            Set::empty(),
            set![ReqView::PreCourse(course("ART"@, 4900))],
        ),
        (
            course("ART"@, 4950),
            set![course("ART"@, 4310), course("ART"@, 4311)],
            Set::empty(),
            set![ReqView::PreCourse(course("ART"@, 4310)), ReqView::PreCourse(course("ART"@, 4311))],
        ),
    ]
}

/// Each ART rule demands before and alongside exactly the courses listed for
/// it, and is built from exactly the conditions listed for it.
pub proof fn law_listed_demands()
    ensures
        prereq_table().len() == listed_demands().len(),
        forall|i: int|
            0 <= i < prereq_table().len() ==> {
                &&& #[trigger] prereq_table()[i].0 == listed_demands()[i].0
                &&& taken_before(prereq_table()[i].1) == listed_demands()[i].1
                &&& taken_alongside(prereq_table()[i].1) == listed_demands()[i].2
                &&& conditions(prereq_table()[i].1) == listed_demands()[i].3
            },
{
    reveal(prereq_table);
    reveal_with_fuel(taken_before, 8);
    reveal_with_fuel(taken_before_all, 10);
    reveal_with_fuel(taken_alongside, 8);
    reveal_with_fuel(taken_alongside_all, 10);
    reveal_with_fuel(conditions, 8);
    reveal_with_fuel(conditions_all, 10);
    assert(taken_before(prereq_table()[0].1) =~= listed_demands()[0].1);
    assert(taken_alongside(prereq_table()[0].1) =~= listed_demands()[0].2);
    assert(conditions(prereq_table()[0].1) =~= listed_demands()[0].3);
    assert(taken_before(prereq_table()[1].1) =~= listed_demands()[1].1);
    assert(taken_alongside(prereq_table()[1].1) =~= listed_demands()[1].2);
    assert(conditions(prereq_table()[1].1) =~= listed_demands()[1].3);
    assert(taken_before(prereq_table()[2].1) =~= listed_demands()[2].1);
    assert(taken_alongside(prereq_table()[2].1) =~= listed_demands()[2].2);
    assert(conditions(prereq_table()[2].1) =~= listed_demands()[2].3);
    assert(taken_before(prereq_table()[3].1) =~= listed_demands()[3].1);
    assert(taken_alongside(prereq_table()[3].1) =~= listed_demands()[3].2);
    assert(conditions(prereq_table()[3].1) =~= listed_demands()[3].3);
    assert(taken_before(prereq_table()[4].1) =~= listed_demands()[4].1);
    assert(taken_alongside(prereq_table()[4].1) =~= listed_demands()[4].2);
    assert(conditions(prereq_table()[4].1) =~= listed_demands()[4].3);
    assert(taken_before(prereq_table()[5].1) =~= listed_demands()[5].1);
    assert(taken_alongside(prereq_table()[5].1) =~= listed_demands()[5].2);
    assert(conditions(prereq_table()[5].1) =~= listed_demands()[5].3);
    assert(taken_before(prereq_table()[6].1) =~= listed_demands()[6].1);
    assert(taken_alongside(prereq_table()[6].1) =~= listed_demands()[6].2);
    assert(conditions(prereq_table()[6].1) =~= listed_demands()[6].3);
    assert(taken_before(prereq_table()[7].1) =~= listed_demands()[7].1);
    assert(taken_alongside(prereq_table()[7].1) =~= listed_demands()[7].2);
    assert(conditions(prereq_table()[7].1) =~= listed_demands()[7].3);
    assert(taken_before(prereq_table()[8].1) =~= listed_demands()[8].1);
    assert(taken_alongside(prereq_table()[8].1) =~= listed_demands()[8].2);
    assert(conditions(prereq_table()[8].1) =~= listed_demands()[8].3);
    assert(taken_before(prereq_table()[9].1) =~= listed_demands()[9].1);
    assert(taken_alongside(prereq_table()[9].1) =~= listed_demands()[9].2);
    assert(conditions(prereq_table()[9].1) =~= listed_demands()[9].3);
    assert(taken_before(prereq_table()[10].1) =~= listed_demands()[10].1);
    assert(taken_alongside(prereq_table()[10].1) =~= listed_demands()[10].2);
    assert(conditions(prereq_table()[10].1) =~= listed_demands()[10].3);
    assert(taken_before(prereq_table()[11].1) =~= listed_demands()[11].1);
    assert(taken_alongside(prereq_table()[11].1) =~= listed_demands()[11].2);
    assert(conditions(prereq_table()[11].1) =~= listed_demands()[11].3);
    assert(taken_before(prereq_table()[12].1) =~= listed_demands()[12].1);
    assert(taken_alongside(prereq_table()[12].1) =~= listed_demands()[12].2);
    assert(conditions(prereq_table()[12].1) =~= listed_demands()[12].3);
    assert(taken_before(prereq_table()[13].1) =~= listed_demands()[13].1);
    assert(taken_alongside(prereq_table()[13].1) =~= listed_demands()[13].2);
    assert(conditions(prereq_table()[13].1) =~= listed_demands()[13].3);
    assert(taken_before(prereq_table()[14].1) =~= listed_demands()[14].1);
    assert(taken_alongside(prereq_table()[14].1) =~= listed_demands()[14].2);
    assert(conditions(prereq_table()[14].1) =~= listed_demands()[14].3);
    assert(taken_before(prereq_table()[15].1) =~= listed_demands()[15].1);
    assert(taken_alongside(prereq_table()[15].1) =~= listed_demands()[15].2);
    assert(conditions(prereq_table()[15].1) =~= listed_demands()[15].3);
    assert(taken_before(prereq_table()[16].1) =~= listed_demands()[16].1);
    assert(taken_alongside(prereq_table()[16].1) =~= listed_demands()[16].2);
    assert(conditions(prereq_table()[16].1) =~= listed_demands()[16].3);
    assert(taken_before(prereq_table()[17].1) =~= listed_demands()[17].1);
    assert(taken_alongside(prereq_table()[17].1) =~= listed_demands()[17].2);
    assert(conditions(prereq_table()[17].1) =~= listed_demands()[17].3);
    assert(taken_before(prereq_table()[18].1) =~= listed_demands()[18].1);
    assert(taken_alongside(prereq_table()[18].1) =~= listed_demands()[18].2);
    assert(conditions(prereq_table()[18].1) =~= listed_demands()[18].3);
    assert(taken_before(prereq_table()[19].1) =~= listed_demands()[19].1);
    assert(taken_alongside(prereq_table()[19].1) =~= listed_demands()[19].2);
    assert(conditions(prereq_table()[19].1) =~= listed_demands()[19].3);
    assert(taken_before(prereq_table()[20].1) =~= listed_demands()[20].1);
    assert(taken_alongside(prereq_table()[20].1) =~= listed_demands()[20].2);
    assert(conditions(prereq_table()[20].1) =~= listed_demands()[20].3);
    assert(taken_before(prereq_table()[21].1) =~= listed_demands()[21].1);
    assert(taken_alongside(prereq_table()[21].1) =~= listed_demands()[21].2);
    assert(conditions(prereq_table()[21].1) =~= listed_demands()[21].3);
    assert(taken_before(prereq_table()[22].1) =~= listed_demands()[22].1);
    assert(taken_alongside(prereq_table()[22].1) =~= listed_demands()[22].2);
    assert(conditions(prereq_table()[22].1) =~= listed_demands()[22].3);
    assert(taken_before(prereq_table()[23].1) =~= listed_demands()[23].1);
    assert(taken_alongside(prereq_table()[23].1) =~= listed_demands()[23].2);
    assert(conditions(prereq_table()[23].1) =~= listed_demands()[23].3);
    assert(taken_before(prereq_table()[24].1) =~= listed_demands()[24].1);
    assert(taken_alongside(prereq_table()[24].1) =~= listed_demands()[24].2);
    assert(conditions(prereq_table()[24].1) =~= listed_demands()[24].3);
    assert(taken_before(prereq_table()[25].1) =~= listed_demands()[25].1);
    assert(taken_alongside(prereq_table()[25].1) =~= listed_demands()[25].2);
    assert(conditions(prereq_table()[25].1) =~= listed_demands()[25].3);
    assert(taken_before(prereq_table()[26].1) =~= listed_demands()[26].1);
    assert(taken_alongside(prereq_table()[26].1) =~= listed_demands()[26].2);
    assert(conditions(prereq_table()[26].1) =~= listed_demands()[26].3);
    assert(taken_before(prereq_table()[27].1) =~= listed_demands()[27].1);
    assert(taken_alongside(prereq_table()[27].1) =~= listed_demands()[27].2);
    assert(conditions(prereq_table()[27].1) =~= listed_demands()[27].3);
    assert(taken_before(prereq_table()[28].1) =~= listed_demands()[28].1);
    assert(taken_alongside(prereq_table()[28].1) =~= listed_demands()[28].2);
    assert(conditions(prereq_table()[28].1) =~= listed_demands()[28].3);
    assert(taken_before(prereq_table()[29].1) =~= listed_demands()[29].1);
    assert(taken_alongside(prereq_table()[29].1) =~= listed_demands()[29].2);
    assert(conditions(prereq_table()[29].1) =~= listed_demands()[29].3);
    assert(taken_before(prereq_table()[30].1) =~= listed_demands()[30].1);
    assert(taken_alongside(prereq_table()[30].1) =~= listed_demands()[30].2);
    assert(conditions(prereq_table()[30].1) =~= listed_demands()[30].3);
    assert(taken_before(prereq_table()[31].1) =~= listed_demands()[31].1);
    assert(taken_alongside(prereq_table()[31].1) =~= listed_demands()[31].2);
    assert(conditions(prereq_table()[31].1) =~= listed_demands()[31].3);
    assert(taken_before(prereq_table()[32].1) =~= listed_demands()[32].1);
    assert(taken_alongside(prereq_table()[32].1) =~= listed_demands()[32].2);
    assert(conditions(prereq_table()[32].1) =~= listed_demands()[32].3);
}

/// Every course of the ART table is a course of subject ART.
pub proof fn law_keyed_by_subject()
    ensures
        keyed_by_stem(prereq_table(), "ART"@),
{
    reveal(prereq_table);
}

} // verus!
