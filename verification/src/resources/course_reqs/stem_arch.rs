//! Prerequisite rules of the ARCH courses.

use vstd::prelude::*;
use crate::prereqs::{conditions, conditions_all, taken_alongside, taken_alongside_all, taken_before, taken_before_all, CourseReq, ReqView, Grade, GradeLetter, GradeQualifier, grade_of, reqs2, reqs3, reqs4};
use crate::schedule::{stems_within, CourseCode, CourseCodeView, course};

verus! {

/// The prerequisite rule of each ARCH course, as pairs of course and rule in
/// the order in which they are listed.
#[verifier::opaque]
pub open spec fn prereq_table() -> Seq<(CourseCodeView, ReqView)> {
    seq![
        (
            course("ARCH"@, 1200),
            ReqView::Or(
                seq![
                    ReqView::PreCourse(course("ART"@, 1000)),
                    ReqView::CoCourse(course("ART"@, 1000)),
                ],
            ),
        ),
        (
            course("ARCH"@, 1410),
            ReqView::And(
                seq![
                    ReqView::Or(
                        seq![
                            ReqView::PreCourse(course("ARCH"@, 1300)),
                            ReqView::PreCourse(course("ART"@, 1000)),
                        ],
                    ),
                    ReqView::Or(
                        seq![
                            ReqView::PreCourse(course("ART"@, 1010)),
                            ReqView::PreCourse(course("ART"@, 1030)),
                        ],
                    ),
                    ReqView::And(
                        seq![
                            ReqView::CoCourse(course("ART"@, 1000)),
                            ReqView::Or(
                                seq![
                                    ReqView::CoCourse(course("ART"@, 1010)),
                                    ReqView::CoCourse(course("ART"@, 1030)),
                                ],
                            ),
                        ],
                    ),
                ],
            ),
        ),
        (
            course("stem ARCH"@, 2111),
            ReqView::And(
                seq![
                    ReqView::PreCourse(course("ARCH"@, 1200)),
                    ReqView::PreCourse(course("ARCH"@, 1410)),
                    ReqView::PreCourse(course("MATH"@, 1300)),
                    ReqView::CoCourse(course("ARCH"@, 2201)),
                ],
            ),
        ),
        (
            course("stem ARCH"@, 2112),
            ReqView::PreCourseGrade(
                course("ARCH"@, 2111),
                grade_of(GradeLetter::C, GradeQualifier::Flat),
            ),
        ),
        (
            course("stem ARCH"@, 2201),
            ReqView::And(
                seq![
                    ReqView::PreCourse(course("ART"@, 1000)),
                    ReqView::PreCourse(course("ARCH"@, 1200)),
                    ReqView::PreCourse(course("ARCH"@, 1410)),
                ],
            ),
        ),
        (course("ARCH"@, 3100), ReqView::PreCourse(course("ARCH"@, 2112))),
        (
            course("ARCH"@, 3113),
            ReqView::And(
                seq![
                    ReqView::PreCourse(course("ARCH"@, 2112)),
                    ReqView::PreCourse(course("ARCH"@, 2301)),
                    ReqView::Or(
                        seq![
                            ReqView::PreCourse(course("PHYS"@, 2000)),
                            ReqView::PreCourse(course("PHYS"@, 2100)),
                        ],
                    ),
                    ReqView::Or(
                        seq![
                            ReqView::PreCourse(course("ARCH"@, 2300)),
                            ReqView::CoCourse(course("ARCH"@, 2300)),
                        ],
                    ),
                ],
            ),
        ),
        (
            course("ARCH"@, 3114),
            ReqView::PreCourseGrade(
                course("ARCH"@, 3113),
                grade_of(GradeLetter::C, GradeQualifier::Flat),
            ),
        ),
        (course("ARCH"@, 3200), ReqView::PreCourse(course("ARCH"@, 2201))),
        (course("ARCH"@, 3310), ReqView::PreCourse(course("ARCH"@, 2112))),
        (
            course("ARCH"@, 3400),
            ReqView::And(
                seq![
                    ReqView::PreCourse(course("ARCH"@, 2301)),
                    ReqView::PreCourse(course("ARCH"@, 2112)),
                ],
            ),
        ),
        (
            course("ARCH"@, 4116),
            ReqView::And(
                seq![
                    ReqView::PreCourse(course("ARCH"@, 4115)),
                    ReqView::PreCourse(course("ARCH"@, 4400)),
                ],
            ),
        ),
        (course("ARCH"@, 4400), ReqView::PreCourse(course("ARCH"@, 3113))),
    ]
}

/// The prerequisite rules of the ARCH courses, in the order in which they are listed.
pub fn prereqs() -> (table: Vec<(CourseCode, CourseReq)>)
    ensures
        table.deep_view() == prereq_table(),
{
    proof {
        reveal(prereq_table);
    }
    let table = vec![
        (
            CourseCode::new("ARCH", 1200),
            CourseReq::any_of(
                reqs2(
                    CourseReq::pre(CourseCode::new("ART", 1000)),
                    CourseReq::co(CourseCode::new("ART", 1000)),
                ),
            ),
        ),
        (
            CourseCode::new("ARCH", 1410),
            CourseReq::all_of(
                reqs3(
                    CourseReq::any_of(
                        reqs2(
                            CourseReq::pre(CourseCode::new("ARCH", 1300)),
                            CourseReq::pre(CourseCode::new("ART", 1000)),
                        ),
                    ),
                    CourseReq::any_of(
                        reqs2(
                            CourseReq::pre(CourseCode::new("ART", 1010)),
                            CourseReq::pre(CourseCode::new("ART", 1030)),
                        ),
                    ),
                    CourseReq::all_of(
                        reqs2(
                            CourseReq::co(CourseCode::new("ART", 1000)),
                            CourseReq::any_of(
                                reqs2(
                                    CourseReq::co(CourseCode::new("ART", 1010)),
                                    CourseReq::co(CourseCode::new("ART", 1030)),
                                ),
                            ),
                        ),
                    ),
                ),
            ),
        ),
        (
            CourseCode::new("stem ARCH", 2111),
            CourseReq::all_of(
                reqs4(
                    CourseReq::pre(CourseCode::new("ARCH", 1200)),
                    CourseReq::pre(CourseCode::new("ARCH", 1410)),
                    CourseReq::pre(CourseCode::new("MATH", 1300)),
                    CourseReq::co(CourseCode::new("ARCH", 2201)),
                ),
            ),
        ),
        (
            CourseCode::new("stem ARCH", 2112),
            CourseReq::pre_grade(
                CourseCode::new("ARCH", 2111),
                Grade::new(GradeLetter::C, GradeQualifier::Flat),
            ),
        ),
        (
            CourseCode::new("stem ARCH", 2201),
            CourseReq::all_of(
                reqs3(
                    CourseReq::pre(CourseCode::new("ART", 1000)),
                    CourseReq::pre(CourseCode::new("ARCH", 1200)),
                    CourseReq::pre(CourseCode::new("ARCH", 1410)),
                ),
            ),
        ),
        (CourseCode::new("ARCH", 3100), CourseReq::pre(CourseCode::new("ARCH", 2112))),
        (
            CourseCode::new("ARCH", 3113),
            CourseReq::all_of(
                reqs4(
                    CourseReq::pre(CourseCode::new("ARCH", 2112)),
                    CourseReq::pre(CourseCode::new("ARCH", 2301)),
                    CourseReq::any_of(
                        reqs2(
                            CourseReq::pre(CourseCode::new("PHYS", 2000)),
                            CourseReq::pre(CourseCode::new("PHYS", 2100)),
                        ),
                    ),
                    CourseReq::any_of(
                        reqs2(
                            CourseReq::pre(CourseCode::new("ARCH", 2300)),
                            CourseReq::co(CourseCode::new("ARCH", 2300)),
                        ),
                    ),
                ),
            ),
        ),
        (
            CourseCode::new("ARCH", 3114),
            CourseReq::pre_grade(
                CourseCode::new("ARCH", 3113),
                Grade::new(GradeLetter::C, GradeQualifier::Flat),
            ),
        ),
        (CourseCode::new("ARCH", 3200), CourseReq::pre(CourseCode::new("ARCH", 2201))),
        (CourseCode::new("ARCH", 3310), CourseReq::pre(CourseCode::new("ARCH", 2112))),
        (
            CourseCode::new("ARCH", 3400),
            CourseReq::all_of(
                reqs2(
                    CourseReq::pre(CourseCode::new("ARCH", 2301)),
                    CourseReq::pre(CourseCode::new("ARCH", 2112)),
                ),
            ),
        ),
        (
            CourseCode::new("ARCH", 4116),
            CourseReq::all_of(
                reqs2(
                    CourseReq::pre(CourseCode::new("ARCH", 4115)),
                    CourseReq::pre(CourseCode::new("ARCH", 4400)),
                ),
            ),
        ),
        (CourseCode::new("ARCH", 4400), CourseReq::pre(CourseCode::new("ARCH", 3113))),
    ];
    assert(table.deep_view() =~= prereq_table());
    table
}

/// For each ARCH course in the order of the listing: the course, the courses
/// its rule demands outright to have been taken before, the courses it demands
/// outright to be taken before or alongside, and the single conditions that
/// its rule is built from.
pub open spec fn listed_demands() -> Seq<
    (CourseCodeView, Set<CourseCodeView>, Set<CourseCodeView>, Set<ReqView>),
> {
    seq![
        (
            course("ARCH"@, 1200),
            Set::empty(),
            Set::empty(),
            set![ReqView::PreCourse(course("ART"@, 1000)), ReqView::CoCourse(course("ART"@, 1000))],
        ),
        (
            course("ARCH"@, 1410),
            Set::empty(),
            set![course("ART"@, 1000)],
            set![ReqView::PreCourse(course("ARCH"@, 1300)), ReqView::PreCourse(course("ART"@, 1000)), ReqView::PreCourse(course("ART"@, 1010)), ReqView::PreCourse(course("ART"@, 1030)), ReqView::CoCourse(course("ART"@, 1000)), ReqView::CoCourse(course("ART"@, 1010)), ReqView::CoCourse(course("ART"@, 1030))],
        ),
        (
            course("stem ARCH"@, 2111),
            set![course("ARCH"@, 1200), course("ARCH"@, 1410), course("MATH"@, 1300)],
            set![course("ARCH"@, 2201)],
            set![ReqView::PreCourse(course("ARCH"@, 1200)), ReqView::PreCourse(course("ARCH"@, 1410)), ReqView::PreCourse(course("MATH"@, 1300)), ReqView::CoCourse(course("ARCH"@, 2201))],
        ),
        (
            course("stem ARCH"@, 2112),
            set![course("ARCH"@, 2111)],
            Set::empty(),
            set![ReqView::PreCourseGrade(course("ARCH"@, 2111), grade_of(GradeLetter::C, GradeQualifier::Flat))],
        ),
        (
            course("stem ARCH"@, 2201),
            set![course("ART"@, 1000), course("ARCH"@, 1200), course("ARCH"@, 1410)],
            Set::empty(),
            set![ReqView::PreCourse(course("ART"@, 1000)), ReqView::PreCourse(course("ARCH"@, 1200)), ReqView::PreCourse(course("ARCH"@, 1410))],
        ),
        (
            course("ARCH"@, 3100),
            set![course("ARCH"@, 2112)],
            Set::empty(),
            set![ReqView::PreCourse(course("ARCH"@, 2112))],
        ),
        (
            course("ARCH"@, 3113),
            set![course("ARCH"@, 2112), course("ARCH"@, 2301)],
            Set::empty(),
            set![ReqView::PreCourse(course("ARCH"@, 2112)), ReqView::PreCourse(course("ARCH"@, 2301)), ReqView::PreCourse(course("PHYS"@, 2000)), ReqView::PreCourse(course("PHYS"@, 2100)), ReqView::PreCourse(course("ARCH"@, 2300)), ReqView::CoCourse(course("ARCH"@, 2300))],
        ),
        (
            course("ARCH"@, 3114),
            set![course("ARCH"@, 3113)],
            Set::empty(),
            set![ReqView::PreCourseGrade(course("ARCH"@, 3113), grade_of(GradeLetter::C, GradeQualifier::Flat))],
        ),
        (
            course("ARCH"@, 3200),
            set![course("ARCH"@, 2201)],
            Set::empty(),
            set![ReqView::PreCourse(course("ARCH"@, 2201))],
        ),
        (
            course("ARCH"@, 3310),
            set![course("ARCH"@, 2112)],
            Set::empty(),
            set![ReqView::PreCourse(course("ARCH"@, 2112))],
        ),
        (
            course("ARCH"@, 3400),
            set![course("ARCH"@, 2301), course("ARCH"@, 2112)],
            Set::empty(),
            set![ReqView::PreCourse(course("ARCH"@, 2301)), ReqView::PreCourse(course("ARCH"@, 2112))],
        ),
        (
            course("ARCH"@, 4116),
            set![course("ARCH"@, 4115), course("ARCH"@, 4400)],
            Set::empty(),
            set![ReqView::PreCourse(course("ARCH"@, 4115)), ReqView::PreCourse(course("ARCH"@, 4400))],
        ),
        (
            course("ARCH"@, 4400),
            set![course("ARCH"@, 3113)],
            Set::empty(),
            set![ReqView::PreCourse(course("ARCH"@, 3113))],
        ),
    ]
}

/// Each ARCH rule demands before and alongside exactly the courses listed for
/// it, and is built from exactly the conditions listed for it.
pub proof fn law_listed_demands()
    ensures
        prereq_table().len() == listed_demands().len(),
        forall|i: int|
            0 <= i < prereq_table().len() ==> {
                &&& #[trigger] prereq_table()[i].0 == listed_demands()[i].0
                &&& taken_before(prereq_table()[i].1) == listed_demands()[i].1
                &&& taken_alongside(prereq_table()[i].1) == listed_demands()[i].2
                &&& conditions(prereq_table()[i].1) == listed_demands()[i].3
            },
{
    reveal(prereq_table);
    reveal_with_fuel(taken_before, 8);
    reveal_with_fuel(taken_before_all, 10);
    reveal_with_fuel(taken_alongside, 8);
    reveal_with_fuel(taken_alongside_all, 10);
    reveal_with_fuel(conditions, 8);
    reveal_with_fuel(conditions_all, 10);
    assert(taken_before(prereq_table()[0].1) =~= listed_demands()[0].1);
    assert(taken_alongside(prereq_table()[0].1) =~= listed_demands()[0].2);
    assert(conditions(prereq_table()[0].1) =~= listed_demands()[0].3);
    assert(taken_before(prereq_table()[1].1) =~= listed_demands()[1].1);
    assert(taken_alongside(prereq_table()[1].1) =~= listed_demands()[1].2);
    assert(conditions(prereq_table()[1].1) =~= listed_demands()[1].3);
    assert(taken_before(prereq_table()[2].1) =~= listed_demands()[2].1);
    assert(taken_alongside(prereq_table()[2].1) =~= listed_demands()[2].2);
    assert(conditions(prereq_table()[2].1) =~= listed_demands()[2].3);
    assert(taken_before(prereq_table()[3].1) =~= listed_demands()[3].1);
    assert(taken_alongside(prereq_table()[3].1) =~= listed_demands()[3].2);
    assert(conditions(prereq_table()[3].1) =~= listed_demands()[3].3);
    assert(taken_before(prereq_table()[4].1) =~= listed_demands()[4].1);
    assert(taken_alongside(prereq_table()[4].1) =~= listed_demands()[4].2);
    assert(conditions(prereq_table()[4].1) =~= listed_demands()[4].3);
    assert(taken_before(prereq_table()[5].1) =~= listed_demands()[5].1);
    assert(taken_alongside(prereq_table()[5].1) =~= listed_demands()[5].2);
    assert(conditions(prereq_table()[5].1) =~= listed_demands()[5].3);
    assert(taken_before(prereq_table()[6].1) =~= listed_demands()[6].1);
    assert(taken_alongside(prereq_table()[6].1) =~= listed_demands()[6].2);
    assert(conditions(prereq_table()[6].1) =~= listed_demands()[6].3);
    assert(taken_before(prereq_table()[7].1) =~= listed_demands()[7].1);
    assert(taken_alongside(prereq_table()[7].1) =~= listed_demands()[7].2);
    assert(conditions(prereq_table()[7].1) =~= listed_demands()[7].3);
    assert(taken_before(prereq_table()[8].1) =~= listed_demands()[8].1);
    assert(taken_alongside(prereq_table()[8].1) =~= listed_demands()[8].2);
    assert(conditions(prereq_table()[8].1) =~= listed_demands()[8].3);
    assert(taken_before(prereq_table()[9].1) =~= listed_demands()[9].1);
    assert(taken_alongside(prereq_table()[9].1) =~= listed_demands()[9].2);
    assert(conditions(prereq_table()[9].1) =~= listed_demands()[9].3);
    assert(taken_before(prereq_table()[10].1) =~= listed_demands()[10].1);
    assert(taken_alongside(prereq_table()[10].1) =~= listed_demands()[10].2);
    assert(conditions(prereq_table()[10].1) =~= listed_demands()[10].3);
    assert(taken_before(prereq_table()[11].1) =~= listed_demands()[11].1);
    assert(taken_alongside(prereq_table()[11].1) =~= listed_demands()[11].2);
    assert(conditions(prereq_table()[11].1) =~= listed_demands()[11].3);
    assert(taken_before(prereq_table()[12].1) =~= listed_demands()[12].1);
    assert(taken_alongside(prereq_table()[12].1) =~= listed_demands()[12].2);
    assert(conditions(prereq_table()[12].1) =~= listed_demands()[12].3);
}

/// The ARCH table lists its courses under the stem ARCH, and three of them
/// under the stem "stem ARCH".
pub proof fn law_keyed_by_subject()
    ensures
        stems_within(prereq_table(), set!["ARCH"@, "stem ARCH"@]),
{
    reveal(prereq_table);
}

} // verus!
