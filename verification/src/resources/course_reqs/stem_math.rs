//! Prerequisite rules of the MATH courses.

use vstd::prelude::*;
use crate::prereqs::{conditions, conditions_all, taken_alongside, taken_alongside_all, taken_before, taken_before_all, CourseReq, ReqView, Grade, GradeLetter, GradeQualifier, grade_of, ClassStanding, reqs2, reqs3};
use crate::schedule::{CourseCode, CourseCodeView, course, special_course, keyed_by_stem};

verus! {

/// The prerequisite rule of each MATH course, as pairs of course and rule in
/// the order in which they are listed.
#[verifier::opaque]
pub open spec fn prereq_table() -> Seq<(CourseCodeView, ReqView)> {
    seq![
        (course("MATH"@, 1040), ReqView::Instructor),
        (course("MATH"@, 1110), ReqView::PreCourse(special_course("MATH"@, "PROGRAM"@))),
        (
            course("MATH"@, 1300),
            ReqView::Or(
                seq![
                    ReqView::PreCourseGrade(
                        course("MATH"@, 1250),
                        grade_of(GradeLetter::C, GradeQualifier::Flat),
                    ),
                    ReqView::PreCourse(special_course("MATH"@, "E1250"@)),
                ],
            ),
        ),
        (course("MATH"@, 1120), ReqView::PreCourse(course("MATH"@, 1110))),
        (course("MATH"@, 1130), ReqView::PreCourse(course("MATH"@, 1110))),
        (course("MATH"@, 1350), ReqView::PreCourse(course("MATH"@, 1300))),
        (course("MATH"@, 2300), ReqView::PreCourse(course("MATH"@, 1350))),
        (course("MATH"@, 2500), ReqView::PreCourse(course("MATH"@, 1300))),
        (course("MATH"@, 2900), ReqView::PreCourse(course("MATH"@, 1300))),
        (course("MATH"@, 3100), ReqView::PreCourse(course("MATH"@, 2300))),
        (course("MATH"@, 3200), ReqView::PreCourse(course("MATH"@, 2300))),
        (
            course("MATH"@, 3300),
            ReqView::And(
                seq![
                    ReqView::PreCourse(course("MATH"@, 1350)),
                    ReqView::Or(
                        seq![
                            ReqView::PreCourse(course("CSCI"@, 1140)),
                            ReqView::PreCourse(course("CSCI"@, 2300)),
                            ReqView::PreCourse(course("ENGR"@, 2000)),
                        ],
                    ),
                ],
            ),
        ),
        (
            course("MATH"@, 3400),
            ReqView::Or(seq![ReqView::PreCourse(course("MATH"@, 2250)), ReqView::Instructor]),
        ),
        (
            course("MATH"@, 3600),
            ReqView::And(
                seq![
                    ReqView::PreCourse(course("MATH"@, 2500)),
                    ReqView::PreCourse(course("MATH"@, 2550)),
                ],
            ),
        ),
        (
            course("MATH"@, 3610),
            ReqView::And(
                seq![
                    ReqView::PreCourse(course("MATH"@, 2500)),
                    ReqView::PreCourse(course("MATH"@, 2550)),
                ],
            ),
        ),
        (
            course("MATH"@, 4457),
            ReqView::And(
                seq![
                    ReqView::PreCourse(special_course("MATH"@, "PROGRAM"@)),
                    ReqView::PreCourse(course("EDUC"@, 3332)),
                ],
            ),
        ),
        (
            course("MATH"@, 4600),
            ReqView::And(
                seq![
                    ReqView::PreCourse(course("MATH"@, 2500)),
                    ReqView::PreCourse(course("MATH"@, 2550)),
                ],
            ),
        ),
        (course("MATH"@, 4700), ReqView::PreCourse(course("MATH"@, 2300))),
        (
            course("MATH"@, 4800),
            ReqView::And(
                seq![
                    ReqView::PreCourse(course("MATH"@, 2300)),
                    ReqView::PreCourse(course("MATH"@, 2550)),
                ],
            ),
        ),
        (
            course("MATH"@, 4930),
            ReqView::And(
                seq![
                    ReqView::Or(
                        seq![
                            ReqView::Standing(ClassStanding::Junior),
                            ReqView::PreCourse(special_course("MATH"@, "SE"@)),
                        ],
                    ),
                    ReqView::PreCourse(special_course("MATH"@, "PROGRAM"@)),
                    ReqView::Instructor,
                ],
            ),
        ),
    ]
}

/// The prerequisite rules of the MATH courses, in the order in which they are listed.
pub fn prereqs() -> (table: Vec<(CourseCode, CourseReq)>)
    ensures
        table.deep_view() == prereq_table(),
        keyed_by_stem(table.deep_view(), "MATH"@),
{
    proof {
        reveal(prereq_table);
    }
    let table = vec![
        (CourseCode::new("MATH", 1040), CourseReq::instructor()),
        (CourseCode::new("MATH", 1110), CourseReq::pre(CourseCode::special("MATH", "PROGRAM"))),
        (
            CourseCode::new("MATH", 1300),
            CourseReq::any_of(
                reqs2(
                    CourseReq::pre_grade(
                        CourseCode::new("MATH", 1250),
                        Grade::new(GradeLetter::C, GradeQualifier::Flat),
                    ),
                    CourseReq::pre(CourseCode::special("MATH", "E1250")),
                ),
            ),
        ),
        (CourseCode::new("MATH", 1120), CourseReq::pre(CourseCode::new("MATH", 1110))),
        (CourseCode::new("MATH", 1130), CourseReq::pre(CourseCode::new("MATH", 1110))),
        (CourseCode::new("MATH", 1350), CourseReq::pre(CourseCode::new("MATH", 1300))),
        (CourseCode::new("MATH", 2300), CourseReq::pre(CourseCode::new("MATH", 1350))),
        (CourseCode::new("MATH", 2500), CourseReq::pre(CourseCode::new("MATH", 1300))),
        (CourseCode::new("MATH", 2900), CourseReq::pre(CourseCode::new("MATH", 1300))),
        (CourseCode::new("MATH", 3100), CourseReq::pre(CourseCode::new("MATH", 2300))),
        (CourseCode::new("MATH", 3200), CourseReq::pre(CourseCode::new("MATH", 2300))),
        (
            CourseCode::new("MATH", 3300),
            CourseReq::all_of(
                reqs2(
                    CourseReq::pre(CourseCode::new("MATH", 1350)),
                    CourseReq::any_of(
                        reqs3(
                            CourseReq::pre(CourseCode::new("CSCI", 1140)),
                            CourseReq::pre(CourseCode::new("CSCI", 2300)),
                            CourseReq::pre(CourseCode::new("ENGR", 2000)),
                        ),
                    ),
                ),
            ),
        ),
        (
            CourseCode::new("MATH", 3400),
            CourseReq::any_of(
                reqs2(CourseReq::pre(CourseCode::new("MATH", 2250)), CourseReq::instructor()),
            ),
        ),
        (
            CourseCode::new("MATH", 3600),
            CourseReq::all_of(
                reqs2(
                    CourseReq::pre(CourseCode::new("MATH", 2500)),
                    CourseReq::pre(CourseCode::new("MATH", 2550)),
                ),
            ),
        ),
        (
            CourseCode::new("MATH", 3610),
            CourseReq::all_of(
                reqs2(
                    CourseReq::pre(CourseCode::new("MATH", 2500)),
                    CourseReq::pre(CourseCode::new("MATH", 2550)),
                ),
            ),
        ),
        (
            CourseCode::new("MATH", 4457),
            CourseReq::all_of(
                reqs2(
                    CourseReq::pre(CourseCode::special("MATH", "PROGRAM")),
                    CourseReq::pre(CourseCode::new("EDUC", 3332)),
                ),
            ),
        ),
        (
            CourseCode::new("MATH", 4600),
            CourseReq::all_of(
                reqs2(
                    CourseReq::pre(CourseCode::new("MATH", 2500)),
                    CourseReq::pre(CourseCode::new("MATH", 2550)),
                ),
            ),
        ),
        (CourseCode::new("MATH", 4700), CourseReq::pre(CourseCode::new("MATH", 2300))),
        (
            CourseCode::new("MATH", 4800),
            CourseReq::all_of(
                reqs2(
                    CourseReq::pre(CourseCode::new("MATH", 2300)),
                    CourseReq::pre(CourseCode::new("MATH", 2550)),
                ),
            ),
        ),
        (
            CourseCode::new("MATH", 4930),
            CourseReq::all_of(
                reqs3(
                    CourseReq::any_of(
                        reqs2(
                            CourseReq::standing(ClassStanding::Junior),
                            CourseReq::pre(CourseCode::special("MATH", "SE")),
                        ),
                    ),
                    CourseReq::pre(CourseCode::special("MATH", "PROGRAM")),
                    CourseReq::instructor(),
                ),
            ),
        ),
    ];
    assert(table.deep_view() =~= prereq_table());
    table
}

/// For each MATH course in the order of the listing: the course, the courses
/// its rule demands outright to have been taken before, the courses it demands
/// outright to be taken before or alongside, and the single conditions that
/// its rule is built from.
pub open spec fn listed_demands() -> Seq<
    (CourseCodeView, Set<CourseCodeView>, Set<CourseCodeView>, Set<ReqView>),
> {
    seq![
        (
            course("MATH"@, 1040),
            Set::empty(),
            Set::empty(),
            set![ReqView::Instructor],
        ),
        (
            course("MATH"@, 1110),
            set![special_course("MATH"@, "PROGRAM"@)],
            Set::empty(),
            set![ReqView::PreCourse(special_course("MATH"@, "PROGRAM"@))],
        ),
        (
            course("MATH"@, 1300),
            Set::empty(),
            Set::empty(),
            set![ReqView::PreCourseGrade(course("MATH"@, 1250), grade_of(GradeLetter::C, GradeQualifier::Flat)), ReqView::PreCourse(special_course("MATH"@, "E1250"@))],
        ),
        (
            course("MATH"@, 1120),
            set![course("MATH"@, 1110)],
            Set::empty(),
            set![ReqView::PreCourse(course("MATH"@, 1110))],
        ),
        (
            course("MATH"@, 1130),
            set![course("MATH"@, 1110)],
            Set::empty(),
            set![ReqView::PreCourse(course("MATH"@, 1110))],
        ),
        (
            course("MATH"@, 1350),
            set![course("MATH"@, 1300)],
            Set::empty(),
            set![ReqView::PreCourse(course("MATH"@, 1300))],
        ),
        (
            course("MATH"@, 2300),
            set![course("MATH"@, 1350)],
            Set::empty(),
            set![ReqView::PreCourse(course("MATH"@, 1350))],
        ),
        (
            course("MATH"@, 2500),
            set![course("MATH"@, 1300)],
            Set::empty(),
            set![ReqView::PreCourse(course("MATH"@, 1300))],
        ),
        (
            course("MATH"@, 2900),
            set![course("MATH"@, 1300)],
            Set::empty(),
            set![ReqView::PreCourse(course("MATH"@, 1300))],
        ),
        (
            course("MATH"@, 3100),
            set![course("MATH"@, 2300)],
            Set::empty(),
            set![ReqView::PreCourse(course("MATH"@, 2300))],
        ),
        (
            course("MATH"@, 3200),
            set![course("MATH"@, 2300)],
            Set::empty(),
            set![ReqView::PreCourse(course("MATH"@, 2300))],
        ),
        (
            course("MATH"@, 3300),
            set![course("MATH"@, 1350)],
            Set::empty(),
            set![ReqView::PreCourse(course("MATH"@, 1350)), ReqView::PreCourse(course("CSCI"@, 1140)), ReqView::PreCourse(course("CSCI"@, 2300)), ReqView::PreCourse(course("ENGR"@, 2000))],
        ),
        (
            course("MATH"@, 3400),
            Set::empty(),
            Set::empty(),
            set![ReqView::PreCourse(course("MATH"@, 2250)), ReqView::Instructor],
        ),
        (
            course("MATH"@, 3600),
            set![course("MATH"@, 2500), course("MATH"@, 2550)],
            Set::empty(),
            set![ReqView::PreCourse(course("MATH"@, 2500)), ReqView::PreCourse(course("MATH"@, 2550))],
        ),
        (
            course("MATH"@, 3610),
            set![course("MATH"@, 2500), course("MATH"@, 2550)],
            Set::empty(),
            set![ReqView::PreCourse(course("MATH"@, 2500)), ReqView::PreCourse(course("MATH"@, 2550))],
        ),
        (
            course("MATH"@, 4457),
            set![special_course("MATH"@, "PROGRAM"@), course("EDUC"@, 3332)],
            Set::empty(),
            set![ReqView::PreCourse(special_course("MATH"@, "PROGRAM"@)), ReqView::PreCourse(course("EDUC"@, 3332))],
        ),
        (
            course("MATH"@, 4600),
            set![course("MATH"@, 2500), course("MATH"@, 2550)],
            Set::empty(),
            set![ReqView::PreCourse(course("MATH"@, 2500)), ReqView::PreCourse(course("MATH"@, 2550))],
        ),
        (
            course("MATH"@, 4700),
            set![course("MATH"@, 2300)],
            Set::empty(),
            set![ReqView::PreCourse(course("MATH"@, 2300))],
        ),
        (
            course("MATH"@, 4800),
            set![course("MATH"@, 2300), course("MATH"@, 2550)],
            Set::empty(),
            set![ReqView::PreCourse(course("MATH"@, 2300)), ReqView::PreCourse(course("MATH"@, 2550))],
        ),
        (
            course("MATH"@, 4930),
            set![special_course("MATH"@, "PROGRAM"@)],
            Set::empty(),
            set![ReqView::Standing(ClassStanding::Junior), ReqView::PreCourse(special_course("MATH"@, "SE"@)), ReqView::PreCourse(special_course("MATH"@, "PROGRAM"@)), ReqView::Instructor],
        ),
    ]
}

/// Each MATH rule demands before and alongside exactly the courses listed for
/// it, and is built from exactly the conditions listed for it.
pub proof fn law_listed_demands()
    ensures
        prereq_table().len() == listed_demands().len(),
        forall|i: int|
            0 <= i < prereq_table().len() ==> {
                &&& #[trigger] prereq_table()[i].0 == listed_demands()[i].0
                &&& taken_before(prereq_table()[i].1) == listed_demands()[i].1
                &&& taken_alongside(prereq_table()[i].1) == listed_demands()[i].2
                &&& conditions(prereq_table()[i].1) == listed_demands()[i].3
            },
{
    reveal(prereq_table);
    reveal_with_fuel(taken_before, 8);
    reveal_with_fuel(taken_before_all, 10);
    reveal_with_fuel(taken_alongside, 8);
    reveal_with_fuel(taken_alongside_all, 10);
    reveal_with_fuel(conditions, 8);
    reveal_with_fuel(conditions_all, 10);
    assert(taken_before(prereq_table()[0].1) =~= listed_demands()[0].1);
    assert(taken_alongside(prereq_table()[0].1) =~= listed_demands()[0].2);
    assert(conditions(prereq_table()[0].1) =~= listed_demands()[0].3);
    assert(taken_before(prereq_table()[1].1) =~= listed_demands()[1].1);
    assert(taken_alongside(prereq_table()[1].1) =~= listed_demands()[1].2);
    assert(conditions(prereq_table()[1].1) =~= listed_demands()[1].3);
    assert(taken_before(prereq_table()[2].1) =~= listed_demands()[2].1);
    assert(taken_alongside(prereq_table()[2].1) =~= listed_demands()[2].2);
    assert(conditions(prereq_table()[2].1) =~= listed_demands()[2].3);
    assert(taken_before(prereq_table()[3].1) =~= listed_demands()[3].1);
    assert(taken_alongside(prereq_table()[3].1) =~= listed_demands()[3].2);
    assert(conditions(prereq_table()[3].1) =~= listed_demands()[3].3);
    assert(taken_before(prereq_table()[4].1) =~= listed_demands()[4].1);
    assert(taken_alongside(prereq_table()[4].1) =~= listed_demands()[4].2);
    assert(conditions(prereq_table()[4].1) =~= listed_demands()[4].3);
    assert(taken_before(prereq_table()[5].1) =~= listed_demands()[5].1);
    assert(taken_alongside(prereq_table()[5].1) =~= listed_demands()[5].2);
    assert(conditions(prereq_table()[5].1) =~= listed_demands()[5].3);
    assert(taken_before(prereq_table()[6].1) =~= listed_demands()[6].1);
    assert(taken_alongside(prereq_table()[6].1) =~= listed_demands()[6].2);
    assert(conditions(prereq_table()[6].1) =~= listed_demands()[6].3);
    assert(taken_before(prereq_table()[7].1) =~= listed_demands()[7].1);
    assert(taken_alongside(prereq_table()[7].1) =~= listed_demands()[7].2);
    assert(conditions(prereq_table()[7].1) =~= listed_demands()[7].3);
    assert(taken_before(prereq_table()[8].1) =~= listed_demands()[8].1);
    assert(taken_alongside(prereq_table()[8].1) =~= listed_demands()[8].2);
    assert(conditions(prereq_table()[8].1) =~= listed_demands()[8].3);
    assert(taken_before(prereq_table()[9].1) =~= listed_demands()[9].1);
    assert(taken_alongside(prereq_table()[9].1) =~= listed_demands()[9].2);
    assert(conditions(prereq_table()[9].1) =~= listed_demands()[9].3);
    assert(taken_before(prereq_table()[10].1) =~= listed_demands()[10].1);
    assert(taken_alongside(prereq_table()[10].1) =~= listed_demands()[10].2);
    assert(conditions(prereq_table()[10].1) =~= listed_demands()[10].3);
    assert(taken_before(prereq_table()[11].1) =~= listed_demands()[11].1);
    assert(taken_alongside(prereq_table()[11].1) =~= listed_demands()[11].2);
    assert(conditions(prereq_table()[11].1) =~= listed_demands()[11].3);
    assert(taken_before(prereq_table()[12].1) =~= listed_demands()[12].1);
    assert(taken_alongside(prereq_table()[12].1) =~= listed_demands()[12].2);
    assert(conditions(prereq_table()[12].1) =~= listed_demands()[12].3);
    assert(taken_before(prereq_table()[13].1) =~= listed_demands()[13].1);
    assert(taken_alongside(prereq_table()[13].1) =~= listed_demands()[13].2);
    assert(conditions(prereq_table()[13].1) =~= listed_demands()[13].3);
    assert(taken_before(prereq_table()[14].1) =~= listed_demands()[14].1);
    assert(taken_alongside(prereq_table()[14].1) =~= listed_demands()[14].2);
    assert(conditions(prereq_table()[14].1) =~= listed_demands()[14].3);
    assert(taken_before(prereq_table()[15].1) =~= listed_demands()[15].1);
    assert(taken_alongside(prereq_table()[15].1) =~= listed_demands()[15].2);
    assert(conditions(prereq_table()[15].1) =~= listed_demands()[15].3);
    assert(taken_before(prereq_table()[16].1) =~= listed_demands()[16].1);
    assert(taken_alongside(prereq_table()[16].1) =~= listed_demands()[16].2);
    assert(conditions(prereq_table()[16].1) =~= listed_demands()[16].3);
    assert(taken_before(prereq_table()[17].1) =~= listed_demands()[17].1);
    assert(taken_alongside(prereq_table()[17].1) =~= listed_demands()[17].2);
    assert(conditions(prereq_table()[17].1) =~= listed_demands()[17].3);
    assert(taken_before(prereq_table()[18].1) =~= listed_demands()[18].1);
    assert(taken_alongside(prereq_table()[18].1) =~= listed_demands()[18].2);
    assert(conditions(prereq_table()[18].1) =~= listed_demands()[18].3);
    assert(taken_before(prereq_table()[19].1) =~= listed_demands()[19].1);
    assert(taken_alongside(prereq_table()[19].1) =~= listed_demands()[19].2);
    assert(conditions(prereq_table()[19].1) =~= listed_demands()[19].3);
}

/// Every course of the MATH table is a course of subject MATH.
pub proof fn law_keyed_by_subject()
    ensures
        keyed_by_stem(prereq_table(), "MATH"@),
{
    reveal(prereq_table);
}

} // verus!
