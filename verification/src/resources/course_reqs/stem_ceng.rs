//! Prerequisite rules of the CENG courses.

use vstd::prelude::*;
use crate::prereqs::{conditions, conditions_all, taken_alongside, taken_alongside_all, taken_before, taken_before_all, CourseReq, ReqView, Grade, GradeLetter, GradeQualifier, grade_of, reqs2, reqs3};
use crate::schedule::{CourseCode, CourseCodeView, course, keyed_by_stem};

verus! {

/// The prerequisite rule of each CENG course, as pairs of course and rule in
/// the order in which they are listed.
#[verifier::opaque]
pub open spec fn prereq_table() -> Seq<(CourseCodeView, ReqView)> {
    seq![
        (course("CENG"@, 2010), ReqView::PreCourse(course("CHEM"@, 1210))),
        (course("CENG"@, 3050), ReqView::PreCourse(course("CENG"@, 2010))),
        (
            course("CENG"@, 3250),
            ReqView::PreCourseGrade(
                course("CENG"@, 2010),
                grade_of(GradeLetter::C, GradeQualifier::Plus),
            ),
        ),
        (
            course("CENG"@, 3300),
            ReqView::PreCourseGrade(
                course("CENG"@, 2010),
                grade_of(GradeLetter::C, GradeQualifier::Plus),
            ),
        ),
        (
            course("CENG"@, 3350),
            ReqView::PreCourseGrade(
                course("CENG"@, 2010),
                grade_of(GradeLetter::C, GradeQualifier::Plus),
            ),
        ),
        (
            course("CENG"@, 4080),
            ReqView::And(
                seq![
                    ReqView::And(
                        seq![
                            ReqView::PreCourse(course("CENG"@, 3050)),
                            ReqView::PreCourse(course("CENG"@, 4210)),
                        ],
                    ),
                    ReqView::CoCourse(course("CENG"@, 3050)),
                    ReqView::CoCourse(course("CENG"@, 4210)),
                ],
            ),
        ),
        (
            course("CENG"@, 3050),
            ReqView::And(
                seq![
                    ReqView::PreCourse(course("CENG"@, 2010)),
                    ReqView::CoCourse(course("ENGR"@, 3600)),
                ],
            ),
        ),
        (
            course("CENG"@, 3350),
            ReqView::And(
                seq![
                    ReqView::PreCourseGrade(
                        course("CENG"@, 2010),
                        grade_of(GradeLetter::C, GradeQualifier::Plus),
                    ),
                    ReqView::CoCourse(course("ENGR"@, 3150)),
                ],
            ),
        ),
        (
            course("CENG"@, 4210),
            ReqView::And(
                seq![
                    ReqView::PreCourse(course("CENG"@, 2010)),
                    ReqView::PreCourse(course("MATH"@, 2100)),
                    ReqView::CoCourse(course("ENGR"@, 3600)),
                ],
            ),
        ),
        (
            course("CENG"@, 4350),
            ReqView::And(
                seq![
                    ReqView::PreCourse(course("CENG"@, 4210)),
                    ReqView::PreCourse(course("ENGR"@, 3410)),
                ],
            ),
        ),
        (
            course("CENG"@, 4600),
            ReqView::And(
                seq![
                    ReqView::PreCourse(course("CENG"@, 4080)),
                    ReqView::PreCourse(course("ENGR"@, 3170)),
                ],
            ),
        ),
        (course("CENG"@, 4610), ReqView::PreCourse(course("CENG"@, 4600))),
        (course("CENG"@, 4810), ReqView::PreCourse(course("CENG"@, 4210))),
        (
            course("CENG"@, 4820),
            ReqView::And(
                seq![
                    ReqView::And(
                        seq![
                            ReqView::PreCourse(course("CHEM"@, 3500)),
                            ReqView::PreCourse(course("CENG"@, 4210)),
                        ],
                    ),
                    ReqView::CoCourse(course("CHEM"@, 3500)),
                    ReqView::CoCourse(course("CENG"@, 4210)),
                ],
            ),
        ),
        (
            course("CENG"@, 4830),
            ReqView::And(
                seq![
                    ReqView::And(
                        seq![
                            ReqView::PreCourse(course("ENGR"@, 3600)),
                            ReqView::PreCourse(course("CENG"@, 3050)),
                        ],
                    ),
                    ReqView::CoCourse(course("ENGR"@, 3600)),
                    ReqView::CoCourse(course("CENG"@, 3050)),
                ],
            ),
        ),
        (
            course("CENG"@, 4850),
            ReqView::And(
                seq![
                    ReqView::Or(
                        seq![
                            ReqView::PreCourse(course("CSCI"@, 2300)),
                            ReqView::PreCourse(course("ENGR"@, 2000)),
                        ],
                    ),
                    ReqView::PreCourse(course("CENG"@, 3050)),
                    ReqView::PreCourse(course("CENG"@, 4210)),
                ],
            ),
        ),
        (
            course("CENG"@, 4860),
            ReqView::And(
                seq![
                    ReqView::PreCourse(course("CENG"@, 2010)),
                    ReqView::PreCourse(course("ENGR"@, 3250)),
                    ReqView::PreCourse(course("ENGR"@, 3500)),
                ],
            ),
        ),
        (
            course("CENG"@, 4870),
            ReqView::And(
                seq![
                    ReqView::Or(
                        seq![
                            ReqView::PreCourse(course("CENG"@, 2300)),
                            ReqView::PreCourse(course("ENGR"@, 2000)),
                        ],
                    ),
                    ReqView::PreCourse(course("CHEM"@, 3800)),
                    ReqView::PreCourse(course("ENGR"@, 3250)),
                ],
            ),
        ),
    ]
}

/// The prerequisite rules of the CENG courses, in the order in which they are listed.
pub fn prereqs() -> (table: Vec<(CourseCode, CourseReq)>)
    ensures
        table.deep_view() == prereq_table(),
        keyed_by_stem(table.deep_view(), "CENG"@),
{
    proof {
        reveal(prereq_table);
    }
    let table = vec![
        (CourseCode::new("CENG", 2010), CourseReq::pre(CourseCode::new("CHEM", 1210))),
        (CourseCode::new("CENG", 3050), CourseReq::pre(CourseCode::new("CENG", 2010))),
        (
            CourseCode::new("CENG", 3250),
            CourseReq::pre_grade(
                CourseCode::new("CENG", 2010),
                Grade::new(GradeLetter::C, GradeQualifier::Plus),
            ),
        ),
        (
            CourseCode::new("CENG", 3300),
            CourseReq::pre_grade(
                CourseCode::new("CENG", 2010),
                Grade::new(GradeLetter::C, GradeQualifier::Plus),
            ),
        ),
        (
            CourseCode::new("CENG", 3350),
            CourseReq::pre_grade(
                CourseCode::new("CENG", 2010),
                Grade::new(GradeLetter::C, GradeQualifier::Plus),
            ),
        ),
        (
            CourseCode::new("CENG", 4080),
            CourseReq::all_of(
                reqs3(
                    CourseReq::all_of(
                        reqs2(
                            CourseReq::pre(CourseCode::new("CENG", 3050)),
                            CourseReq::pre(CourseCode::new("CENG", 4210)),
                        ),
                    ),
                    CourseReq::co(CourseCode::new("CENG", 3050)),
                    CourseReq::co(CourseCode::new("CENG", 4210)),
                ),
            ),
        ),
        (
            CourseCode::new("CENG", 3050),
            CourseReq::all_of(
                reqs2(
                    CourseReq::pre(CourseCode::new("CENG", 2010)),
                    CourseReq::co(CourseCode::new("ENGR", 3600)),
                ),
            ),
        ),
        (
            CourseCode::new("CENG", 3350),
            CourseReq::all_of(
                reqs2(
                    CourseReq::pre_grade(
                        CourseCode::new("CENG", 2010),
                        Grade::new(GradeLetter::C, GradeQualifier::Plus),
                    ),
                    CourseReq::co(CourseCode::new("ENGR", 3150)),
                ),
            ),
        ),
        (
            CourseCode::new("CENG", 4210),
            CourseReq::all_of(
                reqs3(
                    CourseReq::pre(CourseCode::new("CENG", 2010)),
                    CourseReq::pre(CourseCode::new("MATH", 2100)),
                    CourseReq::co(CourseCode::new("ENGR", 3600)),
                ),
            ),
        ),
        (
            CourseCode::new("CENG", 4350),
            CourseReq::all_of(
                reqs2(
                    CourseReq::pre(CourseCode::new("CENG", 4210)),
                    CourseReq::pre(CourseCode::new("ENGR", 3410)),
                ),
            ),
        ),
        (
            CourseCode::new("CENG", 4600),
            CourseReq::all_of(
                reqs2(
                    CourseReq::pre(CourseCode::new("CENG", 4080)),
                    CourseReq::pre(CourseCode::new("ENGR", 3170)),
                ),
            ),
        ),
        (CourseCode::new("CENG", 4610), CourseReq::pre(CourseCode::new("CENG", 4600))),
        (CourseCode::new("CENG", 4810), CourseReq::pre(CourseCode::new("CENG", 4210))),
        (
            CourseCode::new("CENG", 4820),
            CourseReq::all_of(
                reqs3(
                    CourseReq::all_of(
                        reqs2(
                            CourseReq::pre(CourseCode::new("CHEM", 3500)),
                            CourseReq::pre(CourseCode::new("CENG", 4210)),
                        ),
                    ),
                    CourseReq::co(CourseCode::new("CHEM", 3500)),
                    CourseReq::co(CourseCode::new("CENG", 4210)),
                ),
            ),
        ),
        (
            CourseCode::new("CENG", 4830),
            CourseReq::all_of(
                reqs3(
                    CourseReq::all_of(
                        reqs2(
                            CourseReq::pre(CourseCode::new("ENGR", 3600)),
                            CourseReq::pre(CourseCode::new("CENG", 3050)),
                        ),
                    ),
                    CourseReq::co(CourseCode::new("ENGR", 3600)),
                    CourseReq::co(CourseCode::new("CENG", 3050)),
                ),
            ),
        ),
        (
            CourseCode::new("CENG", 4850),
            CourseReq::all_of(
                reqs3(
                    CourseReq::any_of(
                        reqs2(
                            CourseReq::pre(CourseCode::new("CSCI", 2300)),
                            CourseReq::pre(CourseCode::new("ENGR", 2000)),
                        ),
                    ),
                    CourseReq::pre(CourseCode::new("CENG", 3050)),
                    CourseReq::pre(CourseCode::new("CENG", 4210)),
                ),
            ),
        ),
        (
            CourseCode::new("CENG", 4860),
            CourseReq::all_of(
                reqs3(
                    CourseReq::pre(CourseCode::new("CENG", 2010)),
                    CourseReq::pre(CourseCode::new("ENGR", 3250)),
                    CourseReq::pre(CourseCode::new("ENGR", 3500)),
                ),
            ),
        ),
        (
            CourseCode::new("CENG", 4870),
            CourseReq::all_of(
                reqs3(
                    CourseReq::any_of(
                        reqs2(
                            CourseReq::pre(CourseCode::new("CENG", 2300)),
                            CourseReq::pre(CourseCode::new("ENGR", 2000)),
                        ),
                    ),
                    CourseReq::pre(CourseCode::new("CHEM", 3800)),
                    CourseReq::pre(CourseCode::new("ENGR", 3250)),
                ),
            ),
        ),
    ];
    assert(table.deep_view() =~= prereq_table());
    table
}

/// For each CENG course in the order of the listing: the course, the courses
/// its rule demands outright to have been taken before, the courses it demands
/// outright to be taken before or alongside, and the single conditions that
/// its rule is built from.
pub open spec fn listed_demands() -> Seq<
    (CourseCodeView, Set<CourseCodeView>, Set<CourseCodeView>, Set<ReqView>),
> {
    seq![
        (
            course("CENG"@, 2010),
            set![course("CHEM"@, 1210)],
            Set::empty(),
            set![ReqView::PreCourse(course("CHEM"@, 1210))],
        ),
        (
            course("CENG"@, 3050),
            set![course("CENG"@, 2010)],
            Set::empty(),
            set![ReqView::PreCourse(course("CENG"@, 2010))],
        ),
        (
            course("CENG"@, 3250),
            set![course("CENG"@, 2010)],
            Set::empty(),
            set![ReqView::PreCourseGrade(course("CENG"@, 2010), grade_of(GradeLetter::C, GradeQualifier::Plus))],
        ),
        (
            course("CENG"@, 3300),
            set![course("CENG"@, 2010)],
            Set::empty(),
            set![ReqView::PreCourseGrade(course("CENG"@, 2010), grade_of(GradeLetter::C, GradeQualifier::Plus))],
        ),
        (
            course("CENG"@, 3350),
            set![course("CENG"@, 2010)],
            Set::empty(),
            set![ReqView::PreCourseGrade(course("CENG"@, 2010), grade_of(GradeLetter::C, GradeQualifier::Plus))],
        ),
        (
            course("CENG"@, 4080),
            set![course("CENG"@, 3050), course("CENG"@, 4210)],
            set![course("CENG"@, 3050), course("CENG"@, 4210)],
            set![ReqView::PreCourse(course("CENG"@, 3050)), ReqView::PreCourse(course("CENG"@, 4210)), ReqView::CoCourse(course("CENG"@, 3050)), ReqView::CoCourse(course("CENG"@, 4210))],
        ),
        (
            course("CENG"@, 3050),
            set![course("CENG"@, 2010)],
            set![course("ENGR"@, 3600)],
            set![ReqView::PreCourse(course("CENG"@, 2010)), ReqView::CoCourse(course("ENGR"@, 3600))],
        ),
        (
            course("CENG"@, 3350),
            set![course("CENG"@, 2010)],
            set![course("ENGR"@, 3150)],
            set![ReqView::PreCourseGrade(course("CENG"@, 2010), grade_of(GradeLetter::C, GradeQualifier::Plus)), ReqView::CoCourse(course("ENGR"@, 3150))],
        ),
        (
            course("CENG"@, 4210),
            set![course("CENG"@, 2010), course("MATH"@, 2100)],
            set![course("ENGR"@, 3600)],
            set![ReqView::PreCourse(course("CENG"@, 2010)), ReqView::PreCourse(course("MATH"@, 2100)), ReqView::CoCourse(course("ENGR"@, 3600))],
        ),
        (
            course("CENG"@, 4350),
            set![course("CENG"@, 4210), course("ENGR"@, 3410)],
            Set::empty(),
            set![ReqView::PreCourse(course("CENG"@, 4210)), ReqView::PreCourse(course("ENGR"@, 3410))],
        ),
        (
            course("CENG"@, 4600),
            set![course("CENG"@, 4080), course("ENGR"@, 3170)],
            Set::empty(),
            set![ReqView::PreCourse(course("CENG"@, 4080)), ReqView::PreCourse(course("ENGR"@, 3170))],
        ),
        (
            course("CENG"@, 4610),
            set![course("CENG"@, 4600)],
            Set::empty(),
            set![ReqView::PreCourse(course("CENG"@, 4600))],
        ),
        (
            course("CENG"@, 4810),
            set![course("CENG"@, 4210)],
            Set::empty(),
            set![ReqView::PreCourse(course("CENG"@, 4210))],
        ),
        (
            course("CENG"@, 4820),
            set![course("CHEM"@, 3500), course("CENG"@, 4210)],
            set![course("CHEM"@, 3500), course("CENG"@, 4210)],
            set![ReqView::PreCourse(course("CHEM"@, 3500)), ReqView::PreCourse(course("CENG"@, 4210)), ReqView::CoCourse(course("CHEM"@, 3500)), ReqView::CoCourse(course("CENG"@, 4210))],
        ),
        (
            course("CENG"@, 4830),
            set![course("ENGR"@, 3600), course("CENG"@, 3050)],
            set![course("ENGR"@, 3600), course("CENG"@, 3050)],
            set![ReqView::PreCourse(course("ENGR"@, 3600)), ReqView::PreCourse(course("CENG"@, 3050)), ReqView::CoCourse(course("ENGR"@, 3600)), ReqView::CoCourse(course("CENG"@, 3050))],
        ),
        (
            course("CENG"@, 4850),
            set![course("CENG"@, 3050), course("CENG"@, 4210)],
            Set::empty(),
            set![ReqView::PreCourse(course("CSCI"@, 2300)), ReqView::PreCourse(course("ENGR"@, 2000)), ReqView::PreCourse(course("CENG"@, 3050)), ReqView::PreCourse(course("CENG"@, 4210))],
        ),
        (
            course("CENG"@, 4860),
            set![course("CENG"@, 2010), course("ENGR"@, 3250), course("ENGR"@, 3500)],
            Set::empty(),
            set![ReqView::PreCourse(course("CENG"@, 2010)), ReqView::PreCourse(course("ENGR"@, 3250)), ReqView::PreCourse(course("ENGR"@, 3500))],
        ),
        (
            course("CENG"@, 4870),
            set![course("CHEM"@, 3800), course("ENGR"@, 3250)],
            Set::empty(),
            set![ReqView::PreCourse(course("CENG"@, 2300)), ReqView::PreCourse(course("ENGR"@, 2000)), ReqView::PreCourse(course("CHEM"@, 3800)), ReqView::PreCourse(course("ENGR"@, 3250))],
        ),
    ]
}

/// Each CENG rule demands before and alongside exactly the courses listed for
/// it, and is built from exactly the conditions listed for it.
pub proof fn law_listed_demands()
    ensures
        prereq_table().len() == listed_demands().len(),
        forall|i: int|
            0 <= i < prereq_table().len() ==> {
                &&& #[trigger] prereq_table()[i].0 == listed_demands()[i].0
                &&& taken_before(prereq_table()[i].1) == listed_demands()[i].1
                &&& taken_alongside(prereq_table()[i].1) == listed_demands()[i].2
                &&& conditions(prereq_table()[i].1) == listed_demands()[i].3
            },
{
    reveal(prereq_table);
    reveal_with_fuel(taken_before, 8);
    reveal_with_fuel(taken_before_all, 10);
    reveal_with_fuel(taken_alongside, 8);
    reveal_with_fuel(taken_alongside_all, 10);
    reveal_with_fuel(conditions, 8);
    reveal_with_fuel(conditions_all, 10);
    assert(taken_before(prereq_table()[0].1) =~= listed_demands()[0].1);
    assert(taken_alongside(prereq_table()[0].1) =~= listed_demands()[0].2);
    assert(conditions(prereq_table()[0].1) =~= listed_demands()[0].3);
    assert(taken_before(prereq_table()[1].1) =~= listed_demands()[1].1);
    assert(taken_alongside(prereq_table()[1].1) =~= listed_demands()[1].2);
    assert(conditions(prereq_table()[1].1) =~= listed_demands()[1].3);
    assert(taken_before(prereq_table()[2].1) =~= listed_demands()[2].1);
    assert(taken_alongside(prereq_table()[2].1) =~= listed_demands()[2].2);
    assert(conditions(prereq_table()[2].1) =~= listed_demands()[2].3);
    assert(taken_before(prereq_table()[3].1) =~= listed_demands()[3].1);
    assert(taken_alongside(prereq_table()[3].1) =~= listed_demands()[3].2);
    assert(conditions(prereq_table()[3].1) =~= listed_demands()[3].3);
    assert(taken_before(prereq_table()[4].1) =~= listed_demands()[4].1);
    assert(taken_alongside(prereq_table()[4].1) =~= listed_demands()[4].2);
    assert(conditions(prereq_table()[4].1) =~= listed_demands()[4].3);
    assert(taken_before(prereq_table()[5].1) =~= listed_demands()[5].1);
    assert(taken_alongside(prereq_table()[5].1) =~= listed_demands()[5].2);
    assert(conditions(prereq_table()[5].1) =~= listed_demands()[5].3);
    assert(taken_before(prereq_table()[6].1) =~= listed_demands()[6].1);
    assert(taken_alongside(prereq_table()[6].1) =~= listed_demands()[6].2);
    assert(conditions(prereq_table()[6].1) =~= listed_demands()[6].3);
    assert(taken_before(prereq_table()[7].1) =~= listed_demands()[7].1);
    assert(taken_alongside(prereq_table()[7].1) =~= listed_demands()[7].2);
    assert(conditions(prereq_table()[7].1) =~= listed_demands()[7].3);
    assert(taken_before(prereq_table()[8].1) =~= listed_demands()[8].1);
    assert(taken_alongside(prereq_table()[8].1) =~= listed_demands()[8].2);
    assert(conditions(prereq_table()[8].1) =~= listed_demands()[8].3);
    assert(taken_before(prereq_table()[9].1) =~= listed_demands()[9].1);
    assert(taken_alongside(prereq_table()[9].1) =~= listed_demands()[9].2);
    assert(conditions(prereq_table()[9].1) =~= listed_demands()[9].3);
    assert(taken_before(prereq_table()[10].1) =~= listed_demands()[10].1);
    assert(taken_alongside(prereq_table()[10].1) =~= listed_demands()[10].2);
    assert(conditions(prereq_table()[10].1) =~= listed_demands()[10].3);
    assert(taken_before(prereq_table()[11].1) =~= listed_demands()[11].1);
    assert(taken_alongside(prereq_table()[11].1) =~= listed_demands()[11].2);
    assert(conditions(prereq_table()[11].1) =~= listed_demands()[11].3);
    assert(taken_before(prereq_table()[12].1) =~= listed_demands()[12].1);
    assert(taken_alongside(prereq_table()[12].1) =~= listed_demands()[12].2);
    assert(conditions(prereq_table()[12].1) =~= listed_demands()[12].3);
    assert(taken_before(prereq_table()[13].1) =~= listed_demands()[13].1);
    assert(taken_alongside(prereq_table()[13].1) =~= listed_demands()[13].2);
    assert(conditions(prereq_table()[13].1) =~= listed_demands()[13].3);
    assert(taken_before(prereq_table()[14].1) =~= listed_demands()[14].1);
    assert(taken_alongside(prereq_table()[14].1) =~= listed_demands()[14].2);
    assert(conditions(prereq_table()[14].1) =~= listed_demands()[14].3);
    assert(taken_before(prereq_table()[15].1) =~= listed_demands()[15].1);
    assert(taken_alongside(prereq_table()[15].1) =~= listed_demands()[15].2);
    assert(conditions(prereq_table()[15].1) =~= listed_demands()[15].3);
    assert(taken_before(prereq_table()[16].1) =~= listed_demands()[16].1);
    assert(taken_alongside(prereq_table()[16].1) =~= listed_demands()[16].2);
    assert(conditions(prereq_table()[16].1) =~= listed_demands()[16].3);
    assert(taken_before(prereq_table()[17].1) =~= listed_demands()[17].1);
    assert(taken_alongside(prereq_table()[17].1) =~= listed_demands()[17].2);
    assert(conditions(prereq_table()[17].1) =~= listed_demands()[17].3);
}

/// Every course of the CENG table is a course of subject CENG.
pub proof fn law_keyed_by_subject()
    ensures
        keyed_by_stem(prereq_table(), "CENG"@),
{
    reveal(prereq_table);
}

} // verus!
