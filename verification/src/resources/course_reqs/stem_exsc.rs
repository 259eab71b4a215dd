//! Prerequisite rules of the EXSC courses.

use vstd::prelude::*;
use crate::prereqs::{conditions, conditions_all, taken_alongside, taken_alongside_all, taken_before, taken_before_all, CourseReq, ReqView, reqs2, reqs3};
use crate::schedule::{CourseCode, CourseCodeView, course, keyed_by_stem};

verus! {

/// The prerequisite rule of each EXSC course, as pairs of course and rule in
/// the order in which they are listed.
#[verifier::opaque]
pub open spec fn prereq_table() -> Seq<(CourseCodeView, ReqView)> {
    seq![
        (course("EXSC"@, 1112), ReqView::PreCourse(course("EXSC"@, 1108))),
        (course("EXSC"@, 1128), ReqView::Instructor),
        (
            course("EXSC"@, 3310),
            ReqView::Or(
                seq![
                    ReqView::And(
                        seq![
                            ReqView::PreCourse(course("EXSC"@, 2240)),
                            ReqView::PreCourse(course("EXSC"@, 2263)),
                            ReqView::PreCourse(course("EXSC"@, 3303)),
                        ],
                    ),
                    ReqView::Instructor,
                ],
            ),
        ),
        (
            course("EXSC"@, 3366),
            ReqView::Or(
                seq![
                    ReqView::PreCourse(course("BIOL"@, 2242)),
                    ReqView::PreCourse(course("BIOL"@, 2243)),
                    ReqView::PreCourse(course("EXSC"@, 2240)),
                ],
            ),
        ),
        (
            course("EXSC"@, 3380),
            ReqView::Or(
                seq![
                    ReqView::PreCourse(course("BIOL"@, 2242)),
                    ReqView::PreCourse(course("BIOL"@, 2243)),
                    ReqView::PreCourse(course("EXSC"@, 2240)),
                ],
            ),
        ),
    ]
}

/// The prerequisite rules of the EXSC courses, in the order in which they are listed.
pub fn prereqs() -> (table: Vec<(CourseCode, CourseReq)>)
    ensures
        table.deep_view() == prereq_table(),
        keyed_by_stem(table.deep_view(), "EXSC"@),
{
    proof {
        reveal(prereq_table);
    }
    let table = vec![
        (CourseCode::new("EXSC", 1112), CourseReq::pre(CourseCode::new("EXSC", 1108))),
        (CourseCode::new("EXSC", 1128), CourseReq::instructor()),
        (
            CourseCode::new("EXSC", 3310),
            CourseReq::any_of(
                reqs2(
                    CourseReq::all_of(
                        reqs3(
                            CourseReq::pre(CourseCode::new("EXSC", 2240)),
                            CourseReq::pre(CourseCode::new("EXSC", 2263)),
                            CourseReq::pre(CourseCode::new("EXSC", 3303)),
                        ),
                    ),
                    CourseReq::instructor(),
                ),
            ),
        ),
        (
            CourseCode::new("EXSC", 3366),
            CourseReq::any_of(
                reqs3(
                    CourseReq::pre(CourseCode::new("BIOL", 2242)),
                    CourseReq::pre(CourseCode::new("BIOL", 2243)),
                    CourseReq::pre(CourseCode::new("EXSC", 2240)),
                ),
            ),
        ),
        (
            CourseCode::new("EXSC", 3380),
            CourseReq::any_of(
                reqs3(
                    CourseReq::pre(CourseCode::new("BIOL", 2242)),
                    CourseReq::pre(CourseCode::new("BIOL", 2243)),
                    CourseReq::pre(CourseCode::new("EXSC", 2240)),
                ),
            ),
        ),
    ];
    assert(table.deep_view() =~= prereq_table());
    table
}

/// For each EXSC course in the order of the listing: the course, the courses
/// its rule demands outright to have been taken before, the courses it demands
/// outright to be taken before or alongside, and the single conditions that
/// its rule is built from.
pub open spec fn listed_demands() -> Seq<
    (CourseCodeView, Set<CourseCodeView>, Set<CourseCodeView>, Set<ReqView>),
> {
    seq![
        (
            course("EXSC"@, 1112),
            set![course("EXSC"@, 1108)],
            Set::empty(),
            set![ReqView::PreCourse(course("EXSC"@, 1108))],
        ),
        (
            course("EXSC"@, 1128),
            Set::empty(),
            Set::empty(),
            set![ReqView::Instructor],
        ),
        (
            course("EXSC"@, 3310),
            Set::empty(),
            Set::empty(),
            set![ReqView::PreCourse(course("EXSC"@, 2240)), ReqView::PreCourse(course("EXSC"@, 2263)), ReqView::PreCourse(course("EXSC"@, 3303)), ReqView::Instructor],
        ),
        (
            course("EXSC"@, 3366),
            Set::empty(),
            Set::empty(),
            set![ReqView::PreCourse(course("BIOL"@, 2242)), ReqView::PreCourse(course("BIOL"@, 2243)), ReqView::PreCourse(course("EXSC"@, 2240))],
        ),
        (
            course("EXSC"@, 3380),
            Set::empty(),
            Set::empty(),
            set![ReqView::PreCourse(course("BIOL"@, 2242)), ReqView::PreCourse(course("BIOL"@, 2243)), ReqView::PreCourse(course("EXSC"@, 2240))],
        ),
    ]
}

/// Each EXSC rule demands before and alongside exactly the courses listed for
/// it, and is built from exactly the conditions listed for it.
pub proof fn law_listed_demands()
    ensures
        prereq_table().len() == listed_demands().len(),
        forall|i: int|
            0 <= i < prereq_table().len() ==> {
                &&& #[trigger] prereq_table()[i].0 == listed_demands()[i].0
                &&& taken_before(prereq_table()[i].1) == listed_demands()[i].1
                &&& taken_alongside(prereq_table()[i].1) == listed_demands()[i].2
                &&& conditions(prereq_table()[i].1) == listed_demands()[i].3
            },
{
    reveal(prereq_table);
    reveal_with_fuel(taken_before, 8);
    reveal_with_fuel(taken_before_all, 10);
    reveal_with_fuel(taken_alongside, 8);
    reveal_with_fuel(taken_alongside_all, 10);
    reveal_with_fuel(conditions, 8);
    reveal_with_fuel(conditions_all, 10);
    assert(taken_before(prereq_table()[0].1) =~= listed_demands()[0].1);
    assert(taken_alongside(prereq_table()[0].1) =~= listed_demands()[0].2);
    assert(conditions(prereq_table()[0].1) =~= listed_demands()[0].3);
    assert(taken_before(prereq_table()[1].1) =~= listed_demands()[1].1);
    assert(taken_alongside(prereq_table()[1].1) =~= listed_demands()[1].2);
    assert(conditions(prereq_table()[1].1) =~= listed_demands()[1].3);
    assert(taken_before(prereq_table()[2].1) =~= listed_demands()[2].1);
    assert(taken_alongside(prereq_table()[2].1) =~= listed_demands()[2].2);
    assert(conditions(prereq_table()[2].1) =~= listed_demands()[2].3);
    assert(taken_before(prereq_table()[3].1) =~= listed_demands()[3].1);
    assert(taken_alongside(prereq_table()[3].1) =~= listed_demands()[3].2);
    assert(conditions(prereq_table()[3].1) =~= listed_demands()[3].3);
    assert(taken_before(prereq_table()[4].1) =~= listed_demands()[4].1);
    assert(taken_alongside(prereq_table()[4].1) =~= listed_demands()[4].2);
    assert(conditions(prereq_table()[4].1) =~= listed_demands()[4].3);
}

/// Every course of the EXSC table is a course of subject EXSC.
pub proof fn law_keyed_by_subject()
    ensures
        keyed_by_stem(prereq_table(), "EXSC"@),
{
    reveal(prereq_table);
}

} // verus!
