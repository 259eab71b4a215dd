//! Prerequisite rules of the JOUR courses.

use vstd::prelude::*;
use crate::prereqs::{conditions, conditions_all, taken_alongside, taken_alongside_all, taken_before, taken_before_all, CourseReq, ReqView, reqs2};
use crate::schedule::{CourseCode, CourseCodeView, course, keyed_by_stem};

verus! {

/// The prerequisite rule of each JOUR course, as pairs of course and rule in
/// the order in which they are listed.
#[verifier::opaque]
pub open spec fn prereq_table() -> Seq<(CourseCodeView, ReqView)> {
    seq![
        (course("JOUR"@, 3225), ReqView::PreCourse(course("JOUR"@, 2620))),
        (course("JOUR"@, 3300), ReqView::PreCourse(course("JOUR"@, 2620))),
        (course("JOUR"@, 3370), ReqView::PreCourse(course("JOUR"@, 2620))),
        (course("JOUR"@, 4220), ReqView::PreCourse(course("JOUR"@, 3225))),
        (
            course("JOUR"@, 4300),
            ReqView::And(
                seq![
                    ReqView::PreCourse(course("JOUR"@, 2620)),
                    ReqView::PreCourse(course("JOUR"@, 3300)),
                ],
            ),
        ),
        (course("JOUR"@, 4340), ReqView::PreCourse(course("JOUR"@, 2620))),
    ]
}

/// The prerequisite rules of the JOUR courses, in the order in which they are listed.
pub fn prereqs() -> (table: Vec<(CourseCode, CourseReq)>)
    ensures
        table.deep_view() == prereq_table(),
        keyed_by_stem(table.deep_view(), "JOUR"@),
{
    proof {
        reveal(prereq_table);
    }
    let table = vec![
        (CourseCode::new("JOUR", 3225), CourseReq::pre(CourseCode::new("JOUR", 2620))),
        (CourseCode::new("JOUR", 3300), CourseReq::pre(CourseCode::new("JOUR", 2620))),
        (CourseCode::new("JOUR", 3370), CourseReq::pre(CourseCode::new("JOUR", 2620))),
        (CourseCode::new("JOUR", 4220), CourseReq::pre(CourseCode::new("JOUR", 3225))),
        (
            CourseCode::new("JOUR", 4300),
            CourseReq::all_of(
                reqs2(
                    CourseReq::pre(CourseCode::new("JOUR", 2620)),
                    CourseReq::pre(CourseCode::new("JOUR", 3300)),
                ),
            ),
        ),
        (CourseCode::new("JOUR", 4340), CourseReq::pre(CourseCode::new("JOUR", 2620))),
    ];
    assert(table.deep_view() =~= prereq_table());
    table
}

/// For each JOUR course in the order of the listing: the course, the courses
/// its rule demands outright to have been taken before, the courses it demands
/// outright to be taken before or alongside, and the single conditions that
/// its rule is built from.
pub open spec fn listed_demands() -> Seq<
    (CourseCodeView, Set<CourseCodeView>, Set<CourseCodeView>, Set<ReqView>),
> {
    seq![
        (
            course("JOUR"@, 3225),
            set![course("JOUR"@, 2620)],
            Set::empty(),
            set![ReqView::PreCourse(course("JOUR"@, 2620))],
        ),
        (
            course("JOUR"@, 3300),
            set![course("JOUR"@, 2620)],
            Set::empty(),
            set![ReqView::PreCourse(course("JOUR"@, 2620))],
        ),
        (
            course("JOUR"@, 3370),
            set![course("JOUR"@, 2620)],
            Set::empty(),
            set![ReqView::PreCourse(course("JOUR"@, 2620))],
        ),
        (
            course("JOUR"@, 4220),
            set![course("JOUR"@, 3225)],
            Set::empty(),
            set![ReqView::PreCourse(course("JOUR"@, 3225))],
        ),
        (
            course("JOUR"@, 4300),
            set![course("JOUR"@, 2620), course("JOUR"@, 3300)],
            Set::empty(),
            set![ReqView::PreCourse(course("JOUR"@, 2620)), ReqView::PreCourse(course("JOUR"@, 3300))],
        ),
        (
            course("JOUR"@, 4340),
            set![course("JOUR"@, 2620)],
            Set::empty(),
            set![ReqView::PreCourse(course("JOUR"@, 2620))],
        ),
    ]
}

/// Each JOUR rule demands before and alongside exactly the courses listed for
/// it, and is built from exactly the conditions listed for it.
pub proof fn law_listed_demands()
    ensures
        prereq_table().len() == listed_demands().len(),
        forall|i: int|
            0 <= i < prereq_table().len() ==> {
                &&& #[trigger] prereq_table()[i].0 == listed_demands()[i].0
                &&& taken_before(prereq_table()[i].1) == listed_demands()[i].1
                &&& taken_alongside(prereq_table()[i].1) == listed_demands()[i].2
                &&& conditions(prereq_table()[i].1) == listed_demands()[i].3
            },
{
    reveal(prereq_table);
    reveal_with_fuel(taken_before, 8);
    reveal_with_fuel(taken_before_all, 10);
    reveal_with_fuel(taken_alongside, 8);
    reveal_with_fuel(taken_alongside_all, 10);
    reveal_with_fuel(conditions, 8);
    reveal_with_fuel(conditions_all, 10);
    assert(taken_before(prereq_table()[0].1) =~= listed_demands()[0].1);
    assert(taken_alongside(prereq_table()[0].1) =~= listed_demands()[0].2);
    assert(conditions(prereq_table()[0].1) =~= listed_demands()[0].3);
    assert(taken_before(prereq_table()[1].1) =~= listed_demands()[1].1);
    assert(taken_alongside(prereq_table()[1].1) =~= listed_demands()[1].2);
    assert(conditions(prereq_table()[1].1) =~= listed_demands()[1].3);
    assert(taken_before(prereq_table()[2].1) =~= listed_demands()[2].1);
    assert(taken_alongside(prereq_table()[2].1) =~= listed_demands()[2].2);
    assert(conditions(prereq_table()[2].1) =~= listed_demands()[2].3);
    assert(taken_before(prereq_table()[3].1) =~= listed_demands()[3].1);
    assert(taken_alongside(prereq_table()[3].1) =~= listed_demands()[3].2);
    assert(conditions(prereq_table()[3].1) =~= listed_demands()[3].3);
    assert(taken_before(prereq_table()[4].1) =~= listed_demands()[4].1);
    assert(taken_alongside(prereq_table()[4].1) =~= listed_demands()[4].2);
    assert(conditions(prereq_table()[4].1) =~= listed_demands()[4].3);
    assert(taken_before(prereq_table()[5].1) =~= listed_demands()[5].1);
    assert(taken_alongside(prereq_table()[5].1) =~= listed_demands()[5].2);
    assert(conditions(prereq_table()[5].1) =~= listed_demands()[5].3);
}

/// Every course of the JOUR table is a course of subject JOUR.
pub proof fn law_keyed_by_subject()
    ensures
        keyed_by_stem(prereq_table(), "JOUR"@),
{
    reveal(prereq_table);
}

} // verus!
