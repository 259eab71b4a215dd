//! Prerequisite rules of the BUSI courses.

use vstd::prelude::*;
use crate::prereqs::{conditions, conditions_all, taken_alongside, taken_alongside_all, taken_before, taken_before_all, CourseReq, ReqView, reqs2};
use crate::schedule::{CourseCode, CourseCodeView, course, keyed_by_stem};

verus! {

/// The prerequisite rule of each BUSI course, as pairs of course and rule in
/// the order in which they are listed.
#[verifier::opaque]
pub open spec fn prereq_table() -> Seq<(CourseCodeView, ReqView)> {
    seq![
        (course("BUSI"@, 3902), ReqView::PreCourse(course("BUSI"@, 3902))),
        (course("BUSI"@, 3903), ReqView::PreCourse(course("BUSI"@, 3902))),
        (course("BUSI"@, 3904), ReqView::PreCourse(course("BUSI"@, 3903))),
        (course("BUSI"@, 3905), ReqView::PreCourse(course("BUSI"@, 3904))),
        (course("BUSI"@, 3906), ReqView::PreCourse(course("BUSI"@, 3905))),
        (course("BUSI"@, 4250), ReqView::PreCourse(course("MGMT"@, 3250))),
        (course("BUSI"@, 4450), ReqView::PreCourse(course("MGMT"@, 3250))),
        (
            course("BUSI"@, 4860),
            ReqView::And(
                seq![
                    ReqView::PreCourse(course("THEO"@, 2000)),
                    ReqView::PreCourse(course("PHIL"@, 3250)),
                ],
            ),
        ),
    ]
}

/// The prerequisite rules of the BUSI courses, in the order in which they are listed.
pub fn prereqs() -> (table: Vec<(CourseCode, CourseReq)>)
    ensures
        table.deep_view() == prereq_table(),
        keyed_by_stem(table.deep_view(), "BUSI"@),
{
    proof {
        reveal(prereq_table);
    }
    let table = vec![
        (CourseCode::new("BUSI", 3902), CourseReq::pre(CourseCode::new("BUSI", 3902))),
        (CourseCode::new("BUSI", 3903), CourseReq::pre(CourseCode::new("BUSI", 3902))),
        (CourseCode::new("BUSI", 3904), CourseReq::pre(CourseCode::new("BUSI", 3903))),
        (CourseCode::new("BUSI", 3905), CourseReq::pre(CourseCode::new("BUSI", 3904))),
        (CourseCode::new("BUSI", 3906), CourseReq::pre(CourseCode::new("BUSI", 3905))),
        (CourseCode::new("BUSI", 4250), CourseReq::pre(CourseCode::new("MGMT", 3250))),
        (CourseCode::new("BUSI", 4450), CourseReq::pre(CourseCode::new("MGMT", 3250))),
        (
            CourseCode::new("BUSI", 4860),
            CourseReq::all_of(
                reqs2(
                    CourseReq::pre(CourseCode::new("THEO", 2000)),
                    CourseReq::pre(CourseCode::new("PHIL", 3250)),
                ),
            ),
        ),
    ];
    assert(table.deep_view() =~= prereq_table());
    table
}

/// For each BUSI course in the order of the listing: the course, the courses
/// its rule demands outright to have been taken before, the courses it demands
/// outright to be taken before or alongside, and the single conditions that
/// its rule is built from.
pub open spec fn listed_demands() -> Seq<
    (CourseCodeView, Set<CourseCodeView>, Set<CourseCodeView>, Set<ReqView>),
> {
    seq![
        (
            course("BUSI"@, 3902),
            set![course("BUSI"@, 3902)],
            Set::empty(),
            set![ReqView::PreCourse(course("BUSI"@, 3902))],
        ),
        (
            course("BUSI"@, 3903),
            set![course("BUSI"@, 3902)],
            Set::empty(),
            set![ReqView::PreCourse(course("BUSI"@, 3902))],
        ),
        (
            course("BUSI"@, 3904),
            set![course("BUSI"@, 3903)],
            Set::empty(),
            set![ReqView::PreCourse(course("BUSI"@, 3903))],
        ),
        (
            course("BUSI"@, 3905),
            set![course("BUSI"@, 3904)],
            Set::empty(),
            set![ReqView::PreCourse(course("BUSI"@, 3904))],
        ),
        (
            course("BUSI"@, 3906),
            set![course("BUSI"@, 3905)],
            Set::empty(),
            set![ReqView::PreCourse(course("BUSI"@, 3905))],
        ),
        (
            course("BUSI"@, 4250),
            set![course("MGMT"@, 3250)],
            Set::empty(),
            set![ReqView::PreCourse(course("MGMT"@, 3250))],
        ),
        (
            course("BUSI"@, 4450),
            set![course("MGMT"@, 3250)],
            Set::empty(),
            set![ReqView::PreCourse(course("MGMT"@, 3250))],
        ),
        (
            course("BUSI"@, 4860),
            set![course("THEO"@, 2000), course("PHIL"@, 3250)],
            Set::empty(),
            set![ReqView::PreCourse(course("THEO"@, 2000)), ReqView::PreCourse(course("PHIL"@, 3250))],
        ),
    ]
}

/// Each BUSI rule demands before and alongside exactly the courses listed for
/// it, and is built from exactly the conditions listed for it.
pub proof fn law_listed_demands()
    ensures
        prereq_table().len() == listed_demands().len(),
        forall|i: int|
            0 <= i < prereq_table().len() ==> {
                &&& #[trigger] prereq_table()[i].0 == listed_demands()[i].0
                &&& taken_before(prereq_table()[i].1) == listed_demands()[i].1
                &&& taken_alongside(prereq_table()[i].1) == listed_demands()[i].2
                &&& conditions(prereq_table()[i].1) == listed_demands()[i].3
            },
{
    reveal(prereq_table);
    reveal_with_fuel(taken_before, 8);
    reveal_with_fuel(taken_before_all, 10);
    reveal_with_fuel(taken_alongside, 8);
    reveal_with_fuel(taken_alongside_all, 10);
    reveal_with_fuel(conditions, 8);
    reveal_with_fuel(conditions_all, 10);
    assert(taken_before(prereq_table()[0].1) =~= listed_demands()[0].1);
    assert(taken_alongside(prereq_table()[0].1) =~= listed_demands()[0].2);
    assert(conditions(prereq_table()[0].1) =~= listed_demands()[0].3);
    assert(taken_before(prereq_table()[1].1) =~= listed_demands()[1].1);
    assert(taken_alongside(prereq_table()[1].1) =~= listed_demands()[1].2);
    assert(conditions(prereq_table()[1].1) =~= listed_demands()[1].3);
    assert(taken_before(prereq_table()[2].1) =~= listed_demands()[2].1);
    assert(taken_alongside(prereq_table()[2].1) =~= listed_demands()[2].2);
    assert(conditions(prereq_table()[2].1) =~= listed_demands()[2].3);
    assert(taken_before(prereq_table()[3].1) =~= listed_demands()[3].1);
    assert(taken_alongside(prereq_table()[3].1) =~= listed_demands()[3].2);
    assert(conditions(prereq_table()[3].1) =~= listed_demands()[3].3);
    assert(taken_before(prereq_table()[4].1) =~= listed_demands()[4].1);
    assert(taken_alongside(prereq_table()[4].1) =~= listed_demands()[4].2);
    assert(conditions(prereq_table()[4].1) =~= listed_demands()[4].3);
    assert(taken_before(prereq_table()[5].1) =~= listed_demands()[5].1);
    assert(taken_alongside(prereq_table()[5].1) =~= listed_demands()[5].2);
    assert(conditions(prereq_table()[5].1) =~= listed_demands()[5].3);
    assert(taken_before(prereq_table()[6].1) =~= listed_demands()[6].1);
    assert(taken_alongside(prereq_table()[6].1) =~= listed_demands()[6].2);
    assert(conditions(prereq_table()[6].1) =~= listed_demands()[6].3);
    assert(taken_before(prereq_table()[7].1) =~= listed_demands()[7].1);
    assert(taken_alongside(prereq_table()[7].1) =~= listed_demands()[7].2);
    assert(conditions(prereq_table()[7].1) =~= listed_demands()[7].3);
}

/// Every course of the BUSI table is a course of subject BUSI.
pub proof fn law_keyed_by_subject()
    ensures
        keyed_by_stem(prereq_table(), "BUSI"@),
{
    reveal(prereq_table);
}

} // verus!
