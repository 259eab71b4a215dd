//! Prerequisite rules of the MCOM courses.

use vstd::prelude::*;
use crate::prereqs::{conditions, conditions_all, taken_alongside, taken_alongside_all, taken_before, taken_before_all, CourseReq, ReqView, reqs2};
use crate::schedule::{CourseCode, CourseCodeView, course, special_course, keyed_by_stem};

verus! {

/// The prerequisite rule of each MCOM course, as pairs of course and rule in
/// the order in which they are listed.
#[verifier::opaque]
pub open spec fn prereq_table() -> Seq<(CourseCodeView, ReqView)> {
    seq![
        (course("MCOM"@, 1610), ReqView::Instructor),
        (course("MCOM"@, 3320), ReqView::PreCourse(course("MCOM"@, 2000))),
        (course("MCOM"@, 3325), ReqView::PreCourse(course("MCOM"@, 3225))),
        (
            course("MCOM"@, 3330),
            ReqView::Or(seq![ReqView::PreCourse(course("JOUR"@, 2620)), ReqView::Instructor]),
        ),
        (course("MCOM"@, 3610), ReqView::PreCourse(course("MCOM"@, 2610))),
        (course("MCOM"@, 4090), ReqView::PreCourse(special_course("MCOM"@, "SE"@))),
        (course("MCOM"@, 4220), ReqView::PreCourse(course("MCOM"@, 3225))),
        (
            course("MCOM"@, 4330),
            ReqView::And(
                seq![
                    ReqView::PreCourse(course("JOUR"@, 2620)),
                    ReqView::PreCourse(course("MCOM"@, 3330)),
                ],
            ),
        ),
        (course("MCOM"@, 4680), ReqView::PreCourse(course("MCOM"@, 3680))),
    ]
}

/// The prerequisite rules of the MCOM courses, in the order in which they are listed.
pub fn prereqs() -> (table: Vec<(CourseCode, CourseReq)>)
    ensures
        table.deep_view() == prereq_table(),
        keyed_by_stem(table.deep_view(), "MCOM"@),
{
    proof {
        reveal(prereq_table);
    }
    let table = vec![
        (CourseCode::new("MCOM", 1610), CourseReq::instructor()),
        (CourseCode::new("MCOM", 3320), CourseReq::pre(CourseCode::new("MCOM", 2000))),
        (CourseCode::new("MCOM", 3325), CourseReq::pre(CourseCode::new("MCOM", 3225))),
        (
            CourseCode::new("MCOM", 3330),
            CourseReq::any_of(
                reqs2(CourseReq::pre(CourseCode::new("JOUR", 2620)), CourseReq::instructor()),
            ),
        ),
        (CourseCode::new("MCOM", 3610), CourseReq::pre(CourseCode::new("MCOM", 2610))),
        (CourseCode::new("MCOM", 4090), CourseReq::pre(CourseCode::special("MCOM", "SE"))),
        (CourseCode::new("MCOM", 4220), CourseReq::pre(CourseCode::new("MCOM", 3225))),
        (
            CourseCode::new("MCOM", 4330),
            CourseReq::all_of(
                reqs2(
                    CourseReq::pre(CourseCode::new("JOUR", 2620)),
                    CourseReq::pre(CourseCode::new("MCOM", 3330)),
                ),
            ),
        ),
        (CourseCode::new("MCOM", 4680), CourseReq::pre(CourseCode::new("MCOM", 3680))),
    ];
    assert(table.deep_view() =~= prereq_table());
    table
}

/// For each MCOM course in the order of the listing: the course, the courses
/// its rule demands outright to have been taken before, the courses it demands
/// outright to be taken before or alongside, and the single conditions that
/// its rule is built from.
pub open spec fn listed_demands() -> Seq<
    (CourseCodeView, Set<CourseCodeView>, Set<CourseCodeView>, Set<ReqView>),
> {
    seq![
        (
            course("MCOM"@, 1610),
            Set::empty(),
            Set::empty(),
            set![ReqView::Instructor],
        ),
        (
            course("MCOM"@, 3320),
            set![course("MCOM"@, 2000)],
            Set::empty(),
            set![ReqView::PreCourse(course("MCOM"@, 2000))],
        ),
        (
            course("MCOM"@, 3325),
            set![course("MCOM"@, 3225)],
            Set::empty(),
            set![ReqView::PreCourse(course("MCOM"@, 3225))],
        ),
        (
            course("MCOM"@, 3330),
            Set::empty(),
            Set::empty(),
            set![ReqView::PreCourse(course("JOUR"@, 2620)), ReqView::Instructor],
        ),
        (
            course("MCOM"@, 3610),
            set![course("MCOM"@, 2610)],
            Set::empty(),
            set![ReqView::PreCourse(course("MCOM"@, 2610))],
        ),
        (
            course("MCOM"@, 4090),
            set![special_course("MCOM"@, "SE"@)],
            Set::empty(),
            set![ReqView::PreCourse(special_course("MCOM"@, "SE"@))],
        ),
        (
            course("MCOM"@, 4220),
            set![course("MCOM"@, 3225)],
            Set::empty(),
            set![ReqView::PreCourse(course("MCOM"@, 3225))],
        ),
        (
            course("MCOM"@, 4330),
            set![course("JOUR"@, 2620), course("MCOM"@, 3330)],
            Set::empty(),
            set![ReqView::PreCourse(course("JOUR"@, 2620)), ReqView::PreCourse(course("MCOM"@, 3330))],
        ),
        (
            course("MCOM"@, 4680),
            set![course("MCOM"@, 3680)],
            Set::empty(),
            set![ReqView::PreCourse(course("MCOM"@, 3680))],
        ),
    ]
}

/// Each MCOM rule demands before and alongside exactly the courses listed for
/// it, and is built from exactly the conditions listed for it.
pub proof fn law_listed_demands()
    ensures
        prereq_table().len() == listed_demands().len(),
        forall|i: int|
            0 <= i < prereq_table().len() ==> {
                &&& #[trigger] prereq_table()[i].0 == listed_demands()[i].0
                &&& taken_before(prereq_table()[i].1) == listed_demands()[i].1
                &&& taken_alongside(prereq_table()[i].1) == listed_demands()[i].2
                &&& conditions(prereq_table()[i].1) == listed_demands()[i].3
            },
{
    reveal(prereq_table);
    reveal_with_fuel(taken_before, 8);
    reveal_with_fuel(taken_before_all, 10);
    reveal_with_fuel(taken_alongside, 8);
    reveal_with_fuel(taken_alongside_all, 10);
    reveal_with_fuel(conditions, 8);
    reveal_with_fuel(conditions_all, 10);
    assert(taken_before(prereq_table()[0].1) =~= listed_demands()[0].1);
    assert(taken_alongside(prereq_table()[0].1) =~= listed_demands()[0].2);
    assert(conditions(prereq_table()[0].1) =~= listed_demands()[0].3);
    assert(taken_before(prereq_table()[1].1) =~= listed_demands()[1].1);
    assert(taken_alongside(prereq_table()[1].1) =~= listed_demands()[1].2);
    assert(conditions(prereq_table()[1].1) =~= listed_demands()[1].3);
    assert(taken_before(prereq_table()[2].1) =~= listed_demands()[2].1);
    assert(taken_alongside(prereq_table()[2].1) =~= listed_demands()[2].2);
    assert(conditions(prereq_table()[2].1) =~= listed_demands()[2].3);
    assert(taken_before(prereq_table()[3].1) =~= listed_demands()[3].1);
    assert(taken_alongside(prereq_table()[3].1) =~= listed_demands()[3].2);
    assert(conditions(prereq_table()[3].1) =~= listed_demands()[3].3);
    assert(taken_before(prereq_table()[4].1) =~= listed_demands()[4].1);
    assert(taken_alongside(prereq_table()[4].1) =~= listed_demands()[4].2);
    assert(conditions(prereq_table()[4].1) =~= listed_demands()[4].3);
    assert(taken_before(prereq_table()[5].1) =~= listed_demands()[5].1);
    assert(taken_alongside(prereq_table()[5].1) =~= listed_demands()[5].2);
    assert(conditions(prereq_table()[5].1) =~= listed_demands()[5].3);
    assert(taken_before(prereq_table()[6].1) =~= listed_demands()[6].1);
    assert(taken_alongside(prereq_table()[6].1) =~= listed_demands()[6].2);
    assert(conditions(prereq_table()[6].1) =~= listed_demands()[6].3);
    assert(taken_before(prereq_table()[7].1) =~= listed_demands()[7].1);
    assert(taken_alongside(prereq_table()[7].1) =~= listed_demands()[7].2);
    assert(conditions(prereq_table()[7].1) =~= listed_demands()[7].3);
    assert(taken_before(prereq_table()[8].1) =~= listed_demands()[8].1);
    assert(taken_alongside(prereq_table()[8].1) =~= listed_demands()[8].2);
    assert(conditions(prereq_table()[8].1) =~= listed_demands()[8].3);
}

/// Every course of the MCOM table is a course of subject MCOM.
pub proof fn law_keyed_by_subject()
    ensures
        keyed_by_stem(prereq_table(), "MCOM"@),
{
    reveal(prereq_table);
}

} // verus!
