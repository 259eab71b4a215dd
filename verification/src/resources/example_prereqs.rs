//! A small sample of prerequisite rules.

use vstd::prelude::*;
use crate::course_map::{CourseMap, pairs_to_map};
use crate::prereqs::{CourseReq, ReqView, reqs2, taken_before, taken_before_all};
use crate::schedule::{CourseCode, CourseCodeView, course};

verus! {

/// The sample rules, as pairs of course and rule.
pub open spec fn example_prereq_table() -> Seq<(CourseCodeView, ReqView)> {
    seq![
        (
            course("CS"@, 201),
            ReqView::And(
                seq![ReqView::PreCourse(course("CS"@, 102)), ReqView::PreCourse(course("MATH"@, 101))],
            ),
        ),
        (
            course("CS"@, 202),
            ReqView::Or(
                seq![ReqView::PreCourse(course("CS"@, 201)), ReqView::PreCourse(course("CS"@, 202))],
            ),
        ),
    ]
}

/// The sample rules gathered into a map.
pub fn example_prereqs() -> (rules: CourseMap<CourseReq>)
    ensures
        rules@ == pairs_to_map(example_prereq_table()),
{
    let pairs = vec![
        (
            CourseCode::new("CS", 201),
            CourseReq::all_of(
                reqs2(
                    CourseReq::pre(CourseCode::new("CS", 102)),
                    CourseReq::pre(CourseCode::new("MATH", 101)),
                ),
            ),
        ),
        (
            CourseCode::new("CS", 202),
            CourseReq::any_of(
                reqs2(
                    CourseReq::pre(CourseCode::new("CS", 201)),
                    CourseReq::pre(CourseCode::new("CS", 202)),
                ),
            ),
        ),
    ];
    assert(pairs.deep_view() =~= example_prereq_table());
    CourseMap::from_pairs(pairs)
}

/// CS 201 demands both CS 102 and MATH 101 to have been taken before; CS 202
/// is met by either CS 201 or CS 202, so it demands no course outright.
pub proof fn law_example_demands()
    ensures
        example_prereq_table().len() == 2,
        example_prereq_table()[0].0 == course("CS"@, 201),
        taken_before(example_prereq_table()[0].1) == set![course("CS"@, 102), course("MATH"@, 101)],
        example_prereq_table()[1].0 == course("CS"@, 202),
        example_prereq_table()[1].1 == ReqView::Or(
            seq![ReqView::PreCourse(course("CS"@, 201)), ReqView::PreCourse(course("CS"@, 202))],
        ),
        taken_before(example_prereq_table()[1].1) == Set::<CourseCodeView>::empty(),
{
    reveal_with_fuel(taken_before, 4);
    reveal_with_fuel(taken_before_all, 4);
    assert(taken_before(example_prereq_table()[0].1) =~= set![course("CS"@, 102), course("MATH"@, 101)]);
}

} // verus!
