//! Prerequisite rules of the ENGL courses.

use vstd::prelude::*;
use crate::prereqs::{conditions, conditions_all, taken_alongside, taken_alongside_all, taken_before, taken_before_all, CourseReq, ReqView, reqs2, reqs5, reqs6};
use crate::schedule::{CourseCode, CourseCodeView, course, keyed_by_stem};

verus! {

/// The prerequisite rule of each ENGL course, as pairs of course and rule in
/// the order in which they are listed.
#[verifier::opaque]
pub open spec fn prereq_table() -> Seq<(CourseCodeView, ReqView)> {
    seq![
        (
            course("ENGL"@, 3010),
            ReqView::Or(
                seq![
                    ReqView::PreCourse(course("ENGL"@, 1500)),
                    ReqView::PreCourse(course("ENGL"@, 1550)),
                    ReqView::PreCourse(course("ENGL"@, 1600)),
                    ReqView::PreCourse(course("ENGL"@, 1650)),
                    ReqView::PreCourse(course("ENGL"@, 1700)),
                    ReqView::PreCourse(course("ENGL"@, 1750)),
                ],
            ),
        ),
        (
            course("ENGL"@, 3030),
            ReqView::Or(
                seq![
                    ReqView::PreCourse(course("ENGL"@, 1500)),
                    ReqView::PreCourse(course("ENGL"@, 1550)),
                    ReqView::PreCourse(course("ENGL"@, 1600)),
                    ReqView::PreCourse(course("ENGL"@, 1650)),
                    ReqView::PreCourse(course("ENGL"@, 1700)),
                    ReqView::PreCourse(course("ENGL"@, 1750)),
                ],
            ),
        ),
        (
            course("ENGL"@, 3040),
            ReqView::Or(
                seq![
                    ReqView::PreCourse(course("ENGL"@, 1500)),
                    ReqView::PreCourse(course("ENGL"@, 1550)),
                    ReqView::PreCourse(course("ENGL"@, 1600)),
                    ReqView::PreCourse(course("ENGL"@, 1650)),
                    ReqView::PreCourse(course("ENGL"@, 1700)),
                    ReqView::PreCourse(course("ENGL"@, 1750)),
                ],
            ),
        ),
        (
            course("ENGL"@, 3050),
            ReqView::Or(
                seq![
                    ReqView::PreCourse(course("ENGL"@, 1500)),
                    ReqView::PreCourse(course("ENGL"@, 1550)),
                    ReqView::PreCourse(course("ENGL"@, 1600)),
                    ReqView::PreCourse(course("ENGL"@, 1650)),
                    ReqView::PreCourse(course("ENGL"@, 1700)),
                    ReqView::PreCourse(course("ENGL"@, 1750)),
                ],
            ),
        ),
        (
            course("ENGL"@, 3060),
            ReqView::Or(
                seq![
                    ReqView::PreCourse(course("ENGL"@, 1500)),
                    ReqView::PreCourse(course("ENGL"@, 1550)),
                    ReqView::PreCourse(course("ENGL"@, 1600)),
                    ReqView::PreCourse(course("ENGL"@, 1650)),
                    ReqView::PreCourse(course("ENGL"@, 1700)),
                    ReqView::PreCourse(course("ENGL"@, 1750)),
                ],
            ),
        ),
        (
            course("ENGL"@, 3070),
            ReqView::Or(
                seq![
                    ReqView::PreCourse(course("ENGL"@, 1500)),
                    ReqView::PreCourse(course("ENGL"@, 1550)),
                    ReqView::PreCourse(course("ENGL"@, 1600)),
                    ReqView::PreCourse(course("ENGL"@, 1650)),
                    ReqView::PreCourse(course("ENGL"@, 1700)),
                    ReqView::PreCourse(course("ENGL"@, 1750)),
                ],
            ),
        ),
        (
            course("ENGL"@, 3110),
            ReqView::Or(
                seq![
                    ReqView::PreCourse(course("ENGL"@, 1500)),
                    ReqView::PreCourse(course("ENGL"@, 1550)),
                    ReqView::PreCourse(course("ENGL"@, 1600)),
                    ReqView::PreCourse(course("ENGL"@, 1650)),
                    ReqView::PreCourse(course("ENGL"@, 1700)),
                    ReqView::PreCourse(course("ENGL"@, 1750)),
                ],
            ),
        ),
        (
            course("ENGL"@, 3120),
            ReqView::Or(
                seq![
                    ReqView::PreCourse(course("ENGL"@, 1500)),
                    ReqView::PreCourse(course("ENGL"@, 1550)),
                    ReqView::PreCourse(course("ENGL"@, 1600)),
                    ReqView::PreCourse(course("ENGL"@, 1650)),
                    ReqView::PreCourse(course("ENGL"@, 1700)),
                    ReqView::PreCourse(course("ENGL"@, 1750)),
                ],
            ),
        ),
        (
            course("ENGL"@, 3130),
            ReqView::Or(
                seq![
                    ReqView::PreCourse(course("ENGL"@, 1500)),
                    ReqView::PreCourse(course("ENGL"@, 1550)),
                    ReqView::PreCourse(course("ENGL"@, 1600)),
                    ReqView::PreCourse(course("ENGL"@, 1650)),
                    ReqView::PreCourse(course("ENGL"@, 1700)),
                    ReqView::PreCourse(course("ENGL"@, 1750)),
                ],
            ),
        ),
        (
            course("ENGL"@, 3140),
            ReqView::Or(
                seq![
                    ReqView::PreCourse(course("ENGL"@, 1500)),
                    ReqView::PreCourse(course("ENGL"@, 1550)),
                    ReqView::PreCourse(course("ENGL"@, 1600)),
                    ReqView::PreCourse(course("ENGL"@, 1650)),
                    ReqView::PreCourse(course("ENGL"@, 1700)),
                    ReqView::PreCourse(course("ENGL"@, 1750)),
                ],
            ),
        ),
        (
            course("ENGL"@, 3150),
            ReqView::Or(
                seq![
                    ReqView::PreCourse(course("ENGL"@, 1500)),
                    ReqView::PreCourse(course("ENGL"@, 1550)),
                    ReqView::PreCourse(course("ENGL"@, 1600)),
                    ReqView::PreCourse(course("ENGL"@, 1650)),
                    ReqView::PreCourse(course("ENGL"@, 1700)),
                    ReqView::PreCourse(course("ENGL"@, 1750)),
                ],
            ),
        ),
        (course("ENGL"@, 3200), ReqView::Instructor),
        (course("ENGL"@, 3201), ReqView::Instructor),
        (
            course("ENGL"@, 3260),
            ReqView::Or(
                seq![
                    ReqView::PreCourse(course("ENGL"@, 1010)),
                    ReqView::PreCourse(course("ENGL"@, 1030)),
                ],
            ),
        ),
        (
            course("ENGL"@, 3357),
            ReqView::Or(
                seq![
                    ReqView::PreCourse(course("ENGL"@, 1500)),
                    ReqView::PreCourse(course("ENGL"@, 1550)),
                    ReqView::PreCourse(course("ENGL"@, 1600)),
                    ReqView::PreCourse(course("ENGL"@, 1650)),
                    ReqView::PreCourse(course("ENGL"@, 1700)),
                    ReqView::PreCourse(course("ENGL"@, 1750)),
                ],
            ),
        ),
        (
            course("ENGL"@, 4010),
            ReqView::Or(
                seq![
                    ReqView::PreCourse(course("ENGL"@, 1500)),
                    ReqView::PreCourse(course("ENGL"@, 1550)),
                    ReqView::PreCourse(course("ENGL"@, 1600)),
                    ReqView::PreCourse(course("ENGL"@, 1650)),
                    ReqView::PreCourse(course("ENGL"@, 1700)),
                    ReqView::PreCourse(course("ENGL"@, 1750)),
                ],
            ),
        ),
        (
            course("ENGL"@, 4020),
            ReqView::Or(
                seq![
                    ReqView::PreCourse(course("ENGL"@, 1500)),
                    ReqView::PreCourse(course("ENGL"@, 1550)),
                    ReqView::PreCourse(course("ENGL"@, 1600)),
                    ReqView::PreCourse(course("ENGL"@, 1650)),
                    ReqView::PreCourse(course("ENGL"@, 1700)),
                    ReqView::PreCourse(course("ENGL"@, 1750)),
                ],
            ),
        ),
        (
            course("ENGL"@, 4040),
            ReqView::Or(
                seq![
                    ReqView::PreCourse(course("ENGL"@, 1500)),
                    ReqView::PreCourse(course("ENGL"@, 1550)),
                    ReqView::PreCourse(course("ENGL"@, 1600)),
                    ReqView::PreCourse(course("ENGL"@, 1650)),
                    ReqView::PreCourse(course("ENGL"@, 1700)),
                    ReqView::PreCourse(course("ENGL"@, 1750)),
                ],
            ),
        ),
        (
            course("ENGL"@, 4050),
            ReqView::Or(
                seq![
                    ReqView::PreCourse(course("ENGL"@, 1500)),
                    ReqView::PreCourse(course("ENGL"@, 1550)),
                    ReqView::PreCourse(course("ENGL"@, 1600)),
                    ReqView::PreCourse(course("ENGL"@, 1650)),
                    ReqView::PreCourse(course("ENGL"@, 1700)),
                    ReqView::PreCourse(course("ENGL"@, 1750)),
                ],
            ),
        ),
        (
            course("ENGL"@, 4060),
            ReqView::Or(
                seq![
                    ReqView::PreCourse(course("ENGL"@, 1500)),
                    ReqView::PreCourse(course("ENGL"@, 1550)),
                    ReqView::PreCourse(course("ENGL"@, 1600)),
                    ReqView::PreCourse(course("ENGL"@, 1650)),
                    ReqView::PreCourse(course("ENGL"@, 1700)),
                    ReqView::PreCourse(course("ENGL"@, 1750)),
                ],
            ),
        ),
        (
            course("ENGL"@, 4110),
            ReqView::Or(
                seq![
                    ReqView::PreCourse(course("ENGL"@, 1500)),
                    ReqView::PreCourse(course("ENGL"@, 1550)),
                    ReqView::PreCourse(course("ENGL"@, 1600)),
                    ReqView::PreCourse(course("ENGL"@, 1650)),
                    ReqView::PreCourse(course("ENGL"@, 1700)),
                    ReqView::PreCourse(course("ENGL"@, 1750)),
                ],
            ),
        ),
        (
            course("ENGL"@, 4130),
            ReqView::Or(
                seq![
                    ReqView::PreCourse(course("ENGL"@, 1500)),
                    ReqView::PreCourse(course("ENGL"@, 1550)),
                    ReqView::PreCourse(course("ENGL"@, 1600)),
                    ReqView::PreCourse(course("ENGL"@, 1650)),
                    ReqView::PreCourse(course("ENGL"@, 1700)),
                    ReqView::PreCourse(course("ENGL"@, 1750)),
                ],
            ),
        ),
        (
            course("ENGL"@, 4140),
            ReqView::Or(
                seq![
                    ReqView::PreCourse(course("ENGL"@, 1500)),
                    ReqView::PreCourse(course("ENGL"@, 1550)),
                    ReqView::PreCourse(course("ENGL"@, 1600)),
                    ReqView::PreCourse(course("ENGL"@, 1650)),
                    ReqView::PreCourse(course("ENGL"@, 1700)),
                    ReqView::PreCourse(course("ENGL"@, 1750)),
                ],
            ),
        ),
        (
            course("ENGL"@, 4200),
            ReqView::Or(
                seq![
                    ReqView::PreCourse(course("ENGL"@, 1500)),
                    ReqView::PreCourse(course("ENGL"@, 1550)),
                    ReqView::PreCourse(course("ENGL"@, 1600)),
                    ReqView::PreCourse(course("ENGL"@, 1650)),
                    ReqView::PreCourse(course("ENGL"@, 1700)),
                    ReqView::PreCourse(course("ENGL"@, 1750)),
                ],
            ),
        ),
        (course("ENGL"@, 4250), ReqView::PreCourse(course("ENGL"@, 3250))),
        (
            course("ENGL"@, 4500),
            ReqView::Or(
                seq![
                    ReqView::PreCourse(course("THEO"@, 1100)),
                    ReqView::PreCourse(course("ENGL"@, 1600)),
                    ReqView::PreCourse(course("ENGL"@, 1650)),
                    ReqView::PreCourse(course("ENGL"@, 1700)),
                    ReqView::PreCourse(course("ENGL"@, 1750)),
                ],
            ),
        ),
    ]
}

/// The prerequisite rules of the ENGL courses, in the order in which they are listed.
#[verifier::rlimit(40)]
pub fn prereqs() -> (table: Vec<(CourseCode, CourseReq)>)
    ensures
        table.deep_view() == prereq_table(),
        keyed_by_stem(table.deep_view(), "ENGL"@),
{
    proof {
        reveal(prereq_table);
    }
    let table = vec![
        (
            CourseCode::new("ENGL", 3010),
            CourseReq::any_of(
                reqs6(
                    CourseReq::pre(CourseCode::new("ENGL", 1500)),
                    CourseReq::pre(CourseCode::new("ENGL", 1550)),
                    CourseReq::pre(CourseCode::new("ENGL", 1600)),
                    CourseReq::pre(CourseCode::new("ENGL", 1650)),
                    CourseReq::pre(CourseCode::new("ENGL", 1700)),
                    CourseReq::pre(CourseCode::new("ENGL", 1750)),
                ),
            ),
        ),
        (
            CourseCode::new("ENGL", 3030),
            CourseReq::any_of(
                reqs6(
                    CourseReq::pre(CourseCode::new("ENGL", 1500)),
                    CourseReq::pre(CourseCode::new("ENGL", 1550)),
                    CourseReq::pre(CourseCode::new("ENGL", 1600)),
                    CourseReq::pre(CourseCode::new("ENGL", 1650)),
                    CourseReq::pre(CourseCode::new("ENGL", 1700)),
                    CourseReq::pre(CourseCode::new("ENGL", 1750)),
                ),
            ),
        ),
        (
            CourseCode::new("ENGL", 3040),
            CourseReq::any_of(
                reqs6(
                    CourseReq::pre(CourseCode::new("ENGL", 1500)),
                    CourseReq::pre(CourseCode::new("ENGL", 1550)),
                    CourseReq::pre(CourseCode::new("ENGL", 1600)),
                    CourseReq::pre(CourseCode::new("ENGL", 1650)),
                    CourseReq::pre(CourseCode::new("ENGL", 1700)),
                    CourseReq::pre(CourseCode::new("ENGL", 1750)),
                ),
            ),
        ),
        (
            CourseCode::new("ENGL", 3050),
            CourseReq::any_of(
                reqs6(
                    CourseReq::pre(CourseCode::new("ENGL", 1500)),
                    CourseReq::pre(CourseCode::new("ENGL", 1550)),
                    CourseReq::pre(CourseCode::new("ENGL", 1600)),
                    CourseReq::pre(CourseCode::new("ENGL", 1650)),
                    CourseReq::pre(CourseCode::new("ENGL", 1700)),
                    CourseReq::pre(CourseCode::new("ENGL", 1750)),
                ),
            ),
        ),
        (
            CourseCode::new("ENGL", 3060),
            CourseReq::any_of(
                reqs6(
                    CourseReq::pre(CourseCode::new("ENGL", 1500)),
                    CourseReq::pre(CourseCode::new("ENGL", 1550)),
                    CourseReq::pre(CourseCode::new("ENGL", 1600)),
                    CourseReq::pre(CourseCode::new("ENGL", 1650)),
                    CourseReq::pre(CourseCode::new("ENGL", 1700)),
                    CourseReq::pre(CourseCode::new("ENGL", 1750)),
                ),
            ),
        ),
        (
            CourseCode::new("ENGL", 3070),
            CourseReq::any_of(
                reqs6(
                    CourseReq::pre(CourseCode::new("ENGL", 1500)),
                    CourseReq::pre(CourseCode::new("ENGL", 1550)),
                    CourseReq::pre(CourseCode::new("ENGL", 1600)),
                    CourseReq::pre(CourseCode::new("ENGL", 1650)),
                    CourseReq::pre(CourseCode::new("ENGL", 1700)),
                    CourseReq::pre(CourseCode::new("ENGL", 1750)),
                ),
            ),
        ),
        (
            CourseCode::new("ENGL", 3110),
            CourseReq::any_of(
                reqs6(
                    CourseReq::pre(CourseCode::new("ENGL", 1500)),
                    CourseReq::pre(CourseCode::new("ENGL", 1550)),
                    CourseReq::pre(CourseCode::new("ENGL", 1600)),
                    CourseReq::pre(CourseCode::new("ENGL", 1650)),
                    CourseReq::pre(CourseCode::new("ENGL", 1700)),
                    CourseReq::pre(CourseCode::new("ENGL", 1750)),
                ),
            ),
        ),
        (
            CourseCode::new("ENGL", 3120),
            CourseReq::any_of(
                reqs6(
                    CourseReq::pre(CourseCode::new("ENGL", 1500)),
                    CourseReq::pre(CourseCode::new("ENGL", 1550)),
                    CourseReq::pre(CourseCode::new("ENGL", 1600)),
                    CourseReq::pre(CourseCode::new("ENGL", 1650)),
                    CourseReq::pre(CourseCode::new("ENGL", 1700)),
                    CourseReq::pre(CourseCode::new("ENGL", 1750)),
                ),
            ),
        ),
        (
            CourseCode::new("ENGL", 3130),
            CourseReq::any_of(
                reqs6(
                    CourseReq::pre(CourseCode::new("ENGL", 1500)),
                    CourseReq::pre(CourseCode::new("ENGL", 1550)),
                    CourseReq::pre(CourseCode::new("ENGL", 1600)),
                    CourseReq::pre(CourseCode::new("ENGL", 1650)),
                    CourseReq::pre(CourseCode::new("ENGL", 1700)),
                    CourseReq::pre(CourseCode::new("ENGL", 1750)),
                ),
            ),
        ),
        (
            CourseCode::new("ENGL", 3140),
            CourseReq::any_of(
                reqs6(
                    CourseReq::pre(CourseCode::new("ENGL", 1500)),
                    CourseReq::pre(CourseCode::new("ENGL", 1550)),
                    CourseReq::pre(CourseCode::new("ENGL", 1600)),
                    CourseReq::pre(CourseCode::new("ENGL", 1650)),
                    CourseReq::pre(CourseCode::new("ENGL", 1700)),
                    CourseReq::pre(CourseCode::new("ENGL", 1750)),
                ),
            ),
        ),
        (
            CourseCode::new("ENGL", 3150),
            CourseReq::any_of(
                reqs6(
                    CourseReq::pre(CourseCode::new("ENGL", 1500)),
                    CourseReq::pre(CourseCode::new("ENGL", 1550)),
                    CourseReq::pre(CourseCode::new("ENGL", 1600)),
                    CourseReq::pre(CourseCode::new("ENGL", 1650)),
                    CourseReq::pre(CourseCode::new("ENGL", 1700)),
                    CourseReq::pre(CourseCode::new("ENGL", 1750)),
                ),
            ),
        ),
        (CourseCode::new("ENGL", 3200), CourseReq::instructor()),
        (CourseCode::new("ENGL", 3201), CourseReq::instructor()),
        (
            CourseCode::new("ENGL", 3260),
            CourseReq::any_of(
                reqs2(
                    CourseReq::pre(CourseCode::new("ENGL", 1010)),
                    CourseReq::pre(CourseCode::new("ENGL", 1030)),
                ),
            ),
        ),
        (
            CourseCode::new("ENGL", 3357),
            CourseReq::any_of(
                reqs6(
                    CourseReq::pre(CourseCode::new("ENGL", 1500)),
                    CourseReq::pre(CourseCode::new("ENGL", 1550)),
                    CourseReq::pre(CourseCode::new("ENGL", 1600)),
                    CourseReq::pre(CourseCode::new("ENGL", 1650)),
                    CourseReq::pre(CourseCode::new("ENGL", 1700)),
                    CourseReq::pre(CourseCode::new("ENGL", 1750)),
                ),
            ),
        ),
        (
            CourseCode::new("ENGL", 4010),
            CourseReq::any_of(
                reqs6(
                    CourseReq::pre(CourseCode::new("ENGL", 1500)),
                    CourseReq::pre(CourseCode::new("ENGL", 1550)),
                    CourseReq::pre(CourseCode::new("ENGL", 1600)),
                    CourseReq::pre(CourseCode::new("ENGL", 1650)),
                    CourseReq::pre(CourseCode::new("ENGL", 1700)),
                    CourseReq::pre(CourseCode::new("ENGL", 1750)),
                ),
            ),
        ),
        (
            CourseCode::new("ENGL", 4020),
            CourseReq::any_of(
                reqs6(
                    CourseReq::pre(CourseCode::new("ENGL", 1500)),
                    CourseReq::pre(CourseCode::new("ENGL", 1550)),
                    CourseReq::pre(CourseCode::new("ENGL", 1600)),
                    CourseReq::pre(CourseCode::new("ENGL", 1650)),
                    CourseReq::pre(CourseCode::new("ENGL", 1700)),
                    CourseReq::pre(CourseCode::new("ENGL", 1750)),
                ),
            ),
        ),
        (
            CourseCode::new("ENGL", 4040),
            CourseReq::any_of(
                reqs6(
                    CourseReq::pre(CourseCode::new("ENGL", 1500)),
                    CourseReq::pre(CourseCode::new("ENGL", 1550)),
                    CourseReq::pre(CourseCode::new("ENGL", 1600)),
                    CourseReq::pre(CourseCode::new("ENGL", 1650)),
                    CourseReq::pre(CourseCode::new("ENGL", 1700)),
                    CourseReq::pre(CourseCode::new("ENGL", 1750)),
                ),
            ),
        ),
        (
            CourseCode::new("ENGL", 4050),
            CourseReq::any_of(
                reqs6(
                    CourseReq::pre(CourseCode::new("ENGL", 1500)),
                    CourseReq::pre(CourseCode::new("ENGL", 1550)),
                    CourseReq::pre(CourseCode::new("ENGL", 1600)),
                    CourseReq::pre(CourseCode::new("ENGL", 1650)),
                    CourseReq::pre(CourseCode::new("ENGL", 1700)),
                    CourseReq::pre(CourseCode::new("ENGL", 1750)),
                ),
            ),
        ),
        (
            CourseCode::new("ENGL", 4060),
            CourseReq::any_of(
                reqs6(
                    CourseReq::pre(CourseCode::new("ENGL", 1500)),
                    CourseReq::pre(CourseCode::new("ENGL", 1550)),
                    CourseReq::pre(CourseCode::new("ENGL", 1600)),
                    CourseReq::pre(CourseCode::new("ENGL", 1650)),
                    CourseReq::pre(CourseCode::new("ENGL", 1700)),
                    CourseReq::pre(CourseCode::new("ENGL", 1750)),
                ),
            ),
        ),
        (
            CourseCode::new("ENGL", 4110),
            CourseReq::any_of(
                reqs6(
                    CourseReq::pre(CourseCode::new("ENGL", 1500)),
                    CourseReq::pre(CourseCode::new("ENGL", 1550)),
                    CourseReq::pre(CourseCode::new("ENGL", 1600)),
                    CourseReq::pre(CourseCode::new("ENGL", 1650)),
                    CourseReq::pre(CourseCode::new("ENGL", 1700)),
                    CourseReq::pre(CourseCode::new("ENGL", 1750)),
                ),
            ),
        ),
        (
            CourseCode::new("ENGL", 4130),
            CourseReq::any_of(
                reqs6(
                    CourseReq::pre(CourseCode::new("ENGL", 1500)),
                    CourseReq::pre(CourseCode::new("ENGL", 1550)),
                    CourseReq::pre(CourseCode::new("ENGL", 1600)),
                    CourseReq::pre(CourseCode::new("ENGL", 1650)),
                    CourseReq::pre(CourseCode::new("ENGL", 1700)),
                    CourseReq::pre(CourseCode::new("ENGL", 1750)),
                ),
            ),
        ),
        (
            CourseCode::new("ENGL", 4140),
            CourseReq::any_of(
                reqs6(
                    CourseReq::pre(CourseCode::new("ENGL", 1500)),
                    CourseReq::pre(CourseCode::new("ENGL", 1550)),
                    CourseReq::pre(CourseCode::new("ENGL", 1600)),
                    CourseReq::pre(CourseCode::new("ENGL", 1650)),
                    CourseReq::pre(CourseCode::new("ENGL", 1700)),
                    CourseReq::pre(CourseCode::new("ENGL", 1750)),
                ),
            ),
        ),
        (
            CourseCode::new("ENGL", 4200),
            CourseReq::any_of(
                reqs6(
                    CourseReq::pre(CourseCode::new("ENGL", 1500)),
                    CourseReq::pre(CourseCode::new("ENGL", 1550)),
                    CourseReq::pre(CourseCode::new("ENGL", 1600)),
                    CourseReq::pre(CourseCode::new("ENGL", 1650)),
                    CourseReq::pre(CourseCode::new("ENGL", 1700)),
                    CourseReq::pre(CourseCode::new("ENGL", 1750)),
                ),
            ),
        ),
        (CourseCode::new("ENGL", 4250), CourseReq::pre(CourseCode::new("ENGL", 3250))),
        (
            CourseCode::new("ENGL", 4500),
            CourseReq::any_of(
                reqs5(
                    CourseReq::pre(CourseCode::new("THEO", 1100)),
                    CourseReq::pre(CourseCode::new("ENGL", 1600)),
                    CourseReq::pre(CourseCode::new("ENGL", 1650)),
                    CourseReq::pre(CourseCode::new("ENGL", 1700)),
                    CourseReq::pre(CourseCode::new("ENGL", 1750)),
                ),
            ),
        ),
    ];
    assert(table.deep_view() =~= prereq_table());
    table
}

/// For each ENGL course in the order of the listing: the course, the courses
/// its rule demands outright to have been taken before, the courses it demands
/// outright to be taken before or alongside, and the single conditions that
/// its rule is built from.
pub open spec fn listed_demands() -> Seq<
    (CourseCodeView, Set<CourseCodeView>, Set<CourseCodeView>, Set<ReqView>),
> {
    seq![
        (
            course("ENGL"@, 3010),
            Set::empty(),
            Set::empty(),
            set![ReqView::PreCourse(course("ENGL"@, 1500)), ReqView::PreCourse(course("ENGL"@, 1550)), ReqView::PreCourse(course("ENGL"@, 1600)), ReqView::PreCourse(course("ENGL"@, 1650)), ReqView::PreCourse(course("ENGL"@, 1700)), ReqView::PreCourse(course("ENGL"@, 1750))],
        ),
        (
            course("ENGL"@, 3030),
            Set::empty(),
            Set::empty(),
            set![ReqView::PreCourse(course("ENGL"@, 1500)), ReqView::PreCourse(course("ENGL"@, 1550)), ReqView::PreCourse(course("ENGL"@, 1600)), ReqView::PreCourse(course("ENGL"@, 1650)), ReqView::PreCourse(course("ENGL"@, 1700)), ReqView::PreCourse(course("ENGL"@, 1750))],
        ),
        (
            course("ENGL"@, 3040),
            Set::empty(),
            Set::empty(),
            set![ReqView::PreCourse(course("ENGL"@, 1500)), ReqView::PreCourse(course("ENGL"@, 1550)), ReqView::PreCourse(course("ENGL"@, 1600)), ReqView::PreCourse(course("ENGL"@, 1650)), ReqView::PreCourse(course("ENGL"@, 1700)), ReqView::PreCourse(course("ENGL"@, 1750))],
        ),
        (
            course("ENGL"@, 3050),
            Set::empty(),
            Set::empty(),
            set![ReqView::PreCourse(course("ENGL"@, 1500)), ReqView::PreCourse(course("ENGL"@, 1550)), ReqView::PreCourse(course("ENGL"@, 1600)), ReqView::PreCourse(course("ENGL"@, 1650)), ReqView::PreCourse(course("ENGL"@, 1700)), ReqView::PreCourse(course("ENGL"@, 1750))],
        ),
        (
            course("ENGL"@, 3060),
            Set::empty(),
            Set::empty(),
            set![ReqView::PreCourse(course("ENGL"@, 1500)), ReqView::PreCourse(course("ENGL"@, 1550)), ReqView::PreCourse(course("ENGL"@, 1600)), ReqView::PreCourse(course("ENGL"@, 1650)), ReqView::PreCourse(course("ENGL"@, 1700)), ReqView::PreCourse(course("ENGL"@, 1750))],
        ),
        (
            course("ENGL"@, 3070),
            Set::empty(),
            Set::empty(),
            set![ReqView::PreCourse(course("ENGL"@, 1500)), ReqView::PreCourse(course("ENGL"@, 1550)), ReqView::PreCourse(course("ENGL"@, 1600)), ReqView::PreCourse(course("ENGL"@, 1650)), ReqView::PreCourse(course("ENGL"@, 1700)), ReqView::PreCourse(course("ENGL"@, 1750))],
        ),
        (
            course("ENGL"@, 3110),
            Set::empty(),
            Set::empty(),
            set![ReqView::PreCourse(course("ENGL"@, 1500)), ReqView::PreCourse(course("ENGL"@, 1550)), ReqView::PreCourse(course("ENGL"@, 1600)), ReqView::PreCourse(course("ENGL"@, 1650)), ReqView::PreCourse(course("ENGL"@, 1700)), ReqView::PreCourse(course("ENGL"@, 1750))],
        ),
        (
            course("ENGL"@, 3120),
            Set::empty(),
            Set::empty(),
            set![ReqView::PreCourse(course("ENGL"@, 1500)), ReqView::PreCourse(course("ENGL"@, 1550)), ReqView::PreCourse(course("ENGL"@, 1600)), ReqView::PreCourse(course("ENGL"@, 1650)), ReqView::PreCourse(course("ENGL"@, 1700)), ReqView::PreCourse(course("ENGL"@, 1750))],
        ),
        (
            course("ENGL"@, 3130),
            Set::empty(),
            Set::empty(),
            set![ReqView::PreCourse(course("ENGL"@, 1500)), ReqView::PreCourse(course("ENGL"@, 1550)), ReqView::PreCourse(course("ENGL"@, 1600)), ReqView::PreCourse(course("ENGL"@, 1650)), ReqView::PreCourse(course("ENGL"@, 1700)), ReqView::PreCourse(course("ENGL"@, 1750))],
        ),
        (
            course("ENGL"@, 3140),
            Set::empty(),
            Set::empty(),
            set![ReqView::PreCourse(course("ENGL"@, 1500)), ReqView::PreCourse(course("ENGL"@, 1550)), ReqView::PreCourse(course("ENGL"@, 1600)), ReqView::PreCourse(course("ENGL"@, 1650)), ReqView::PreCourse(course("ENGL"@, 1700)), ReqView::PreCourse(course("ENGL"@, 1750))],
        ),
        (
            course("ENGL"@, 3150),
            Set::empty(),
            Set::empty(),
            set![ReqView::PreCourse(course("ENGL"@, 1500)), ReqView::PreCourse(course("ENGL"@, 1550)), ReqView::PreCourse(course("ENGL"@, 1600)), ReqView::PreCourse(course("ENGL"@, 1650)), ReqView::PreCourse(course("ENGL"@, 1700)), ReqView::PreCourse(course("ENGL"@, 1750))],
        ),
        (
            course("ENGL"@, 3200),
            Set::empty(),
            Set::empty(),
            set![ReqView::Instructor],
        ),
        (
            course("ENGL"@, 3201),
            Set::empty(),
            Set::empty(),
            set![ReqView::Instructor],
        ),
        (
            course("ENGL"@, 3260),
            Set::empty(),
            Set::empty(),
            set![ReqView::PreCourse(course("ENGL"@, 1010)), ReqView::PreCourse(course("ENGL"@, 1030))],
        ),
        (
            course("ENGL"@, 3357),
            Set::empty(),
            Set::empty(),
            set![ReqView::PreCourse(course("ENGL"@, 1500)), ReqView::PreCourse(course("ENGL"@, 1550)), ReqView::PreCourse(course("ENGL"@, 1600)), ReqView::PreCourse(course("ENGL"@, 1650)), ReqView::PreCourse(course("ENGL"@, 1700)), ReqView::PreCourse(course("ENGL"@, 1750))],
        ),
        (
            course("ENGL"@, 4010),
            Set::empty(),
            Set::empty(),
            set![ReqView::PreCourse(course("ENGL"@, 1500)), ReqView::PreCourse(course("ENGL"@, 1550)), ReqView::PreCourse(course("ENGL"@, 1600)), ReqView::PreCourse(course("ENGL"@, 1650)), ReqView::PreCourse(course("ENGL"@, 1700)), ReqView::PreCourse(course("ENGL"@, 1750))],
        ),
        (
            course("ENGL"@, 4020),
            Set::empty(),
            Set::empty(),
            set![ReqView::PreCourse(course("ENGL"@, 1500)), ReqView::PreCourse(course("ENGL"@, 1550)), ReqView::PreCourse(course("ENGL"@, 1600)), ReqView::PreCourse(course("ENGL"@, 1650)), ReqView::PreCourse(course("ENGL"@, 1700)), ReqView::PreCourse(course("ENGL"@, 1750))],
        ),
        (
            course("ENGL"@, 4040),
            Set::empty(),
            Set::empty(),
            set![ReqView::PreCourse(course("ENGL"@, 1500)), ReqView::PreCourse(course("ENGL"@, 1550)), ReqView::PreCourse(course("ENGL"@, 1600)), ReqView::PreCourse(course("ENGL"@, 1650)), ReqView::PreCourse(course("ENGL"@, 1700)), ReqView::PreCourse(course("ENGL"@, 1750))],
        ),
        (
            course("ENGL"@, 4050),
            Set::empty(),
            Set::empty(),
            set![ReqView::PreCourse(course("ENGL"@, 1500)), ReqView::PreCourse(course("ENGL"@, 1550)), ReqView::PreCourse(course("ENGL"@, 1600)), ReqView::PreCourse(course("ENGL"@, 1650)), ReqView::PreCourse(course("ENGL"@, 1700)), ReqView::PreCourse(course("ENGL"@, 1750))],
        ),
        (
            course("ENGL"@, 4060),
            Set::empty(),
            Set::empty(),
            set![ReqView::PreCourse(course("ENGL"@, 1500)), ReqView::PreCourse(course("ENGL"@, 1550)), ReqView::PreCourse(course("ENGL"@, 1600)), ReqView::PreCourse(course("ENGL"@, 1650)), ReqView::PreCourse(course("ENGL"@, 1700)), ReqView::PreCourse(course("ENGL"@, 1750))],
        ),
        (
            course("ENGL"@, 4110),
            Set::empty(),
            Set::empty(),
            set![ReqView::PreCourse(course("ENGL"@, 1500)), ReqView::PreCourse(course("ENGL"@, 1550)), ReqView::PreCourse(course("ENGL"@, 1600)), ReqView::PreCourse(course("ENGL"@, 1650)), ReqView::PreCourse(course("ENGL"@, 1700)), ReqView::PreCourse(course("ENGL"@, 1750))],
        ),
        (
            course("ENGL"@, 4130),
            Set::empty(),
            Set::empty(),
            set![ReqView::PreCourse(course("ENGL"@, 1500)), ReqView::PreCourse(course("ENGL"@, 1550)), ReqView::PreCourse(course("ENGL"@, 1600)), ReqView::PreCourse(course("ENGL"@, 1650)), ReqView::PreCourse(course("ENGL"@, 1700)), ReqView::PreCourse(course("ENGL"@, 1750))],
        ),
        (
            course("ENGL"@, 4140),
            Set::empty(),
            Set::empty(),
            set![ReqView::PreCourse(course("ENGL"@, 1500)), ReqView::PreCourse(course("ENGL"@, 1550)), ReqView::PreCourse(course("ENGL"@, 1600)), ReqView::PreCourse(course("ENGL"@, 1650)), ReqView::PreCourse(course("ENGL"@, 1700)), ReqView::PreCourse(course("ENGL"@, 1750))],
        ),
        (
            course("ENGL"@, 4200),
            Set::empty(),
            Set::empty(),
            set![ReqView::PreCourse(course("ENGL"@, 1500)), ReqView::PreCourse(course("ENGL"@, 1550)), ReqView::PreCourse(course("ENGL"@, 1600)), ReqView::PreCourse(course("ENGL"@, 1650)), ReqView::PreCourse(course("ENGL"@, 1700)), ReqView::PreCourse(course("ENGL"@, 1750))],
        ),
        (
            course("ENGL"@, 4250),
            set![course("ENGL"@, 3250)],
            Set::empty(),
            set![ReqView::PreCourse(course("ENGL"@, 3250))],
        ),
        (
            course("ENGL"@, 4500),
            Set::empty(),
            Set::empty(),
            set![ReqView::PreCourse(course("THEO"@, 1100)), ReqView::PreCourse(course("ENGL"@, 1600)), ReqView::PreCourse(course("ENGL"@, 1650)), ReqView::PreCourse(course("ENGL"@, 1700)), ReqView::PreCourse(course("ENGL"@, 1750))],
        ),
    ]
}

/// Each ENGL rule demands before and alongside exactly the courses listed for
/// it, and is built from exactly the conditions listed for it.
pub proof fn law_listed_demands()
    ensures
        prereq_table().len() == listed_demands().len(),
        forall|i: int|
            0 <= i < prereq_table().len() ==> {
                &&& #[trigger] prereq_table()[i].0 == listed_demands()[i].0
                &&& taken_before(prereq_table()[i].1) == listed_demands()[i].1
                &&& taken_alongside(prereq_table()[i].1) == listed_demands()[i].2
                &&& conditions(prereq_table()[i].1) == listed_demands()[i].3
            },
{
    reveal(prereq_table);
    reveal_with_fuel(taken_before, 8);
    reveal_with_fuel(taken_before_all, 10);
    reveal_with_fuel(taken_alongside, 8);
    reveal_with_fuel(taken_alongside_all, 10);
    reveal_with_fuel(conditions, 8);
    reveal_with_fuel(conditions_all, 10);
    assert(taken_before(prereq_table()[0].1) =~= listed_demands()[0].1);
    assert(taken_alongside(prereq_table()[0].1) =~= listed_demands()[0].2);
    assert(conditions(prereq_table()[0].1) =~= listed_demands()[0].3);
    assert(taken_before(prereq_table()[1].1) =~= listed_demands()[1].1);
    assert(taken_alongside(prereq_table()[1].1) =~= listed_demands()[1].2);
    assert(conditions(prereq_table()[1].1) =~= listed_demands()[1].3);
    assert(taken_before(prereq_table()[2].1) =~= listed_demands()[2].1);
    assert(taken_alongside(prereq_table()[2].1) =~= listed_demands()[2].2);
    assert(conditions(prereq_table()[2].1) =~= listed_demands()[2].3);
    assert(taken_before(prereq_table()[3].1) =~= listed_demands()[3].1);
    assert(taken_alongside(prereq_table()[3].1) =~= listed_demands()[3].2);
    assert(conditions(prereq_table()[3].1) =~= listed_demands()[3].3);
    assert(taken_before(prereq_table()[4].1) =~= listed_demands()[4].1);
    assert(taken_alongside(prereq_table()[4].1) =~= listed_demands()[4].2);
    assert(conditions(prereq_table()[4].1) =~= listed_demands()[4].3);
    assert(taken_before(prereq_table()[5].1) =~= listed_demands()[5].1);
    assert(taken_alongside(prereq_table()[5].1) =~= listed_demands()[5].2);
    assert(conditions(prereq_table()[5].1) =~= listed_demands()[5].3);
    assert(taken_before(prereq_table()[6].1) =~= listed_demands()[6].1);
    assert(taken_alongside(prereq_table()[6].1) =~= listed_demands()[6].2);
    assert(conditions(prereq_table()[6].1) =~= listed_demands()[6].3);
    assert(taken_before(prereq_table()[7].1) =~= listed_demands()[7].1);
    assert(taken_alongside(prereq_table()[7].1) =~= listed_demands()[7].2);
    assert(conditions(prereq_table()[7].1) =~= listed_demands()[7].3);
    assert(taken_before(prereq_table()[8].1) =~= listed_demands()[8].1);
    assert(taken_alongside(prereq_table()[8].1) =~= listed_demands()[8].2);
    assert(conditions(prereq_table()[8].1) =~= listed_demands()[8].3);
    assert(taken_before(prereq_table()[9].1) =~= listed_demands()[9].1);
    assert(taken_alongside(prereq_table()[9].1) =~= listed_demands()[9].2);
    assert(conditions(prereq_table()[9].1) =~= listed_demands()[9].3);
    assert(taken_before(prereq_table()[10].1) =~= listed_demands()[10].1);
    assert(taken_alongside(prereq_table()[10].1) =~= listed_demands()[10].2);
    assert(conditions(prereq_table()[10].1) =~= listed_demands()[10].3);
    assert(taken_before(prereq_table()[11].1) =~= listed_demands()[11].1);
    assert(taken_alongside(prereq_table()[11].1) =~= listed_demands()[11].2);
    assert(conditions(prereq_table()[11].1) =~= listed_demands()[11].3);
    assert(taken_before(prereq_table()[12].1) =~= listed_demands()[12].1);
    assert(taken_alongside(prereq_table()[12].1) =~= listed_demands()[12].2);
    assert(conditions(prereq_table()[12].1) =~= listed_demands()[12].3);
    assert(taken_before(prereq_table()[13].1) =~= listed_demands()[13].1);
    assert(taken_alongside(prereq_table()[13].1) =~= listed_demands()[13].2);
    assert(conditions(prereq_table()[13].1) =~= listed_demands()[13].3);
    assert(taken_before(prereq_table()[14].1) =~= listed_demands()[14].1);
    assert(taken_alongside(prereq_table()[14].1) =~= listed_demands()[14].2);
    assert(conditions(prereq_table()[14].1) =~= listed_demands()[14].3);
    assert(taken_before(prereq_table()[15].1) =~= listed_demands()[15].1);
    assert(taken_alongside(prereq_table()[15].1) =~= listed_demands()[15].2);
    assert(conditions(prereq_table()[15].1) =~= listed_demands()[15].3);
    assert(taken_before(prereq_table()[16].1) =~= listed_demands()[16].1);
    assert(taken_alongside(prereq_table()[16].1) =~= listed_demands()[16].2);
    assert(conditions(prereq_table()[16].1) =~= listed_demands()[16].3);
    assert(taken_before(prereq_table()[17].1) =~= listed_demands()[17].1);
    assert(taken_alongside(prereq_table()[17].1) =~= listed_demands()[17].2);
    assert(conditions(prereq_table()[17].1) =~= listed_demands()[17].3);
    assert(taken_before(prereq_table()[18].1) =~= listed_demands()[18].1);
    assert(taken_alongside(prereq_table()[18].1) =~= listed_demands()[18].2);
    assert(conditions(prereq_table()[18].1) =~= listed_demands()[18].3);
    assert(taken_before(prereq_table()[19].1) =~= listed_demands()[19].1);
    assert(taken_alongside(prereq_table()[19].1) =~= listed_demands()[19].2);
    assert(conditions(prereq_table()[19].1) =~= listed_demands()[19].3);
    assert(taken_before(prereq_table()[20].1) =~= listed_demands()[20].1);
    assert(taken_alongside(prereq_table()[20].1) =~= listed_demands()[20].2);
    assert(conditions(prereq_table()[20].1) =~= listed_demands()[20].3);
    assert(taken_before(prereq_table()[21].1) =~= listed_demands()[21].1);
    assert(taken_alongside(prereq_table()[21].1) =~= listed_demands()[21].2);
    assert(conditions(prereq_table()[21].1) =~= listed_demands()[21].3);
    assert(taken_before(prereq_table()[22].1) =~= listed_demands()[22].1);
    assert(taken_alongside(prereq_table()[22].1) =~= listed_demands()[22].2);
    assert(conditions(prereq_table()[22].1) =~= listed_demands()[22].3);
    assert(taken_before(prereq_table()[23].1) =~= listed_demands()[23].1);
    assert(taken_alongside(prereq_table()[23].1) =~= listed_demands()[23].2);
    assert(conditions(prereq_table()[23].1) =~= listed_demands()[23].3);
    assert(taken_before(prereq_table()[24].1) =~= listed_demands()[24].1);
    assert(taken_alongside(prereq_table()[24].1) =~= listed_demands()[24].2);
    assert(conditions(prereq_table()[24].1) =~= listed_demands()[24].3);
    assert(taken_before(prereq_table()[25].1) =~= listed_demands()[25].1);
    assert(taken_alongside(prereq_table()[25].1) =~= listed_demands()[25].2);
    assert(conditions(prereq_table()[25].1) =~= listed_demands()[25].3);
}

/// Every course of the ENGL table is a course of subject ENGL.
pub proof fn law_keyed_by_subject()
    ensures
        keyed_by_stem(prereq_table(), "ENGL"@),
{
    reveal(prereq_table);
}

} // verus!
