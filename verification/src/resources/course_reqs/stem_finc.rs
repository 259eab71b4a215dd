//! Prerequisite rules of the FINC courses.

use vstd::prelude::*;
use crate::prereqs::{conditions, conditions_all, taken_alongside, taken_alongside_all, taken_before, taken_before_all, CourseReq, ReqView, reqs2};
use crate::schedule::{CourseCode, CourseCodeView, course, keyed_by_stem};

verus! {

/// The prerequisite rule of each FINC course, as pairs of course and rule in
/// the order in which they are listed.
#[verifier::opaque]
pub open spec fn prereq_table() -> Seq<(CourseCodeView, ReqView)> {
    seq![
        (course("FINC"@, 3100), ReqView::PreCourse(course("ACCT"@, 2090))),
        (
            course("FINC"@, 3300),
            ReqView::And(
                seq![
                    ReqView::PreCourse(course("FINC"@, 3100)),
                    ReqView::PreCourse(course("ECON"@, 2900)),
                ],
            ),
        ),
        (course("FINC"@, 3950), ReqView::PreCourse(course("MGMT"@, 2250))),
        (course("FINC"@, 4100), ReqView::PreCourse(course("FINC"@, 3100))),
        (
            course("FINC"@, 4300),
            ReqView::And(
                seq![
                    ReqView::PreCourse(course("FINC"@, 3300)),
                    ReqView::PreCourse(course("FINC"@, 3060)),
                ],
            ),
        ),
        (
            course("FINC"@, 4330),
            ReqView::And(
                seq![
                    ReqView::PreCourse(course("FINC"@, 3300)),
                    ReqView::PreCourse(course("FINC"@, 3060)),
                ],
            ),
        ),
        (course("FINC"@, 4650), ReqView::PreCourse(course("FINC"@, 3100))),
        (course("FINC"@, 4790), ReqView::Instructor),
        (course("FINC"@, 4900), ReqView::PreCourse(course("FINC"@, 3100))),
        (course("FINC"@, 4910), ReqView::PreCourse(course("FINC"@, 3100))),
        (course("FINC"@, 4950), ReqView::PreCourse(course("FINC"@, 4100))),
        (course("FINC"@, 6590), ReqView::PreCourse(course("ACCT"@, 5510))),
    ]
}

/// The prerequisite rules of the FINC courses, in the order in which they are listed.
pub fn prereqs() -> (table: Vec<(CourseCode, CourseReq)>)
    ensures
        table.deep_view() == prereq_table(),
        keyed_by_stem(table.deep_view(), "FINC"@),
{
    proof {
        reveal(prereq_table);
    }
    let table = vec![
        (CourseCode::new("FINC", 3100), CourseReq::pre(CourseCode::new("ACCT", 2090))),
        (
            CourseCode::new("FINC", 3300),
            CourseReq::all_of(
                reqs2(
                    CourseReq::pre(CourseCode::new("FINC", 3100)),
                    CourseReq::pre(CourseCode::new("ECON", 2900)),
                ),
            ),
        ),
        (CourseCode::new("FINC", 3950), CourseReq::pre(CourseCode::new("MGMT", 2250))),
        (CourseCode::new("FINC", 4100), CourseReq::pre(CourseCode::new("FINC", 3100))),
        (
            CourseCode::new("FINC", 4300),
            CourseReq::all_of(
                reqs2(
                    CourseReq::pre(CourseCode::new("FINC", 3300)),
                    CourseReq::pre(CourseCode::new("FINC", 3060)),
                ),
            ),
        ),
        (
            CourseCode::new("FINC", 4330),
            CourseReq::all_of(
                reqs2(
                    CourseReq::pre(CourseCode::new("FINC", 3300)),
                    CourseReq::pre(CourseCode::new("FINC", 3060)),
                ),
            ),
        ),
        (CourseCode::new("FINC", 4650), CourseReq::pre(CourseCode::new("FINC", 3100))),
        (CourseCode::new("FINC", 4790), CourseReq::instructor()),
        (CourseCode::new("FINC", 4900), CourseReq::pre(CourseCode::new("FINC", 3100))),
        (CourseCode::new("FINC", 4910), CourseReq::pre(CourseCode::new("FINC", 3100))),
        (CourseCode::new("FINC", 4950), CourseReq::pre(CourseCode::new("FINC", 4100))),
        (CourseCode::new("FINC", 6590), CourseReq::pre(CourseCode::new("ACCT", 5510))),
    ];
    assert(table.deep_view() =~= prereq_table());
    table
}

/// For each FINC course in the order of the listing: the course, the courses
/// its rule demands outright to have been taken before, the courses it demands
/// outright to be taken before or alongside, and the single conditions that
/// its rule is built from.
pub open spec fn listed_demands() -> Seq<
    (CourseCodeView, Set<CourseCodeView>, Set<CourseCodeView>, Set<ReqView>),
> {
    seq![
        (
            course("FINC"@, 3100),
            set![course("ACCT"@, 2090)],
            Set::empty(),
            set![ReqView::PreCourse(course("ACCT"@, 2090))],
        ),
        (
            course("FINC"@, 3300),
            set![course("FINC"@, 3100), course("ECON"@, 2900)],
            Set::empty(),
            set![ReqView::PreCourse(course("FINC"@, 3100)), ReqView::PreCourse(course("ECON"@, 2900))],
        ),
        (
            course("FINC"@, 3950),
            set![course("MGMT"@, 2250)],
            Set::empty(),
            set![ReqView::PreCourse(course("MGMT"@, 2250))],
        ),
        (
            course("FINC"@, 4100),
            set![course("FINC"@, 3100)],
            Set::empty(),
            set![ReqView::PreCourse(course("FINC"@, 3100))],
        ),
        (
            course("FINC"@, 4300),
            set![course("FINC"@, 3300), course("FINC"@, 3060)],
            Set::empty(),
            set![ReqView::PreCourse(course("FINC"@, 3300)), ReqView::PreCourse(course("FINC"@, 3060))],
        ),
        (
            course("FINC"@, 4330),
            set![course("FINC"@, 3300), course("FINC"@, 3060)],
            Set::empty(),
            set![ReqView::PreCourse(course("FINC"@, 3300)), ReqView::PreCourse(course("FINC"@, 3060))],
        ),
        (
            course("FINC"@, 4650),
            set![course("FINC"@, 3100)],
            Set::empty(),
            set![ReqView::PreCourse(course("FINC"@, 3100))],
        ),
        (
            course("FINC"@, 4790),
            Set::empty(),
            Set::empty(),
            set![ReqView::Instructor],
        ),
        (
            course("FINC"@, 4900),
            set![course("FINC"@, 3100)],
            Set::empty(),
            set![ReqView::PreCourse(course("FINC"@, 3100))],
        ),
        (
            course("FINC"@, 4910),
            set![course("FINC"@, 3100)],
            Set::empty(),
            set![ReqView::PreCourse(course("FINC"@, 3100))],
        ),
        (
            course("FINC"@, 4950),
            set![course("FINC"@, 4100)],
            Set::empty(),
            set![ReqView::PreCourse(course("FINC"@, 4100))],
        ),
        (
            course("FINC"@, 6590),
            set![course("ACCT"@, 5510)],
            Set::empty(),
            set![ReqView::PreCourse(course("ACCT"@, 5510))],
        ),
    ]
}

/// Each FINC rule demands before and alongside exactly the courses listed for
/// it, and is built from exactly the conditions listed for it.
pub proof fn law_listed_demands()
    ensures
        prereq_table().len() == listed_demands().len(),
        forall|i: int|
            0 <= i < prereq_table().len() ==> {
                &&& #[trigger] prereq_table()[i].0 == listed_demands()[i].0
                &&& taken_before(prereq_table()[i].1) == listed_demands()[i].1
                &&& taken_alongside(prereq_table()[i].1) == listed_demands()[i].2
                &&& conditions(prereq_table()[i].1) == listed_demands()[i].3
            },
{
    reveal(prereq_table);
    reveal_with_fuel(taken_before, 8);
    reveal_with_fuel(taken_before_all, 10);
    reveal_with_fuel(taken_alongside, 8);
    reveal_with_fuel(taken_alongside_all, 10);
    reveal_with_fuel(conditions, 8);
    reveal_with_fuel(conditions_all, 10);
    assert(taken_before(prereq_table()[0].1) =~= listed_demands()[0].1);
    assert(taken_alongside(prereq_table()[0].1) =~= listed_demands()[0].2);
    assert(conditions(prereq_table()[0].1) =~= listed_demands()[0].3);
    assert(taken_before(prereq_table()[1].1) =~= listed_demands()[1].1);
    assert(taken_alongside(prereq_table()[1].1) =~= listed_demands()[1].2);
    assert(conditions(prereq_table()[1].1) =~= listed_demands()[1].3);
    assert(taken_before(prereq_table()[2].1) =~= listed_demands()[2].1);
    assert(taken_alongside(prereq_table()[2].1) =~= listed_demands()[2].2);
    assert(conditions(prereq_table()[2].1) =~= listed_demands()[2].3);
    assert(taken_before(prereq_table()[3].1) =~= listed_demands()[3].1);
    assert(taken_alongside(prereq_table()[3].1) =~= listed_demands()[3].2);
    assert(conditions(prereq_table()[3].1) =~= listed_demands()[3].3);
    assert(taken_before(prereq_table()[4].1) =~= listed_demands()[4].1);
    assert(taken_alongside(prereq_table()[4].1) =~= listed_demands()[4].2);
    assert(conditions(prereq_table()[4].1) =~= listed_demands()[4].3);
    assert(taken_before(prereq_table()[5].1) =~= listed_demands()[5].1);
    assert(taken_alongside(prereq_table()[5].1) =~= listed_demands()[5].2);
    assert(conditions(prereq_table()[5].1) =~= listed_demands()[5].3);
    assert(taken_before(prereq_table()[6].1) =~= listed_demands()[6].1);
    assert(taken_alongside(prereq_table()[6].1) =~= listed_demands()[6].2);
    assert(conditions(prereq_table()[6].1) =~= listed_demands()[6].3);
    assert(taken_before(prereq_table()[7].1) =~= listed_demands()[7].1);
    assert(taken_alongside(prereq_table()[7].1) =~= listed_demands()[7].2);
    assert(conditions(prereq_table()[7].1) =~= listed_demands()[7].3);
    assert(taken_before(prereq_table()[8].1) =~= listed_demands()[8].1);
    assert(taken_alongside(prereq_table()[8].1) =~= listed_demands()[8].2);
    assert(conditions(prereq_table()[8].1) =~= listed_demands()[8].3);
    assert(taken_before(prereq_table()[9].1) =~= listed_demands()[9].1);
    assert(taken_alongside(prereq_table()[9].1) =~= listed_demands()[9].2);
    assert(conditions(prereq_table()[9].1) =~= listed_demands()[9].3);
    assert(taken_before(prereq_table()[10].1) =~= listed_demands()[10].1);
    assert(taken_alongside(prereq_table()[10].1) =~= listed_demands()[10].2);
    assert(conditions(prereq_table()[10].1) =~= listed_demands()[10].3);
    assert(taken_before(prereq_table()[11].1) =~= listed_demands()[11].1);
    assert(taken_alongside(prereq_table()[11].1) =~= listed_demands()[11].2);
    assert(conditions(prereq_table()[11].1) =~= listed_demands()[11].3);
}

/// Every course of the FINC table is a course of subject FINC.
pub proof fn law_keyed_by_subject()
    ensures
        keyed_by_stem(prereq_table(), "FINC"@),
{
    reveal(prereq_table);
}

} // verus!
