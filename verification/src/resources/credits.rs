//! Credit hours of the courses whose hours are recorded apart from the catalogue.

use vstd::prelude::*;
use crate::course_map::CourseMap;
use crate::schedule::{CourseCode, CourseCodeView, course};

verus! {

/// The credit hours recorded for each course.
pub open spec fn credit_table() -> Map<CourseCodeView, Option<u32>> {
    Map::empty().insert(course("ACCT"@, 1010), Some(3u32)).insert(
        course("ASTR"@, 1010),
        Some(4u32),
    ).insert(course("EENG"@, 1010), Some(3u32)).insert(course("ENGL"@, 1010), Some(3u32)).insert(
        course("PHYS"@, 1010),
        Some(4u32),
    )
}

/// The credit hours recorded for each course.
pub fn credits() -> (credits: CourseMap<Option<u32>>)
    ensures
        credits@ == credit_table(),
{
    let mut credits = CourseMap::new();
    credits.insert(CourseCode::new("ACCT", 1010), Some(3));
    credits.insert(CourseCode::new("ASTR", 1010), Some(4));
    credits.insert(CourseCode::new("EENG", 1010), Some(3));
    credits.insert(CourseCode::new("ENGL", 1010), Some(3));
    credits.insert(CourseCode::new("PHYS", 1010), Some(4));
    credits
}

/// Credit hours are recorded for ACCT 1010, ASTR 1010, EENG 1010, ENGL 1010
/// and PHYS 1010 only; the astronomy and physics courses carry four hours and
/// the others three.
pub proof fn law_recorded_credits()
    ensures
        credit_table().dom() == set![
            course("ACCT"@, 1010),
            course("ASTR"@, 1010),
            course("EENG"@, 1010),
            course("ENGL"@, 1010),
            course("PHYS"@, 1010),
        ],
        forall|c: CourseCodeView|
            #[trigger] credit_table().contains_key(c) ==> credit_table()[c] == (if c.stem == "ASTR"@
                || c.stem == "PHYS"@ {
                Some(4u32)
            } else {
                Some(3u32)
            }),
{
    reveal_strlit("ACCT");
    reveal_strlit("ASTR");
    reveal_strlit("EENG");
    reveal_strlit("ENGL");
    reveal_strlit("PHYS");
    assert("ACCT"@[1] != "ASTR"@[1]);
    assert("ACCT"@[0] != "EENG"@[0]);
    assert("ACCT"@[0] != "ENGL"@[0]);
    assert("ACCT"@[0] != "PHYS"@[0]);
    assert("ASTR"@[0] != "EENG"@[0]);
    assert("ASTR"@[0] != "ENGL"@[0]);
    assert("ASTR"@[0] != "PHYS"@[0]);
    assert("EENG"@[1] != "ENGL"@[1]);
    assert("EENG"@[0] != "PHYS"@[0]);
    assert("ENGL"@[0] != "PHYS"@[0]);
    assert(credit_table().dom() =~= set![
        course("ACCT"@, 1010),
        course("ASTR"@, 1010),
        course("EENG"@, 1010),
        course("ENGL"@, 1010),
        course("PHYS"@, 1010),
    ]);
}

} // verus!
