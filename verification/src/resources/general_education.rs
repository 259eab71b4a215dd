//! The general-education requirements of the core curriculum.

use vstd::prelude::*;
use crate::course_map::{lemma_pairs_to_map_domain, pairs_to_map};
use crate::geneds::{GenEd, GenEdReq, GenEdView, GenEdReqView, asks_for_one_course, names_course, well_formed_gened};
use crate::resources::courses::catalog_table;
use crate::schedule::{CourseCode, CourseCodeView, course};

verus! {

/// The general-education requirements, in the order in which they are listed.
pub open spec fn gened_table() -> Seq<GenEdView> {
    seq![
        GenEdView::Core {
            name: "English Composition"@,
            req: GenEdReqView::Courses {
                num: 1,
                courses: seq![
                    course("ENGL"@, 1000), course("ENGL"@, 1010), course("HONR"@, 1030),
                ],
            },
        },
        GenEdView::Core {
            name: "Intro to Theo"@,
            req: GenEdReqView::Courses {
                num: 1,
                courses: seq![
                    course("THEO"@, 1100),
                ],
            },
        },
        GenEdView::Core {
            name: "Wellness for Life"@,
            req: GenEdReqView::Courses {
                num: 1,
                courses: seq![
                    course("EXSC"@, 1115), course("NURS"@, 3200),
                ],
            },
        },
        GenEdView::Core {
            name: "Natural Philosophy"@,
            req: GenEdReqView::Courses {
                num: 1,
                courses: seq![
                    course("PHIL"@, 2100), course("PHIL"@, 2310),
                ],
            },
        },
        GenEdView::Core {
            name: "Foreign Language"@,
            req: GenEdReqView::SetOpts(
                seq![
                    seq![course("SPAN"@, 1000), course("SPAN"@, 1020)],
                    seq![course("GREK"@, 1000), course("GREK"@, 1020)],
                    seq![course("ITAL"@, 1000), course("ITAL"@, 1020)],
                    seq![course("LATN"@, 1000), course("LATN"@, 1020)],
                    seq![course("FREN"@, 1000), course("FREN"@, 1020)],
                    seq![course("THEO"@, 2010), course("THEO"@, 2020)],
                    seq![course("ESLG"@, 2930)],
                ],
            ),
        },
        GenEdView::Core {
            name: "Physical Fitness"@,
            req: GenEdReqView::Courses {
                num: 1,
                courses: seq![
                    course("EXSC"@, 1100), course("EXSC"@, 1101), course("EXSC"@, 1105),
                    course("EXSC"@, 1106), course("EXSC"@, 1107), course("EXSC"@, 1108),
                    course("EXSC"@, 1109), course("EXSC"@, 1111), course("EXSC"@, 1114),
                    course("EXSC"@, 1116), course("EXSC"@, 1117), course("EXSC"@, 1126),
                    course("EXSC"@, 1128), course("EXSC"@, 1129), course("MILS"@, 1160),
                    course("MILS"@, 2160), course("MILS"@, 3160),
                ],
            },
        },
    ]
}

/// The general-education requirements, in the order in which they are listed.
pub fn geneds() -> (reqs: Vec<GenEd>)
    ensures
        reqs.deep_view() == gened_table(),
{
    let reqs = vec![
        GenEd::Core {
            name: "English Composition".to_owned(),
            req: GenEdReq::Courses {
                num: 1,
                courses: vec![
                    CourseCode::new("ENGL", 1000), CourseCode::new("ENGL", 1010),
                    CourseCode::new("HONR", 1030),
                ],
            },
        },
        GenEd::Core {
            name: "Intro to Theo".to_owned(),
            req: GenEdReq::Courses {
                num: 1,
                courses: vec![
                    CourseCode::new("THEO", 1100),
                ],
            },
        },
        GenEd::Core {
            name: "Wellness for Life".to_owned(),
            req: GenEdReq::Courses {
                num: 1,
                courses: vec![
                    CourseCode::new("EXSC", 1115), CourseCode::new("NURS", 3200),
                ],
            },
        },
        GenEd::Core {
            name: "Natural Philosophy".to_owned(),
            req: GenEdReq::Courses {
                num: 1,
                courses: vec![
                    CourseCode::new("PHIL", 2100), CourseCode::new("PHIL", 2310),
                ],
            },
        },
        GenEd::Core {
            name: "Foreign Language".to_owned(),
            req: GenEdReq::SetOpts(
                vec![
                    vec![CourseCode::new("SPAN", 1000), CourseCode::new("SPAN", 1020)],
                    vec![CourseCode::new("GREK", 1000), CourseCode::new("GREK", 1020)],
                    vec![CourseCode::new("ITAL", 1000), CourseCode::new("ITAL", 1020)],
                    vec![CourseCode::new("LATN", 1000), CourseCode::new("LATN", 1020)],
                    vec![CourseCode::new("FREN", 1000), CourseCode::new("FREN", 1020)],
                    vec![CourseCode::new("THEO", 2010), CourseCode::new("THEO", 2020)],
                    vec![CourseCode::new("ESLG", 2930)],
                ],
            ),
        },
        GenEd::Core {
            name: "Physical Fitness".to_owned(),
            req: GenEdReq::Courses {
                num: 1,
                courses: vec![
                    CourseCode::new("EXSC", 1100), CourseCode::new("EXSC", 1101),
                    CourseCode::new("EXSC", 1105), CourseCode::new("EXSC", 1106),
                    CourseCode::new("EXSC", 1107), CourseCode::new("EXSC", 1108),
                    CourseCode::new("EXSC", 1109), CourseCode::new("EXSC", 1111),
                    CourseCode::new("EXSC", 1114), CourseCode::new("EXSC", 1116),
                    CourseCode::new("EXSC", 1117), CourseCode::new("EXSC", 1126),
                    CourseCode::new("EXSC", 1128), CourseCode::new("EXSC", 1129),
                    CourseCode::new("MILS", 1160), CourseCode::new("MILS", 2160),
                    CourseCode::new("MILS", 3160),
                ],
            },
        },
    ];
    assert(reqs.deep_view() =~~= gened_table());
    reqs
}

/// A course of the catalogue table is a key of the catalogue.
proof fn lemma_in_catalog(k: int, c: CourseCodeView)
    requires
        0 <= k < catalog_table().len(),
        catalog_table()[k].0 == c,
    ensures
        pairs_to_map(catalog_table()).contains_key(c),
{
    lemma_pairs_to_map_domain(catalog_table(), c);
}

/// The courses that the requirement "English Composition" names are in the catalogue.
#[verifier::rlimit(40)]
proof fn lemma_requirement_0_in_catalog()
    ensures
        forall|c: CourseCodeView| #[trigger] names_course(gened_table()[0], c) ==> pairs_to_map(
            catalog_table(),
        ).contains_key(c),
{
    lemma_in_catalog(116, course("ENGL"@, 1000));
    lemma_in_catalog(117, course("ENGL"@, 1010));
    lemma_in_catalog(223, course("HONR"@, 1030));
}

/// The courses that the requirement "Intro to Theo" names are in the catalogue.
#[verifier::rlimit(40)]
proof fn lemma_requirement_1_in_catalog()
    ensures
        forall|c: CourseCodeView| #[trigger] names_course(gened_table()[1], c) ==> pairs_to_map(
            catalog_table(),
        ).contains_key(c),
{
    lemma_in_catalog(371, course("THEO"@, 1100));
}

/// The courses that the requirement "Wellness for Life" names are in the catalogue.
#[verifier::rlimit(40)]
proof fn lemma_requirement_2_in_catalog()
    ensures
        forall|c: CourseCodeView| #[trigger] names_course(gened_table()[2], c) ==> pairs_to_map(
            catalog_table(),
        ).contains_key(c),
{
    lemma_in_catalog(163, course("EXSC"@, 1115));
    lemma_in_catalog(276, course("NURS"@, 3200));
}

/// The courses that the requirement "Natural Philosophy" names are in the catalogue.
#[verifier::rlimit(40)]
proof fn lemma_requirement_3_in_catalog()
    ensures
        forall|c: CourseCodeView| #[trigger] names_course(gened_table()[3], c) ==> pairs_to_map(
            catalog_table(),
        ).contains_key(c),
{
    lemma_in_catalog(282, course("PHIL"@, 2100));
    lemma_in_catalog(283, course("PHIL"@, 2310));
}

/// The courses that the requirement "Foreign Language" names are in the catalogue.
#[verifier::rlimit(40)]
proof fn lemma_requirement_4_in_catalog()
    ensures
        forall|c: CourseCodeView| #[trigger] names_course(gened_table()[4], c) ==> pairs_to_map(
            catalog_table(),
        ).contains_key(c),
{
    lemma_in_catalog(360, course("SPAN"@, 1000));
    lemma_in_catalog(361, course("SPAN"@, 1020));
    lemma_in_catalog(188, course("GREK"@, 1000));
    lemma_in_catalog(189, course("GREK"@, 1020));
    lemma_in_catalog(224, course("ITAL"@, 1000));
    lemma_in_catalog(225, course("ITAL"@, 1020));
    lemma_in_catalog(229, course("LATN"@, 1000));
    lemma_in_catalog(230, course("LATN"@, 1020));
    lemma_in_catalog(173, course("FREN"@, 1000));
    lemma_in_catalog(174, course("FREN"@, 1020));
    lemma_in_catalog(373, course("THEO"@, 2010));
    lemma_in_catalog(374, course("THEO"@, 2020));
    lemma_in_catalog(153, course("ESLG"@, 2930));
    assert forall|c: CourseCodeView| #[trigger] names_course(gened_table()[4], c) implies pairs_to_map(
        catalog_table(),
    ).contains_key(c) by {
        let sets = gened_table()[4]->Core_req->SetOpts_0;
        let j = choose|j: int| 0 <= j < sets.len() && #[trigger] sets[j].contains(c);
        assert(sets[j].contains(c));
    }
}

/// The courses that the requirement "Physical Fitness" names are in the catalogue.
#[verifier::rlimit(40)]
proof fn lemma_requirement_5_in_catalog()
    ensures
        forall|c: CourseCodeView| #[trigger] names_course(gened_table()[5], c) ==> pairs_to_map(
            catalog_table(),
        ).contains_key(c),
{
    lemma_in_catalog(154, course("EXSC"@, 1100));
    lemma_in_catalog(155, course("EXSC"@, 1101));
    lemma_in_catalog(156, course("EXSC"@, 1105));
    lemma_in_catalog(157, course("EXSC"@, 1106));
    lemma_in_catalog(158, course("EXSC"@, 1107));
    lemma_in_catalog(159, course("EXSC"@, 1108));
    lemma_in_catalog(160, course("EXSC"@, 1109));
    lemma_in_catalog(161, course("EXSC"@, 1111));
    lemma_in_catalog(162, course("EXSC"@, 1114));
    lemma_in_catalog(164, course("EXSC"@, 1116));
    lemma_in_catalog(165, course("EXSC"@, 1117));
    lemma_in_catalog(166, course("EXSC"@, 1126));
    lemma_in_catalog(167, course("EXSC"@, 1128));
    lemma_in_catalog(168, course("EXSC"@, 1129));
    lemma_in_catalog(258, course("MILS"@, 1160));
    lemma_in_catalog(259, course("MILS"@, 2160));
    lemma_in_catalog(260, course("MILS"@, 3160));
}

/// Every requirement can be met and lists nothing twice.
proof fn lemma_requirements_well_formed()
    ensures
        forall|i: int| 0 <= i < gened_table().len() ==> #[trigger] well_formed_gened(gened_table()[i]),
{
    assert forall|i: int| 0 <= i < gened_table().len() implies #[trigger] well_formed_gened(gened_table()[i]) by {
        if i == 5 {
            let courses = gened_table()[5]->Core_req->Courses_courses;
            assert(courses.no_duplicates());
        }
    }
}

/// Every course that a general-education requirement names is a course of
/// the catalogue, and every requirement can be met and lists nothing twice.
pub proof fn law_geneds_within_catalog()
    ensures
        forall|i: int, c: CourseCodeView|
            0 <= i < gened_table().len() && #[trigger] names_course(gened_table()[i], c)
                ==> pairs_to_map(catalog_table()).contains_key(c),
        forall|i: int| 0 <= i < gened_table().len() ==> #[trigger] well_formed_gened(gened_table()[i]),
{
    lemma_requirement_0_in_catalog();
    lemma_requirement_1_in_catalog();
    lemma_requirement_2_in_catalog();
    lemma_requirement_3_in_catalog();
    lemma_requirement_4_in_catalog();
    lemma_requirement_5_in_catalog();
    lemma_requirements_well_formed();
    assert forall|i: int, c: CourseCodeView|
        0 <= i < gened_table().len() && #[trigger] names_course(gened_table()[i], c)
        implies pairs_to_map(catalog_table()).contains_key(c) by {
        if i == 0 {
            assert(names_course(gened_table()[0], c));
        } else if i == 1 {
            assert(names_course(gened_table()[1], c));
        } else if i == 2 {
            assert(names_course(gened_table()[2], c));
        } else if i == 3 {
            assert(names_course(gened_table()[3], c));
        } else if i == 4 {
            assert(names_course(gened_table()[4], c));
        } else {
            assert(names_course(gened_table()[5], c));
        }
    }
}

/// The name of each general-education requirement, in the order of the listing.
pub open spec fn listed_gened_names() -> Seq<Seq<char>> {
    seq![
        "English Composition"@,
        "Intro to Theo"@,
        "Wellness for Life"@,
        "Natural Philosophy"@,
        "Foreign Language"@,
        "Physical Fitness"@,
    ]
}

/// The courses that each general-education requirement names, in the order of
/// the listing.
pub open spec fn listed_gened_courses() -> Seq<Set<CourseCodeView>> {
    seq![
        set![course("ENGL"@, 1000), course("ENGL"@, 1010), course("HONR"@, 1030)],
        set![course("THEO"@, 1100)],
        set![course("EXSC"@, 1115), course("NURS"@, 3200)],
        set![course("PHIL"@, 2100), course("PHIL"@, 2310)],
        set![course("SPAN"@, 1000), course("SPAN"@, 1020), course("GREK"@, 1000), course("GREK"@, 1020), course("ITAL"@, 1000), course("ITAL"@, 1020), course("LATN"@, 1000), course("LATN"@, 1020), course("FREN"@, 1000), course("FREN"@, 1020), course("THEO"@, 2010), course("THEO"@, 2020), course("ESLG"@, 2930)],
        set![course("EXSC"@, 1100), course("EXSC"@, 1101), course("EXSC"@, 1105), course("EXSC"@, 1106), course("EXSC"@, 1107), course("EXSC"@, 1108), course("EXSC"@, 1109), course("EXSC"@, 1111), course("EXSC"@, 1114), course("EXSC"@, 1116), course("EXSC"@, 1117), course("EXSC"@, 1126), course("EXSC"@, 1128), course("EXSC"@, 1129), course("MILS"@, 1160), course("MILS"@, 2160), course("MILS"@, 3160)],
    ]
}

/// The courses that the requirement "English Composition" names are the listed ones.
proof fn lemma_requirement_0_names()
    ensures
        forall|c: CourseCodeView| #[trigger] names_course(gened_table()[0], c) <==> listed_gened_courses()[0].contains(c),
{
    assert forall|c: CourseCodeView| #[trigger] names_course(gened_table()[0], c) <==> listed_gened_courses()[0].contains(c) by {
        if c == course("ENGL"@, 1000) {
            assert(gened_table()[0]->Core_req->Courses_courses[0] == c);
        }
        if c == course("ENGL"@, 1010) {
            assert(gened_table()[0]->Core_req->Courses_courses[1] == c);
        }
        if c == course("HONR"@, 1030) {
            assert(gened_table()[0]->Core_req->Courses_courses[2] == c);
        }
    }
}

/// The courses that the requirement "Intro to Theo" names are the listed ones.
proof fn lemma_requirement_1_names()
    ensures
        forall|c: CourseCodeView| #[trigger] names_course(gened_table()[1], c) <==> listed_gened_courses()[1].contains(c),
{
    assert forall|c: CourseCodeView| #[trigger] names_course(gened_table()[1], c) <==> listed_gened_courses()[1].contains(c) by {
        if c == course("THEO"@, 1100) {
            assert(gened_table()[1]->Core_req->Courses_courses[0] == c);
        }
    }
}

/// The courses that the requirement "Wellness for Life" names are the listed ones.
proof fn lemma_requirement_2_names()
    ensures
        forall|c: CourseCodeView| #[trigger] names_course(gened_table()[2], c) <==> listed_gened_courses()[2].contains(c),
{
    assert forall|c: CourseCodeView| #[trigger] names_course(gened_table()[2], c) <==> listed_gened_courses()[2].contains(c) by {
        if c == course("EXSC"@, 1115) {
            assert(gened_table()[2]->Core_req->Courses_courses[0] == c);
        }
        if c == course("NURS"@, 3200) {
            assert(gened_table()[2]->Core_req->Courses_courses[1] == c);
        }
    }
}

/// The courses that the requirement "Natural Philosophy" names are the listed ones.
proof fn lemma_requirement_3_names()
    ensures
        forall|c: CourseCodeView| #[trigger] names_course(gened_table()[3], c) <==> listed_gened_courses()[3].contains(c),
{
    assert forall|c: CourseCodeView| #[trigger] names_course(gened_table()[3], c) <==> listed_gened_courses()[3].contains(c) by {
        if c == course("PHIL"@, 2100) {
            assert(gened_table()[3]->Core_req->Courses_courses[0] == c);
        }
        if c == course("PHIL"@, 2310) {
            assert(gened_table()[3]->Core_req->Courses_courses[1] == c);
        }
    }
}

/// The courses that the requirement "Foreign Language" names are the listed ones.
proof fn lemma_requirement_4_names()
    ensures
        forall|c: CourseCodeView| #[trigger] names_course(gened_table()[4], c) <==> listed_gened_courses()[4].contains(c),
{
    assert forall|c: CourseCodeView| #[trigger] names_course(gened_table()[4], c) <==> listed_gened_courses()[4].contains(c) by {
        if names_course(gened_table()[4], c) {
            let sets = gened_table()[4]->Core_req->SetOpts_0;
            let j = choose|j: int| 0 <= j < sets.len() && #[trigger] sets[j].contains(c);
            if j == 0 {
                assert(sets[0].contains(c));
            }
            if j == 1 {
                assert(sets[1].contains(c));
            }
            if j == 2 {
                assert(sets[2].contains(c));
            }
            if j == 3 {
                assert(sets[3].contains(c));
            }
            if j == 4 {
                assert(sets[4].contains(c));
            }
            if j == 5 {
                assert(sets[5].contains(c));
            }
            if j == 6 {
                assert(sets[6].contains(c));
            }
        }
        if c == course("SPAN"@, 1000) {
            assert(gened_table()[4]->Core_req->SetOpts_0[0][0] == c);
            assert(gened_table()[4]->Core_req->SetOpts_0[0].contains(c));
        }
        if c == course("SPAN"@, 1020) {
            assert(gened_table()[4]->Core_req->SetOpts_0[0][1] == c);
            assert(gened_table()[4]->Core_req->SetOpts_0[0].contains(c));
        }
        if c == course("GREK"@, 1000) {
            assert(gened_table()[4]->Core_req->SetOpts_0[1][0] == c);
            assert(gened_table()[4]->Core_req->SetOpts_0[1].contains(c));
        }
        if c == course("GREK"@, 1020) {
            assert(gened_table()[4]->Core_req->SetOpts_0[1][1] == c);
            assert(gened_table()[4]->Core_req->SetOpts_0[1].contains(c));
        }
        if c == course("ITAL"@, 1000) {
            assert(gened_table()[4]->Core_req->SetOpts_0[2][0] == c);
            assert(gened_table()[4]->Core_req->SetOpts_0[2].contains(c));
        }
        if c == course("ITAL"@, 1020) {
            assert(gened_table()[4]->Core_req->SetOpts_0[2][1] == c);
            assert(gened_table()[4]->Core_req->SetOpts_0[2].contains(c));
        }
        if c == course("LATN"@, 1000) {
            assert(gened_table()[4]->Core_req->SetOpts_0[3][0] == c);
            assert(gened_table()[4]->Core_req->SetOpts_0[3].contains(c));
        }
        if c == course("LATN"@, 1020) {
            assert(gened_table()[4]->Core_req->SetOpts_0[3][1] == c);
            assert(gened_table()[4]->Core_req->SetOpts_0[3].contains(c));
        }
        if c == course("FREN"@, 1000) {
            assert(gened_table()[4]->Core_req->SetOpts_0[4][0] == c);
            assert(gened_table()[4]->Core_req->SetOpts_0[4].contains(c));
        }
        if c == course("FREN"@, 1020) {
            assert(gened_table()[4]->Core_req->SetOpts_0[4][1] == c);
            assert(gened_table()[4]->Core_req->SetOpts_0[4].contains(c));
        }
        if c == course("THEO"@, 2010) {
            assert(gened_table()[4]->Core_req->SetOpts_0[5][0] == c);
            assert(gened_table()[4]->Core_req->SetOpts_0[5].contains(c));
        }
        if c == course("THEO"@, 2020) {
            assert(gened_table()[4]->Core_req->SetOpts_0[5][1] == c);
            assert(gened_table()[4]->Core_req->SetOpts_0[5].contains(c));
        }
        if c == course("ESLG"@, 2930) {
            assert(gened_table()[4]->Core_req->SetOpts_0[6][0] == c);
            assert(gened_table()[4]->Core_req->SetOpts_0[6].contains(c));
        }
    }
}

/// The courses that the requirement "Physical Fitness" names are the listed ones.
proof fn lemma_requirement_5_names()
    ensures
        forall|c: CourseCodeView| #[trigger] names_course(gened_table()[5], c) <==> listed_gened_courses()[5].contains(c),
{
    assert forall|c: CourseCodeView| #[trigger] names_course(gened_table()[5], c) <==> listed_gened_courses()[5].contains(c) by {
        if c == course("EXSC"@, 1100) {
            assert(gened_table()[5]->Core_req->Courses_courses[0] == c);
        }
        if c == course("EXSC"@, 1101) {
            assert(gened_table()[5]->Core_req->Courses_courses[1] == c);
        }
        if c == course("EXSC"@, 1105) {
            assert(gened_table()[5]->Core_req->Courses_courses[2] == c);
        }
        if c == course("EXSC"@, 1106) {
            assert(gened_table()[5]->Core_req->Courses_courses[3] == c);
        }
        if c == course("EXSC"@, 1107) {
            assert(gened_table()[5]->Core_req->Courses_courses[4] == c);
        }
        if c == course("EXSC"@, 1108) {
            assert(gened_table()[5]->Core_req->Courses_courses[5] == c);
        }
        if c == course("EXSC"@, 1109) {
            assert(gened_table()[5]->Core_req->Courses_courses[6] == c);
        }
        if c == course("EXSC"@, 1111) {
            assert(gened_table()[5]->Core_req->Courses_courses[7] == c);
        }
        if c == course("EXSC"@, 1114) {
            assert(gened_table()[5]->Core_req->Courses_courses[8] == c);
        }
        if c == course("EXSC"@, 1116) {
            assert(gened_table()[5]->Core_req->Courses_courses[9] == c);
        }
        if c == course("EXSC"@, 1117) {
            assert(gened_table()[5]->Core_req->Courses_courses[10] == c);
        }
        if c == course("EXSC"@, 1126) {
            assert(gened_table()[5]->Core_req->Courses_courses[11] == c);
        }
        if c == course("EXSC"@, 1128) {
            assert(gened_table()[5]->Core_req->Courses_courses[12] == c);
        }
        if c == course("EXSC"@, 1129) {
            assert(gened_table()[5]->Core_req->Courses_courses[13] == c);
        }
        if c == course("MILS"@, 1160) {
            assert(gened_table()[5]->Core_req->Courses_courses[14] == c);
        }
        if c == course("MILS"@, 2160) {
            assert(gened_table()[5]->Core_req->Courses_courses[15] == c);
        }
        if c == course("MILS"@, 3160) {
            assert(gened_table()[5]->Core_req->Courses_courses[16] == c);
        }
    }
}

/// Each general-education requirement has its listed name and names exactly
/// its listed courses, and each one met by a count of courses asks for one.
pub proof fn law_geneds_listed()
    ensures
        gened_table().len() == listed_gened_names().len(),
        gened_table().len() == listed_gened_courses().len(),
        forall|i: int| 0 <= i < gened_table().len() ==> #[trigger] gened_table()[i]->Core_name == listed_gened_names()[i],
        forall|i: int, c: CourseCodeView|
            0 <= i < gened_table().len() ==> (#[trigger] names_course(gened_table()[i], c)
                <==> listed_gened_courses()[i].contains(c)),
        forall|i: int| 0 <= i < gened_table().len() ==> #[trigger] asks_for_one_course(gened_table()[i]),
{
    lemma_requirement_0_names();
    lemma_requirement_1_names();
    lemma_requirement_2_names();
    lemma_requirement_3_names();
    lemma_requirement_4_names();
    lemma_requirement_5_names();
    assert forall|i: int, c: CourseCodeView|
        0 <= i < gened_table().len() implies (#[trigger] names_course(gened_table()[i], c)
            <==> listed_gened_courses()[i].contains(c)) by {
        if i == 0 {
            assert(names_course(gened_table()[0], c) <==> listed_gened_courses()[0].contains(c));
        } else if i == 1 {
            assert(names_course(gened_table()[1], c) <==> listed_gened_courses()[1].contains(c));
        } else if i == 2 {
            assert(names_course(gened_table()[2], c) <==> listed_gened_courses()[2].contains(c));
        } else if i == 3 {
            assert(names_course(gened_table()[3], c) <==> listed_gened_courses()[3].contains(c));
        } else if i == 4 {
            assert(names_course(gened_table()[4], c) <==> listed_gened_courses()[4].contains(c));
        } else {
            assert(names_course(gened_table()[5], c) <==> listed_gened_courses()[5].contains(c));
        }
    }
}

} // verus!
