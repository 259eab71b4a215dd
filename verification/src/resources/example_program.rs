//! A sample degree program.

use vstd::prelude::*;
use crate::schedule::{CourseCode, Program, ProgramView, course, special_course};

verus! {

/// The value of the sample program.
pub open spec fn example_program_view() -> ProgramView {
    ProgramView {
        name: "Example #2"@,
        semesters: seq![
            seq![course("ASTR"@, 1050), course("ENGL"@, 1060), special_course("HONR"@, "PROJ"@)],
            seq![course("ENGL"@, 9930)],
        ],
        electives: seq![],
        assoc_stems: seq!["ENGL"@, "ASTR"@, "COLO"@],
    }
}

/// A sample program of two semesters.
pub fn example_program() -> (program: Program)
    ensures
        program.deep_view() == example_program_view(),
{
    let program = Program {
        name: "Example #2".to_owned(),
        semesters: vec![
            vec![
                CourseCode::new("ASTR", 1050),
                CourseCode::new("ENGL", 1060),
                CourseCode::special("HONR", "PROJ"),
            ],
            vec![CourseCode::new("ENGL", 9930)],
        ],
        electives: vec![],
        assoc_stems: vec!["ENGL".to_owned(), "ASTR".to_owned(), "COLO".to_owned()],
    };
    assert(program.deep_view() =~~= example_program_view());
    program
}

/// The sample program, named "Example #2", takes ASTR 1050, ENGL 1060 and the
/// HONR project in its first semester and ENGL 9930 in its second, has no
/// electives, and is associated with the stems ENGL, ASTR and COLO.
pub proof fn law_example_program()
    ensures
        example_program_view().name == "Example #2"@,
        example_program_view().semesters.len() == 2,
        example_program_view().semesters[0].to_set() == set![
            course("ASTR"@, 1050),
            course("ENGL"@, 1060),
            special_course("HONR"@, "PROJ"@),
        ],
        example_program_view().semesters[0].len() == 3,
        example_program_view().semesters[1] == seq![course("ENGL"@, 9930)],
        example_program_view().electives.len() == 0,
        example_program_view().assoc_stems.to_set() == set!["ENGL"@, "ASTR"@, "COLO"@],
        example_program_view().assoc_stems.len() == 3,
{
    assert(example_program_view().semesters[0].to_set() =~= set![
        course("ASTR"@, 1050),
        course("ENGL"@, 1060),
        special_course("HONR"@, "PROJ"@),
    ]);
    assert(example_program_view().assoc_stems.to_set() =~= set!["ENGL"@, "ASTR"@, "COLO"@]);
}

} // verus!
