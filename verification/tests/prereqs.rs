use course_catalog::prereqs::{ClassStanding, CourseReq, Grade, GradeLetter, GradeQualifier};
use course_catalog::resources::course_reqs::{
    prereqs, stem_acct, stem_arch, stem_chem, stem_engl, stem_grek, stem_math, stem_mgmt,
    stem_thtr,
};
use course_catalog::schedule::CourseCode;

fn code(stem: &str, number: u32) -> CourseCode {
    CourseCode::new(stem, number)
}

fn pre(stem: &str, number: u32) -> CourseReq {
    CourseReq::PreCourse(code(stem, number))
}

#[test]
fn acct_table_is_exact() {
    let c = Grade { letter: GradeLetter::C, qualifier: GradeQualifier::Flat };
    assert_eq!(
        stem_acct::prereqs(),
        vec![
            (
                code("ACCT", 3270),
                CourseReq::Or(vec![
                    CourseReq::PreCourseGrade(code("ACCT", 2090), c),
                    CourseReq::Instructor,
                ]),
            ),
            (code("ACCT", 3640), CourseReq::Or(vec![pre("FINC", 3100), CourseReq::Instructor])),
        ]
    );
}

#[test]
fn grade_constructor_sets_letter_and_mark() {
    let g = Grade::new(GradeLetter::C, GradeQualifier::Plus);
    assert_eq!(g.letter, GradeLetter::C);
    assert_eq!(g.qualifier, GradeQualifier::Plus);
}

#[test]
fn grek_uses_tagged_exam_codes() {
    let table = stem_grek::prereqs();
    assert_eq!(table.len(), 6);
    assert_eq!(
        table[0],
        (
            code("GREK", 1020),
            CourseReq::Or(vec![
                pre("GREK", 1000),
                CourseReq::PreCourse(CourseCode::unique("GREK", 1000, "EXAM")),
            ]),
        )
    );
}

#[test]
fn mgmt_uses_class_standing() {
    let table = stem_mgmt::prereqs();
    let entry = table.iter().find(|p| p.0 == code("MGMT", 4780)).unwrap();
    assert_eq!(
        entry.1,
        CourseReq::And(vec![CourseReq::Standing(ClassStanding::Junior), CourseReq::Instructor])
    );
}

#[test]
fn math_table_rules() {
    let table = stem_math::prereqs();
    assert_eq!(table.len(), 20);
    assert_eq!(table[0], (code("MATH", 1040), CourseReq::Instructor));
    let entry = table.iter().find(|p| p.0 == code("MATH", 1300)).unwrap();
    assert_eq!(
        entry,
        &(
            code("MATH", 1300),
            CourseReq::Or(vec![
                CourseReq::PreCourseGrade(code("MATH", 1250), Grade::new(GradeLetter::C, GradeQualifier::Flat)),
                CourseReq::PreCourse(CourseCode::special("MATH", "E1250")),
            ]),
        )
    );
}

#[test]
fn every_table_but_arch_keys_its_own_subject() {
    for (stem, table) in [
        ("ACCT", stem_acct::prereqs()),
        ("CHEM", stem_chem::prereqs()),
        ("ENGL", stem_engl::prereqs()),
        ("MATH", stem_math::prereqs()),
        ("THTR", stem_thtr::prereqs()),
    ] {
        assert!(table.iter().all(|p| p.0.stem == stem));
    }
    let arch = stem_arch::prereqs();
    assert!(arch.iter().any(|p| p.0.stem == "stem ARCH"));
}

#[test]
fn chem_table_lists_3510_twice() {
    let table = stem_chem::prereqs();
    let listed: Vec<_> = table.iter().filter(|p| p.0 == code("CHEM", 3510)).collect();
    assert_eq!(listed.len(), 2);
    assert_eq!(
        table.last().unwrap(),
        &(CourseCode::special("CHEM", "terminate"), CourseReq::PreCourse(CourseCode::special("CHEM", "EXIT")))
    );
}

#[test]
fn engl_table_size() {
    assert_eq!(stem_engl::prereqs().len(), 26);
}

#[test]
fn merged_map_has_one_rule_per_course() {
    let rules = prereqs();
    assert_eq!(rules.len(), 271);
}

#[test]
fn merged_map_keeps_last_listing() {
    let rules = prereqs();
    assert_eq!(rules.get(&code("CHEM", 3510)), Some(&pre("CHEM", 3500)));
    assert_eq!(rules.get(&code("CIVL", 4530)), Some(&pre("CIVL", 3510)));
    assert_eq!(
        rules.get(&code("CENG", 3350)),
        Some(&CourseReq::And(vec![
            CourseReq::PreCourseGrade(code("CENG", 2010), Grade::new(GradeLetter::C, GradeQualifier::Plus)),
            CourseReq::CoCourse(code("ENGR", 3150)),
        ]))
    );
}

#[test]
fn merged_map_leaves_out_unmerged_subjects() {
    let rules = prereqs();
    assert_eq!(rules.get(&code("GREK", 1020)), None);
    assert_eq!(rules.get(&code("MATH", 1300)), None);
    assert_eq!(rules.get(&code("ACCT", 3640)), Some(&CourseReq::Or(vec![pre("FINC", 3100), CourseReq::Instructor])));
    assert_eq!(rules.get(&code("GRBK", 1)), None);
}
