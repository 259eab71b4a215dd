use course_catalog::geneds::{GenEd, GenEdReq};
use course_catalog::prereqs::CourseReq;
use course_catalog::resources::courses::courses;
use course_catalog::resources::credits::credits;
use course_catalog::resources::example_prereqs::example_prereqs;
use course_catalog::resources::example_program::example_program;
use course_catalog::resources::general_education::geneds;
use course_catalog::schedule::{CourseCode, CourseTermOffering};

fn code(stem: &str, number: u32) -> CourseCode {
    CourseCode::new(stem, number)
}

#[test]
fn catalog_has_every_listed_course() {
    assert_eq!(courses().len(), 416);
}

#[test]
fn catalog_entries() {
    let catalog = courses();
    assert_eq!(
        catalog.get(&code("ART", 1000)),
        Some(&("Drawing I".to_string(), Some(3), CourseTermOffering::Both))
    );
    assert_eq!(
        catalog.get(&code("ARCH", 4116)),
        Some(&("Capstone Studio 6".to_string(), Some(6), CourseTermOffering::Spring))
    );
    assert_eq!(
        catalog.get(&code("THTR", 4150)),
        Some(&("Play Direction".to_string(), Some(3), CourseTermOffering::Fall))
    );
    assert_eq!(catalog.get(&code("ART", 9999)), None);
}

#[test]
fn catalog_courses_without_credit_hours() {
    let catalog = courses();
    assert_eq!(
        catalog.get(&CourseCode::special("CHEM", "COMP")),
        Some(&("Senior Comprehensive Exam".to_string(), None, CourseTermOffering::Both))
    );
    assert_eq!(catalog.get(&code("PHYS", 4900)).unwrap().1, None);
}

#[test]
fn credits_are_exact() {
    let c = credits();
    assert_eq!(c.len(), 5);
    assert_eq!(c.get(&code("ACCT", 1010)), Some(&Some(3)));
    assert_eq!(c.get(&code("ASTR", 1010)), Some(&Some(4)));
    assert_eq!(c.get(&code("EENG", 1010)), Some(&Some(3)));
    assert_eq!(c.get(&code("ENGL", 1010)), Some(&Some(3)));
    assert_eq!(c.get(&code("PHYS", 1010)), Some(&Some(4)));
    assert_eq!(c.get(&code("PHYS", 1020)), None);
}

#[test]
fn geneds_are_listed_in_order() {
    let g = geneds();
    let names: Vec<&str> = g
        .iter()
        .map(|e| match e {
            GenEd::Core { name, .. } => name.as_str(),
        })
        .collect();
    assert_eq!(
        names,
        vec![
            "English Composition",
            "Intro to Theo",
            "Wellness for Life",
            "Natural Philosophy",
            "Foreign Language",
            "Physical Fitness",
        ]
    );
    match &g[0] {
        GenEd::Core { req, .. } => assert_eq!(
            req,
            &GenEdReq::Courses {
                num: 1,
                courses: vec![code("ENGL", 1000), code("ENGL", 1010), code("HONR", 1030)],
            }
        ),
    }
    match &g[4] {
        GenEd::Core { req: GenEdReq::SetOpts(sets), .. } => {
            assert_eq!(sets.len(), 7);
            assert_eq!(sets[6], vec![code("ESLG", 2930)]);
        }
        _ => panic!("Foreign Language is met by sets of courses"),
    }
    match &g[5] {
        GenEd::Core { req: GenEdReq::Courses { courses, .. }, .. } => assert_eq!(courses.len(), 17),
        _ => panic!("Physical Fitness is met by courses"),
    }
}

#[test]
fn sample_program() {
    let p = example_program();
    assert_eq!(p.name, "Example #2");
    assert_eq!(
        p.semesters,
        vec![
            vec![code("ASTR", 1050), code("ENGL", 1060), CourseCode::special("HONR", "PROJ")],
            vec![code("ENGL", 9930)],
        ]
    );
    assert!(p.electives.is_empty());
    assert_eq!(p.assoc_stems, vec!["ENGL".to_string(), "ASTR".to_string(), "COLO".to_string()]);
}

#[test]
fn sample_prereqs() {
    let m = example_prereqs();
    assert_eq!(m.len(), 2);
    assert_eq!(
        m.get(&code("CS", 201)),
        Some(&CourseReq::And(vec![
            CourseReq::PreCourse(code("CS", 102)),
            CourseReq::PreCourse(code("MATH", 101)),
        ]))
    );
    assert_eq!(
        m.get(&code("CS", 202)),
        Some(&CourseReq::Or(vec![
            CourseReq::PreCourse(code("CS", 201)),
            CourseReq::PreCourse(code("CS", 202)),
        ]))
    );
}

#[test]
fn geneds_name_only_catalogue_courses() {
    let catalog = courses();
    for g in geneds() {
        let GenEd::Core { req, .. } = g;
        match req {
            GenEdReq::Courses { num, courses } => {
                assert!(1 <= num && (num as usize) <= courses.len());
                for (i, c) in courses.iter().enumerate() {
                    assert!(catalog.get(c).is_some());
                    assert!(!courses[i + 1..].contains(c));
                }
            }
            GenEdReq::SetOpts(sets) => {
                for set in &sets {
                    assert!(!set.is_empty());
                    for c in set {
                        assert!(catalog.get(c).is_some());
                    }
                }
            }
        }
    }
}
