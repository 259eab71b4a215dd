use course_catalog::course_map::CourseMap;
use course_catalog::schedule::{CourseCode, CourseCodeSuffix};

fn code(stem: &str, number: u32) -> CourseCode {
    CourseCode::new(stem, number)
}

#[test]
fn new_map_is_empty() {
    let m: CourseMap<u32> = CourseMap::new();
    assert_eq!(m.len(), 0);
    assert_eq!(m.get(&code("MATH", 1000)), None);
}

#[test]
fn insert_then_get_reads_back_the_value() {
    let mut m = CourseMap::new();
    assert_eq!(m.insert(code("MATH", 1300), 3u32), None);
    assert_eq!(m.insert(code("MATH", 1350), 4u32), None);
    assert_eq!(m.get(&code("MATH", 1300)), Some(&3));
    assert_eq!(m.get(&code("MATH", 1350)), Some(&4));
    assert_eq!(m.len(), 2);
}

#[test]
fn insert_again_replaces_and_returns_previous() {
    let mut m = CourseMap::new();
    m.insert(code("CSCI", 2150), 1u32);
    m.insert(code("CSCI", 2300), 2u32);
    assert_eq!(m.insert(code("CSCI", 2150), 9u32), Some(1));
    assert_eq!(m.get(&code("CSCI", 2150)), Some(&9));
    assert_eq!(m.get(&code("CSCI", 2300)), Some(&2));
    assert_eq!(m.len(), 2);
}

#[test]
fn codes_differ_by_stem_number_and_label() {
    let mut m = CourseMap::new();
    m.insert(code("MATH", 1250), 'a');
    m.insert(CourseCode::special("MATH", "E1250"), 'b');
    m.insert(CourseCode::unique("MATH", 1250, "EXAM"), 'c');
    m.insert(code("CSCI", 1250), 'd');
    assert_eq!(m.len(), 4);
    assert_eq!(m.get(&CourseCode::special("MATH", "E1250")), Some(&'b'));
    assert_eq!(m.get(&CourseCode::unique("MATH", 1250, "EXAM")), Some(&'c'));
    assert_eq!(m.get(&CourseCode::unique("MATH", 1250, "TEST")), None);
    assert_eq!(m.get(&CourseCode::special("MATH", "E1251")), None);
}

#[test]
fn from_pairs_last_pair_wins() {
    let m = CourseMap::from_pairs(vec![
        (code("CHEM", 3510), 1u32),
        (code("CHEM", 3500), 2u32),
        (code("CHEM", 3510), 3u32),
    ]);
    assert_eq!(m.len(), 2);
    assert_eq!(m.get(&code("CHEM", 3510)), Some(&3));
    assert_eq!(m.get(&code("CHEM", 3500)), Some(&2));
}

#[test]
fn from_pairs_of_nothing_is_empty() {
    let m: CourseMap<u32> = CourseMap::from_pairs(vec![]);
    assert_eq!(m.len(), 0);
}

#[test]
fn concatenated_pairs_let_the_second_list_override() {
    let first = vec![(code("ART", 1000), 1u32), (code("ART", 1010), 2u32)];
    let second = vec![(code("ART", 1010), 20u32), (code("ART", 1030), 30u32)];
    let mut both = first;
    both.extend(second);
    let m = CourseMap::from_pairs(both);
    assert_eq!(m.len(), 3);
    assert_eq!(m.get(&code("ART", 1000)), Some(&1));
    assert_eq!(m.get(&code("ART", 1010)), Some(&20));
    assert_eq!(m.get(&code("ART", 1030)), Some(&30));
}

#[test]
fn into_pairs_gives_one_pair_per_course() {
    let m = CourseMap::from_pairs(vec![
        (code("BIOL", 3346), 'x'),
        (code("BIOL", 3346), 'y'),
        (code("BIOL", 3347), 'z'),
    ]);
    let mut pairs = m.into_pairs();
    pairs.sort_by_key(|p| match &p.0.code {
        CourseCodeSuffix::Number(n) => *n,
        _ => 0,
    });
    assert_eq!(pairs, vec![(code("BIOL", 3346), 'y'), (code("BIOL", 3347), 'z')]);
}

#[test]
fn same_course_compares_stem_and_suffix() {
    assert!(code("ENGL", 1010).same_course(&code("ENGL", 1010)));
    assert!(!code("ENGL", 1010).same_course(&code("ENGL", 1000)));
    assert!(!code("ENGL", 1010).same_course(&code("EENG", 1010)));
    assert!(!code("SPAN", 2010).same_course(&CourseCode::special("SPAN", "E2010")));
    assert!(CourseCode::special("SPAN", "E2010").same_course(&CourseCode::special("SPAN", "E2010")));
}
