//! The course catalogue: the title, credit hours and term offering of each course.

use vstd::prelude::*;
use crate::course_map::{CourseMap, pairs_to_map};
use crate::schedule::{CourseCode, CourseCodeView, CourseTermOffering, course, special_course};

verus! {

/// The catalogue entry of each course, as pairs of course and (title, credit
/// hours, term offering) in the order in which they are listed; a course of
/// variable credit has no credit hours.
pub open spec fn catalog_table() -> Seq<(CourseCodeView, (Seq<char>, Option<u32>, CourseTermOffering))> {
    seq![
        (course("ARCH"@, 2300), ("Architectural History I"@, Some(3u32), CourseTermOffering::Fall)),
        (course("ARCH"@, 2301), ("Architectural History 2"@, Some(3u32), CourseTermOffering::Spring)),
        (course("ARCH"@, 3400), ("Architecture of Cities"@, Some(3u32), CourseTermOffering::Fall)),
        (course("ARCH"@, 4116), ("Capstone Studio 6"@, Some(6u32), CourseTermOffering::Spring)),
        (course("ART"@, 1000), ("Drawing I"@, Some(3u32), CourseTermOffering::Both)),
        (course("ART"@, 1010), ("Foundations of 2-D Design: Comp & Color"@, Some(3u32), CourseTermOffering::Both)),
        (course("ART"@, 1030), ("Foundations of 3-D Design: Form & Space"@, Some(3u32), CourseTermOffering::Both)),
        (course("ART"@, 2410), ("Art Appreciation"@, Some(3u32), CourseTermOffering::Both)),
        (course("ART"@, 2600), ("Ceramics I"@, Some(3u32), CourseTermOffering::Both)),
        (course("ART"@, 2800), ("Basic Digital Photography"@, Some(3u32), CourseTermOffering::Discretion)),
        (course("ART"@, 3411), ("Art History I"@, Some(3u32), CourseTermOffering::Fall)),
        (course("ART"@, 3412), ("Art History II (survey)"@, Some(3u32), CourseTermOffering::Spring)),
        (course("ART"@, 3413), ("Twentieth Century Art"@, Some(3u32), CourseTermOffering::Fall)),
        (course("ART"@, 4311), ("Design for Social Good"@, Some(3u32), CourseTermOffering::Fall)),
        (course("ART"@, 4900), ("Professional Practices"@, Some(2u32), CourseTermOffering::Fall)),
        (course("ASTR"@, 1300), ("Sun & Solar System"@, Some(4u32), CourseTermOffering::Fall)),
        (course("ASTR"@, 1400), ("Stars & Stellar Systems"@, Some(4u32), CourseTermOffering::Spring)),
        (course("ASTR"@, 3000), ("Observational Astronomy"@, Some(3u32), CourseTermOffering::Fall)),
        (course("ASTR"@, 4100), ("Introduction to Astrophysics"@, Some(3u32), CourseTermOffering::Fall)),
        (course("ASTR"@, 4200), ("Solar System Astrophysics"@, Some(3u32), CourseTermOffering::Fall)),
        (course("ASTR"@, 4300), ("Galaxies & Cosmology"@, Some(3u32), CourseTermOffering::Spring)),
        (course("BIOL"@, 1050), ("Microbial World"@, Some(4u32), CourseTermOffering::Fall)),
        (course("BIOL"@, 1105), ("Plants & Civilization"@, Some(4u32), CourseTermOffering::Spring)),
        (course("BIOL"@, 1107), ("Principles of Biology"@, Some(4u32), CourseTermOffering::Both)),
        (course("BIOL"@, 1121), ("General Biology I"@, Some(5u32), CourseTermOffering::Fall)),
        (course("BIOL"@, 1122), ("General Biology II"@, Some(4u32), CourseTermOffering::Spring)),
        (course("BIOL"@, 2243), ("Human Anatomy & Physiology II"@, Some(4u32), CourseTermOffering::Spring)),
        (course("BIOL"@, 2260), ("Principles of Microbiology"@, Some(4u32), CourseTermOffering::Spring)),
        (course("BIOL"@, 3305), ("Biological Statistics"@, Some(4u32), CourseTermOffering::Spring)),
        (course("BIOL"@, 3310), ("Biology III- Mechanisms of Evolution"@, Some(3u32), CourseTermOffering::Fall)),
        (course("BIOL"@, 3312), ("Plant Biology"@, Some(4u32), CourseTermOffering::Discretion)),
        (course("BIOL"@, 3313), ("Taxonomy of Flowering Plants"@, Some(4u32), CourseTermOffering::Discretion)),
        (course("BIOL"@, 3345), ("Developmental Biology"@, Some(4u32), CourseTermOffering::Discretion)),
        (course("BIOL"@, 3346), ("Comparative Vertebrate Anatomy"@, Some(4u32), CourseTermOffering::Discretion)),
        (course("BIOL"@, 3347), ("Kansas Vertebrates Natural History"@, Some(4u32), CourseTermOffering::Discretion)),
        (course("BIOL"@, 3353), ("Invertebrate Biology"@, Some(4u32), CourseTermOffering::Discretion)),
        (course("BIOL"@, 3354), ("Animal Behavior"@, Some(4u32), CourseTermOffering::Discretion)),
        (course("BIOL"@, 3355), ("Ecology"@, Some(4u32), CourseTermOffering::Discretion)),
        (course("BIOL"@, 3360), ("Microbiology"@, Some(4u32), CourseTermOffering::Discretion)),
        (course("BIOL"@, 3370), ("Genetics"@, Some(4u32), CourseTermOffering::Discretion)),
        (course("BIOL"@, 4410), ("Cancer Biology"@, Some(4u32), CourseTermOffering::Spring)),
        (course("BIOL"@, 4475), ("Molecular & Cell Biology"@, Some(4u32), CourseTermOffering::Discretion)),
        (course("BIOL"@, 4476), ("Immunology"@, Some(4u32), CourseTermOffering::Discretion)),
        (course("BIOL"@, 4482), ("Animal Physiology"@, Some(4u32), CourseTermOffering::Discretion)),
        (course("BIOL"@, 4484), ("Cell Physiology"@, Some(4u32), CourseTermOffering::Discretion)),
        (course("BIOL"@, 4486), ("Research"@, Some(1u32), CourseTermOffering::Discretion)),
        (course("BUSI"@, 2230), ("Business Communication"@, Some(3u32), CourseTermOffering::Discretion)),
        (course("BUSI"@, 2650), ("Business Statistics"@, Some(3u32), CourseTermOffering::Both)),
        (course("BUSI"@, 3710), ("Legal Environment of Business"@, Some(3u32), CourseTermOffering::Both)),
        (course("BUSI"@, 4550), ("Business Ethics"@, Some(3u32), CourseTermOffering::Discretion)),
        (course("BUSI"@, 4850), ("Seminr on Executive Writing and Communic"@, Some(1u32), CourseTermOffering::Both)),
        (course("CENG"@, 4600), ("Plant Design I"@, Some(3u32), CourseTermOffering::Fall)),
        (course("CENG"@, 4610), ("Plant Design II"@, Some(3u32), CourseTermOffering::Spring)),
        (course("CHEM"@, 1010), ("Chemistry of the Biosphere"@, Some(3u32), CourseTermOffering::Discretion)),
        (course("CHEM"@, 1011), ("Chemistry of the Biosphere Lab"@, Some(1u32), CourseTermOffering::Discretion)),
        (course("CHEM"@, 1200), ("General Chemistry I Lecture"@, Some(3u32), CourseTermOffering::Both)),
        (course("CHEM"@, 1201), ("General Chemistry I Lab"@, Some(1u32), CourseTermOffering::Both)),
        (course("CHEM"@, 1210), ("General Chemistry II Lecture"@, Some(3u32), CourseTermOffering::Spring)),
        (course("CHEM"@, 1211), ("General Chemistry II Lab"@, Some(1u32), CourseTermOffering::Spring)),
        (course("CHEM"@, 2200), ("Organic Chemistry I Lecture"@, Some(3u32), CourseTermOffering::Fall)),
        (course("CHEM"@, 2201), ("Organic Chemistry I Lab"@, Some(1u32), CourseTermOffering::Fall)),
        (course("CHEM"@, 2210), ("Organic Chemistry II Lecture"@, Some(3u32), CourseTermOffering::Spring)),
        (course("CHEM"@, 2211), ("Organic Chem II Lab"@, Some(1u32), CourseTermOffering::Spring)),
        (course("CHEM"@, 3150), ("Computational Chemistry"@, Some(3u32), CourseTermOffering::Discretion)),
        (course("CHEM"@, 3250), ("Environmental Chemistry"@, Some(3u32), CourseTermOffering::Discretion)),
        (course("CHEM"@, 3300), ("Quantitative Analysis"@, Some(3u32), CourseTermOffering::Fall)),
        (course("CHEM"@, 3301), ("Quantitative Analysis Lab"@, Some(1u32), CourseTermOffering::Fall)),
        (course("CHEM"@, 3311), ("Instrumental Analysis Lab"@, Some(1u32), CourseTermOffering::Spring)),
        (course("CHEM"@, 3400), ("Inorganic Chemistry"@, Some(3u32), CourseTermOffering::Spring)),
        (course("CHEM"@, 3401), ("Inorganic Chemistry Lab"@, Some(1u32), CourseTermOffering::Spring)),
        (course("CHEM"@, 3500), ("Biochemistry I"@, Some(3u32), CourseTermOffering::Fall)),
        (course("CHEM"@, 3501), ("Biochemistry I Lab"@, Some(1u32), CourseTermOffering::Fall)),
        (course("CHEM"@, 3510), ("Biochemistry II"@, Some(3u32), CourseTermOffering::Spring)),
        (course("CHEM"@, 3511), ("Biochemistry II Lab"@, Some(1u32), CourseTermOffering::Spring)),
        (course("CHEM"@, 3650), ("Polymer Chemistry"@, Some(3u32), CourseTermOffering::Discretion)),
        (course("CHEM"@, 3800), ("Physical Chemistry I"@, Some(3u32), CourseTermOffering::Spring)),
        (course("CHEM"@, 3801), ("Physical Chemistry I Lab"@, Some(1u32), CourseTermOffering::Spring)),
        (course("CHEM"@, 3980), ("Special Topics"@, Some(3u32), CourseTermOffering::Discretion)),
        (course("CHEM"@, 4200), ("Physical Chemistry II"@, Some(3u32), CourseTermOffering::Fall)),
        (course("CHEM"@, 4350), ("Advanced Organic Chemistry I"@, Some(3u32), CourseTermOffering::Discretion)),
        (course("CHEM"@, 4450), ("Topics in Biochemistry"@, Some(3u32), CourseTermOffering::Fall)),
        (course("CHEM"@, 4650), ("Organometallic Chemistry"@, Some(3u32), CourseTermOffering::Discretion)),
        (course("CHEM"@, 4801), ("Research I"@, Some(1u32), CourseTermOffering::Both)),
        (course("CHEM"@, 4811), ("Research II"@, Some(1u32), CourseTermOffering::Both)),
        (course("CHEM"@, 4900), ("Chemistry & Biochem Colloquium"@, Some(1u32), CourseTermOffering::Both)),
        (course("CHEM"@, 4901), ("Chem & Biochem Colloquium 2"@, Some(1u32), CourseTermOffering::Both)),
        (course("CHEM"@, 4902), ("Chem & Biochem Colloquium 3"@, Some(1u32), CourseTermOffering::Both)),
        (course("CHEM"@, 4903), ("Chem & Biochem Colloquium 4"@, Some(1u32), CourseTermOffering::Both)),
        (course("CHEM"@, 4980), ("Special Topics"@, Some(4u32), CourseTermOffering::Discretion)),
        (special_course("CHEM"@, "COMP"@), ("Senior Comprehensive Exam"@, None, CourseTermOffering::Both)),
        (course("CIVL"@, 3010), ("Soil Mechanics & Civil Eng Materials Lab"@, Some(2u32), CourseTermOffering::Spring)),
        (course("CIVL"@, 3020), ("Environmental & Hydraulic Engineeri Lab"@, Some(2u32), CourseTermOffering::Fall)),
        (course("CIVL"@, 4700), ("Civil Engineering Seminar"@, Some(1u32), CourseTermOffering::Fall)),
        (course("CRIM"@, 1000), ("Introduction to Crime & Justice"@, Some(3u32), CourseTermOffering::Both)),
        (course("CRIM"@, 3100), ("Theories of Crime & Deviance"@, Some(3u32), CourseTermOffering::Spring)),
        (course("CRIM"@, 3200), ("Crime Analysis"@, Some(3u32), CourseTermOffering::Discretion)),
        (course("CRIM"@, 3300), ("Juvenile Delinquency"@, Some(3u32), CourseTermOffering::Fall)),
        (course("CSCI"@, 2300), ("Programming for Scientists & Engineers"@, Some(3u32), CourseTermOffering::Spring)),
        (course("CSCI"@, 4930), ("Computer Science Senior Capstone"@, Some(2u32), CourseTermOffering::Spring)),
        (course("DANC"@, 3800), ("History of Dance"@, Some(3u32), CourseTermOffering::Discretion)),
        (course("ECON"@, 1000), ("Economics of Social & Public Issues"@, Some(3u32), CourseTermOffering::Fall)),
        (course("ECON"@, 1010), ("Introduction to Economics"@, Some(3u32), CourseTermOffering::Infrequently)),
        (course("ECON"@, 2090), ("Principles of Macroeconomics"@, Some(3u32), CourseTermOffering::Both)),
        (course("ECON"@, 2100), ("Principles of Microeconomics"@, Some(3u32), CourseTermOffering::Both)),
        (course("ECON"@, 3000), ("Contemporary Economic Thinking"@, Some(3u32), CourseTermOffering::Fall)),
        (course("ECON"@, 3010), ("Environmental Economics"@, Some(3u32), CourseTermOffering::Fall)),
        (course("ECON"@, 3260), ("Catholic Social Teaching"@, Some(3u32), CourseTermOffering::Spring)),
        (course("ECON"@, 4010), ("Seminar in Economic Development"@, Some(3u32), CourseTermOffering::Spring)),
        (course("EDUC"@, 2220), ("Science of Learning & Teaching"@, Some(3u32), CourseTermOffering::Both)),
        (course("EDUC"@, 4451), ("Philosophy of Education"@, Some(3u32), CourseTermOffering::Both)),
        (course("EDUC"@, 4470), ("Student Teaching Seminar"@, Some(2u32), CourseTermOffering::Both)),
        (course("EDUC"@, 4492), ("Supervised Student Teaching Elem School"@, Some(12u32), CourseTermOffering::Both)),
        (course("EDUC"@, 4496), ("Supervised Student Teach Secondar School"@, Some(10u32), CourseTermOffering::Both)),
        (course("EDUC"@, 4497), ("Modified Teaching Experience"@, Some(5u32), CourseTermOffering::Both)),
        (course("EENG"@, 4600), ("Electrical Engin Design I"@, Some(3u32), CourseTermOffering::Fall)),
        (course("EENG"@, 4610), ("Electrical Engin Design II"@, Some(3u32), CourseTermOffering::Spring)),
        (course("ENGL"@, 1000), ("English Composition With Review"@, Some(4u32), CourseTermOffering::Both)),
        (course("ENGL"@, 1010), ("English Composition"@, Some(3u32), CourseTermOffering::Both)),
        (course("ENGL"@, 1020), ("Introduction to Literature"@, Some(3u32), CourseTermOffering::Discretion)),
        (course("ENGL"@, 1500), ("World Lit I: Ancient to Renaissance"@, Some(3u32), CourseTermOffering::Discretion)),
        (course("ENGL"@, 1550), ("World Lit II: Enlightenment-Present"@, Some(3u32), CourseTermOffering::Discretion)),
        (course("ENGL"@, 1575), ("World Lit 3: 19th Century to WW1"@, Some(3u32), CourseTermOffering::Discretion)),
        (course("ENGL"@, 1600), ("British Literature to 1750"@, Some(3u32), CourseTermOffering::Both)),
        (course("ENGL"@, 1650), ("British Literature After 1750"@, Some(3u32), CourseTermOffering::Both)),
        (course("ENGL"@, 1700), ("American Literature Thru Civil War"@, Some(3u32), CourseTermOffering::Both)),
        (course("ENGL"@, 1750), ("British Literature to 1750"@, Some(3u32), CourseTermOffering::Both)),
        (course("ENGL"@, 3010), ("Old & Middle English Literature"@, Some(3u32), CourseTermOffering::Infrequently)),
        (course("ENGL"@, 3020), ("Shakespeare"@, Some(3u32), CourseTermOffering::Spring)),
        (course("ENGL"@, 3030), ("Renaissance Literature"@, Some(3u32), CourseTermOffering::Infrequently)),
        (course("ENGL"@, 3040), ("Restoration & 18th Century Literature"@, Some(3u32), CourseTermOffering::Infrequently)),
        (course("ENGL"@, 3060), ("Classical Mythology"@, Some(3u32), CourseTermOffering::Discretion)),
        (course("ENGL"@, 3110), ("The Novel"@, Some(3u32), CourseTermOffering::Discretion)),
        (course("ENGL"@, 3120), ("Short Story"@, Some(3u32), CourseTermOffering::Discretion)),
        (course("ENGL"@, 3140), ("The Play"@, Some(3u32), CourseTermOffering::Discretion)),
        (course("ENGL"@, 3150), ("Film"@, Some(3u32), CourseTermOffering::Discretion)),
        (course("ENGL"@, 3250), ("Creative Writing"@, Some(3u32), CourseTermOffering::Fall)),
        (course("ENGL"@, 3270), ("Writing Fiction"@, Some(3u32), CourseTermOffering::Spring)),
        (course("ENGL"@, 4010), ("Romantic Literature"@, Some(3u32), CourseTermOffering::Discretion)),
        (course("ENGL"@, 4020), ("Victorian Literature"@, Some(3u32), CourseTermOffering::Discretion)),
        (course("ENGL"@, 4050), ("20th Century British Literature"@, Some(3u32), CourseTermOffering::Discretion)),
        (course("ENGL"@, 4060), ("Contemporary American Literature"@, Some(3u32), CourseTermOffering::Discretion)),
        (course("ENGL"@, 4110), ("Literary Criticism"@, Some(3u32), CourseTermOffering::Spring)),
        (course("ENGL"@, 4130), ("Christianity & Literature"@, Some(3u32), CourseTermOffering::Discretion)),
        (course("ENGL"@, 4140), ("The Vikings: History & Literature"@, Some(3u32), CourseTermOffering::Discretion)),
        (course("ENGL"@, 4200), ("Legends of King Arthur"@, Some(3u32), CourseTermOffering::Discretion)),
        (course("ENGL"@, 4250), ("Creative Writing II"@, Some(3u32), CourseTermOffering::Discretion)),
        (course("ENGL"@, 4910), ("Language & Literature Seminar"@, Some(3u32), CourseTermOffering::Both)),
        (course("ENGR"@, 1001), ("STEM Fund of Robitcs & Makerlabs"@, Some(3u32), CourseTermOffering::Fall)),
        (course("ENGR"@, 1500), ("Technical Drawing"@, Some(2u32), CourseTermOffering::Spring)),
        (course("ENGR"@, 3170), ("Engineering Economy & Society"@, Some(3u32), CourseTermOffering::Both)),
        (course("ENGR"@, 3400), ("Materials Laboratory"@, Some(2u32), CourseTermOffering::Fall)),
        (course("ENGR"@, 3410), ("Thermofluids Laboratory"@, Some(2u32), CourseTermOffering::Spring)),
        (course("ESLG"@, 2220), ("Advanced Composition & Research"@, Some(3u32), CourseTermOffering::Fall)),
        (course("ESLG"@, 2930), ("Public Speaking"@, Some(3u32), CourseTermOffering::Spring)),
        (course("EXSC"@, 1100), ("Physical Fitness"@, Some(1u32), CourseTermOffering::Fall)),
        (course("EXSC"@, 1101), ("Aerobics-FITNESS"@, Some(1u32), CourseTermOffering::Both)),
        (course("EXSC"@, 1105), ("Beginning Gymnastics & Body Mechanics"@, Some(1u32), CourseTermOffering::Fall)),
        (course("EXSC"@, 1106), ("Beginning Swimming"@, Some(1u32), CourseTermOffering::Both)),
        (course("EXSC"@, 1107), ("Beg Weight & Circuit Training -FITNESS"@, Some(1u32), CourseTermOffering::Both)),
        (course("EXSC"@, 1108), ("Intermediate Swimming- Fitness"@, Some(1u32), CourseTermOffering::Both)),
        (course("EXSC"@, 1109), ("Karate (FITNESS)"@, Some(1u32), CourseTermOffering::Both)),
        (course("EXSC"@, 1111), ("Varsity Sport Activity"@, Some(1u32), CourseTermOffering::Both)),
        (course("EXSC"@, 1114), ("Aikido (FITNESS)"@, Some(1u32), CourseTermOffering::Both)),
        (course("EXSC"@, 1115), ("Wellness for Life"@, Some(1u32), CourseTermOffering::Both)),
        (course("EXSC"@, 1116), ("Lifestyle FIT"@, Some(1u32), CourseTermOffering::Both)),
        (course("EXSC"@, 1117), ("Brazilian Jiu Jitsu I"@, Some(1u32), CourseTermOffering::Discretion)),
        (course("EXSC"@, 1126), ("Zumba (FITNESS)"@, Some(1u32), CourseTermOffering::Both)),
        (course("EXSC"@, 1128), ("FITNESS Swimming"@, Some(1u32), CourseTermOffering::Both)),
        (course("EXSC"@, 1129), ("Pickleball"@, Some(1u32), CourseTermOffering::Both)),
        (course("EXSC"@, 3380), ("Kinesiology & Biomechanical Analysis"@, Some(3u32), CourseTermOffering::Both)),
        (course("EXSC"@, 4457), ("Meth & Tech Teach Phys Activity & Health"@, Some(3u32), CourseTermOffering::Fall)),
        (course("FIAR"@, 1100), ("Introduction to Fine Arts"@, Some(3u32), CourseTermOffering::Infrequently)),
        (course("FINC"@, 4940), ("History Financial Institutions & Markets"@, Some(3u32), CourseTermOffering::Spring)),
        (course("FREN"@, 1000), ("Beginning French"@, Some(4u32), CourseTermOffering::Fall)),
        (course("FREN"@, 1020), ("Second Semester French"@, Some(4u32), CourseTermOffering::Spring)),
        (course("FREN"@, 3040), ("Introduction to French Literature"@, Some(3u32), CourseTermOffering::Discretion)),
        (course("FREN"@, 3500), ("French Study Abroad"@, Some(1u32), CourseTermOffering::Discretion)),
        (course("FREN"@, 3510), ("Advanced French Grammar & Conversation"@, Some(3u32), CourseTermOffering::Discretion)),
        (course("FREN"@, 3610), ("French Civilization"@, Some(3u32), CourseTermOffering::Discretion)),
        (course("FREN"@, 3620), ("Survey French Lit From Origin to Classic"@, Some(3u32), CourseTermOffering::Discretion)),
        (course("FREN"@, 3630), ("Survey French Lit-Classical to Symbolism"@, Some(3u32), CourseTermOffering::Discretion)),
        (course("FREN"@, 3640), ("Survey French Lit-Symbolism-Current"@, Some(3u32), CourseTermOffering::Discretion)),
        (course("FREN"@, 3650), ("Intro Francophone Literature & Cultures"@, Some(3u32), CourseTermOffering::Discretion)),
        (course("FREN"@, 3700), ("History of French Cinema"@, Some(3u32), CourseTermOffering::Discretion)),
        (course("GNST"@, 1110), ("Learning Community Lab"@, Some(2u32), CourseTermOffering::Fall)),
        (course("GNST"@, 1800), ("Moot Court"@, Some(2u32), CourseTermOffering::Fall)),
        (course("GNST"@, 3000), ("International Study Reflection & Practic"@, Some(1u32), CourseTermOffering::Both)),
        (course("GNST"@, 3200), ("Catholic Worldview Fellowship"@, Some(3u32), CourseTermOffering::Summer)),
        (course("GREK"@, 1000), ("Beginning Greek I"@, Some(4u32), CourseTermOffering::Fall)),
        (course("GREK"@, 1020), ("Beginning Greek II"@, Some(4u32), CourseTermOffering::Spring)),
        (course("HIST"@, 1100), ("World Civilization to 1500"@, Some(3u32), CourseTermOffering::Both)),
        (course("HIST"@, 1101), ("World Civilization Since 1500"@, Some(3u32), CourseTermOffering::Both)),
        (course("HIST"@, 1300), ("United States History to 1865"@, Some(3u32), CourseTermOffering::Fall)),
        (course("HIST"@, 1380), ("United States History Since 1865"@, Some(3u32), CourseTermOffering::Both)),
        (course("HIST"@, 2000), ("History Methods & Historiography"@, Some(3u32), CourseTermOffering::Fall)),
        (course("HIST"@, 3100), ("United States Diplomatic History"@, Some(3u32), CourseTermOffering::Discretion)),
        (course("HIST"@, 3140), ("Medieval Travelers"@, Some(3u32), CourseTermOffering::Discretion)),
        (course("HIST"@, 3141), ("The Crusades"@, Some(3u32), CourseTermOffering::Discretion)),
        (course("HIST"@, 3280), ("Modern Asian Survey"@, Some(3u32), CourseTermOffering::Infrequently)),
        (course("HIST"@, 3301), ("United States Military History"@, Some(3u32), CourseTermOffering::Discretion)),
        (course("HIST"@, 3380), ("Early American Republic 1789-1828"@, Some(3u32), CourseTermOffering::Discretion)),
        (course("HIST"@, 3381), ("United States Civil War 1828-1865"@, Some(3u32), CourseTermOffering::Discretion)),
        (course("HIST"@, 3383), ("Prosperity & Depression 1919-1941"@, Some(3u32), CourseTermOffering::Discretion)),
        (course("HIST"@, 3385), ("History of American Film"@, Some(3u32), CourseTermOffering::Discretion)),
        (course("HIST"@, 3520), ("Ancient Greece"@, Some(3u32), CourseTermOffering::Discretion)),
        (course("HIST"@, 3521), ("Ancient Rome"@, Some(3u32), CourseTermOffering::Discretion)),
        (course("HIST"@, 3522), ("Greek & Roman History"@, Some(3u32), CourseTermOffering::Discretion)),
        (course("HIST"@, 3540), ("Medieval History"@, Some(3u32), CourseTermOffering::Discretion)),
        (course("HIST"@, 3541), ("Byzantine History"@, Some(3u32), CourseTermOffering::Discretion)),
        (course("HIST"@, 3542), ("The Renaissance"@, Some(3u32), CourseTermOffering::Discretion)),
        (course("HIST"@, 3543), ("Medieval England"@, Some(3u32), CourseTermOffering::Discretion)),
        (course("HIST"@, 3544), ("Medieval Lay Religion"@, Some(3u32), CourseTermOffering::Discretion)),
        (course("HIST"@, 3660), ("The Reformation Era"@, Some(3u32), CourseTermOffering::Discretion)),
        (course("HIST"@, 3661), ("Early Modern Europe"@, Some(3u32), CourseTermOffering::Discretion)),
        (course("HIST"@, 3680), ("French Revolution & Napoleon"@, Some(3u32), CourseTermOffering::Discretion)),
        (course("HIST"@, 3681), ("Ninteenth-Century Europe"@, Some(3u32), CourseTermOffering::Discretion)),
        (course("HIST"@, 3682), ("Europe 1945 - Today"@, Some(3u32), CourseTermOffering::Discretion)),
        (course("HIST"@, 3684), ("Russian History"@, Some(3u32), CourseTermOffering::Discretion)),
        (course("HIST"@, 3685), ("World War I"@, Some(3u32), CourseTermOffering::Discretion)),
        (course("HIST"@, 3686), ("World War II"@, Some(3u32), CourseTermOffering::Discretion)),
        (course("HIST"@, 3687), ("The Holocaust"@, Some(3u32), CourseTermOffering::Discretion)),
        (course("HIST"@, 3720), ("Ancient Egypt"@, Some(3u32), CourseTermOffering::Discretion)),
        (course("HIST"@, 4000), ("Seminar in History"@, Some(3u32), CourseTermOffering::Spring)),
        (course("HONR"@, 1030), ("Honors English Research Seminar"@, Some(3u32), CourseTermOffering::Fall)),
        (course("ITAL"@, 1000), ("Beginning Italian"@, Some(4u32), CourseTermOffering::Both)),
        (course("ITAL"@, 1020), ("Second Semester Italian"@, Some(4u32), CourseTermOffering::Both)),
        (course("ITAL"@, 3000), ("Europe in the Middle Ages"@, Some(3u32), CourseTermOffering::Both)),
        (course("JOUR"@, 2620), ("Media Writing I"@, Some(4u32), CourseTermOffering::Both)),
        (course("JOUR"@, 3300), ("Media Writing II"@, Some(3u32), CourseTermOffering::Both)),
        (course("LATN"@, 1000), ("Beginning Latin I"@, Some(4u32), CourseTermOffering::Fall)),
        (course("LATN"@, 1020), ("Beginning Latin II"@, Some(4u32), CourseTermOffering::Spring)),
        (course("LATN"@, 3110), ("Survey of Latin Prose Authors"@, Some(3u32), CourseTermOffering::Discretion)),
        (course("LATN"@, 3120), ("Latin Prose Authors II"@, Some(3u32), CourseTermOffering::Discretion)),
        (course("LATN"@, 4110), ("Survey of Latin Poets"@, Some(3u32), CourseTermOffering::Discretion)),
        (course("LATN"@, 4120), ("Latin Poets II"@, Some(3u32), CourseTermOffering::Discretion)),
        (course("MATH"@, 1020), ("Mathematics As a Liberal Art"@, Some(3u32), CourseTermOffering::Both)),
        (course("MATH"@, 1120), ("Mathematics for Elem Teachers II"@, Some(3u32), CourseTermOffering::Both)),
        (course("MATH"@, 1220), ("Introductory Statistics"@, Some(4u32), CourseTermOffering::Both)),
        (course("MATH"@, 1250), ("Pre-Calculus"@, Some(4u32), CourseTermOffering::Both)),
        (course("MATH"@, 1300), ("Calculus I"@, Some(4u32), CourseTermOffering::Both)),
        (course("MATH"@, 1350), ("Calculus II"@, Some(4u32), CourseTermOffering::Both)),
        (course("MATH"@, 2300), ("Calculus III"@, Some(4u32), CourseTermOffering::Both)),
        (course("MATH"@, 2550), ("Discrete Mathematical Structures I"@, Some(3u32), CourseTermOffering::Fall)),
        (course("MATH"@, 3100), ("Differential Equations"@, Some(3u32), CourseTermOffering::Both)),
        (course("MATH"@, 4457), ("Secondary School Math Curr & Materials"@, Some(4u32), CourseTermOffering::Fall)),
        (course("MATH"@, 4930), ("Directed Research"@, Some(2u32), CourseTermOffering::Fall)),
        (course("MCOM"@, 1000), ("Media & Society"@, Some(3u32), CourseTermOffering::Both)),
        (course("MCOM"@, 1030), ("Introduction to Cinema"@, Some(3u32), CourseTermOffering::Fall)),
        (course("MCOM"@, 1610), ("Layout & Design"@, Some(3u32), CourseTermOffering::Both)),
        (course("MCOM"@, 2500), ("Web Design I"@, Some(3u32), CourseTermOffering::Discretion)),
        (course("MCOM"@, 2600), ("Principles of Visual Communications"@, Some(3u32), CourseTermOffering::Both)),
        (course("MCOM"@, 2610), ("Digital Photography I"@, Some(4u32), CourseTermOffering::Fall)),
        (course("MCOM"@, 3310), ("Art of Presentation"@, Some(3u32), CourseTermOffering::Discretion)),
        (course("MCOM"@, 3600), ("Signs & Symbols"@, Some(3u32), CourseTermOffering::Discretion)),
        (course("MCOM"@, 3610), ("Digital Photography II"@, Some(4u32), CourseTermOffering::Discretion)),
        (course("MENG"@, 4700), ("Senior Seminar"@, Some(1u32), CourseTermOffering::Fall)),
        (course("MGMT"@, 2250), ("Prin of Business Management"@, Some(3u32), CourseTermOffering::Both)),
        (course("MGMT"@, 3250), ("International Management & Culture"@, Some(3u32), CourseTermOffering::Both)),
        (course("MILS"@, 1160), ("Foundations of Officership"@, Some(1u32), CourseTermOffering::Fall)),
        (course("MILS"@, 2160), ("Individual Leadership Studies"@, Some(2u32), CourseTermOffering::Fall)),
        (course("MILS"@, 3160), ("Leadership & Problem Solving"@, Some(3u32), CourseTermOffering::Fall)),
        (course("MKTG"@, 3100), ("Principles of Marketing"@, Some(3u32), CourseTermOffering::Both)),
        (course("MUSC"@, 1100), ("Music Appreciation"@, Some(3u32), CourseTermOffering::Both)),
        (course("MUSC"@, 1101), ("World Music Literature"@, Some(3u32), CourseTermOffering::Spring)),
        (course("MUSC"@, 1102), ("History of Jazz"@, Some(3u32), CourseTermOffering::Discretion)),
        (course("MUSC"@, 2214), ("Vocal Methods"@, Some(1u32), CourseTermOffering::Spring)),
        (course("MUSC"@, 3201), ("Introduction to Conducting"@, Some(1u32), CourseTermOffering::Fall)),
        (course("MUSC"@, 4100), ("Music History I: Antiquity to 1750"@, Some(3u32), CourseTermOffering::Fall)),
        (course("MUSC"@, 4110), ("Music History II: 1750-1900"@, Some(3u32), CourseTermOffering::Spring)),
        (course("MUSC"@, 4120), ("Music History III: After 1900"@, Some(3u32), CourseTermOffering::Fall)),
        (course("NASC"@, 1000), ("Environmental Science"@, Some(3u32), CourseTermOffering::Spring)),
        (course("NASC"@, 1100), ("Environmental Geology"@, Some(3u32), CourseTermOffering::Spring)),
        (course("NASC"@, 1400), ("Earth Science"@, Some(3u32), CourseTermOffering::Fall)),
        (course("NASC"@, 1600), ("Origins of Major Theories in Science"@, Some(3u32), CourseTermOffering::Spring)),
        (course("NASC"@, 2300), ("World Regional Geography"@, Some(3u32), CourseTermOffering::Both)),
        (course("NASC"@, 3100), ("Historical Readings in Natural Science"@, Some(3u32), CourseTermOffering::Discretion)),
        (course("NURS"@, 3200), ("Foundations of Nursing"@, Some(3u32), CourseTermOffering::Fall)),
        (course("NURS"@, 3350), ("Pharmacology"@, Some(4u32), CourseTermOffering::Fall)),
        (course("NURS"@, 4200), ("Population Care"@, Some(3u32), CourseTermOffering::Fall)),
        (course("NURS"@, 4210), ("Population Care: Clinical"@, Some(2u32), CourseTermOffering::Fall)),
        (course("NURS"@, 4700), ("Legal & Ethical Issues in Nursing"@, Some(3u32), CourseTermOffering::Spring)),
        (course("PHIL"@, 2010), ("Logic"@, Some(3u32), CourseTermOffering::Both)),
        (course("PHIL"@, 2100), ("Principles of Nature"@, Some(3u32), CourseTermOffering::Both)),
        (course("PHIL"@, 2310), ("Philosophy of Nature"@, Some(3u32), CourseTermOffering::Both)),
        (course("PHIL"@, 2550), ("Philosophical Psychology"@, Some(3u32), CourseTermOffering::Both)),
        (course("PHIL"@, 3250), ("Ethics"@, Some(3u32), CourseTermOffering::Both)),
        (course("PHIL"@, 3550), ("Political Philosophy"@, Some(3u32), CourseTermOffering::Discretion)),
        (course("PHIL"@, 3670), ("Faith & Reason I"@, Some(4u32), CourseTermOffering::Discretion)),
        (course("PHIL"@, 3690), ("Faith & Reason III"@, Some(2u32), CourseTermOffering::Discretion)),
        (course("PHIL"@, 3730), ("Metaphysics"@, Some(3u32), CourseTermOffering::Both)),
        (course("PHIL"@, 3740), ("Natural Theology"@, Some(3u32), CourseTermOffering::Both)),
        (course("PHIL"@, 3800), ("Epistemology"@, Some(3u32), CourseTermOffering::Discretion)),
        (course("PHIL"@, 3820), ("Philosophy of Religion"@, Some(3u32), CourseTermOffering::Discretion)),
        (course("PHIL"@, 4010), ("Ancient Philosophy"@, Some(3u32), CourseTermOffering::Discretion)),
        (course("PHIL"@, 4020), ("Medieval Philosophy"@, Some(3u32), CourseTermOffering::Discretion)),
        (course("PHIL"@, 4030), ("Islamic Philosophy"@, Some(3u32), CourseTermOffering::Discretion)),
        (course("PHIL"@, 4040), ("Early Modern Philosophy"@, Some(3u32), CourseTermOffering::Discretion)),
        (course("PHIL"@, 4050), ("Modern Continental Philosophy"@, Some(3u32), CourseTermOffering::Discretion)),
        (course("PHIL"@, 4060), ("Modern Anglo-American Philosophy"@, Some(3u32), CourseTermOffering::Discretion)),
        (course("PHIL"@, 4800), ("Aesthetics"@, Some(3u32), CourseTermOffering::Infrequently)),
        (course("PHIL"@, 4860), ("Philosophy of Law"@, Some(3u32), CourseTermOffering::Infrequently)),
        (course("PHIL"@, 4920), ("Senior Thesis"@, Some(3u32), CourseTermOffering::Discretion)),
        (course("PHYS"@, 1100), ("Concepts in Physics"@, Some(4u32), CourseTermOffering::Both)),
        (course("PHYS"@, 1200), ("Acoustics"@, Some(4u32), CourseTermOffering::Fall)),
        (course("PHYS"@, 1300), ("Our Strange Universe"@, Some(3u32), CourseTermOffering::Fall)),
        (course("PHYS"@, 2000), ("College Physics I"@, Some(3u32), CourseTermOffering::Fall)),
        (course("PHYS"@, 2001), ("College Physics I Lab"@, Some(1u32), CourseTermOffering::Fall)),
        (course("PHYS"@, 2100), ("Classical Physics I"@, Some(3u32), CourseTermOffering::Fall)),
        (course("PHYS"@, 2101), ("Introductory Physics Laborartory I"@, Some(1u32), CourseTermOffering::Fall)),
        (course("PHYS"@, 2110), ("Classical Physics II"@, Some(3u32), CourseTermOffering::Spring)),
        (course("PHYS"@, 2111), ("Introductory Physics Lab II"@, Some(1u32), CourseTermOffering::Spring)),
        (course("PHYS"@, 3200), ("Relativity & Atomic Physics"@, Some(3u32), CourseTermOffering::Fall)),
        (course("PHYS"@, 3201), ("Modern Physics Lab"@, Some(1u32), CourseTermOffering::Fall)),
        (course("PHYS"@, 3210), ("Nuclear & Elementary Particle Physics"@, Some(2u32), CourseTermOffering::Spring)),
        (course("PHYS"@, 3211), ("Modern Physics Lab II"@, Some(1u32), CourseTermOffering::Spring)),
        (course("PHYS"@, 4100), ("Mechanics I"@, Some(3u32), CourseTermOffering::Fall)),
        (course("PHYS"@, 4200), ("Mathematical Methods for Physics"@, Some(3u32), CourseTermOffering::Fall)),
        (course("PHYS"@, 4300), ("Optics"@, Some(3u32), CourseTermOffering::Spring)),
        (course("PHYS"@, 4301), ("Optics Laboratory"@, Some(1u32), CourseTermOffering::Spring)),
        (course("PHYS"@, 4600), ("Electricity & Magnetism I"@, Some(3u32), CourseTermOffering::Fall)),
        (course("PHYS"@, 4800), ("Quantum Mechanics"@, Some(3u32), CourseTermOffering::Fall)),
        (course("PHYS"@, 4900), ("Physics Colloquium"@, None, CourseTermOffering::Both)),
        (course("PHYS"@, 4901), ("Physics Colloquium"@, None, CourseTermOffering::Both)),
        (course("PHYS"@, 4902), ("Physics Colloquium"@, None, CourseTermOffering::Both)),
        (course("PHYS"@, 4903), ("Physics Colloquium"@, None, CourseTermOffering::Both)),
        (course("PHYS"@, 4910), ("Physics & Astronomy Research"@, Some(1u32), CourseTermOffering::Both)),
        (special_course("PHYS"@, "COMP"@), ("Senior Comprehensive Exam"@, None, CourseTermOffering::Both)),
        (course("POLS"@, 1000), ("Introduction to American Government"@, Some(3u32), CourseTermOffering::Fall)),
        (course("POLS"@, 1100), ("Fundamentals of Politics"@, Some(3u32), CourseTermOffering::Fall)),
        (course("POLS"@, 1500), ("American 20th Century Political History"@, Some(3u32), CourseTermOffering::Both)),
        (course("POLS"@, 1800), ("Principles of American Government"@, Some(3u32), CourseTermOffering::Spring)),
        (course("POLS"@, 2010), ("Comparative World Government & Politics"@, Some(3u32), CourseTermOffering::Spring)),
        (course("POLS"@, 2500), ("Introduction to Research Methods"@, Some(4u32), CourseTermOffering::Spring)),
        (course("POLS"@, 2750), ("Public Policy Analysis"@, Some(3u32), CourseTermOffering::Spring)),
        (course("POLS"@, 3000), ("Comparative Politics"@, Some(3u32), CourseTermOffering::Spring)),
        (course("POLS"@, 3010), ("European Politics"@, Some(3u32), CourseTermOffering::Spring)),
        (course("POLS"@, 3250), ("The American Presidency"@, Some(3u32), CourseTermOffering::Fall)),
        (course("POLS"@, 3600), ("US Foreign Policy"@, Some(3u32), CourseTermOffering::Fall)),
        (course("POLS"@, 3700), ("Film & Politics"@, Some(4u32), CourseTermOffering::Fall)),
        (course("POLS"@, 3750), ("American Constitutional Development"@, Some(3u32), CourseTermOffering::Spring)),
        (course("POLS"@, 3850), ("American Political Thought"@, Some(3u32), CourseTermOffering::Spring)),
        (course("POLS"@, 4010), ("International Relations"@, Some(3u32), CourseTermOffering::Spring)),
        (course("POLS"@, 4600), ("Public Administration"@, Some(3u32), CourseTermOffering::Spring)),
        (course("POLS"@, 4950), ("Capstone Senior Seminar"@, Some(3u32), CourseTermOffering::Fall)),
        (course("PSYC"@, 1000), ("General Psychology"@, Some(3u32), CourseTermOffering::Both)),
        (course("PSYC"@, 2000), ("Research & Statistics in Psych I"@, Some(3u32), CourseTermOffering::Both)),
        (course("PSYC"@, 2010), ("Research & Statistics in Psych II"@, Some(3u32), CourseTermOffering::Both)),
        (course("PSYC"@, 2731), ("Theories of Personality"@, Some(3u32), CourseTermOffering::Fall)),
        (course("PSYC"@, 4050), ("Biopsychology"@, Some(3u32), CourseTermOffering::Fall)),
        (course("PSYC"@, 4850), ("Psychology Service Experience"@, Some(3u32), CourseTermOffering::Both)),
        (course("SOCI"@, 1000), ("Introduction to Sociology"@, Some(3u32), CourseTermOffering::Both)),
        (course("SOCI"@, 2250), ("Social Problems"@, Some(3u32), CourseTermOffering::Discretion)),
        (course("SOCI"@, 2350), ("Cultural Anthropology"@, Some(3u32), CourseTermOffering::Discretion)),
        (course("SOCI"@, 3105), ("Sociological Theory"@, Some(3u32), CourseTermOffering::Spring)),
        (course("SOCI"@, 3155), ("Research Design for Sociology & Crimin"@, Some(3u32), CourseTermOffering::Fall)),
        (course("SOCI"@, 3205), ("Marriage & the Family"@, Some(3u32), CourseTermOffering::Spring)),
        (course("SOCI"@, 3305), ("Population & Society"@, Some(3u32), CourseTermOffering::Discretion)),
        (course("SOCI"@, 3330), ("Popular Culture"@, Some(3u32), CourseTermOffering::Discretion)),
        (course("SOCI"@, 3450), ("Social Welfare"@, Some(3u32), CourseTermOffering::Discretion)),
        (course("SOCI"@, 4175), ("Seminar in Social Research I"@, Some(3u32), CourseTermOffering::Discretion)),
        (course("SPAN"@, 1000), ("Beginning Spanish"@, Some(4u32), CourseTermOffering::Both)),
        (course("SPAN"@, 1020), ("Second Semester Spanish"@, Some(4u32), CourseTermOffering::Both)),
        (course("SPAN"@, 3040), ("Introduction to Hispanic Lit & Lit Analy"@, Some(3u32), CourseTermOffering::Fall)),
        (course("SPAN"@, 3400), ("Introduction to Hispanic Linguistics"@, Some(3u32), CourseTermOffering::Fall)),
        (course("SPAN"@, 3500), ("Study Abroad: Spanish Immersion"@, Some(1u32), CourseTermOffering::Discretion)),
        (course("SPAN"@, 3650), ("Survey of Latin American Literature"@, Some(3u32), CourseTermOffering::Spring)),
        (course("SPAN"@, 3660), ("Survey of Spanish Literature"@, Some(3u32), CourseTermOffering::Spring)),
        (course("SPAN"@, 3710), ("Spanish Civilization & Culture"@, Some(3u32), CourseTermOffering::Discretion)),
        (course("SPAN"@, 3720), ("Latin American Civilization & Culture"@, Some(3u32), CourseTermOffering::Discretion)),
        (course("SPAN"@, 4700), ("Topics in Latin Am & Latino Lit & Cultur"@, Some(3u32), CourseTermOffering::Spring)),
        (course("SPCH"@, 1100), ("Speech Communication"@, Some(3u32), CourseTermOffering::Both)),
        (course("THEO"@, 1100), ("Introduction to Theology"@, Some(3u32), CourseTermOffering::Both)),
        (course("THEO"@, 2000), ("Christian Moral Life"@, Some(3u32), CourseTermOffering::Both)),
        (course("THEO"@, 2010), ("Biblical Hebrew I"@, Some(4u32), CourseTermOffering::Discretion)),
        (course("THEO"@, 2020), ("Biblical Hebrew II"@, Some(4u32), CourseTermOffering::Discretion)),
        (course("THEO"@, 2100), ("Old Testament 1: Pentateuch"@, Some(3u32), CourseTermOffering::Both)),
        (course("THEO"@, 2144), ("Liturgical Art & Architecture"@, Some(3u32), CourseTermOffering::Both)),
        (course("THEO"@, 2150), ("New Testament I: Synoptic Gospels"@, Some(3u32), CourseTermOffering::Both)),
        (course("THEO"@, 3100), ("Old Testament II: Wisdom Literature"@, Some(3u32), CourseTermOffering::Discretion)),
        (course("THEO"@, 3110), ("Old Testament III: Prophets"@, Some(3u32), CourseTermOffering::Discretion)),
        (course("THEO"@, 3133), ("Sacramental Aesthetics"@, Some(3u32), CourseTermOffering::Discretion)),
        (course("THEO"@, 3144), ("Music & Catholic Liturgy"@, Some(3u32), CourseTermOffering::Discretion)),
        (course("THEO"@, 3150), ("New Testament Lit Ii: Pauline Literature"@, Some(3u32), CourseTermOffering::Spring)),
        (course("THEO"@, 3160), ("Gospel of John"@, Some(3u32), CourseTermOffering::Discretion)),
        (course("THEO"@, 3200), ("Sacraments & Liturgy"@, Some(3u32), CourseTermOffering::Discretion)),
        (course("THEO"@, 3220), ("Christian Marriage"@, Some(3u32), CourseTermOffering::Both)),
        (course("THEO"@, 3230), ("John Paul II & the Family"@, Some(3u32), CourseTermOffering::Discretion)),
        (course("THEO"@, 3240), ("Benedictine Spirituality"@, Some(3u32), CourseTermOffering::Both)),
        (course("THEO"@, 3260), ("Catholic Social Teaching"@, Some(3u32), CourseTermOffering::Discretion)),
        (course("THEO"@, 3280), ("Spiritual Theology"@, Some(3u32), CourseTermOffering::Discretion)),
        (course("THEO"@, 3420), ("Hist of Catholic Church I: Apost-16th C"@, Some(3u32), CourseTermOffering::Fall)),
        (course("THEO"@, 3430), ("History Catholic Church Ii: Reform-Today"@, Some(3u32), CourseTermOffering::Spring)),
        (course("THEO"@, 3450), ("History of Monastic Life"@, Some(3u32), CourseTermOffering::Discretion)),
        (course("THEO"@, 3620), ("Theology of the Church"@, Some(3u32), CourseTermOffering::Fall)),
        (course("THEO"@, 3640), ("Christ & the Trinity"@, Some(3u32), CourseTermOffering::Both)),
        (course("THEO"@, 3660), ("Mary, Mother of God"@, Some(3u32), CourseTermOffering::Discretion)),
        (course("THEO"@, 3680), ("Faith & Reason II"@, Some(4u32), CourseTermOffering::Discretion)),
        (course("THEO"@, 3690), ("Faith & Reason III"@, Some(2u32), CourseTermOffering::Discretion)),
        (course("THEO"@, 3820), ("Christianity & World Religions"@, Some(3u32), CourseTermOffering::Both)),
        (course("THEO"@, 3840), ("Protestant Tradition"@, Some(3u32), CourseTermOffering::Fall)),
        (course("THEO"@, 3920), ("Theology of Vatican II"@, Some(3u32), CourseTermOffering::Spring)),
        (course("THEO"@, 3940), ("Christian Bioethics"@, Some(3u32), CourseTermOffering::Both)),
        (course("THEO"@, 3950), ("Theology of the Environment"@, Some(3u32), CourseTermOffering::Discretion)),
        (course("THEO"@, 3960), ("American Catholic History"@, Some(3u32), CourseTermOffering::Discretion)),
        (course("THEO"@, 4000), ("Great Catholic Thinkers"@, Some(3u32), CourseTermOffering::Discretion)),
        (course("THTR"@, 1010), ("Introduction to the Theatre"@, Some(3u32), CourseTermOffering::Both)),
        (course("THTR"@, 1150), ("Fundamentals of Acting"@, Some(3u32), CourseTermOffering::Both)),
        (course("THTR"@, 2150), ("Techniques of Acting"@, Some(3u32), CourseTermOffering::Spring)),
        (course("THTR"@, 3520), ("Scene Design"@, Some(3u32), CourseTermOffering::Discretion)),
        (course("THTR"@, 3560), ("Lighting Design"@, Some(3u32), CourseTermOffering::Discretion)),
        (course("THTR"@, 3580), ("Costume Design"@, Some(3u32), CourseTermOffering::Discretion)),
        (course("THTR"@, 3800), ("Scriptwriting"@, Some(3u32), CourseTermOffering::Spring)),
        (course("THTR"@, 3810), ("Theatre History & Literature to 1640"@, Some(3u32), CourseTermOffering::Fall)),
        (course("THTR"@, 3820), ("Theatre History & Literature 1640-1918"@, Some(3u32), CourseTermOffering::Spring)),
        (course("THTR"@, 3830), ("Modern & Contemporary Theatre"@, Some(3u32), CourseTermOffering::Fall)),
        (course("THTR"@, 4150), ("Play Direction"@, Some(3u32), CourseTermOffering::Fall)),
    ]
}

/// The catalogue: for each course its title, credit hours and term offering.
pub fn courses() -> (catalog: CourseMap<(String, Option<u32>, CourseTermOffering)>)
    ensures
        catalog@ == pairs_to_map(catalog_table()),
{
    let pairs = vec![
        (CourseCode::new("ARCH", 2300), ("Architectural History I".to_owned(), Some(3u32), CourseTermOffering::Fall)),
        (CourseCode::new("ARCH", 2301), ("Architectural History 2".to_owned(), Some(3u32), CourseTermOffering::Spring)),
        (CourseCode::new("ARCH", 3400), ("Architecture of Cities".to_owned(), Some(3u32), CourseTermOffering::Fall)),
        (CourseCode::new("ARCH", 4116), ("Capstone Studio 6".to_owned(), Some(6u32), CourseTermOffering::Spring)),
        (CourseCode::new("ART", 1000), ("Drawing I".to_owned(), Some(3u32), CourseTermOffering::Both)),
        (CourseCode::new("ART", 1010), ("Foundations of 2-D Design: Comp & Color".to_owned(), Some(3u32), CourseTermOffering::Both)),
        (CourseCode::new("ART", 1030), ("Foundations of 3-D Design: Form & Space".to_owned(), Some(3u32), CourseTermOffering::Both)),
        (CourseCode::new("ART", 2410), ("Art Appreciation".to_owned(), Some(3u32), CourseTermOffering::Both)),
        (CourseCode::new("ART", 2600), ("Ceramics I".to_owned(), Some(3u32), CourseTermOffering::Both)),
        (CourseCode::new("ART", 2800), ("Basic Digital Photography".to_owned(), Some(3u32), CourseTermOffering::Discretion)),
        (CourseCode::new("ART", 3411), ("Art History I".to_owned(), Some(3u32), CourseTermOffering::Fall)),
        (CourseCode::new("ART", 3412), ("Art History II (survey)".to_owned(), Some(3u32), CourseTermOffering::Spring)),
        (CourseCode::new("ART", 3413), ("Twentieth Century Art".to_owned(), Some(3u32), CourseTermOffering::Fall)),
        (CourseCode::new("ART", 4311), ("Design for Social Good".to_owned(), Some(3u32), CourseTermOffering::Fall)),
        (CourseCode::new("ART", 4900), ("Professional Practices".to_owned(), Some(2u32), CourseTermOffering::Fall)),
        (CourseCode::new("ASTR", 1300), ("Sun & Solar System".to_owned(), Some(4u32), CourseTermOffering::Fall)),
        (CourseCode::new("ASTR", 1400), ("Stars & Stellar Systems".to_owned(), Some(4u32), CourseTermOffering::Spring)),
        (CourseCode::new("ASTR", 3000), ("Observational Astronomy".to_owned(), Some(3u32), CourseTermOffering::Fall)),
        (CourseCode::new("ASTR", 4100), ("Introduction to Astrophysics".to_owned(), Some(3u32), CourseTermOffering::Fall)),
        (CourseCode::new("ASTR", 4200), ("Solar System Astrophysics".to_owned(), Some(3u32), CourseTermOffering::Fall)),
        (CourseCode::new("ASTR", 4300), ("Galaxies & Cosmology".to_owned(), Some(3u32), CourseTermOffering::Spring)),
        (CourseCode::new("BIOL", 1050), ("Microbial World".to_owned(), Some(4u32), CourseTermOffering::Fall)),
        (CourseCode::new("BIOL", 1105), ("Plants & Civilization".to_owned(), Some(4u32), CourseTermOffering::Spring)),
        (CourseCode::new("BIOL", 1107), ("Principles of Biology".to_owned(), Some(4u32), CourseTermOffering::Both)),
        (CourseCode::new("BIOL", 1121), ("General Biology I".to_owned(), Some(5u32), CourseTermOffering::Fall)),
        (CourseCode::new("BIOL", 1122), ("General Biology II".to_owned(), Some(4u32), CourseTermOffering::Spring)),
        (CourseCode::new("BIOL", 2243), ("Human Anatomy & Physiology II".to_owned(), Some(4u32), CourseTermOffering::Spring)),
        (CourseCode::new("BIOL", 2260), ("Principles of Microbiology".to_owned(), Some(4u32), CourseTermOffering::Spring)),
        (CourseCode::new("BIOL", 3305), ("Biological Statistics".to_owned(), Some(4u32), CourseTermOffering::Spring)),
        (CourseCode::new("BIOL", 3310), ("Biology III- Mechanisms of Evolution".to_owned(), Some(3u32), CourseTermOffering::Fall)),
        (CourseCode::new("BIOL", 3312), ("Plant Biology".to_owned(), Some(4u32), CourseTermOffering::Discretion)),
        (CourseCode::new("BIOL", 3313), ("Taxonomy of Flowering Plants".to_owned(), Some(4u32), CourseTermOffering::Discretion)),
        (CourseCode::new("BIOL", 3345), ("Developmental Biology".to_owned(), Some(4u32), CourseTermOffering::Discretion)),
        (CourseCode::new("BIOL", 3346), ("Comparative Vertebrate Anatomy".to_owned(), Some(4u32), CourseTermOffering::Discretion)),
        (CourseCode::new("BIOL", 3347), ("Kansas Vertebrates Natural History".to_owned(), Some(4u32), CourseTermOffering::Discretion)),
        (CourseCode::new("BIOL", 3353), ("Invertebrate Biology".to_owned(), Some(4u32), CourseTermOffering::Discretion)),
        (CourseCode::new("BIOL", 3354), ("Animal Behavior".to_owned(), Some(4u32), CourseTermOffering::Discretion)),
        (CourseCode::new("BIOL", 3355), ("Ecology".to_owned(), Some(4u32), CourseTermOffering::Discretion)),
        (CourseCode::new("BIOL", 3360), ("Microbiology".to_owned(), Some(4u32), CourseTermOffering::Discretion)),
        (CourseCode::new("BIOL", 3370), ("Genetics".to_owned(), Some(4u32), CourseTermOffering::Discretion)),
        (CourseCode::new("BIOL", 4410), ("Cancer Biology".to_owned(), Some(4u32), CourseTermOffering::Spring)),
        (CourseCode::new("BIOL", 4475), ("Molecular & Cell Biology".to_owned(), Some(4u32), CourseTermOffering::Discretion)),
        (CourseCode::new("BIOL", 4476), ("Immunology".to_owned(), Some(4u32), CourseTermOffering::Discretion)),
        (CourseCode::new("BIOL", 4482), ("Animal Physiology".to_owned(), Some(4u32), CourseTermOffering::Discretion)),
        (CourseCode::new("BIOL", 4484), ("Cell Physiology".to_owned(), Some(4u32), CourseTermOffering::Discretion)),
        (CourseCode::new("BIOL", 4486), ("Research".to_owned(), Some(1u32), CourseTermOffering::Discretion)),
        (CourseCode::new("BUSI", 2230), ("Business Communication".to_owned(), Some(3u32), CourseTermOffering::Discretion)),
        (CourseCode::new("BUSI", 2650), ("Business Statistics".to_owned(), Some(3u32), CourseTermOffering::Both)),
        (CourseCode::new("BUSI", 3710), ("Legal Environment of Business".to_owned(), Some(3u32), CourseTermOffering::Both)),
        (CourseCode::new("BUSI", 4550), ("Business Ethics".to_owned(), Some(3u32), CourseTermOffering::Discretion)),
        (CourseCode::new("BUSI", 4850), ("Seminr on Executive Writing and Communic".to_owned(), Some(1u32), CourseTermOffering::Both)),
        (CourseCode::new("CENG", 4600), ("Plant Design I".to_owned(), Some(3u32), CourseTermOffering::Fall)),
        (CourseCode::new("CENG", 4610), ("Plant Design II".to_owned(), Some(3u32), CourseTermOffering::Spring)),
        (CourseCode::new("CHEM", 1010), ("Chemistry of the Biosphere".to_owned(), Some(3u32), CourseTermOffering::Discretion)),
        (CourseCode::new("CHEM", 1011), ("Chemistry of the Biosphere Lab".to_owned(), Some(1u32), CourseTermOffering::Discretion)),
        (CourseCode::new("CHEM", 1200), ("General Chemistry I Lecture".to_owned(), Some(3u32), CourseTermOffering::Both)),
        (CourseCode::new("CHEM", 1201), ("General Chemistry I Lab".to_owned(), Some(1u32), CourseTermOffering::Both)),
        (CourseCode::new("CHEM", 1210), ("General Chemistry II Lecture".to_owned(), Some(3u32), CourseTermOffering::Spring)),
        (CourseCode::new("CHEM", 1211), ("General Chemistry II Lab".to_owned(), Some(1u32), CourseTermOffering::Spring)),
        (CourseCode::new("CHEM", 2200), ("Organic Chemistry I Lecture".to_owned(), Some(3u32), CourseTermOffering::Fall)),
        (CourseCode::new("CHEM", 2201), ("Organic Chemistry I Lab".to_owned(), Some(1u32), CourseTermOffering::Fall)),
        (CourseCode::new("CHEM", 2210), ("Organic Chemistry II Lecture".to_owned(), Some(3u32), CourseTermOffering::Spring)),
        (CourseCode::new("CHEM", 2211), ("Organic Chem II Lab".to_owned(), Some(1u32), CourseTermOffering::Spring)),
        (CourseCode::new("CHEM", 3150), ("Computational Chemistry".to_owned(), Some(3u32), CourseTermOffering::Discretion)),
        (CourseCode::new("CHEM", 3250), ("Environmental Chemistry".to_owned(), Some(3u32), CourseTermOffering::Discretion)),
        (CourseCode::new("CHEM", 3300), ("Quantitative Analysis".to_owned(), Some(3u32), CourseTermOffering::Fall)),
        (CourseCode::new("CHEM", 3301), ("Quantitative Analysis Lab".to_owned(), Some(1u32), CourseTermOffering::Fall)),
        (CourseCode::new("CHEM", 3311), ("Instrumental Analysis Lab".to_owned(), Some(1u32), CourseTermOffering::Spring)),
        (CourseCode::new("CHEM", 3400), ("Inorganic Chemistry".to_owned(), Some(3u32), CourseTermOffering::Spring)),
        (CourseCode::new("CHEM", 3401), ("Inorganic Chemistry Lab".to_owned(), Some(1u32), CourseTermOffering::Spring)),
        (CourseCode::new("CHEM", 3500), ("Biochemistry I".to_owned(), Some(3u32), CourseTermOffering::Fall)),
        (CourseCode::new("CHEM", 3501), ("Biochemistry I Lab".to_owned(), Some(1u32), CourseTermOffering::Fall)),
        (CourseCode::new("CHEM", 3510), ("Biochemistry II".to_owned(), Some(3u32), CourseTermOffering::Spring)),
        (CourseCode::new("CHEM", 3511), ("Biochemistry II Lab".to_owned(), Some(1u32), CourseTermOffering::Spring)),
        (CourseCode::new("CHEM", 3650), ("Polymer Chemistry".to_owned(), Some(3u32), CourseTermOffering::Discretion)),
        (CourseCode::new("CHEM", 3800), ("Physical Chemistry I".to_owned(), Some(3u32), CourseTermOffering::Spring)),
        (CourseCode::new("CHEM", 3801), ("Physical Chemistry I Lab".to_owned(), Some(1u32), CourseTermOffering::Spring)),
        (CourseCode::new("CHEM", 3980), ("Special Topics".to_owned(), Some(3u32), CourseTermOffering::Discretion)),
        (CourseCode::new("CHEM", 4200), ("Physical Chemistry II".to_owned(), Some(3u32), CourseTermOffering::Fall)),
        (CourseCode::new("CHEM", 4350), ("Advanced Organic Chemistry I".to_owned(), Some(3u32), CourseTermOffering::Discretion)),
        (CourseCode::new("CHEM", 4450), ("Topics in Biochemistry".to_owned(), Some(3u32), CourseTermOffering::Fall)),
        (CourseCode::new("CHEM", 4650), ("Organometallic Chemistry".to_owned(), Some(3u32), CourseTermOffering::Discretion)),
        (CourseCode::new("CHEM", 4801), ("Research I".to_owned(), Some(1u32), CourseTermOffering::Both)),
        (CourseCode::new("CHEM", 4811), ("Research II".to_owned(), Some(1u32), CourseTermOffering::Both)),
        (CourseCode::new("CHEM", 4900), ("Chemistry & Biochem Colloquium".to_owned(), Some(1u32), CourseTermOffering::Both)),
        (CourseCode::new("CHEM", 4901), ("Chem & Biochem Colloquium 2".to_owned(), Some(1u32), CourseTermOffering::Both)),
        (CourseCode::new("CHEM", 4902), ("Chem & Biochem Colloquium 3".to_owned(), Some(1u32), CourseTermOffering::Both)),
        (CourseCode::new("CHEM", 4903), ("Chem & Biochem Colloquium 4".to_owned(), Some(1u32), CourseTermOffering::Both)),
        (CourseCode::new("CHEM", 4980), ("Special Topics".to_owned(), Some(4u32), CourseTermOffering::Discretion)),
        (CourseCode::special("CHEM", "COMP"), ("Senior Comprehensive Exam".to_owned(), None, CourseTermOffering::Both)),
        (CourseCode::new("CIVL", 3010), ("Soil Mechanics & Civil Eng Materials Lab".to_owned(), Some(2u32), CourseTermOffering::Spring)),
        (CourseCode::new("CIVL", 3020), ("Environmental & Hydraulic Engineeri Lab".to_owned(), Some(2u32), CourseTermOffering::Fall)),
        (CourseCode::new("CIVL", 4700), ("Civil Engineering Seminar".to_owned(), Some(1u32), CourseTermOffering::Fall)),
        (CourseCode::new("CRIM", 1000), ("Introduction to Crime & Justice".to_owned(), Some(3u32), CourseTermOffering::Both)),
        (CourseCode::new("CRIM", 3100), ("Theories of Crime & Deviance".to_owned(), Some(3u32), CourseTermOffering::Spring)),
        (CourseCode::new("CRIM", 3200), ("Crime Analysis".to_owned(), Some(3u32), CourseTermOffering::Discretion)),
        (CourseCode::new("CRIM", 3300), ("Juvenile Delinquency".to_owned(), Some(3u32), CourseTermOffering::Fall)),
        (CourseCode::new("CSCI", 2300), ("Programming for Scientists & Engineers".to_owned(), Some(3u32), CourseTermOffering::Spring)),
        (CourseCode::new("CSCI", 4930), ("Computer Science Senior Capstone".to_owned(), Some(2u32), CourseTermOffering::Spring)),
        (CourseCode::new("DANC", 3800), ("History of Dance".to_owned(), Some(3u32), CourseTermOffering::Discretion)),
        (CourseCode::new("ECON", 1000), ("Economics of Social & Public Issues".to_owned(), Some(3u32), CourseTermOffering::Fall)),
        (CourseCode::new("ECON", 1010), ("Introduction to Economics".to_owned(), Some(3u32), CourseTermOffering::Infrequently)),
        (CourseCode::new("ECON", 2090), ("Principles of Macroeconomics".to_owned(), Some(3u32), CourseTermOffering::Both)),
        (CourseCode::new("ECON", 2100), ("Principles of Microeconomics".to_owned(), Some(3u32), CourseTermOffering::Both)),
        (CourseCode::new("ECON", 3000), ("Contemporary Economic Thinking".to_owned(), Some(3u32), CourseTermOffering::Fall)),
        (CourseCode::new("ECON", 3010), ("Environmental Economics".to_owned(), Some(3u32), CourseTermOffering::Fall)),
        (CourseCode::new("ECON", 3260), ("Catholic Social Teaching".to_owned(), Some(3u32), CourseTermOffering::Spring)),
        (CourseCode::new("ECON", 4010), ("Seminar in Economic Development".to_owned(), Some(3u32), CourseTermOffering::Spring)),
        (CourseCode::new("EDUC", 2220), ("Science of Learning & Teaching".to_owned(), Some(3u32), CourseTermOffering::Both)),
        (CourseCode::new("EDUC", 4451), ("Philosophy of Education".to_owned(), Some(3u32), CourseTermOffering::Both)),
        (CourseCode::new("EDUC", 4470), ("Student Teaching Seminar".to_owned(), Some(2u32), CourseTermOffering::Both)),
        (CourseCode::new("EDUC", 4492), ("Supervised Student Teaching Elem School".to_owned(), Some(12u32), CourseTermOffering::Both)),
        (CourseCode::new("EDUC", 4496), ("Supervised Student Teach Secondar School".to_owned(), Some(10u32), CourseTermOffering::Both)),
        (CourseCode::new("EDUC", 4497), ("Modified Teaching Experience".to_owned(), Some(5u32), CourseTermOffering::Both)),
        (CourseCode::new("EENG", 4600), ("Electrical Engin Design I".to_owned(), Some(3u32), CourseTermOffering::Fall)),
        (CourseCode::new("EENG", 4610), ("Electrical Engin Design II".to_owned(), Some(3u32), CourseTermOffering::Spring)),
        (CourseCode::new("ENGL", 1000), ("English Composition With Review".to_owned(), Some(4u32), CourseTermOffering::Both)),
        (CourseCode::new("ENGL", 1010), ("English Composition".to_owned(), Some(3u32), CourseTermOffering::Both)),
        (CourseCode::new("ENGL", 1020), ("Introduction to Literature".to_owned(), Some(3u32), CourseTermOffering::Discretion)),
        (CourseCode::new("ENGL", 1500), ("World Lit I: Ancient to Renaissance".to_owned(), Some(3u32), CourseTermOffering::Discretion)),
        (CourseCode::new("ENGL", 1550), ("World Lit II: Enlightenment-Present".to_owned(), Some(3u32), CourseTermOffering::Discretion)),
        (CourseCode::new("ENGL", 1575), ("World Lit 3: 19th Century to WW1".to_owned(), Some(3u32), CourseTermOffering::Discretion)),
        (CourseCode::new("ENGL", 1600), ("British Literature to 1750".to_owned(), Some(3u32), CourseTermOffering::Both)),
        (CourseCode::new("ENGL", 1650), ("British Literature After 1750".to_owned(), Some(3u32), CourseTermOffering::Both)),
        (CourseCode::new("ENGL", 1700), ("American Literature Thru Civil War".to_owned(), Some(3u32), CourseTermOffering::Both)),
        (CourseCode::new("ENGL", 1750), ("British Literature to 1750".to_owned(), Some(3u32), CourseTermOffering::Both)),
        (CourseCode::new("ENGL", 3010), ("Old & Middle English Literature".to_owned(), Some(3u32), CourseTermOffering::Infrequently)),
        (CourseCode::new("ENGL", 3020), ("Shakespeare".to_owned(), Some(3u32), CourseTermOffering::Spring)),
        (CourseCode::new("ENGL", 3030), ("Renaissance Literature".to_owned(), Some(3u32), CourseTermOffering::Infrequently)),
        (CourseCode::new("ENGL", 3040), ("Restoration & 18th Century Literature".to_owned(), Some(3u32), CourseTermOffering::Infrequently)),
        (CourseCode::new("ENGL", 3060), ("Classical Mythology".to_owned(), Some(3u32), CourseTermOffering::Discretion)),
        (CourseCode::new("ENGL", 3110), ("The Novel".to_owned(), Some(3u32), CourseTermOffering::Discretion)),
        (CourseCode::new("ENGL", 3120), ("Short Story".to_owned(), Some(3u32), CourseTermOffering::Discretion)),
        (CourseCode::new("ENGL", 3140), ("The Play".to_owned(), Some(3u32), CourseTermOffering::Discretion)),
        (CourseCode::new("ENGL", 3150), ("Film".to_owned(), Some(3u32), CourseTermOffering::Discretion)),
        (CourseCode::new("ENGL", 3250), ("Creative Writing".to_owned(), Some(3u32), CourseTermOffering::Fall)),
        (CourseCode::new("ENGL", 3270), ("Writing Fiction".to_owned(), Some(3u32), CourseTermOffering::Spring)),
        (CourseCode::new("ENGL", 4010), ("Romantic Literature".to_owned(), Some(3u32), CourseTermOffering::Discretion)),
        (CourseCode::new("ENGL", 4020), ("Victorian Literature".to_owned(), Some(3u32), CourseTermOffering::Discretion)),
        (CourseCode::new("ENGL", 4050), ("20th Century British Literature".to_owned(), Some(3u32), CourseTermOffering::Discretion)),
        (CourseCode::new("ENGL", 4060), ("Contemporary American Literature".to_owned(), Some(3u32), CourseTermOffering::Discretion)),
        (CourseCode::new("ENGL", 4110), ("Literary Criticism".to_owned(), Some(3u32), CourseTermOffering::Spring)),
        (CourseCode::new("ENGL", 4130), ("Christianity & Literature".to_owned(), Some(3u32), CourseTermOffering::Discretion)),
        (CourseCode::new("ENGL", 4140), ("The Vikings: History & Literature".to_owned(), Some(3u32), CourseTermOffering::Discretion)),
        (CourseCode::new("ENGL", 4200), ("Legends of King Arthur".to_owned(), Some(3u32), CourseTermOffering::Discretion)),
        (CourseCode::new("ENGL", 4250), ("Creative Writing II".to_owned(), Some(3u32), CourseTermOffering::Discretion)),
        (CourseCode::new("ENGL", 4910), ("Language & Literature Seminar".to_owned(), Some(3u32), CourseTermOffering::Both)),
        (CourseCode::new("ENGR", 1001), ("STEM Fund of Robitcs & Makerlabs".to_owned(), Some(3u32), CourseTermOffering::Fall)),
        (CourseCode::new("ENGR", 1500), ("Technical Drawing".to_owned(), Some(2u32), CourseTermOffering::Spring)),
        (CourseCode::new("ENGR", 3170), ("Engineering Economy & Society".to_owned(), Some(3u32), CourseTermOffering::Both)),
        (CourseCode::new("ENGR", 3400), ("Materials Laboratory".to_owned(), Some(2u32), CourseTermOffering::Fall)),
        (CourseCode::new("ENGR", 3410), ("Thermofluids Laboratory".to_owned(), Some(2u32), CourseTermOffering::Spring)),
        (CourseCode::new("ESLG", 2220), ("Advanced Composition & Research".to_owned(), Some(3u32), CourseTermOffering::Fall)),
        (CourseCode::new("ESLG", 2930), ("Public Speaking".to_owned(), Some(3u32), CourseTermOffering::Spring)),
        (CourseCode::new("EXSC", 1100), ("Physical Fitness".to_owned(), Some(1u32), CourseTermOffering::Fall)),
        (CourseCode::new("EXSC", 1101), ("Aerobics-FITNESS".to_owned(), Some(1u32), CourseTermOffering::Both)),
        (CourseCode::new("EXSC", 1105), ("Beginning Gymnastics & Body Mechanics".to_owned(), Some(1u32), CourseTermOffering::Fall)),
        (CourseCode::new("EXSC", 1106), ("Beginning Swimming".to_owned(), Some(1u32), CourseTermOffering::Both)),
        (CourseCode::new("EXSC", 1107), ("Beg Weight & Circuit Training -FITNESS".to_owned(), Some(1u32), CourseTermOffering::Both)),
        (CourseCode::new("EXSC", 1108), ("Intermediate Swimming- Fitness".to_owned(), Some(1u32), CourseTermOffering::Both)),
        (CourseCode::new("EXSC", 1109), ("Karate (FITNESS)".to_owned(), Some(1u32), CourseTermOffering::Both)),
        (CourseCode::new("EXSC", 1111), ("Varsity Sport Activity".to_owned(), Some(1u32), CourseTermOffering::Both)),
        (CourseCode::new("EXSC", 1114), ("Aikido (FITNESS)".to_owned(), Some(1u32), CourseTermOffering::Both)),
        (CourseCode::new("EXSC", 1115), ("Wellness for Life".to_owned(), Some(1u32), CourseTermOffering::Both)),
        (CourseCode::new("EXSC", 1116), ("Lifestyle FIT".to_owned(), Some(1u32), CourseTermOffering::Both)),
        (CourseCode::new("EXSC", 1117), ("Brazilian Jiu Jitsu I".to_owned(), Some(1u32), CourseTermOffering::Discretion)),
        (CourseCode::new("EXSC", 1126), ("Zumba (FITNESS)".to_owned(), Some(1u32), CourseTermOffering::Both)),
        (CourseCode::new("EXSC", 1128), ("FITNESS Swimming".to_owned(), Some(1u32), CourseTermOffering::Both)),
        (CourseCode::new("EXSC", 1129), ("Pickleball".to_owned(), Some(1u32), CourseTermOffering::Both)),
        (CourseCode::new("EXSC", 3380), ("Kinesiology & Biomechanical Analysis".to_owned(), Some(3u32), CourseTermOffering::Both)),
        (CourseCode::new("EXSC", 4457), ("Meth & Tech Teach Phys Activity & Health".to_owned(), Some(3u32), CourseTermOffering::Fall)),
        (CourseCode::new("FIAR", 1100), ("Introduction to Fine Arts".to_owned(), Some(3u32), CourseTermOffering::Infrequently)),
        (CourseCode::new("FINC", 4940), ("History Financial Institutions & Markets".to_owned(), Some(3u32), CourseTermOffering::Spring)),
        (CourseCode::new("FREN", 1000), ("Beginning French".to_owned(), Some(4u32), CourseTermOffering::Fall)),
        (CourseCode::new("FREN", 1020), ("Second Semester French".to_owned(), Some(4u32), CourseTermOffering::Spring)),
        (CourseCode::new("FREN", 3040), ("Introduction to French Literature".to_owned(), Some(3u32), CourseTermOffering::Discretion)),
        (CourseCode::new("FREN", 3500), ("French Study Abroad".to_owned(), Some(1u32), CourseTermOffering::Discretion)),
        (CourseCode::new("FREN", 3510), ("Advanced French Grammar & Conversation".to_owned(), Some(3u32), CourseTermOffering::Discretion)),
        (CourseCode::new("FREN", 3610), ("French Civilization".to_owned(), Some(3u32), CourseTermOffering::Discretion)),
        (CourseCode::new("FREN", 3620), ("Survey French Lit From Origin to Classic".to_owned(), Some(3u32), CourseTermOffering::Discretion)),
        (CourseCode::new("FREN", 3630), ("Survey French Lit-Classical to Symbolism".to_owned(), Some(3u32), CourseTermOffering::Discretion)),
        (CourseCode::new("FREN", 3640), ("Survey French Lit-Symbolism-Current".to_owned(), Some(3u32), CourseTermOffering::Discretion)),
        (CourseCode::new("FREN", 3650), ("Intro Francophone Literature & Cultures".to_owned(), Some(3u32), CourseTermOffering::Discretion)),
        (CourseCode::new("FREN", 3700), ("History of French Cinema".to_owned(), Some(3u32), CourseTermOffering::Discretion)),
        (CourseCode::new("GNST", 1110), ("Learning Community Lab".to_owned(), Some(2u32), CourseTermOffering::Fall)),
        (CourseCode::new("GNST", 1800), ("Moot Court".to_owned(), Some(2u32), CourseTermOffering::Fall)),
        (CourseCode::new("GNST", 3000), ("International Study Reflection & Practic".to_owned(), Some(1u32), CourseTermOffering::Both)),
        (CourseCode::new("GNST", 3200), ("Catholic Worldview Fellowship".to_owned(), Some(3u32), CourseTermOffering::Summer)),
        (CourseCode::new("GREK", 1000), ("Beginning Greek I".to_owned(), Some(4u32), CourseTermOffering::Fall)),
        (CourseCode::new("GREK", 1020), ("Beginning Greek II".to_owned(), Some(4u32), CourseTermOffering::Spring)),
        (CourseCode::new("HIST", 1100), ("World Civilization to 1500".to_owned(), Some(3u32), CourseTermOffering::Both)),
        (CourseCode::new("HIST", 1101), ("World Civilization Since 1500".to_owned(), Some(3u32), CourseTermOffering::Both)),
        (CourseCode::new("HIST", 1300), ("United States History to 1865".to_owned(), Some(3u32), CourseTermOffering::Fall)),
        (CourseCode::new("HIST", 1380), ("United States History Since 1865".to_owned(), Some(3u32), CourseTermOffering::Both)),
        (CourseCode::new("HIST", 2000), ("History Methods & Historiography".to_owned(), Some(3u32), CourseTermOffering::Fall)),
        (CourseCode::new("HIST", 3100), ("United States Diplomatic History".to_owned(), Some(3u32), CourseTermOffering::Discretion)),
        (CourseCode::new("HIST", 3140), ("Medieval Travelers".to_owned(), Some(3u32), CourseTermOffering::Discretion)),
        (CourseCode::new("HIST", 3141), ("The Crusades".to_owned(), Some(3u32), CourseTermOffering::Discretion)),
        (CourseCode::new("HIST", 3280), ("Modern Asian Survey".to_owned(), Some(3u32), CourseTermOffering::Infrequently)),
        (CourseCode::new("HIST", 3301), ("United States Military History".to_owned(), Some(3u32), CourseTermOffering::Discretion)),
        (CourseCode::new("HIST", 3380), ("Early American Republic 1789-1828".to_owned(), Some(3u32), CourseTermOffering::Discretion)),
        (CourseCode::new("HIST", 3381), ("United States Civil War 1828-1865".to_owned(), Some(3u32), CourseTermOffering::Discretion)),
        (CourseCode::new("HIST", 3383), ("Prosperity & Depression 1919-1941".to_owned(), Some(3u32), CourseTermOffering::Discretion)),
        (CourseCode::new("HIST", 3385), ("History of American Film".to_owned(), Some(3u32), CourseTermOffering::Discretion)),
        (CourseCode::new("HIST", 3520), ("Ancient Greece".to_owned(), Some(3u32), CourseTermOffering::Discretion)),
        (CourseCode::new("HIST", 3521), ("Ancient Rome".to_owned(), Some(3u32), CourseTermOffering::Discretion)),
        (CourseCode::new("HIST", 3522), ("Greek & Roman History".to_owned(), Some(3u32), CourseTermOffering::Discretion)),
        (CourseCode::new("HIST", 3540), ("Medieval History".to_owned(), Some(3u32), CourseTermOffering::Discretion)),
        (CourseCode::new("HIST", 3541), ("Byzantine History".to_owned(), Some(3u32), CourseTermOffering::Discretion)),
        (CourseCode::new("HIST", 3542), ("The Renaissance".to_owned(), Some(3u32), CourseTermOffering::Discretion)),
        (CourseCode::new("HIST", 3543), ("Medieval England".to_owned(), Some(3u32), CourseTermOffering::Discretion)),
        (CourseCode::new("HIST", 3544), ("Medieval Lay Religion".to_owned(), Some(3u32), CourseTermOffering::Discretion)),
        (CourseCode::new("HIST", 3660), ("The Reformation Era".to_owned(), Some(3u32), CourseTermOffering::Discretion)),
        (CourseCode::new("HIST", 3661), ("Early Modern Europe".to_owned(), Some(3u32), CourseTermOffering::Discretion)),
        (CourseCode::new("HIST", 3680), ("French Revolution & Napoleon".to_owned(), Some(3u32), CourseTermOffering::Discretion)),
        (CourseCode::new("HIST", 3681), ("Ninteenth-Century Europe".to_owned(), Some(3u32), CourseTermOffering::Discretion)),
        (CourseCode::new("HIST", 3682), ("Europe 1945 - Today".to_owned(), Some(3u32), CourseTermOffering::Discretion)),
        (CourseCode::new("HIST", 3684), ("Russian History".to_owned(), Some(3u32), CourseTermOffering::Discretion)),
        (CourseCode::new("HIST", 3685), ("World War I".to_owned(), Some(3u32), CourseTermOffering::Discretion)),
        (CourseCode::new("HIST", 3686), ("World War II".to_owned(), Some(3u32), CourseTermOffering::Discretion)),
        (CourseCode::new("HIST", 3687), ("The Holocaust".to_owned(), Some(3u32), CourseTermOffering::Discretion)),
        (CourseCode::new("HIST", 3720), ("Ancient Egypt".to_owned(), Some(3u32), CourseTermOffering::Discretion)),
        (CourseCode::new("HIST", 4000), ("Seminar in History".to_owned(), Some(3u32), CourseTermOffering::Spring)),
        (CourseCode::new("HONR", 1030), ("Honors English Research Seminar".to_owned(), Some(3u32), CourseTermOffering::Fall)),
        (CourseCode::new("ITAL", 1000), ("Beginning Italian".to_owned(), Some(4u32), CourseTermOffering::Both)),
        (CourseCode::new("ITAL", 1020), ("Second Semester Italian".to_owned(), Some(4u32), CourseTermOffering::Both)),
        (CourseCode::new("ITAL", 3000), ("Europe in the Middle Ages".to_owned(), Some(3u32), CourseTermOffering::Both)),
        (CourseCode::new("JOUR", 2620), ("Media Writing I".to_owned(), Some(4u32), CourseTermOffering::Both)),
        (CourseCode::new("JOUR", 3300), ("Media Writing II".to_owned(), Some(3u32), CourseTermOffering::Both)),
        (CourseCode::new("LATN", 1000), ("Beginning Latin I".to_owned(), Some(4u32), CourseTermOffering::Fall)),
        (CourseCode::new("LATN", 1020), ("Beginning Latin II".to_owned(), Some(4u32), CourseTermOffering::Spring)),
        (CourseCode::new("LATN", 3110), ("Survey of Latin Prose Authors".to_owned(), Some(3u32), CourseTermOffering::Discretion)),
        (CourseCode::new("LATN", 3120), ("Latin Prose Authors II".to_owned(), Some(3u32), CourseTermOffering::Discretion)),
        (CourseCode::new("LATN", 4110), ("Survey of Latin Poets".to_owned(), Some(3u32), CourseTermOffering::Discretion)),
        (CourseCode::new("LATN", 4120), ("Latin Poets II".to_owned(), Some(3u32), CourseTermOffering::Discretion)),
        (CourseCode::new("MATH", 1020), ("Mathematics As a Liberal Art".to_owned(), Some(3u32), CourseTermOffering::Both)),
        (CourseCode::new("MATH", 1120), ("Mathematics for Elem Teachers II".to_owned(), Some(3u32), CourseTermOffering::Both)),
        (CourseCode::new("MATH", 1220), ("Introductory Statistics".to_owned(), Some(4u32), CourseTermOffering::Both)),
        (CourseCode::new("MATH", 1250), ("Pre-Calculus".to_owned(), Some(4u32), CourseTermOffering::Both)),
        (CourseCode::new("MATH", 1300), ("Calculus I".to_owned(), Some(4u32), CourseTermOffering::Both)),
        (CourseCode::new("MATH", 1350), ("Calculus II".to_owned(), Some(4u32), CourseTermOffering::Both)),
        (CourseCode::new("MATH", 2300), ("Calculus III".to_owned(), Some(4u32), CourseTermOffering::Both)),
        (CourseCode::new("MATH", 2550), ("Discrete Mathematical Structures I".to_owned(), Some(3u32), CourseTermOffering::Fall)),
        (CourseCode::new("MATH", 3100), ("Differential Equations".to_owned(), Some(3u32), CourseTermOffering::Both)),
        (CourseCode::new("MATH", 4457), ("Secondary School Math Curr & Materials".to_owned(), Some(4u32), CourseTermOffering::Fall)),
        (CourseCode::new("MATH", 4930), ("Directed Research".to_owned(), Some(2u32), CourseTermOffering::Fall)),
        (CourseCode::new("MCOM", 1000), ("Media & Society".to_owned(), Some(3u32), CourseTermOffering::Both)),
        (CourseCode::new("MCOM", 1030), ("Introduction to Cinema".to_owned(), Some(3u32), CourseTermOffering::Fall)),
        (CourseCode::new("MCOM", 1610), ("Layout & Design".to_owned(), Some(3u32), CourseTermOffering::Both)),
        (CourseCode::new("MCOM", 2500), ("Web Design I".to_owned(), Some(3u32), CourseTermOffering::Discretion)),
        (CourseCode::new("MCOM", 2600), ("Principles of Visual Communications".to_owned(), Some(3u32), CourseTermOffering::Both)),
        (CourseCode::new("MCOM", 2610), ("Digital Photography I".to_owned(), Some(4u32), CourseTermOffering::Fall)),
        (CourseCode::new("MCOM", 3310), ("Art of Presentation".to_owned(), Some(3u32), CourseTermOffering::Discretion)),
        (CourseCode::new("MCOM", 3600), ("Signs & Symbols".to_owned(), Some(3u32), CourseTermOffering::Discretion)),
        (CourseCode::new("MCOM", 3610), ("Digital Photography II".to_owned(), Some(4u32), CourseTermOffering::Discretion)),
        (CourseCode::new("MENG", 4700), ("Senior Seminar".to_owned(), Some(1u32), CourseTermOffering::Fall)),
        (CourseCode::new("MGMT", 2250), ("Prin of Business Management".to_owned(), Some(3u32), CourseTermOffering::Both)),
        (CourseCode::new("MGMT", 3250), ("International Management & Culture".to_owned(), Some(3u32), CourseTermOffering::Both)),
        (CourseCode::new("MILS", 1160), ("Foundations of Officership".to_owned(), Some(1u32), CourseTermOffering::Fall)),
        (CourseCode::new("MILS", 2160), ("Individual Leadership Studies".to_owned(), Some(2u32), CourseTermOffering::Fall)),
        (CourseCode::new("MILS", 3160), ("Leadership & Problem Solving".to_owned(), Some(3u32), CourseTermOffering::Fall)),
        (CourseCode::new("MKTG", 3100), ("Principles of Marketing".to_owned(), Some(3u32), CourseTermOffering::Both)),
        (CourseCode::new("MUSC", 1100), ("Music Appreciation".to_owned(), Some(3u32), CourseTermOffering::Both)),
        (CourseCode::new("MUSC", 1101), ("World Music Literature".to_owned(), Some(3u32), CourseTermOffering::Spring)),
        (CourseCode::new("MUSC", 1102), ("History of Jazz".to_owned(), Some(3u32), CourseTermOffering::Discretion)),
        (CourseCode::new("MUSC", 2214), ("Vocal Methods".to_owned(), Some(1u32), CourseTermOffering::Spring)),
        (CourseCode::new("MUSC", 3201), ("Introduction to Conducting".to_owned(), Some(1u32), CourseTermOffering::Fall)),
        (CourseCode::new("MUSC", 4100), ("Music History I: Antiquity to 1750".to_owned(), Some(3u32), CourseTermOffering::Fall)),
        (CourseCode::new("MUSC", 4110), ("Music History II: 1750-1900".to_owned(), Some(3u32), CourseTermOffering::Spring)),
        (CourseCode::new("MUSC", 4120), ("Music History III: After 1900".to_owned(), Some(3u32), CourseTermOffering::Fall)),
        (CourseCode::new("NASC", 1000), ("Environmental Science".to_owned(), Some(3u32), CourseTermOffering::Spring)),
        (CourseCode::new("NASC", 1100), ("Environmental Geology".to_owned(), Some(3u32), CourseTermOffering::Spring)),
        (CourseCode::new("NASC", 1400), ("Earth Science".to_owned(), Some(3u32), CourseTermOffering::Fall)),
        (CourseCode::new("NASC", 1600), ("Origins of Major Theories in Science".to_owned(), Some(3u32), CourseTermOffering::Spring)),
        (CourseCode::new("NASC", 2300), ("World Regional Geography".to_owned(), Some(3u32), CourseTermOffering::Both)),
        (CourseCode::new("NASC", 3100), ("Historical Readings in Natural Science".to_owned(), Some(3u32), CourseTermOffering::Discretion)),
        (CourseCode::new("NURS", 3200), ("Foundations of Nursing".to_owned(), Some(3u32), CourseTermOffering::Fall)),
        (CourseCode::new("NURS", 3350), ("Pharmacology".to_owned(), Some(4u32), CourseTermOffering::Fall)),
        (CourseCode::new("NURS", 4200), ("Population Care".to_owned(), Some(3u32), CourseTermOffering::Fall)),
        (CourseCode::new("NURS", 4210), ("Population Care: Clinical".to_owned(), Some(2u32), CourseTermOffering::Fall)),
        (CourseCode::new("NURS", 4700), ("Legal & Ethical Issues in Nursing".to_owned(), Some(3u32), CourseTermOffering::Spring)),
        (CourseCode::new("PHIL", 2010), ("Logic".to_owned(), Some(3u32), CourseTermOffering::Both)),
        (CourseCode::new("PHIL", 2100), ("Principles of Nature".to_owned(), Some(3u32), CourseTermOffering::Both)),
        (CourseCode::new("PHIL", 2310), ("Philosophy of Nature".to_owned(), Some(3u32), CourseTermOffering::Both)),
        (CourseCode::new("PHIL", 2550), ("Philosophical Psychology".to_owned(), Some(3u32), CourseTermOffering::Both)),
        (CourseCode::new("PHIL", 3250), ("Ethics".to_owned(), Some(3u32), CourseTermOffering::Both)),
        (CourseCode::new("PHIL", 3550), ("Political Philosophy".to_owned(), Some(3u32), CourseTermOffering::Discretion)),
        (CourseCode::new("PHIL", 3670), ("Faith & Reason I".to_owned(), Some(4u32), CourseTermOffering::Discretion)),
        (CourseCode::new("PHIL", 3690), ("Faith & Reason III".to_owned(), Some(2u32), CourseTermOffering::Discretion)),
        (CourseCode::new("PHIL", 3730), ("Metaphysics".to_owned(), Some(3u32), CourseTermOffering::Both)),
        (CourseCode::new("PHIL", 3740), ("Natural Theology".to_owned(), Some(3u32), CourseTermOffering::Both)),
        (CourseCode::new("PHIL", 3800), ("Epistemology".to_owned(), Some(3u32), CourseTermOffering::Discretion)),
        (CourseCode::new("PHIL", 3820), ("Philosophy of Religion".to_owned(), Some(3u32), CourseTermOffering::Discretion)),
        (CourseCode::new("PHIL", 4010), ("Ancient Philosophy".to_owned(), Some(3u32), CourseTermOffering::Discretion)),
        (CourseCode::new("PHIL", 4020), ("Medieval Philosophy".to_owned(), Some(3u32), CourseTermOffering::Discretion)),
        (CourseCode::new("PHIL", 4030), ("Islamic Philosophy".to_owned(), Some(3u32), CourseTermOffering::Discretion)),
        (CourseCode::new("PHIL", 4040), ("Early Modern Philosophy".to_owned(), Some(3u32), CourseTermOffering::Discretion)),
        (CourseCode::new("PHIL", 4050), ("Modern Continental Philosophy".to_owned(), Some(3u32), CourseTermOffering::Discretion)),
        (CourseCode::new("PHIL", 4060), ("Modern Anglo-American Philosophy".to_owned(), Some(3u32), CourseTermOffering::Discretion)),
        (CourseCode::new("PHIL", 4800), ("Aesthetics".to_owned(), Some(3u32), CourseTermOffering::Infrequently)),
        (CourseCode::new("PHIL", 4860), ("Philosophy of Law".to_owned(), Some(3u32), CourseTermOffering::Infrequently)),
        (CourseCode::new("PHIL", 4920), ("Senior Thesis".to_owned(), Some(3u32), CourseTermOffering::Discretion)),
        (CourseCode::new("PHYS", 1100), ("Concepts in Physics".to_owned(), Some(4u32), CourseTermOffering::Both)),
        (CourseCode::new("PHYS", 1200), ("Acoustics".to_owned(), Some(4u32), CourseTermOffering::Fall)),
        (CourseCode::new("PHYS", 1300), ("Our Strange Universe".to_owned(), Some(3u32), CourseTermOffering::Fall)),
        (CourseCode::new("PHYS", 2000), ("College Physics I".to_owned(), Some(3u32), CourseTermOffering::Fall)),
        (CourseCode::new("PHYS", 2001), ("College Physics I Lab".to_owned(), Some(1u32), CourseTermOffering::Fall)),
        (CourseCode::new("PHYS", 2100), ("Classical Physics I".to_owned(), Some(3u32), CourseTermOffering::Fall)),
        (CourseCode::new("PHYS", 2101), ("Introductory Physics Laborartory I".to_owned(), Some(1u32), CourseTermOffering::Fall)),
        (CourseCode::new("PHYS", 2110), ("Classical Physics II".to_owned(), Some(3u32), CourseTermOffering::Spring)),
        (CourseCode::new("PHYS", 2111), ("Introductory Physics Lab II".to_owned(), Some(1u32), CourseTermOffering::Spring)),
        (CourseCode::new("PHYS", 3200), ("Relativity & Atomic Physics".to_owned(), Some(3u32), CourseTermOffering::Fall)),
        (CourseCode::new("PHYS", 3201), ("Modern Physics Lab".to_owned(), Some(1u32), CourseTermOffering::Fall)),
        (CourseCode::new("PHYS", 3210), ("Nuclear & Elementary Particle Physics".to_owned(), Some(2u32), CourseTermOffering::Spring)),
        (CourseCode::new("PHYS", 3211), ("Modern Physics Lab II".to_owned(), Some(1u32), CourseTermOffering::Spring)),
        (CourseCode::new("PHYS", 4100), ("Mechanics I".to_owned(), Some(3u32), CourseTermOffering::Fall)),
        (CourseCode::new("PHYS", 4200), ("Mathematical Methods for Physics".to_owned(), Some(3u32), CourseTermOffering::Fall)),
        (CourseCode::new("PHYS", 4300), ("Optics".to_owned(), Some(3u32), CourseTermOffering::Spring)),
        (CourseCode::new("PHYS", 4301), ("Optics Laboratory".to_owned(), Some(1u32), CourseTermOffering::Spring)),
        (CourseCode::new("PHYS", 4600), ("Electricity & Magnetism I".to_owned(), Some(3u32), CourseTermOffering::Fall)),
        (CourseCode::new("PHYS", 4800), ("Quantum Mechanics".to_owned(), Some(3u32), CourseTermOffering::Fall)),
        (CourseCode::new("PHYS", 4900), ("Physics Colloquium".to_owned(), None, CourseTermOffering::Both)),
        (CourseCode::new("PHYS", 4901), ("Physics Colloquium".to_owned(), None, CourseTermOffering::Both)),
        (CourseCode::new("PHYS", 4902), ("Physics Colloquium".to_owned(), None, CourseTermOffering::Both)),
        (CourseCode::new("PHYS", 4903), ("Physics Colloquium".to_owned(), None, CourseTermOffering::Both)),
        (CourseCode::new("PHYS", 4910), ("Physics & Astronomy Research".to_owned(), Some(1u32), CourseTermOffering::Both)),
        (CourseCode::special("PHYS", "COMP"), ("Senior Comprehensive Exam".to_owned(), None, CourseTermOffering::Both)),
        (CourseCode::new("POLS", 1000), ("Introduction to American Government".to_owned(), Some(3u32), CourseTermOffering::Fall)),
        (CourseCode::new("POLS", 1100), ("Fundamentals of Politics".to_owned(), Some(3u32), CourseTermOffering::Fall)),
        (CourseCode::new("POLS", 1500), ("American 20th Century Political History".to_owned(), Some(3u32), CourseTermOffering::Both)),
        (CourseCode::new("POLS", 1800), ("Principles of American Government".to_owned(), Some(3u32), CourseTermOffering::Spring)),
        (CourseCode::new("POLS", 2010), ("Comparative World Government & Politics".to_owned(), Some(3u32), CourseTermOffering::Spring)),
        (CourseCode::new("POLS", 2500), ("Introduction to Research Methods".to_owned(), Some(4u32), CourseTermOffering::Spring)),
        (CourseCode::new("POLS", 2750), ("Public Policy Analysis".to_owned(), Some(3u32), CourseTermOffering::Spring)),
        (CourseCode::new("POLS", 3000), ("Comparative Politics".to_owned(), Some(3u32), CourseTermOffering::Spring)),
        (CourseCode::new("POLS", 3010), ("European Politics".to_owned(), Some(3u32), CourseTermOffering::Spring)),
        (CourseCode::new("POLS", 3250), ("The American Presidency".to_owned(), Some(3u32), CourseTermOffering::Fall)),
        (CourseCode::new("POLS", 3600), ("US Foreign Policy".to_owned(), Some(3u32), CourseTermOffering::Fall)),
        (CourseCode::new("POLS", 3700), ("Film & Politics".to_owned(), Some(4u32), CourseTermOffering::Fall)),
        (CourseCode::new("POLS", 3750), ("American Constitutional Development".to_owned(), Some(3u32), CourseTermOffering::Spring)),
        (CourseCode::new("POLS", 3850), ("American Political Thought".to_owned(), Some(3u32), CourseTermOffering::Spring)),
        (CourseCode::new("POLS", 4010), ("International Relations".to_owned(), Some(3u32), CourseTermOffering::Spring)),
        (CourseCode::new("POLS", 4600), ("Public Administration".to_owned(), Some(3u32), CourseTermOffering::Spring)),
        (CourseCode::new("POLS", 4950), ("Capstone Senior Seminar".to_owned(), Some(3u32), CourseTermOffering::Fall)),
        (CourseCode::new("PSYC", 1000), ("General Psychology".to_owned(), Some(3u32), CourseTermOffering::Both)),
        (CourseCode::new("PSYC", 2000), ("Research & Statistics in Psych I".to_owned(), Some(3u32), CourseTermOffering::Both)),
        (CourseCode::new("PSYC", 2010), ("Research & Statistics in Psych II".to_owned(), Some(3u32), CourseTermOffering::Both)),
        (CourseCode::new("PSYC", 2731), ("Theories of Personality".to_owned(), Some(3u32), CourseTermOffering::Fall)),
        (CourseCode::new("PSYC", 4050), ("Biopsychology".to_owned(), Some(3u32), CourseTermOffering::Fall)),
        (CourseCode::new("PSYC", 4850), ("Psychology Service Experience".to_owned(), Some(3u32), CourseTermOffering::Both)),
        (CourseCode::new("SOCI", 1000), ("Introduction to Sociology".to_owned(), Some(3u32), CourseTermOffering::Both)),
        (CourseCode::new("SOCI", 2250), ("Social Problems".to_owned(), Some(3u32), CourseTermOffering::Discretion)),
        (CourseCode::new("SOCI", 2350), ("Cultural Anthropology".to_owned(), Some(3u32), CourseTermOffering::Discretion)),
        (CourseCode::new("SOCI", 3105), ("Sociological Theory".to_owned(), Some(3u32), CourseTermOffering::Spring)),
        (CourseCode::new("SOCI", 3155), ("Research Design for Sociology & Crimin".to_owned(), Some(3u32), CourseTermOffering::Fall)),
        (CourseCode::new("SOCI", 3205), ("Marriage & the Family".to_owned(), Some(3u32), CourseTermOffering::Spring)),
        (CourseCode::new("SOCI", 3305), ("Population & Society".to_owned(), Some(3u32), CourseTermOffering::Discretion)),
        (CourseCode::new("SOCI", 3330), ("Popular Culture".to_owned(), Some(3u32), CourseTermOffering::Discretion)),
        (CourseCode::new("SOCI", 3450), ("Social Welfare".to_owned(), Some(3u32), CourseTermOffering::Discretion)),
        (CourseCode::new("SOCI", 4175), ("Seminar in Social Research I".to_owned(), Some(3u32), CourseTermOffering::Discretion)),
        (CourseCode::new("SPAN", 1000), ("Beginning Spanish".to_owned(), Some(4u32), CourseTermOffering::Both)),
        (CourseCode::new("SPAN", 1020), ("Second Semester Spanish".to_owned(), Some(4u32), CourseTermOffering::Both)),
        (CourseCode::new("SPAN", 3040), ("Introduction to Hispanic Lit & Lit Analy".to_owned(), Some(3u32), CourseTermOffering::Fall)),
        (CourseCode::new("SPAN", 3400), ("Introduction to Hispanic Linguistics".to_owned(), Some(3u32), CourseTermOffering::Fall)),
        (CourseCode::new("SPAN", 3500), ("Study Abroad: Spanish Immersion".to_owned(), Some(1u32), CourseTermOffering::Discretion)),
        (CourseCode::new("SPAN", 3650), ("Survey of Latin American Literature".to_owned(), Some(3u32), CourseTermOffering::Spring)),
        (CourseCode::new("SPAN", 3660), ("Survey of Spanish Literature".to_owned(), Some(3u32), CourseTermOffering::Spring)),
        (CourseCode::new("SPAN", 3710), ("Spanish Civilization & Culture".to_owned(), Some(3u32), CourseTermOffering::Discretion)),
        (CourseCode::new("SPAN", 3720), ("Latin American Civilization & Culture".to_owned(), Some(3u32), CourseTermOffering::Discretion)),
        (CourseCode::new("SPAN", 4700), ("Topics in Latin Am & Latino Lit & Cultur".to_owned(), Some(3u32), CourseTermOffering::Spring)),
        (CourseCode::new("SPCH", 1100), ("Speech Communication".to_owned(), Some(3u32), CourseTermOffering::Both)),
        (CourseCode::new("THEO", 1100), ("Introduction to Theology".to_owned(), Some(3u32), CourseTermOffering::Both)),
        (CourseCode::new("THEO", 2000), ("Christian Moral Life".to_owned(), Some(3u32), CourseTermOffering::Both)),
        (CourseCode::new("THEO", 2010), ("Biblical Hebrew I".to_owned(), Some(4u32), CourseTermOffering::Discretion)),
        (CourseCode::new("THEO", 2020), ("Biblical Hebrew II".to_owned(), Some(4u32), CourseTermOffering::Discretion)),
        (CourseCode::new("THEO", 2100), ("Old Testament 1: Pentateuch".to_owned(), Some(3u32), CourseTermOffering::Both)),
        (CourseCode::new("THEO", 2144), ("Liturgical Art & Architecture".to_owned(), Some(3u32), CourseTermOffering::Both)),
        (CourseCode::new("THEO", 2150), ("New Testament I: Synoptic Gospels".to_owned(), Some(3u32), CourseTermOffering::Both)),
        (CourseCode::new("THEO", 3100), ("Old Testament II: Wisdom Literature".to_owned(), Some(3u32), CourseTermOffering::Discretion)),
        (CourseCode::new("THEO", 3110), ("Old Testament III: Prophets".to_owned(), Some(3u32), CourseTermOffering::Discretion)),
        (CourseCode::new("THEO", 3133), ("Sacramental Aesthetics".to_owned(), Some(3u32), CourseTermOffering::Discretion)),
        (CourseCode::new("THEO", 3144), ("Music & Catholic Liturgy".to_owned(), Some(3u32), CourseTermOffering::Discretion)),
        (CourseCode::new("THEO", 3150), ("New Testament Lit Ii: Pauline Literature".to_owned(), Some(3u32), CourseTermOffering::Spring)),
        (CourseCode::new("THEO", 3160), ("Gospel of John".to_owned(), Some(3u32), CourseTermOffering::Discretion)),
        (CourseCode::new("THEO", 3200), ("Sacraments & Liturgy".to_owned(), Some(3u32), CourseTermOffering::Discretion)),
        (CourseCode::new("THEO", 3220), ("Christian Marriage".to_owned(), Some(3u32), CourseTermOffering::Both)),
        (CourseCode::new("THEO", 3230), ("John Paul II & the Family".to_owned(), Some(3u32), CourseTermOffering::Discretion)),
        (CourseCode::new("THEO", 3240), ("Benedictine Spirituality".to_owned(), Some(3u32), CourseTermOffering::Both)),
        (CourseCode::new("THEO", 3260), ("Catholic Social Teaching".to_owned(), Some(3u32), CourseTermOffering::Discretion)),
        (CourseCode::new("THEO", 3280), ("Spiritual Theology".to_owned(), Some(3u32), CourseTermOffering::Discretion)),
        (CourseCode::new("THEO", 3420), ("Hist of Catholic Church I: Apost-16th C".to_owned(), Some(3u32), CourseTermOffering::Fall)),
        (CourseCode::new("THEO", 3430), ("History Catholic Church Ii: Reform-Today".to_owned(), Some(3u32), CourseTermOffering::Spring)),
        (CourseCode::new("THEO", 3450), ("History of Monastic Life".to_owned(), Some(3u32), CourseTermOffering::Discretion)),
        (CourseCode::new("THEO", 3620), ("Theology of the Church".to_owned(), Some(3u32), CourseTermOffering::Fall)),
        (CourseCode::new("THEO", 3640), ("Christ & the Trinity".to_owned(), Some(3u32), CourseTermOffering::Both)),
        (CourseCode::new("THEO", 3660), ("Mary, Mother of God".to_owned(), Some(3u32), CourseTermOffering::Discretion)),
        (CourseCode::new("THEO", 3680), ("Faith & Reason II".to_owned(), Some(4u32), CourseTermOffering::Discretion)),
        (CourseCode::new("THEO", 3690), ("Faith & Reason III".to_owned(), Some(2u32), CourseTermOffering::Discretion)),
        (CourseCode::new("THEO", 3820), ("Christianity & World Religions".to_owned(), Some(3u32), CourseTermOffering::Both)),
        (CourseCode::new("THEO", 3840), ("Protestant Tradition".to_owned(), Some(3u32), CourseTermOffering::Fall)),
        (CourseCode::new("THEO", 3920), ("Theology of Vatican II".to_owned(), Some(3u32), CourseTermOffering::Spring)),
        (CourseCode::new("THEO", 3940), ("Christian Bioethics".to_owned(), Some(3u32), CourseTermOffering::Both)),
        (CourseCode::new("THEO", 3950), ("Theology of the Environment".to_owned(), Some(3u32), CourseTermOffering::Discretion)),
        (CourseCode::new("THEO", 3960), ("American Catholic History".to_owned(), Some(3u32), CourseTermOffering::Discretion)),
        (CourseCode::new("THEO", 4000), ("Great Catholic Thinkers".to_owned(), Some(3u32), CourseTermOffering::Discretion)),
        (CourseCode::new("THTR", 1010), ("Introduction to the Theatre".to_owned(), Some(3u32), CourseTermOffering::Both)),
        (CourseCode::new("THTR", 1150), ("Fundamentals of Acting".to_owned(), Some(3u32), CourseTermOffering::Both)),
        (CourseCode::new("THTR", 2150), ("Techniques of Acting".to_owned(), Some(3u32), CourseTermOffering::Spring)),
        (CourseCode::new("THTR", 3520), ("Scene Design".to_owned(), Some(3u32), CourseTermOffering::Discretion)),
        (CourseCode::new("THTR", 3560), ("Lighting Design".to_owned(), Some(3u32), CourseTermOffering::Discretion)),
        (CourseCode::new("THTR", 3580), ("Costume Design".to_owned(), Some(3u32), CourseTermOffering::Discretion)),
        (CourseCode::new("THTR", 3800), ("Scriptwriting".to_owned(), Some(3u32), CourseTermOffering::Spring)),
        (CourseCode::new("THTR", 3810), ("Theatre History & Literature to 1640".to_owned(), Some(3u32), CourseTermOffering::Fall)),
        (CourseCode::new("THTR", 3820), ("Theatre History & Literature 1640-1918".to_owned(), Some(3u32), CourseTermOffering::Spring)),
        (CourseCode::new("THTR", 3830), ("Modern & Contemporary Theatre".to_owned(), Some(3u32), CourseTermOffering::Fall)),
        (CourseCode::new("THTR", 4150), ("Play Direction".to_owned(), Some(3u32), CourseTermOffering::Fall)),
    ];
    assert(pairs.deep_view() =~= catalog_table());
    CourseMap::from_pairs(pairs)
}

/// The listed courses, in the order of the listing.
pub open spec fn listed_courses() -> Seq<CourseCodeView> {
    seq![
        course("ARCH"@, 2300),
        course("ARCH"@, 2301),
        course("ARCH"@, 3400),
        course("ARCH"@, 4116),
        course("ART"@, 1000),
        course("ART"@, 1010),
        course("ART"@, 1030),
        course("ART"@, 2410),
        course("ART"@, 2600),
        course("ART"@, 2800),
        course("ART"@, 3411),
        course("ART"@, 3412),
        course("ART"@, 3413),
        course("ART"@, 4311),
        course("ART"@, 4900),
        course("ASTR"@, 1300),
        course("ASTR"@, 1400),
        course("ASTR"@, 3000),
        course("ASTR"@, 4100),
        course("ASTR"@, 4200),
        course("ASTR"@, 4300),
        course("BIOL"@, 1050),
        course("BIOL"@, 1105),
        course("BIOL"@, 1107),
        course("BIOL"@, 1121),
        course("BIOL"@, 1122),
        course("BIOL"@, 2243),
        course("BIOL"@, 2260),
        course("BIOL"@, 3305),
        course("BIOL"@, 3310),
        course("BIOL"@, 3312),
        course("BIOL"@, 3313),
        course("BIOL"@, 3345),
        course("BIOL"@, 3346),
        course("BIOL"@, 3347),
        course("BIOL"@, 3353),
        course("BIOL"@, 3354),
        course("BIOL"@, 3355),
        course("BIOL"@, 3360),
        course("BIOL"@, 3370),
        course("BIOL"@, 4410),
        course("BIOL"@, 4475),
        course("BIOL"@, 4476),
        course("BIOL"@, 4482),
        course("BIOL"@, 4484),
        course("BIOL"@, 4486),
        course("BUSI"@, 2230),
        course("BUSI"@, 2650),
        course("BUSI"@, 3710),
        course("BUSI"@, 4550),
        course("BUSI"@, 4850),
        course("CENG"@, 4600),
        course("CENG"@, 4610),
        course("CHEM"@, 1010),
        course("CHEM"@, 1011),
        course("CHEM"@, 1200),
        course("CHEM"@, 1201),
        course("CHEM"@, 1210),
        course("CHEM"@, 1211),
        course("CHEM"@, 2200),
        course("CHEM"@, 2201),
        course("CHEM"@, 2210),
        course("CHEM"@, 2211),
        course("CHEM"@, 3150),
        course("CHEM"@, 3250),
        course("CHEM"@, 3300),
        course("CHEM"@, 3301),
        course("CHEM"@, 3311),
        course("CHEM"@, 3400),
        course("CHEM"@, 3401),
        course("CHEM"@, 3500),
        course("CHEM"@, 3501),
        course("CHEM"@, 3510),
        course("CHEM"@, 3511),
        course("CHEM"@, 3650),
        course("CHEM"@, 3800),
        course("CHEM"@, 3801),
        course("CHEM"@, 3980),
        course("CHEM"@, 4200),
        course("CHEM"@, 4350),
        course("CHEM"@, 4450),
        course("CHEM"@, 4650),
        course("CHEM"@, 4801),
        course("CHEM"@, 4811),
        course("CHEM"@, 4900),
        course("CHEM"@, 4901),
        course("CHEM"@, 4902),
        course("CHEM"@, 4903),
        course("CHEM"@, 4980),
        special_course("CHEM"@, "COMP"@),
        course("CIVL"@, 3010),
        course("CIVL"@, 3020),
        course("CIVL"@, 4700),
        course("CRIM"@, 1000),
        course("CRIM"@, 3100),
        course("CRIM"@, 3200),
        course("CRIM"@, 3300),
        course("CSCI"@, 2300),
        course("CSCI"@, 4930),
        course("DANC"@, 3800),
        course("ECON"@, 1000),
        course("ECON"@, 1010),
        course("ECON"@, 2090),
        course("ECON"@, 2100),
        course("ECON"@, 3000),
        course("ECON"@, 3010),
        course("ECON"@, 3260),
        course("ECON"@, 4010),
        course("EDUC"@, 2220),
        course("EDUC"@, 4451),
        course("EDUC"@, 4470),
        course("EDUC"@, 4492),
        course("EDUC"@, 4496),
        course("EDUC"@, 4497),
        course("EENG"@, 4600),
        course("EENG"@, 4610),
        course("ENGL"@, 1000),
        course("ENGL"@, 1010),
        course("ENGL"@, 1020),
        course("ENGL"@, 1500),
        course("ENGL"@, 1550),
        course("ENGL"@, 1575),
        course("ENGL"@, 1600),
        course("ENGL"@, 1650),
        course("ENGL"@, 1700),
        course("ENGL"@, 1750),
        course("ENGL"@, 3010),
        course("ENGL"@, 3020),
        course("ENGL"@, 3030),
        course("ENGL"@, 3040),
        course("ENGL"@, 3060),
        course("ENGL"@, 3110),
        course("ENGL"@, 3120),
        course("ENGL"@, 3140),
        course("ENGL"@, 3150),
        course("ENGL"@, 3250),
        course("ENGL"@, 3270),
        course("ENGL"@, 4010),
        course("ENGL"@, 4020),
        course("ENGL"@, 4050),
        course("ENGL"@, 4060),
        course("ENGL"@, 4110),
        course("ENGL"@, 4130),
        course("ENGL"@, 4140),
        course("ENGL"@, 4200),
        course("ENGL"@, 4250),
        course("ENGL"@, 4910),
        course("ENGR"@, 1001),
        course("ENGR"@, 1500),
        course("ENGR"@, 3170),
        course("ENGR"@, 3400),
        course("ENGR"@, 3410),
        course("ESLG"@, 2220),
        course("ESLG"@, 2930),
        course("EXSC"@, 1100),
        course("EXSC"@, 1101),
        course("EXSC"@, 1105),
        course("EXSC"@, 1106),
        course("EXSC"@, 1107),
        course("EXSC"@, 1108),
        course("EXSC"@, 1109),
        course("EXSC"@, 1111),
        course("EXSC"@, 1114),
        course("EXSC"@, 1115),
        course("EXSC"@, 1116),
        course("EXSC"@, 1117),
        course("EXSC"@, 1126),
        course("EXSC"@, 1128),
        course("EXSC"@, 1129),
        course("EXSC"@, 3380),
        course("EXSC"@, 4457),
        course("FIAR"@, 1100),
        course("FINC"@, 4940),
        course("FREN"@, 1000),
        course("FREN"@, 1020),
        course("FREN"@, 3040),
        course("FREN"@, 3500),
        course("FREN"@, 3510),
        course("FREN"@, 3610),
        course("FREN"@, 3620),
        course("FREN"@, 3630),
        course("FREN"@, 3640),
        course("FREN"@, 3650),
        course("FREN"@, 3700),
        course("GNST"@, 1110),
        course("GNST"@, 1800),
        course("GNST"@, 3000),
        course("GNST"@, 3200),
        course("GREK"@, 1000),
        course("GREK"@, 1020),
        course("HIST"@, 1100),
        course("HIST"@, 1101),
        course("HIST"@, 1300),
        course("HIST"@, 1380),
        course("HIST"@, 2000),
        course("HIST"@, 3100),
        course("HIST"@, 3140),
        course("HIST"@, 3141),
        course("HIST"@, 3280),
        course("HIST"@, 3301),
        course("HIST"@, 3380),
        course("HIST"@, 3381),
        course("HIST"@, 3383),
        course("HIST"@, 3385),
        course("HIST"@, 3520),
        course("HIST"@, 3521),
        course("HIST"@, 3522),
        course("HIST"@, 3540),
        course("HIST"@, 3541),
        course("HIST"@, 3542),
        course("HIST"@, 3543),
        course("HIST"@, 3544),
        course("HIST"@, 3660),
        course("HIST"@, 3661),
        course("HIST"@, 3680),
        course("HIST"@, 3681),
        course("HIST"@, 3682),
        course("HIST"@, 3684),
        course("HIST"@, 3685),
        course("HIST"@, 3686),
        course("HIST"@, 3687),
        course("HIST"@, 3720),
        course("HIST"@, 4000),
        course("HONR"@, 1030),
        course("ITAL"@, 1000),
        course("ITAL"@, 1020),
        course("ITAL"@, 3000),
        course("JOUR"@, 2620),
        course("JOUR"@, 3300),
        course("LATN"@, 1000),
        course("LATN"@, 1020),
        course("LATN"@, 3110),
        course("LATN"@, 3120),
        course("LATN"@, 4110),
        course("LATN"@, 4120),
        course("MATH"@, 1020),
        course("MATH"@, 1120),
        course("MATH"@, 1220),
        course("MATH"@, 1250),
        course("MATH"@, 1300),
        course("MATH"@, 1350),
        course("MATH"@, 2300),
        course("MATH"@, 2550),
        course("MATH"@, 3100),
        course("MATH"@, 4457),
        course("MATH"@, 4930),
        course("MCOM"@, 1000),
        course("MCOM"@, 1030),
        course("MCOM"@, 1610),
        course("MCOM"@, 2500),
        course("MCOM"@, 2600),
        course("MCOM"@, 2610),
        course("MCOM"@, 3310),
        course("MCOM"@, 3600),
        course("MCOM"@, 3610),
        course("MENG"@, 4700),
        course("MGMT"@, 2250),
        course("MGMT"@, 3250),
        course("MILS"@, 1160),
        course("MILS"@, 2160),
        course("MILS"@, 3160),
        course("MKTG"@, 3100),
        course("MUSC"@, 1100),
        course("MUSC"@, 1101),
        course("MUSC"@, 1102),
        course("MUSC"@, 2214),
        course("MUSC"@, 3201),
        course("MUSC"@, 4100),
        course("MUSC"@, 4110),
        course("MUSC"@, 4120),
        course("NASC"@, 1000),
        course("NASC"@, 1100),
        course("NASC"@, 1400),
        course("NASC"@, 1600),
        course("NASC"@, 2300),
        course("NASC"@, 3100),
        course("NURS"@, 3200),
        course("NURS"@, 3350),
        course("NURS"@, 4200),
        course("NURS"@, 4210),
        course("NURS"@, 4700),
        course("PHIL"@, 2010),
        course("PHIL"@, 2100),
        course("PHIL"@, 2310),
        course("PHIL"@, 2550),
        course("PHIL"@, 3250),
        course("PHIL"@, 3550),
        course("PHIL"@, 3670),
        course("PHIL"@, 3690),
        course("PHIL"@, 3730),
        course("PHIL"@, 3740),
        course("PHIL"@, 3800),
        course("PHIL"@, 3820),
        course("PHIL"@, 4010),
        course("PHIL"@, 4020),
        course("PHIL"@, 4030),
        course("PHIL"@, 4040),
        course("PHIL"@, 4050),
        course("PHIL"@, 4060),
        course("PHIL"@, 4800),
        course("PHIL"@, 4860),
        course("PHIL"@, 4920),
        course("PHYS"@, 1100),
        course("PHYS"@, 1200),
        course("PHYS"@, 1300),
        course("PHYS"@, 2000),
        course("PHYS"@, 2001),
        course("PHYS"@, 2100),
        course("PHYS"@, 2101),
        course("PHYS"@, 2110),
        course("PHYS"@, 2111),
        course("PHYS"@, 3200),
        course("PHYS"@, 3201),
        course("PHYS"@, 3210),
        course("PHYS"@, 3211),
        course("PHYS"@, 4100),
        course("PHYS"@, 4200),
        course("PHYS"@, 4300),
        course("PHYS"@, 4301),
        course("PHYS"@, 4600),
        course("PHYS"@, 4800),
        course("PHYS"@, 4900),
        course("PHYS"@, 4901),
        course("PHYS"@, 4902),
        course("PHYS"@, 4903),
        course("PHYS"@, 4910),
        special_course("PHYS"@, "COMP"@),
        course("POLS"@, 1000),
        course("POLS"@, 1100),
        course("POLS"@, 1500),
        course("POLS"@, 1800),
        course("POLS"@, 2010),
        course("POLS"@, 2500),
        course("POLS"@, 2750),
        course("POLS"@, 3000),
        course("POLS"@, 3010),
        course("POLS"@, 3250),
        course("POLS"@, 3600),
        course("POLS"@, 3700),
        course("POLS"@, 3750),
        course("POLS"@, 3850),
        course("POLS"@, 4010),
        course("POLS"@, 4600),
        course("POLS"@, 4950),
        course("PSYC"@, 1000),
        course("PSYC"@, 2000),
        course("PSYC"@, 2010),
        course("PSYC"@, 2731),
        course("PSYC"@, 4050),
        course("PSYC"@, 4850),
        course("SOCI"@, 1000),
        course("SOCI"@, 2250),
        course("SOCI"@, 2350),
        course("SOCI"@, 3105),
        course("SOCI"@, 3155),
        course("SOCI"@, 3205),
        course("SOCI"@, 3305),
        course("SOCI"@, 3330),
        course("SOCI"@, 3450),
        course("SOCI"@, 4175),
        course("SPAN"@, 1000),
        course("SPAN"@, 1020),
        course("SPAN"@, 3040),
        course("SPAN"@, 3400),
        course("SPAN"@, 3500),
        course("SPAN"@, 3650),
        course("SPAN"@, 3660),
        course("SPAN"@, 3710),
        course("SPAN"@, 3720),
        course("SPAN"@, 4700),
        course("SPCH"@, 1100),
        course("THEO"@, 1100),
        course("THEO"@, 2000),
        course("THEO"@, 2010),
        course("THEO"@, 2020),
        course("THEO"@, 2100),
        course("THEO"@, 2144),
        course("THEO"@, 2150),
        course("THEO"@, 3100),
        course("THEO"@, 3110),
        course("THEO"@, 3133),
        course("THEO"@, 3144),
        course("THEO"@, 3150),
        course("THEO"@, 3160),
        course("THEO"@, 3200),
        course("THEO"@, 3220),
        course("THEO"@, 3230),
        course("THEO"@, 3240),
        course("THEO"@, 3260),
        course("THEO"@, 3280),
        course("THEO"@, 3420),
        course("THEO"@, 3430),
        course("THEO"@, 3450),
        course("THEO"@, 3620),
        course("THEO"@, 3640),
        course("THEO"@, 3660),
        course("THEO"@, 3680),
        course("THEO"@, 3690),
        course("THEO"@, 3820),
        course("THEO"@, 3840),
        course("THEO"@, 3920),
        course("THEO"@, 3940),
        course("THEO"@, 3950),
        course("THEO"@, 3960),
        course("THEO"@, 4000),
        course("THTR"@, 1010),
        course("THTR"@, 1150),
        course("THTR"@, 2150),
        course("THTR"@, 3520),
        course("THTR"@, 3560),
        course("THTR"@, 3580),
        course("THTR"@, 3800),
        course("THTR"@, 3810),
        course("THTR"@, 3820),
        course("THTR"@, 3830),
        course("THTR"@, 4150),
    ]
}

/// The title of each listed course, in the order of the listing.
pub open spec fn listed_titles() -> Seq<Seq<char>> {
    seq![
        "Architectural History I"@,
        "Architectural History 2"@,
        "Architecture of Cities"@,
        "Capstone Studio 6"@,
        "Drawing I"@,
        "Foundations of 2-D Design: Comp & Color"@,
        "Foundations of 3-D Design: Form & Space"@,
        "Art Appreciation"@,
        "Ceramics I"@,
        "Basic Digital Photography"@,
        "Art History I"@,
        "Art History II (survey)"@,
        "Twentieth Century Art"@,
        "Design for Social Good"@,
        "Professional Practices"@,
        "Sun & Solar System"@,
        "Stars & Stellar Systems"@,
        "Observational Astronomy"@,
        "Introduction to Astrophysics"@,
        "Solar System Astrophysics"@,
        "Galaxies & Cosmology"@,
        "Microbial World"@,
        "Plants & Civilization"@,
        "Principles of Biology"@,
        "General Biology I"@,
        "General Biology II"@,
        "Human Anatomy & Physiology II"@,
        "Principles of Microbiology"@,
        "Biological Statistics"@,
        "Biology III- Mechanisms of Evolution"@,
        "Plant Biology"@,
        "Taxonomy of Flowering Plants"@,
        "Developmental Biology"@,
        "Comparative Vertebrate Anatomy"@,
        "Kansas Vertebrates Natural History"@,
        "Invertebrate Biology"@,
        "Animal Behavior"@,
        "Ecology"@,
        "Microbiology"@,
        "Genetics"@,
        "Cancer Biology"@,
        "Molecular & Cell Biology"@,
        "Immunology"@,
        "Animal Physiology"@,
        "Cell Physiology"@,
        "Research"@,
        "Business Communication"@,
        "Business Statistics"@,
        "Legal Environment of Business"@,
        "Business Ethics"@,
        "Seminr on Executive Writing and Communic"@,
        "Plant Design I"@,
        "Plant Design II"@,
        "Chemistry of the Biosphere"@,
        "Chemistry of the Biosphere Lab"@,
        "General Chemistry I Lecture"@,
        "General Chemistry I Lab"@,
        "General Chemistry II Lecture"@,
        "General Chemistry II Lab"@,
        "Organic Chemistry I Lecture"@,
        "Organic Chemistry I Lab"@,
        "Organic Chemistry II Lecture"@,
        "Organic Chem II Lab"@,
        "Computational Chemistry"@,
        "Environmental Chemistry"@,
        "Quantitative Analysis"@,
        "Quantitative Analysis Lab"@,
        "Instrumental Analysis Lab"@,
        "Inorganic Chemistry"@,
        "Inorganic Chemistry Lab"@,
        "Biochemistry I"@,
        "Biochemistry I Lab"@,
        "Biochemistry II"@,
        "Biochemistry II Lab"@,
        "Polymer Chemistry"@,
        "Physical Chemistry I"@,
        "Physical Chemistry I Lab"@,
        "Special Topics"@,
        "Physical Chemistry II"@,
        "Advanced Organic Chemistry I"@,
        "Topics in Biochemistry"@,
        "Organometallic Chemistry"@,
        "Research I"@,
        "Research II"@,
        "Chemistry & Biochem Colloquium"@,
        "Chem & Biochem Colloquium 2"@,
        "Chem & Biochem Colloquium 3"@,
        "Chem & Biochem Colloquium 4"@,
        "Special Topics"@,
        "Senior Comprehensive Exam"@,
        "Soil Mechanics & Civil Eng Materials Lab"@,
        "Environmental & Hydraulic Engineeri Lab"@,
        "Civil Engineering Seminar"@,
        "Introduction to Crime & Justice"@,
        "Theories of Crime & Deviance"@,
        "Crime Analysis"@,
        "Juvenile Delinquency"@,
        "Programming for Scientists & Engineers"@,
        "Computer Science Senior Capstone"@,
        "History of Dance"@,
        "Economics of Social & Public Issues"@,
        "Introduction to Economics"@,
        "Principles of Macroeconomics"@,
        "Principles of Microeconomics"@,
        "Contemporary Economic Thinking"@,
        "Environmental Economics"@,
        "Catholic Social Teaching"@,
        "Seminar in Economic Development"@,
        "Science of Learning & Teaching"@,
        "Philosophy of Education"@,
        "Student Teaching Seminar"@,
        "Supervised Student Teaching Elem School"@,
        "Supervised Student Teach Secondar School"@,
        "Modified Teaching Experience"@,
        "Electrical Engin Design I"@,
        "Electrical Engin Design II"@,
        "English Composition With Review"@,
        "English Composition"@,
        "Introduction to Literature"@,
        "World Lit I: Ancient to Renaissance"@,
        "World Lit II: Enlightenment-Present"@,
        "World Lit 3: 19th Century to WW1"@,
        "British Literature to 1750"@,
        "British Literature After 1750"@,
        "American Literature Thru Civil War"@,
        "British Literature to 1750"@,
        "Old & Middle English Literature"@,
        "Shakespeare"@,
        "Renaissance Literature"@,
        "Restoration & 18th Century Literature"@,
        "Classical Mythology"@,
        "The Novel"@,
        "Short Story"@,
        "The Play"@,
        "Film"@,
        "Creative Writing"@,
        "Writing Fiction"@,
        "Romantic Literature"@,
        "Victorian Literature"@,
        "20th Century British Literature"@,
        "Contemporary American Literature"@,
        "Literary Criticism"@,
        "Christianity & Literature"@,
        "The Vikings: History & Literature"@,
        "Legends of King Arthur"@,
        "Creative Writing II"@,
        "Language & Literature Seminar"@,
        "STEM Fund of Robitcs & Makerlabs"@,
        "Technical Drawing"@,
        "Engineering Economy & Society"@,
        "Materials Laboratory"@,
        "Thermofluids Laboratory"@,
        "Advanced Composition & Research"@,
        "Public Speaking"@,
        "Physical Fitness"@,
        "Aerobics-FITNESS"@,
        "Beginning Gymnastics & Body Mechanics"@,
        "Beginning Swimming"@,
        "Beg Weight & Circuit Training -FITNESS"@,
        "Intermediate Swimming- Fitness"@,
        "Karate (FITNESS)"@,
        "Varsity Sport Activity"@,
        "Aikido (FITNESS)"@,
        "Wellness for Life"@,
        "Lifestyle FIT"@,
        "Brazilian Jiu Jitsu I"@,
        "Zumba (FITNESS)"@,
        "FITNESS Swimming"@,
        "Pickleball"@,
        "Kinesiology & Biomechanical Analysis"@,
        "Meth & Tech Teach Phys Activity & Health"@,
        "Introduction to Fine Arts"@,
        "History Financial Institutions & Markets"@,
        "Beginning French"@,
        "Second Semester French"@,
        "Introduction to French Literature"@,
        "French Study Abroad"@,
        "Advanced French Grammar & Conversation"@,
        "French Civilization"@,
        "Survey French Lit From Origin to Classic"@,
        "Survey French Lit-Classical to Symbolism"@,
        "Survey French Lit-Symbolism-Current"@,
        "Intro Francophone Literature & Cultures"@,
        "History of French Cinema"@,
        "Learning Community Lab"@,
        "Moot Court"@,
        "International Study Reflection & Practic"@,
        "Catholic Worldview Fellowship"@,
        "Beginning Greek I"@,
        "Beginning Greek II"@,
        "World Civilization to 1500"@,
        "World Civilization Since 1500"@,
        "United States History to 1865"@,
        "United States History Since 1865"@,
        "History Methods & Historiography"@,
        "United States Diplomatic History"@,
        "Medieval Travelers"@,
        "The Crusades"@,
        "Modern Asian Survey"@,
        "United States Military History"@,
        "Early American Republic 1789-1828"@,
        "United States Civil War 1828-1865"@,
        "Prosperity & Depression 1919-1941"@,
        "History of American Film"@,
        "Ancient Greece"@,
        "Ancient Rome"@,
        "Greek & Roman History"@,
        "Medieval History"@,
        "Byzantine History"@,
        "The Renaissance"@,
        "Medieval England"@,
        "Medieval Lay Religion"@,
        "The Reformation Era"@,
        "Early Modern Europe"@,
        "French Revolution & Napoleon"@,
        "Ninteenth-Century Europe"@,
        "Europe 1945 - Today"@,
        "Russian History"@,
        "World War I"@,
        "World War II"@,
        "The Holocaust"@,
        "Ancient Egypt"@,
        "Seminar in History"@,
        "Honors English Research Seminar"@,
        "Beginning Italian"@,
        "Second Semester Italian"@,
        "Europe in the Middle Ages"@,
        "Media Writing I"@,
        "Media Writing II"@,
        "Beginning Latin I"@,
        "Beginning Latin II"@,
        "Survey of Latin Prose Authors"@,
        "Latin Prose Authors II"@,
        "Survey of Latin Poets"@,
        "Latin Poets II"@,
        "Mathematics As a Liberal Art"@,
        "Mathematics for Elem Teachers II"@,
        "Introductory Statistics"@,
        "Pre-Calculus"@,
        "Calculus I"@,
        "Calculus II"@,
        "Calculus III"@,
        "Discrete Mathematical Structures I"@,
        "Differential Equations"@,
        "Secondary School Math Curr & Materials"@,
        "Directed Research"@,
        "Media & Society"@,
        "Introduction to Cinema"@,
        "Layout & Design"@,
        "Web Design I"@,
        "Principles of Visual Communications"@,
        "Digital Photography I"@,
        "Art of Presentation"@,
        "Signs & Symbols"@,
        "Digital Photography II"@,
        "Senior Seminar"@,
        "Prin of Business Management"@,
        "International Management & Culture"@,
        "Foundations of Officership"@,
        "Individual Leadership Studies"@,
        "Leadership & Problem Solving"@,
        "Principles of Marketing"@,
        "Music Appreciation"@,
        "World Music Literature"@,
        "History of Jazz"@,
        "Vocal Methods"@,
        "Introduction to Conducting"@,
        "Music History I: Antiquity to 1750"@,
        "Music History II: 1750-1900"@,
        "Music History III: After 1900"@,
        "Environmental Science"@,
        "Environmental Geology"@,
        "Earth Science"@,
        "Origins of Major Theories in Science"@,
        "World Regional Geography"@,
        "Historical Readings in Natural Science"@,
        "Foundations of Nursing"@,
        "Pharmacology"@,
        "Population Care"@,
        "Population Care: Clinical"@,
        "Legal & Ethical Issues in Nursing"@,
        "Logic"@,
        "Principles of Nature"@,
        "Philosophy of Nature"@,
        "Philosophical Psychology"@,
        "Ethics"@,
        "Political Philosophy"@,
        "Faith & Reason I"@,
        "Faith & Reason III"@,
        "Metaphysics"@,
        "Natural Theology"@,
        "Epistemology"@,
        "Philosophy of Religion"@,
        "Ancient Philosophy"@,
        "Medieval Philosophy"@,
        "Islamic Philosophy"@,
        "Early Modern Philosophy"@,
        "Modern Continental Philosophy"@,
        "Modern Anglo-American Philosophy"@,
        "Aesthetics"@,
        "Philosophy of Law"@,
        "Senior Thesis"@,
        "Concepts in Physics"@,
        "Acoustics"@,
        "Our Strange Universe"@,
        "College Physics I"@,
        "College Physics I Lab"@,
        "Classical Physics I"@,
        "Introductory Physics Laborartory I"@,
        "Classical Physics II"@,
        "Introductory Physics Lab II"@,
        "Relativity & Atomic Physics"@,
        "Modern Physics Lab"@,
        "Nuclear & Elementary Particle Physics"@,
        "Modern Physics Lab II"@,
        "Mechanics I"@,
        "Mathematical Methods for Physics"@,
        "Optics"@,
        "Optics Laboratory"@,
        "Electricity & Magnetism I"@,
        "Quantum Mechanics"@,
        "Physics Colloquium"@,
        "Physics Colloquium"@,
        "Physics Colloquium"@,
        "Physics Colloquium"@,
        "Physics & Astronomy Research"@,
        "Senior Comprehensive Exam"@,
        "Introduction to American Government"@,
        "Fundamentals of Politics"@,
        "American 20th Century Political History"@,
        "Principles of American Government"@,
        "Comparative World Government & Politics"@,
        "Introduction to Research Methods"@,
        "Public Policy Analysis"@,
        "Comparative Politics"@,
        "European Politics"@,
        "The American Presidency"@,
        "US Foreign Policy"@,
        "Film & Politics"@,
        "American Constitutional Development"@,
        "American Political Thought"@,
        "International Relations"@,
        "Public Administration"@,
        "Capstone Senior Seminar"@,
        "General Psychology"@,
        "Research & Statistics in Psych I"@,
        "Research & Statistics in Psych II"@,
        "Theories of Personality"@,
        "Biopsychology"@,
        "Psychology Service Experience"@,
        "Introduction to Sociology"@,
        "Social Problems"@,
        "Cultural Anthropology"@,
        "Sociological Theory"@,
        "Research Design for Sociology & Crimin"@,
        "Marriage & the Family"@,
        "Population & Society"@,
        "Popular Culture"@,
        "Social Welfare"@,
        "Seminar in Social Research I"@,
        "Beginning Spanish"@,
        "Second Semester Spanish"@,
        "Introduction to Hispanic Lit & Lit Analy"@,
        "Introduction to Hispanic Linguistics"@,
        "Study Abroad: Spanish Immersion"@,
        "Survey of Latin American Literature"@,
        "Survey of Spanish Literature"@,
        "Spanish Civilization & Culture"@,
        "Latin American Civilization & Culture"@,
        "Topics in Latin Am & Latino Lit & Cultur"@,
        "Speech Communication"@,
        "Introduction to Theology"@,
        "Christian Moral Life"@,
        "Biblical Hebrew I"@,
        "Biblical Hebrew II"@,
        "Old Testament 1: Pentateuch"@,
        "Liturgical Art & Architecture"@,
        "New Testament I: Synoptic Gospels"@,
        "Old Testament II: Wisdom Literature"@,
        "Old Testament III: Prophets"@,
        "Sacramental Aesthetics"@,
        "Music & Catholic Liturgy"@,
        "New Testament Lit Ii: Pauline Literature"@,
        "Gospel of John"@,
        "Sacraments & Liturgy"@,
        "Christian Marriage"@,
        "John Paul II & the Family"@,
        "Benedictine Spirituality"@,
        "Catholic Social Teaching"@,
        "Spiritual Theology"@,
        "Hist of Catholic Church I: Apost-16th C"@,
        "History Catholic Church Ii: Reform-Today"@,
        "History of Monastic Life"@,
        "Theology of the Church"@,
        "Christ & the Trinity"@,
        "Mary, Mother of God"@,
        "Faith & Reason II"@,
        "Faith & Reason III"@,
        "Christianity & World Religions"@,
        "Protestant Tradition"@,
        "Theology of Vatican II"@,
        "Christian Bioethics"@,
        "Theology of the Environment"@,
        "American Catholic History"@,
        "Great Catholic Thinkers"@,
        "Introduction to the Theatre"@,
        "Fundamentals of Acting"@,
        "Techniques of Acting"@,
        "Scene Design"@,
        "Lighting Design"@,
        "Costume Design"@,
        "Scriptwriting"@,
        "Theatre History & Literature to 1640"@,
        "Theatre History & Literature 1640-1918"@,
        "Modern & Contemporary Theatre"@,
        "Play Direction"@,
    ]
}

/// The credit hours of each listed course, in the order of the listing; a
/// course of variable credit has none.
pub open spec fn listed_credit_hours() -> Seq<Option<u32>> {
    seq![
        Some(3u32),
        Some(3u32),
        Some(3u32),
        Some(6u32),
        Some(3u32),
        Some(3u32),
        Some(3u32),
        Some(3u32),
        Some(3u32),
        Some(3u32),
        Some(3u32),
        Some(3u32),
        Some(3u32),
        Some(3u32),
        Some(2u32),
        Some(4u32),
        Some(4u32),
        Some(3u32),
        Some(3u32),
        Some(3u32),
        Some(3u32),
        Some(4u32),
        Some(4u32),
        Some(4u32),
        Some(5u32),
        Some(4u32),
        Some(4u32),
        Some(4u32),
        Some(4u32),
        Some(3u32),
        Some(4u32),
        Some(4u32),
        Some(4u32),
        Some(4u32),
        Some(4u32),
        Some(4u32),
        Some(4u32),
        Some(4u32),
        Some(4u32),
        Some(4u32),
        Some(4u32),
        Some(4u32),
        Some(4u32),
        Some(4u32),
        Some(4u32),
        Some(1u32),
        Some(3u32),
        Some(3u32),
        Some(3u32),
        Some(3u32),
        Some(1u32),
        Some(3u32),
        Some(3u32),
        Some(3u32),
        Some(1u32),
        Some(3u32),
        Some(1u32),
        Some(3u32),
        Some(1u32),
        Some(3u32),
        Some(1u32),
        Some(3u32),
        Some(1u32),
        Some(3u32),
        Some(3u32),
        Some(3u32),
        Some(1u32),
        Some(1u32),
        Some(3u32),
        Some(1u32),
        Some(3u32),
        Some(1u32),
        Some(3u32),
        Some(1u32),
        Some(3u32),
        Some(3u32),
        Some(1u32),
        Some(3u32),
        Some(3u32),
        Some(3u32),
        Some(3u32),
        Some(3u32),
        Some(1u32),
        Some(1u32),
        Some(1u32),
        Some(1u32),
        Some(1u32),
        Some(1u32),
        Some(4u32),
        None,
        Some(2u32),
        Some(2u32),
        Some(1u32),
        Some(3u32),
        Some(3u32),
        Some(3u32),
        Some(3u32),
        Some(3u32),
        Some(2u32),
        Some(3u32),
        Some(3u32),
        Some(3u32),
        Some(3u32),
        Some(3u32),
        Some(3u32),
        Some(3u32),
        Some(3u32),
        Some(3u32),
        Some(3u32),
        Some(3u32),
        Some(2u32),
        Some(12u32),
        Some(10u32),
        Some(5u32),
        Some(3u32),
        Some(3u32),
        Some(4u32),
        Some(3u32),
        Some(3u32),
        Some(3u32),
        Some(3u32),
        Some(3u32),
        Some(3u32),
        Some(3u32),
        Some(3u32),
        Some(3u32),
        Some(3u32),
        Some(3u32),
        Some(3u32),
        Some(3u32),
        Some(3u32),
        Some(3u32),
        Some(3u32),
        Some(3u32),
        Some(3u32),
        Some(3u32),
        Some(3u32),
        Some(3u32),
        Some(3u32),
        Some(3u32),
        Some(3u32),
        Some(3u32),
        Some(3u32),
        Some(3u32),
        Some(3u32),
        Some(3u32),
        Some(3u32),
        Some(3u32),
        Some(2u32),
        Some(3u32),
        Some(2u32),
        Some(2u32),
        Some(3u32),
        Some(3u32),
        Some(1u32),
        Some(1u32),
        Some(1u32),
        Some(1u32),
        Some(1u32),
        Some(1u32),
        Some(1u32),
        Some(1u32),
        Some(1u32),
        Some(1u32),
        Some(1u32),
        Some(1u32),
        Some(1u32),
        Some(1u32),
        Some(1u32),
        Some(3u32),
        Some(3u32),
        Some(3u32),
        Some(3u32),
        Some(4u32),
        Some(4u32),
        Some(3u32),
        Some(1u32),
        Some(3u32),
        Some(3u32),
        Some(3u32),
        Some(3u32),
        Some(3u32),
        Some(3u32),
        Some(3u32),
        Some(2u32),
        Some(2u32),
        Some(1u32),
        Some(3u32),
        Some(4u32),
        Some(4u32),
        Some(3u32),
        Some(3u32),
        Some(3u32),
        Some(3u32),
        Some(3u32),
        Some(3u32),
        Some(3u32),
        Some(3u32),
        Some(3u32),
        Some(3u32),
        Some(3u32),
        Some(3u32),
        Some(3u32),
        Some(3u32),
        Some(3u32),
        Some(3u32),
        Some(3u32),
        Some(3u32),
        Some(3u32),
        Some(3u32),
        Some(3u32),
        Some(3u32),
        Some(3u32),
        Some(3u32),
        Some(3u32),
        Some(3u32),
        Some(3u32),
        Some(3u32),
        Some(3u32),
        Some(3u32),
        Some(3u32),
        Some(3u32),
        Some(3u32),
        Some(3u32),
        Some(4u32),
        Some(4u32),
        Some(3u32),
        Some(4u32),
        Some(3u32),
        Some(4u32),
        Some(4u32),
        Some(3u32),
        Some(3u32),
        Some(3u32),
        Some(3u32),
        Some(3u32),
        Some(3u32),
        Some(4u32),
        Some(4u32),
        Some(4u32),
        Some(4u32),
        Some(4u32),
        Some(3u32),
        Some(3u32),
        Some(4u32),
        Some(2u32),
        Some(3u32),
        Some(3u32),
        Some(3u32),
        Some(3u32),
        Some(3u32),
        Some(4u32),
        Some(3u32),
        Some(3u32),
        Some(4u32),
        Some(1u32),
        Some(3u32),
        Some(3u32),
        Some(1u32),
        Some(2u32),
        Some(3u32),
        Some(3u32),
        Some(3u32),
        Some(3u32),
        Some(3u32),
        Some(1u32),
        Some(1u32),
        Some(3u32),
        Some(3u32),
        Some(3u32),
        Some(3u32),
        Some(3u32),
        Some(3u32),
        Some(3u32),
        Some(3u32),
        Some(3u32),
        Some(3u32),
        Some(4u32),
        Some(3u32),
        Some(2u32),
        Some(3u32),
        Some(3u32),
        Some(3u32),
        Some(3u32),
        Some(3u32),
        Some(3u32),
        Some(3u32),
        Some(4u32),
        Some(2u32),
        Some(3u32),
        Some(3u32),
        Some(3u32),
        Some(3u32),
        Some(3u32),
        Some(3u32),
        Some(3u32),
        Some(3u32),
        Some(3u32),
        Some(3u32),
        Some(3u32),
        Some(3u32),
        Some(3u32),
        Some(4u32),
        Some(4u32),
        Some(3u32),
        Some(3u32),
        Some(1u32),
        Some(3u32),
        Some(1u32),
        Some(3u32),
        Some(1u32),
        Some(3u32),
        Some(1u32),
        Some(2u32),
        Some(1u32),
        Some(3u32),
        Some(3u32),
        Some(3u32),
        Some(1u32),
        Some(3u32),
        Some(3u32),
        None,
        None,
        None,
        None,
        Some(1u32),
        None,
        Some(3u32),
        Some(3u32),
        Some(3u32),
        Some(3u32),
        Some(3u32),
        Some(4u32),
        Some(3u32),
        Some(3u32),
        Some(3u32),
        Some(3u32),
        Some(3u32),
        Some(4u32),
        Some(3u32),
        Some(3u32),
        Some(3u32),
        Some(3u32),
        Some(3u32),
        Some(3u32),
        Some(3u32),
        Some(3u32),
        Some(3u32),
        Some(3u32),
        Some(3u32),
        Some(3u32),
        Some(3u32),
        Some(3u32),
        Some(3u32),
        Some(3u32),
        Some(3u32),
        Some(3u32),
        Some(3u32),
        Some(3u32),
        Some(3u32),
        Some(4u32),
        Some(4u32),
        Some(3u32),
        Some(3u32),
        Some(1u32),
        Some(3u32),
        Some(3u32),
        Some(3u32),
        Some(3u32),
        Some(3u32),
        Some(3u32),
        Some(3u32),
        Some(3u32),
        Some(4u32),
        Some(4u32),
        Some(3u32),
        Some(3u32),
        Some(3u32),
        Some(3u32),
        Some(3u32),
        Some(3u32),
        Some(3u32),
        Some(3u32),
        Some(3u32),
        Some(3u32),
        Some(3u32),
        Some(3u32),
        Some(3u32),
        Some(3u32),
        Some(3u32),
        Some(3u32),
        Some(3u32),
        Some(3u32),
        Some(3u32),
        Some(3u32),
        Some(3u32),
        Some(4u32),
        Some(2u32),
        Some(3u32),
        Some(3u32),
        Some(3u32),
        Some(3u32),
        Some(3u32),
        Some(3u32),
        Some(3u32),
        Some(3u32),
        Some(3u32),
        Some(3u32),
        Some(3u32),
        Some(3u32),
        Some(3u32),
        Some(3u32),
        Some(3u32),
        Some(3u32),
        Some(3u32),
        Some(3u32),
    ]
}

/// The catalogue lists exactly the listed courses, in that order.
pub proof fn law_listed_courses()
    ensures
        catalog_table().len() == listed_courses().len(),
        forall|i: int| 0 <= i < catalog_table().len() ==> #[trigger] catalog_table()[i].0 == listed_courses()[i],
{
}

/// Each course of the catalogue has the title listed for it.
pub proof fn law_titles()
    ensures
        catalog_table().len() == listed_titles().len(),
        forall|i: int| 0 <= i < catalog_table().len() ==> #[trigger] catalog_table()[i].1.0 == listed_titles()[i],
{
}

/// Each course of the catalogue carries the credit hours listed for it.
pub proof fn law_credit_hours()
    ensures
        catalog_table().len() == listed_credit_hours().len(),
        forall|i: int| 0 <= i < catalog_table().len() ==> #[trigger] catalog_table()[i].1.1 == listed_credit_hours()[i],
{
}

/// The term in which each listed course is offered, in the order of the listing.
pub open spec fn listed_offerings() -> Seq<CourseTermOffering> {
    seq![
        CourseTermOffering::Fall,
        CourseTermOffering::Spring,
        CourseTermOffering::Fall,
        CourseTermOffering::Spring,
        CourseTermOffering::Both,
        CourseTermOffering::Both,
        CourseTermOffering::Both,
        CourseTermOffering::Both,
        CourseTermOffering::Both,
        CourseTermOffering::Discretion,
        CourseTermOffering::Fall,
        CourseTermOffering::Spring,
        CourseTermOffering::Fall,
        CourseTermOffering::Fall,
        CourseTermOffering::Fall,
        CourseTermOffering::Fall,
        CourseTermOffering::Spring,
        CourseTermOffering::Fall,
        CourseTermOffering::Fall,
        CourseTermOffering::Fall,
        CourseTermOffering::Spring,
        CourseTermOffering::Fall,
        CourseTermOffering::Spring,
        CourseTermOffering::Both,
        CourseTermOffering::Fall,
        CourseTermOffering::Spring,
        CourseTermOffering::Spring,
        CourseTermOffering::Spring,
        CourseTermOffering::Spring,
        CourseTermOffering::Fall,
        CourseTermOffering::Discretion,
        CourseTermOffering::Discretion,
        CourseTermOffering::Discretion,
        CourseTermOffering::Discretion,
        CourseTermOffering::Discretion,
        CourseTermOffering::Discretion,
        CourseTermOffering::Discretion,
        CourseTermOffering::Discretion,
        CourseTermOffering::Discretion,
        CourseTermOffering::Discretion,
        CourseTermOffering::Spring,
        CourseTermOffering::Discretion,
        CourseTermOffering::Discretion,
        CourseTermOffering::Discretion,
        CourseTermOffering::Discretion,
        CourseTermOffering::Discretion,
        CourseTermOffering::Discretion,
        CourseTermOffering::Both,
        CourseTermOffering::Both,
        CourseTermOffering::Discretion,
        CourseTermOffering::Both,
        CourseTermOffering::Fall,
        CourseTermOffering::Spring,
        CourseTermOffering::Discretion,
        CourseTermOffering::Discretion,
        CourseTermOffering::Both,
        CourseTermOffering::Both,
        CourseTermOffering::Spring,
        CourseTermOffering::Spring,
        CourseTermOffering::Fall,
        CourseTermOffering::Fall,
        CourseTermOffering::Spring,
        CourseTermOffering::Spring,
        CourseTermOffering::Discretion,
        CourseTermOffering::Discretion,
        CourseTermOffering::Fall,
        CourseTermOffering::Fall,
        CourseTermOffering::Spring,
        CourseTermOffering::Spring,
        CourseTermOffering::Spring,
        CourseTermOffering::Fall,
        CourseTermOffering::Fall,
        CourseTermOffering::Spring,
        CourseTermOffering::Spring,
        CourseTermOffering::Discretion,
        CourseTermOffering::Spring,
        CourseTermOffering::Spring,
        CourseTermOffering::Discretion,
        CourseTermOffering::Fall,
        CourseTermOffering::Discretion,
        CourseTermOffering::Fall,
        CourseTermOffering::Discretion,
        CourseTermOffering::Both,
        CourseTermOffering::Both,
        CourseTermOffering::Both,
        CourseTermOffering::Both,
        CourseTermOffering::Both,
        CourseTermOffering::Both,
        CourseTermOffering::Discretion,
        CourseTermOffering::Both,
        CourseTermOffering::Spring,
        CourseTermOffering::Fall,
        CourseTermOffering::Fall,
        CourseTermOffering::Both,
        CourseTermOffering::Spring,
        CourseTermOffering::Discretion,
        CourseTermOffering::Fall,
        CourseTermOffering::Spring,
        CourseTermOffering::Spring,
        CourseTermOffering::Discretion,
        CourseTermOffering::Fall,
        CourseTermOffering::Infrequently,
        CourseTermOffering::Both,
        CourseTermOffering::Both,
        CourseTermOffering::Fall,
        CourseTermOffering::Fall,
        CourseTermOffering::Spring,
        CourseTermOffering::Spring,
        CourseTermOffering::Both,
        CourseTermOffering::Both,
        CourseTermOffering::Both,
        CourseTermOffering::Both,
        CourseTermOffering::Both,
        CourseTermOffering::Both,
        CourseTermOffering::Fall,
        CourseTermOffering::Spring,
        CourseTermOffering::Both,
        CourseTermOffering::Both,
        CourseTermOffering::Discretion,
        CourseTermOffering::Discretion,
        CourseTermOffering::Discretion,
        CourseTermOffering::Discretion,
        CourseTermOffering::Both,
        CourseTermOffering::Both,
        CourseTermOffering::Both,
        CourseTermOffering::Both,
        CourseTermOffering::Infrequently,
        CourseTermOffering::Spring,
        CourseTermOffering::Infrequently,
        CourseTermOffering::Infrequently,
        CourseTermOffering::Discretion,
        CourseTermOffering::Discretion,
        CourseTermOffering::Discretion,
        CourseTermOffering::Discretion,
        CourseTermOffering::Discretion,
        CourseTermOffering::Fall,
        CourseTermOffering::Spring,
        CourseTermOffering::Discretion,
        CourseTermOffering::Discretion,
        CourseTermOffering::Discretion,
        CourseTermOffering::Discretion,
        CourseTermOffering::Spring,
        CourseTermOffering::Discretion,
        CourseTermOffering::Discretion,
        CourseTermOffering::Discretion,
        CourseTermOffering::Discretion,
        CourseTermOffering::Both,
        CourseTermOffering::Fall,
        CourseTermOffering::Spring,
        CourseTermOffering::Both,
        CourseTermOffering::Fall,
        CourseTermOffering::Spring,
        CourseTermOffering::Fall,
        CourseTermOffering::Spring,
        CourseTermOffering::Fall,
        CourseTermOffering::Both,
        CourseTermOffering::Fall,
        CourseTermOffering::Both,
        CourseTermOffering::Both,
        CourseTermOffering::Both,
        CourseTermOffering::Both,
        CourseTermOffering::Both,
        CourseTermOffering::Both,
        CourseTermOffering::Both,
        CourseTermOffering::Both,
        CourseTermOffering::Discretion,
        CourseTermOffering::Both,
        CourseTermOffering::Both,
        CourseTermOffering::Both,
        CourseTermOffering::Both,
        CourseTermOffering::Fall,
        CourseTermOffering::Infrequently,
        CourseTermOffering::Spring,
        CourseTermOffering::Fall,
        CourseTermOffering::Spring,
        CourseTermOffering::Discretion,
        CourseTermOffering::Discretion,
        CourseTermOffering::Discretion,
        CourseTermOffering::Discretion,
        CourseTermOffering::Discretion,
        CourseTermOffering::Discretion,
        CourseTermOffering::Discretion,
        CourseTermOffering::Discretion,
        CourseTermOffering::Discretion,
        CourseTermOffering::Fall,
        CourseTermOffering::Fall,
        CourseTermOffering::Both,
        CourseTermOffering::Summer,
        CourseTermOffering::Fall,
        CourseTermOffering::Spring,
        CourseTermOffering::Both,
        CourseTermOffering::Both,
        CourseTermOffering::Fall,
        CourseTermOffering::Both,
        CourseTermOffering::Fall,
        CourseTermOffering::Discretion,
        CourseTermOffering::Discretion,
        CourseTermOffering::Discretion,
        CourseTermOffering::Infrequently,
        CourseTermOffering::Discretion,
        CourseTermOffering::Discretion,
        CourseTermOffering::Discretion,
        CourseTermOffering::Discretion,
        CourseTermOffering::Discretion,
        CourseTermOffering::Discretion,
        CourseTermOffering::Discretion,
        CourseTermOffering::Discretion,
        CourseTermOffering::Discretion,
        CourseTermOffering::Discretion,
        CourseTermOffering::Discretion,
        CourseTermOffering::Discretion,
        CourseTermOffering::Discretion,
        CourseTermOffering::Discretion,
        CourseTermOffering::Discretion,
        CourseTermOffering::Discretion,
        CourseTermOffering::Discretion,
        CourseTermOffering::Discretion,
        CourseTermOffering::Discretion,
        CourseTermOffering::Discretion,
        CourseTermOffering::Discretion,
        CourseTermOffering::Discretion,
        CourseTermOffering::Discretion,
        CourseTermOffering::Spring,
        CourseTermOffering::Fall,
        CourseTermOffering::Both,
        CourseTermOffering::Both,
        CourseTermOffering::Both,
        CourseTermOffering::Both,
        CourseTermOffering::Both,
        CourseTermOffering::Fall,
        CourseTermOffering::Spring,
        CourseTermOffering::Discretion,
        CourseTermOffering::Discretion,
        CourseTermOffering::Discretion,
        CourseTermOffering::Discretion,
        CourseTermOffering::Both,
        CourseTermOffering::Both,
        CourseTermOffering::Both,
        CourseTermOffering::Both,
        CourseTermOffering::Both,
        CourseTermOffering::Both,
        CourseTermOffering::Both,
        CourseTermOffering::Fall,
        CourseTermOffering::Both,
        CourseTermOffering::Fall,
        CourseTermOffering::Fall,
        CourseTermOffering::Both,
        CourseTermOffering::Fall,
        CourseTermOffering::Both,
        CourseTermOffering::Discretion,
        CourseTermOffering::Both,
        CourseTermOffering::Fall,
        CourseTermOffering::Discretion,
        CourseTermOffering::Discretion,
        CourseTermOffering::Discretion,
        CourseTermOffering::Fall,
        CourseTermOffering::Both,
        CourseTermOffering::Both,
        CourseTermOffering::Fall,
        CourseTermOffering::Fall,
        CourseTermOffering::Fall,
        CourseTermOffering::Both,
        CourseTermOffering::Both,
        CourseTermOffering::Spring,
        CourseTermOffering::Discretion,
        CourseTermOffering::Spring,
        CourseTermOffering::Fall,
        CourseTermOffering::Fall,
        CourseTermOffering::Spring,
        CourseTermOffering::Fall,
        CourseTermOffering::Spring,
        CourseTermOffering::Spring,
        CourseTermOffering::Fall,
        CourseTermOffering::Spring,
        CourseTermOffering::Both,
        CourseTermOffering::Discretion,
        CourseTermOffering::Fall,
        CourseTermOffering::Fall,
        CourseTermOffering::Fall,
        CourseTermOffering::Fall,
        CourseTermOffering::Spring,
        CourseTermOffering::Both,
        CourseTermOffering::Both,
        CourseTermOffering::Both,
        CourseTermOffering::Both,
        CourseTermOffering::Both,
        CourseTermOffering::Discretion,
        CourseTermOffering::Discretion,
        CourseTermOffering::Discretion,
        CourseTermOffering::Both,
        CourseTermOffering::Both,
        CourseTermOffering::Discretion,
        CourseTermOffering::Discretion,
        CourseTermOffering::Discretion,
        CourseTermOffering::Discretion,
        CourseTermOffering::Discretion,
        CourseTermOffering::Discretion,
        CourseTermOffering::Discretion,
        CourseTermOffering::Discretion,
        CourseTermOffering::Infrequently,
        CourseTermOffering::Infrequently,
        CourseTermOffering::Discretion,
        CourseTermOffering::Both,
        CourseTermOffering::Fall,
        CourseTermOffering::Fall,
        CourseTermOffering::Fall,
        CourseTermOffering::Fall,
        CourseTermOffering::Fall,
        CourseTermOffering::Fall,
        CourseTermOffering::Spring,
        CourseTermOffering::Spring,
        CourseTermOffering::Fall,
        CourseTermOffering::Fall,
        CourseTermOffering::Spring,
        CourseTermOffering::Spring,
        CourseTermOffering::Fall,
        CourseTermOffering::Fall,
        CourseTermOffering::Spring,
        CourseTermOffering::Spring,
        CourseTermOffering::Fall,
        CourseTermOffering::Fall,
        CourseTermOffering::Both,
        CourseTermOffering::Both,
        CourseTermOffering::Both,
        CourseTermOffering::Both,
        CourseTermOffering::Both,
        CourseTermOffering::Both,
        CourseTermOffering::Fall,
        CourseTermOffering::Fall,
        CourseTermOffering::Both,
        CourseTermOffering::Spring,
        CourseTermOffering::Spring,
        CourseTermOffering::Spring,
        CourseTermOffering::Spring,
        CourseTermOffering::Spring,
        CourseTermOffering::Spring,
        CourseTermOffering::Fall,
        CourseTermOffering::Fall,
        CourseTermOffering::Fall,
        CourseTermOffering::Spring,
        CourseTermOffering::Spring,
        CourseTermOffering::Spring,
        CourseTermOffering::Spring,
        CourseTermOffering::Fall,
        CourseTermOffering::Both,
        CourseTermOffering::Both,
        CourseTermOffering::Both,
        CourseTermOffering::Fall,
        CourseTermOffering::Fall,
        CourseTermOffering::Both,
        CourseTermOffering::Both,
        CourseTermOffering::Discretion,
        CourseTermOffering::Discretion,
        CourseTermOffering::Spring,
        CourseTermOffering::Fall,
        CourseTermOffering::Spring,
        CourseTermOffering::Discretion,
        CourseTermOffering::Discretion,
        CourseTermOffering::Discretion,
        CourseTermOffering::Discretion,
        CourseTermOffering::Both,
        CourseTermOffering::Both,
        CourseTermOffering::Fall,
        CourseTermOffering::Fall,
        CourseTermOffering::Discretion,
        CourseTermOffering::Spring,
        CourseTermOffering::Spring,
        CourseTermOffering::Discretion,
        CourseTermOffering::Discretion,
        CourseTermOffering::Spring,
        CourseTermOffering::Both,
        CourseTermOffering::Both,
        CourseTermOffering::Both,
        CourseTermOffering::Discretion,
        CourseTermOffering::Discretion,
        CourseTermOffering::Both,
        CourseTermOffering::Both,
        CourseTermOffering::Both,
        CourseTermOffering::Discretion,
        CourseTermOffering::Discretion,
        CourseTermOffering::Discretion,
        CourseTermOffering::Discretion,
        CourseTermOffering::Spring,
        CourseTermOffering::Discretion,
        CourseTermOffering::Discretion,
        CourseTermOffering::Both,
        CourseTermOffering::Discretion,
        CourseTermOffering::Both,
        CourseTermOffering::Discretion,
        CourseTermOffering::Discretion,
        CourseTermOffering::Fall,
        CourseTermOffering::Spring,
        CourseTermOffering::Discretion,
        CourseTermOffering::Fall,
        CourseTermOffering::Both,
        CourseTermOffering::Discretion,
        CourseTermOffering::Discretion,
        CourseTermOffering::Discretion,
        CourseTermOffering::Both,
        CourseTermOffering::Fall,
        CourseTermOffering::Spring,
        CourseTermOffering::Both,
        CourseTermOffering::Discretion,
        CourseTermOffering::Discretion,
        CourseTermOffering::Discretion,
        CourseTermOffering::Both,
        CourseTermOffering::Both,
        CourseTermOffering::Spring,
        CourseTermOffering::Discretion,
        CourseTermOffering::Discretion,
        CourseTermOffering::Discretion,
        CourseTermOffering::Spring,
        CourseTermOffering::Fall,
        CourseTermOffering::Spring,
        CourseTermOffering::Fall,
        CourseTermOffering::Fall,
    ]
}

/// Each course of the catalogue is offered in the term listed for it.
pub proof fn law_term_offerings()
    ensures
        catalog_table().len() == listed_offerings().len(),
        forall|i: int| 0 <= i < catalog_table().len() ==> #[trigger] catalog_table()[i].1.2 == listed_offerings()[i],
{
}

} // verus!
