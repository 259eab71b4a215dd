//! Course catalogue data for degree planning: the courses offered, their
//! credit hours and term offerings, the prerequisite rules of each subject,
//! and the general-education requirements, together with the map type that
//! holds them and the laws that govern how tables are merged.

pub mod course_map;
pub mod geneds;
pub mod prereqs;
pub mod resources;
pub mod schedule;
