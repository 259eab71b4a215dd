//! The catalogue tables.

pub mod course_reqs;
pub mod courses;
pub mod credits;
pub mod example_prereqs;
pub mod example_program;
pub mod general_education;
