# course_catalog

Course catalogue data for degree planning, written in Verus.

- `src/schedule.rs` — course codes, term offerings, programs.
- `src/prereqs.rs` — prerequisite rules (`CourseReq`) and their values.
- `src/geneds.rs` — general-education requirements.
- `src/course_map.rs` — `CourseMap`, a map keyed by course code, and the laws
  of building a map from a list of pairs (the last pair of a course wins; a
  later list overrides an earlier one).
- `src/resources/` — the tables: the catalogue (`courses`), recorded credit
  hours (`credits`), the prerequisite rules of each subject and their merged
  map (`course_reqs`), the general-education requirements, and samples.
  Each table function is proved to return exactly the table stated in its
  specification.
- `app/` — the tables as `HashMap`s, statics built on first use, and the
  post-build step that runs the Python scraper.
