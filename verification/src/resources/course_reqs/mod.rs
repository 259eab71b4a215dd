//! Prerequisite rules by subject, and the rules of the merged subjects
//! gathered into one map.

use vstd::prelude::*;
use crate::course_map::{CourseMap, law_concat_overrides, lemma_pairs_to_map_domain, pairs_to_map};
use crate::prereqs::{CourseReq, ReqView};
use crate::schedule::{CourseCode, CourseCodeView, stems_within};

pub mod stem_acct;
pub mod stem_arch;
pub mod stem_art;
pub mod stem_astr;
pub mod stem_athc;
pub mod stem_biol;
pub mod stem_busi;
pub mod stem_ceng;
pub mod stem_chem;
pub mod stem_civl;
pub mod stem_crim;
pub mod stem_csci;
pub mod stem_danc;
pub mod stem_econ;
pub mod stem_eeng;
pub mod stem_engl;
pub mod stem_engr;
pub mod stem_entr;
pub mod stem_eslg;
pub mod stem_evca;
pub mod stem_exsc;
pub mod stem_finc;
pub mod stem_fren;
pub mod stem_grbk;
pub mod stem_grek;
pub mod stem_jour;
pub mod stem_latn;
pub mod stem_math;
pub mod stem_mcom;
pub mod stem_meng;
pub mod stem_mgmt;
pub mod stem_mils;
pub mod stem_mktg;
pub mod stem_psyc;
pub mod stem_soci;
pub mod stem_span;
pub mod stem_theo;
pub mod stem_thtr;

verus! {

/// The first `n` tables of `tables` laid end to end, in order.
pub open spec fn flatten_upto<W>(tables: Seq<Seq<(CourseCodeView, W)>>, n: nat) -> Seq<(CourseCodeView, W)>
    decreases n,
{
    if n == 0 {
        Seq::empty()
    } else {
        flatten_upto(tables, (n - 1) as nat) + tables[n - 1]
    }
}

/// The union of the first `n` sets of `sets`.
pub open spec fn union_upto(sets: Seq<Set<Seq<char>>>, n: nat) -> Set<Seq<char>>
    decreases n,
{
    if n == 0 {
        Set::empty()
    } else {
        union_upto(sets, (n - 1) as nat).union(sets[n - 1])
    }
}

/// The tables of the merged subjects, in the order in which they are merged.
pub open spec fn merged_tables() -> Seq<Seq<(CourseCodeView, ReqView)>> {
    seq![
        stem_acct::prereq_table(),
        stem_arch::prereq_table(),
        stem_art::prereq_table(),
        stem_astr::prereq_table(),
        stem_athc::prereq_table(),
        stem_biol::prereq_table(),
        stem_busi::prereq_table(),
        stem_ceng::prereq_table(),
        stem_chem::prereq_table(),
        stem_civl::prereq_table(),
        stem_crim::prereq_table(),
        stem_csci::prereq_table(),
        stem_danc::prereq_table(),
        stem_econ::prereq_table(),
        stem_eeng::prereq_table(),
        stem_engl::prereq_table(),
        stem_engr::prereq_table(),
        stem_entr::prereq_table(),
        stem_eslg::prereq_table(),
        stem_evca::prereq_table(),
        stem_exsc::prereq_table(),
        stem_finc::prereq_table(),
        stem_fren::prereq_table(),
        stem_grbk::prereq_table(),
    ]
}

/// The tables of the merged subjects, laid end to end in the order in which
/// they are merged.
pub open spec fn merged_table() -> Seq<(CourseCodeView, ReqView)> {
    flatten_upto(merged_tables(), 24)
}

/// The stems of the courses of the merged subjects, subject by subject in the
/// order in which they are merged.
pub open spec fn merged_stem_sets() -> Seq<Set<Seq<char>>> {
    seq![
        set!["ACCT"@],
        set!["ARCH"@, "stem ARCH"@],
        set!["ART"@],
        set!["ASTR"@],
        set!["ATHC"@],
        set!["BIOL"@],
        set!["BUSI"@],
        set!["CENG"@],
        set!["CHEM"@],
        set!["CIVL"@],
        set!["CRIM"@],
        set!["CSCI"@],
        set!["DANC"@],
        set!["ECON"@],
        set!["EENG"@],
        set!["ENGL"@],
        set!["ENGR"@],
        set!["ENTR"@],
        set!["ESLG"@],
        set!["EVCA"@],
        set!["EXSC"@],
        set!["FINC"@],
        set!["FREN"@],
        set!["GRBK"@],
    ]
}

/// The stems of the merged subjects: ACCT, ARCH (whose table also lists three
/// courses under the stem "stem ARCH"), ART, ASTR, ATHC, BIOL, BUSI, CENG,
/// CHEM, CIVL, CRIM, CSCI, DANC, ECON, EENG, ENGL, ENGR, ENTR, ESLG, EVCA,
/// EXSC, FINC, FREN and GRBK.
pub open spec fn merged_stems() -> Set<Seq<char>> {
    set!["ACCT"@, "ARCH"@, "stem ARCH"@, "ART"@, "ASTR"@, "ATHC"@, "BIOL"@, "BUSI"@, "CENG"@, "CHEM"@, "CIVL"@, "CRIM"@, "CSCI"@, "DANC"@, "ECON"@, "EENG"@, "ENGL"@, "ENGR"@, "ENTR"@, "ESLG"@, "EVCA"@, "EXSC"@, "FINC"@, "FREN"@, "GRBK"@]
}

/// The place, in the merge order, of the subject that a stem belongs to.
pub open spec fn merged_subject_of(s: Seq<char>) -> int {
    if s == "ACCT"@ {
        0
    } else     if s == "ARCH"@ || s == "stem ARCH"@ {
        1
    } else     if s == "ART"@ {
        2
    } else     if s == "ASTR"@ {
        3
    } else     if s == "ATHC"@ {
        4
    } else     if s == "BIOL"@ {
        5
    } else     if s == "BUSI"@ {
        6
    } else     if s == "CENG"@ {
        7
    } else     if s == "CHEM"@ {
        8
    } else     if s == "CIVL"@ {
        9
    } else     if s == "CRIM"@ {
        10
    } else     if s == "CSCI"@ {
        11
    } else     if s == "DANC"@ {
        12
    } else     if s == "ECON"@ {
        13
    } else     if s == "EENG"@ {
        14
    } else     if s == "ENGL"@ {
        15
    } else     if s == "ENGR"@ {
        16
    } else     if s == "ENTR"@ {
        17
    } else     if s == "ESLG"@ {
        18
    } else     if s == "EVCA"@ {
        19
    } else     if s == "EXSC"@ {
        20
    } else     if s == "FINC"@ {
        21
    } else     if s == "FREN"@ {
        22
    } else     if s == "GRBK"@ {
        23
    } else {
        -1
    }
}

/// Laying `b` after `a`, where no stem of `a` is a stem of `b`, keeps every
/// course of `a` with its value, and gives every course of `b` its value in `b`.
proof fn lemma_extend<W>(
    a: Seq<(CourseCodeView, W)>,
    b: Seq<(CourseCodeView, W)>,
    sa: Set<Seq<char>>,
    sb: Set<Seq<char>>,
)
    requires
        stems_within(a, sa),
        stems_within(b, sb),
        sa.disjoint(sb),
    ensures
        stems_within(a + b, sa.union(sb)),
        pairs_to_map(a).submap_of(pairs_to_map(a + b)),
        pairs_to_map(b).submap_of(pairs_to_map(a + b)),
{
    law_concat_overrides(a, b);
    assert forall|i: int| 0 <= i < (a + b).len() implies sa.union(sb).contains(
        #[trigger] (a + b)[i].0.stem,
    ) by {
        if i < a.len() {
            assert((a + b)[i] == a[i]);
        } else {
            assert((a + b)[i] == b[i - a.len()]);
        }
    }
    assert forall|k: CourseCodeView| #[trigger] pairs_to_map(a).dom().contains(k) implies pairs_to_map(
        a + b,
    ).dom().contains(k) && pairs_to_map(a + b)[k] == pairs_to_map(a)[k] by {
        lemma_pairs_to_map_domain(a, k);
        lemma_pairs_to_map_domain(b, k);
        let i = choose|i: int| 0 <= i < a.len() && a[i].0 == k;
        assert(sa.contains(a[i].0.stem));
        if pairs_to_map(b).dom().contains(k) {
            let j = choose|j: int| 0 <= j < b.len() && b[j].0 == k;
            assert(sb.contains(b[j].0.stem));
        }
    }
}

/// Laying the first `n` tables end to end, where each stem belongs to one
/// table only (the one `owner` names), keeps every course of every table with
/// the value its own table gives it.
proof fn lemma_merge_upto<W>(
    tables: Seq<Seq<(CourseCodeView, W)>>,
    stems: Seq<Set<Seq<char>>>,
    owner: spec_fn(Seq<char>) -> int,
    n: nat,
)
    requires
        n <= tables.len(),
        tables.len() == stems.len(),
        forall|i: int| 0 <= i < tables.len() ==> stems_within(#[trigger] tables[i], stems[i]),
        forall|i: int, x: Seq<char>|
            0 <= i < stems.len() && #[trigger] stems[i].contains(x) ==> owner(x) == i,
    ensures
        stems_within(flatten_upto(tables, n), union_upto(stems, n)),
        forall|i: int|
            0 <= i < n ==> #[trigger] pairs_to_map(tables[i]).submap_of(
                pairs_to_map(flatten_upto(tables, n)),
            ),
        forall|x: Seq<char>| #[trigger] union_upto(stems, n).contains(x) ==> 0 <= owner(x) < n,
    decreases n,
{
    if n > 0 {
        let m = (n - 1) as nat;
        lemma_merge_upto(tables, stems, owner, m);
        assert(flatten_upto(tables, n) == flatten_upto(tables, m) + tables[m as int]);
        assert(union_upto(stems, m).disjoint(stems[m as int]));
        lemma_extend(flatten_upto(tables, m), tables[m as int], union_upto(stems, m), stems[m as int]);
        assert forall|i: int| 0 <= i < n implies #[trigger] pairs_to_map(tables[i]).submap_of(
            pairs_to_map(flatten_upto(tables, n)),
        ) by {
            if i < m {
                let m0 = pairs_to_map(tables[i]);
                let m1 = pairs_to_map(flatten_upto(tables, m));
                let m2 = pairs_to_map(flatten_upto(tables, n));
                assert(m0.submap_of(m1));
                assert(m1.submap_of(m2));
                vstd::map_lib::lemma_submap_of_trans(m0, m1, m2);
            }
        }
    }
}

/// Each merged table lists only courses of its own stems.
proof fn lemma_merged_tables_keyed()
    ensures
        forall|i: int|
            0 <= i < merged_tables().len() ==> stems_within(
                #[trigger] merged_tables()[i],
                merged_stem_sets()[i],
            ),
{
    stem_acct::law_keyed_by_subject();
    stem_arch::law_keyed_by_subject();
    stem_art::law_keyed_by_subject();
    stem_astr::law_keyed_by_subject();
    stem_athc::law_keyed_by_subject();
    stem_biol::law_keyed_by_subject();
    stem_busi::law_keyed_by_subject();
    stem_ceng::law_keyed_by_subject();
    stem_chem::law_keyed_by_subject();
    stem_civl::law_keyed_by_subject();
    stem_crim::law_keyed_by_subject();
    stem_csci::law_keyed_by_subject();
    stem_danc::law_keyed_by_subject();
    stem_econ::law_keyed_by_subject();
    stem_eeng::law_keyed_by_subject();
    stem_engl::law_keyed_by_subject();
    stem_engr::law_keyed_by_subject();
    stem_entr::law_keyed_by_subject();
    stem_eslg::law_keyed_by_subject();
    stem_evca::law_keyed_by_subject();
    stem_exsc::law_keyed_by_subject();
    stem_finc::law_keyed_by_subject();
    stem_fren::law_keyed_by_subject();
    stem_grbk::law_keyed_by_subject();
    assert forall|i: int| 0 <= i < merged_tables().len() implies stems_within(
        #[trigger] merged_tables()[i],
        merged_stem_sets()[i],
    ) by {
    }
}

/// Each stem of a merged subject belongs to that subject alone.
proof fn lemma_merged_stems_owned()
    ensures
        forall|i: int, x: Seq<char>|
            0 <= i < merged_stem_sets().len() && #[trigger] merged_stem_sets()[i].contains(x)
                ==> merged_subject_of(x) == i,
{
    reveal_strlit("ACCT");
    reveal_strlit("ARCH");
    reveal_strlit("stem ARCH");
    reveal_strlit("ART");
    reveal_strlit("ASTR");
    reveal_strlit("ATHC");
    reveal_strlit("BIOL");
    reveal_strlit("BUSI");
    reveal_strlit("CENG");
    reveal_strlit("CHEM");
    reveal_strlit("CIVL");
    reveal_strlit("CRIM");
    reveal_strlit("CSCI");
    reveal_strlit("DANC");
    reveal_strlit("ECON");
    reveal_strlit("EENG");
    reveal_strlit("ENGL");
    reveal_strlit("ENGR");
    reveal_strlit("ENTR");
    reveal_strlit("ESLG");
    reveal_strlit("EVCA");
    reveal_strlit("EXSC");
    reveal_strlit("FINC");
    reveal_strlit("FREN");
    reveal_strlit("GRBK");
    assert("ACCT"@[1] != "ARCH"@[1]);
    assert("ACCT"@.len() != "stem ARCH"@.len());
    assert("ACCT"@.len() != "ART"@.len());
    assert("ACCT"@[1] != "ASTR"@[1]);
    assert("ACCT"@[1] != "ATHC"@[1]);
    assert("ACCT"@[0] != "BIOL"@[0]);
    assert("ACCT"@[0] != "BUSI"@[0]);
    assert("ACCT"@[0] != "CENG"@[0]);
    assert("ACCT"@[0] != "CHEM"@[0]);
    assert("ACCT"@[0] != "CIVL"@[0]);
    assert("ACCT"@[0] != "CRIM"@[0]);
    assert("ACCT"@[0] != "CSCI"@[0]);
    assert("ACCT"@[0] != "DANC"@[0]);
    assert("ACCT"@[0] != "ECON"@[0]);
    assert("ACCT"@[0] != "EENG"@[0]);
    assert("ACCT"@[0] != "ENGL"@[0]);
    assert("ACCT"@[0] != "ENGR"@[0]);
    assert("ACCT"@[0] != "ENTR"@[0]);
    assert("ACCT"@[0] != "ESLG"@[0]);
    assert("ACCT"@[0] != "EVCA"@[0]);
    assert("ACCT"@[0] != "EXSC"@[0]);
    assert("ACCT"@[0] != "FINC"@[0]);
    assert("ACCT"@[0] != "FREN"@[0]);
    assert("ACCT"@[0] != "GRBK"@[0]);
    assert("ARCH"@.len() != "stem ARCH"@.len());
    assert("ARCH"@.len() != "ART"@.len());
    assert("ARCH"@[1] != "ASTR"@[1]);
    assert("ARCH"@[1] != "ATHC"@[1]);
    assert("ARCH"@[0] != "BIOL"@[0]);
    assert("ARCH"@[0] != "BUSI"@[0]);
    assert("ARCH"@[0] != "CENG"@[0]);
    assert("ARCH"@[0] != "CHEM"@[0]);
    assert("ARCH"@[0] != "CIVL"@[0]);
    assert("ARCH"@[0] != "CRIM"@[0]);
    assert("ARCH"@[0] != "CSCI"@[0]);
    assert("ARCH"@[0] != "DANC"@[0]);
    assert("ARCH"@[0] != "ECON"@[0]);
    assert("ARCH"@[0] != "EENG"@[0]);
    assert("ARCH"@[0] != "ENGL"@[0]);
    assert("ARCH"@[0] != "ENGR"@[0]);
    assert("ARCH"@[0] != "ENTR"@[0]);
    assert("ARCH"@[0] != "ESLG"@[0]);
    assert("ARCH"@[0] != "EVCA"@[0]);
    assert("ARCH"@[0] != "EXSC"@[0]);
    assert("ARCH"@[0] != "FINC"@[0]);
    assert("ARCH"@[0] != "FREN"@[0]);
    assert("ARCH"@[0] != "GRBK"@[0]);
    assert("stem ARCH"@.len() != "ART"@.len());
    assert("stem ARCH"@.len() != "ASTR"@.len());
    assert("stem ARCH"@.len() != "ATHC"@.len());
    assert("stem ARCH"@.len() != "BIOL"@.len());
    assert("stem ARCH"@.len() != "BUSI"@.len());
    assert("stem ARCH"@.len() != "CENG"@.len());
    assert("stem ARCH"@.len() != "CHEM"@.len());
    assert("stem ARCH"@.len() != "CIVL"@.len());
    assert("stem ARCH"@.len() != "CRIM"@.len());
    assert("stem ARCH"@.len() != "CSCI"@.len());
    assert("stem ARCH"@.len() != "DANC"@.len());
    assert("stem ARCH"@.len() != "ECON"@.len());
    assert("stem ARCH"@.len() != "EENG"@.len());
    assert("stem ARCH"@.len() != "ENGL"@.len());
    assert("stem ARCH"@.len() != "ENGR"@.len());
    assert("stem ARCH"@.len() != "ENTR"@.len());
    assert("stem ARCH"@.len() != "ESLG"@.len());
    assert("stem ARCH"@.len() != "EVCA"@.len());
    assert("stem ARCH"@.len() != "EXSC"@.len());
    assert("stem ARCH"@.len() != "FINC"@.len());
    assert("stem ARCH"@.len() != "FREN"@.len());
    assert("stem ARCH"@.len() != "GRBK"@.len());
    assert("ART"@.len() != "ASTR"@.len());
    assert("ART"@.len() != "ATHC"@.len());
    assert("ART"@.len() != "BIOL"@.len());
    assert("ART"@.len() != "BUSI"@.len());
    assert("ART"@.len() != "CENG"@.len());
    assert("ART"@.len() != "CHEM"@.len());
    assert("ART"@.len() != "CIVL"@.len());
    assert("ART"@.len() != "CRIM"@.len());
    assert("ART"@.len() != "CSCI"@.len());
    assert("ART"@.len() != "DANC"@.len());
    assert("ART"@.len() != "ECON"@.len());
    assert("ART"@.len() != "EENG"@.len());
    assert("ART"@.len() != "ENGL"@.len());
    assert("ART"@.len() != "ENGR"@.len());
    assert("ART"@.len() != "ENTR"@.len());
    assert("ART"@.len() != "ESLG"@.len());
    assert("ART"@.len() != "EVCA"@.len());
    assert("ART"@.len() != "EXSC"@.len());
    assert("ART"@.len() != "FINC"@.len());
    assert("ART"@.len() != "FREN"@.len());
    assert("ART"@.len() != "GRBK"@.len());
    assert("ASTR"@[1] != "ATHC"@[1]);
    assert("ASTR"@[0] != "BIOL"@[0]);
    assert("ASTR"@[0] != "BUSI"@[0]);
    assert("ASTR"@[0] != "CENG"@[0]);
    assert("ASTR"@[0] != "CHEM"@[0]);
    assert("ASTR"@[0] != "CIVL"@[0]);
    assert("ASTR"@[0] != "CRIM"@[0]);
    assert("ASTR"@[0] != "CSCI"@[0]);
    assert("ASTR"@[0] != "DANC"@[0]);
    assert("ASTR"@[0] != "ECON"@[0]);
    assert("ASTR"@[0] != "EENG"@[0]);
    assert("ASTR"@[0] != "ENGL"@[0]);
    assert("ASTR"@[0] != "ENGR"@[0]);
    assert("ASTR"@[0] != "ENTR"@[0]);
    assert("ASTR"@[0] != "ESLG"@[0]);
    assert("ASTR"@[0] != "EVCA"@[0]);
    assert("ASTR"@[0] != "EXSC"@[0]);
    assert("ASTR"@[0] != "FINC"@[0]);
    assert("ASTR"@[0] != "FREN"@[0]);
    assert("ASTR"@[0] != "GRBK"@[0]);
    assert("ATHC"@[0] != "BIOL"@[0]);
    assert("ATHC"@[0] != "BUSI"@[0]);
    assert("ATHC"@[0] != "CENG"@[0]);
    assert("ATHC"@[0] != "CHEM"@[0]);
    assert("ATHC"@[0] != "CIVL"@[0]);
    assert("ATHC"@[0] != "CRIM"@[0]);
    assert("ATHC"@[0] != "CSCI"@[0]);
    assert("ATHC"@[0] != "DANC"@[0]);
    assert("ATHC"@[0] != "ECON"@[0]);
    assert("ATHC"@[0] != "EENG"@[0]);
    assert("ATHC"@[0] != "ENGL"@[0]);
    assert("ATHC"@[0] != "ENGR"@[0]);
    assert("ATHC"@[0] != "ENTR"@[0]);
    assert("ATHC"@[0] != "ESLG"@[0]);
    assert("ATHC"@[0] != "EVCA"@[0]);
    assert("ATHC"@[0] != "EXSC"@[0]);
    assert("ATHC"@[0] != "FINC"@[0]);
    assert("ATHC"@[0] != "FREN"@[0]);
    assert("ATHC"@[0] != "GRBK"@[0]);
    assert("BIOL"@[1] != "BUSI"@[1]);
    assert("BIOL"@[0] != "CENG"@[0]);
    assert("BIOL"@[0] != "CHEM"@[0]);
    assert("BIOL"@[0] != "CIVL"@[0]);
    assert("BIOL"@[0] != "CRIM"@[0]);
    assert("BIOL"@[0] != "CSCI"@[0]);
    assert("BIOL"@[0] != "DANC"@[0]);
    assert("BIOL"@[0] != "ECON"@[0]);
    assert("BIOL"@[0] != "EENG"@[0]);
    assert("BIOL"@[0] != "ENGL"@[0]);
    assert("BIOL"@[0] != "ENGR"@[0]);
    assert("BIOL"@[0] != "ENTR"@[0]);
    assert("BIOL"@[0] != "ESLG"@[0]);
    assert("BIOL"@[0] != "EVCA"@[0]);
    assert("BIOL"@[0] != "EXSC"@[0]);
    assert("BIOL"@[0] != "FINC"@[0]);
    assert("BIOL"@[0] != "FREN"@[0]);
    assert("BIOL"@[0] != "GRBK"@[0]);
    assert("BUSI"@[0] != "CENG"@[0]);
    assert("BUSI"@[0] != "CHEM"@[0]);
    assert("BUSI"@[0] != "CIVL"@[0]);
    assert("BUSI"@[0] != "CRIM"@[0]);
    assert("BUSI"@[0] != "CSCI"@[0]);
    assert("BUSI"@[0] != "DANC"@[0]);
    assert("BUSI"@[0] != "ECON"@[0]);
    assert("BUSI"@[0] != "EENG"@[0]);
    assert("BUSI"@[0] != "ENGL"@[0]);
    assert("BUSI"@[0] != "ENGR"@[0]);
    assert("BUSI"@[0] != "ENTR"@[0]);
    assert("BUSI"@[0] != "ESLG"@[0]);
    assert("BUSI"@[0] != "EVCA"@[0]);
    assert("BUSI"@[0] != "EXSC"@[0]);
    assert("BUSI"@[0] != "FINC"@[0]);
    assert("BUSI"@[0] != "FREN"@[0]);
    assert("BUSI"@[0] != "GRBK"@[0]);
    assert("CENG"@[1] != "CHEM"@[1]);
    assert("CENG"@[1] != "CIVL"@[1]);
    assert("CENG"@[1] != "CRIM"@[1]);
    assert("CENG"@[1] != "CSCI"@[1]);
    assert("CENG"@[0] != "DANC"@[0]);
    assert("CENG"@[0] != "ECON"@[0]);
    assert("CENG"@[0] != "EENG"@[0]);
    assert("CENG"@[0] != "ENGL"@[0]);
    assert("CENG"@[0] != "ENGR"@[0]);
    assert("CENG"@[0] != "ENTR"@[0]);
    assert("CENG"@[0] != "ESLG"@[0]);
    assert("CENG"@[0] != "EVCA"@[0]);
    assert("CENG"@[0] != "EXSC"@[0]);
    assert("CENG"@[0] != "FINC"@[0]);
    assert("CENG"@[0] != "FREN"@[0]);
    assert("CENG"@[0] != "GRBK"@[0]);
    assert("CHEM"@[1] != "CIVL"@[1]);
    assert("CHEM"@[1] != "CRIM"@[1]);
    assert("CHEM"@[1] != "CSCI"@[1]);
    assert("CHEM"@[0] != "DANC"@[0]);
    assert("CHEM"@[0] != "ECON"@[0]);
    assert("CHEM"@[0] != "EENG"@[0]);
    assert("CHEM"@[0] != "ENGL"@[0]);
    assert("CHEM"@[0] != "ENGR"@[0]);
    assert("CHEM"@[0] != "ENTR"@[0]);
    assert("CHEM"@[0] != "ESLG"@[0]);
    assert("CHEM"@[0] != "EVCA"@[0]);
    assert("CHEM"@[0] != "EXSC"@[0]);
    assert("CHEM"@[0] != "FINC"@[0]);
    assert("CHEM"@[0] != "FREN"@[0]);
    assert("CHEM"@[0] != "GRBK"@[0]);
    assert("CIVL"@[1] != "CRIM"@[1]);
    assert("CIVL"@[1] != "CSCI"@[1]);
    assert("CIVL"@[0] != "DANC"@[0]);
    assert("CIVL"@[0] != "ECON"@[0]);
    assert("CIVL"@[0] != "EENG"@[0]);
    assert("CIVL"@[0] != "ENGL"@[0]);
    assert("CIVL"@[0] != "ENGR"@[0]);
    assert("CIVL"@[0] != "ENTR"@[0]);
    assert("CIVL"@[0] != "ESLG"@[0]);
    assert("CIVL"@[0] != "EVCA"@[0]);
    assert("CIVL"@[0] != "EXSC"@[0]);
    assert("CIVL"@[0] != "FINC"@[0]);
    assert("CIVL"@[0] != "FREN"@[0]);
    assert("CIVL"@[0] != "GRBK"@[0]);
    assert("CRIM"@[1] != "CSCI"@[1]);
    assert("CRIM"@[0] != "DANC"@[0]);
    assert("CRIM"@[0] != "ECON"@[0]);
    assert("CRIM"@[0] != "EENG"@[0]);
    assert("CRIM"@[0] != "ENGL"@[0]);
    assert("CRIM"@[0] != "ENGR"@[0]);
    assert("CRIM"@[0] != "ENTR"@[0]);
    assert("CRIM"@[0] != "ESLG"@[0]);
    assert("CRIM"@[0] != "EVCA"@[0]);
    assert("CRIM"@[0] != "EXSC"@[0]);
    assert("CRIM"@[0] != "FINC"@[0]);
    assert("CRIM"@[0] != "FREN"@[0]);
    assert("CRIM"@[0] != "GRBK"@[0]);
    assert("CSCI"@[0] != "DANC"@[0]);
    assert("CSCI"@[0] != "ECON"@[0]);
    assert("CSCI"@[0] != "EENG"@[0]);
    assert("CSCI"@[0] != "ENGL"@[0]);
    assert("CSCI"@[0] != "ENGR"@[0]);
    assert("CSCI"@[0] != "ENTR"@[0]);
    assert("CSCI"@[0] != "ESLG"@[0]);
    assert("CSCI"@[0] != "EVCA"@[0]);
    assert("CSCI"@[0] != "EXSC"@[0]);
    assert("CSCI"@[0] != "FINC"@[0]);
    assert("CSCI"@[0] != "FREN"@[0]);
    assert("CSCI"@[0] != "GRBK"@[0]);
    assert("DANC"@[0] != "ECON"@[0]);
    assert("DANC"@[0] != "EENG"@[0]);
    assert("DANC"@[0] != "ENGL"@[0]);
    assert("DANC"@[0] != "ENGR"@[0]);
    assert("DANC"@[0] != "ENTR"@[0]);
    assert("DANC"@[0] != "ESLG"@[0]);
    assert("DANC"@[0] != "EVCA"@[0]);
    assert("DANC"@[0] != "EXSC"@[0]);
    assert("DANC"@[0] != "FINC"@[0]);
    assert("DANC"@[0] != "FREN"@[0]);
    assert("DANC"@[0] != "GRBK"@[0]);
    assert("ECON"@[1] != "EENG"@[1]);
    assert("ECON"@[1] != "ENGL"@[1]);
    assert("ECON"@[1] != "ENGR"@[1]);
    assert("ECON"@[1] != "ENTR"@[1]);
    assert("ECON"@[1] != "ESLG"@[1]);
    assert("ECON"@[1] != "EVCA"@[1]);
    assert("ECON"@[1] != "EXSC"@[1]);
    assert("ECON"@[0] != "FINC"@[0]);
    assert("ECON"@[0] != "FREN"@[0]);
    assert("ECON"@[0] != "GRBK"@[0]);
    assert("EENG"@[1] != "ENGL"@[1]);
    assert("EENG"@[1] != "ENGR"@[1]);
    assert("EENG"@[1] != "ENTR"@[1]);
    assert("EENG"@[1] != "ESLG"@[1]);
    assert("EENG"@[1] != "EVCA"@[1]);
    assert("EENG"@[1] != "EXSC"@[1]);
    assert("EENG"@[0] != "FINC"@[0]);
    assert("EENG"@[0] != "FREN"@[0]);
    assert("EENG"@[0] != "GRBK"@[0]);
    assert("ENGL"@[3] != "ENGR"@[3]);
    assert("ENGL"@[2] != "ENTR"@[2]);
    assert("ENGL"@[1] != "ESLG"@[1]);
    assert("ENGL"@[1] != "EVCA"@[1]);
    assert("ENGL"@[1] != "EXSC"@[1]);
    assert("ENGL"@[0] != "FINC"@[0]);
    assert("ENGL"@[0] != "FREN"@[0]);
    assert("ENGL"@[0] != "GRBK"@[0]);
    assert("ENGR"@[2] != "ENTR"@[2]);
    assert("ENGR"@[1] != "ESLG"@[1]);
    assert("ENGR"@[1] != "EVCA"@[1]);
    assert("ENGR"@[1] != "EXSC"@[1]);
    assert("ENGR"@[0] != "FINC"@[0]);
    assert("ENGR"@[0] != "FREN"@[0]);
    assert("ENGR"@[0] != "GRBK"@[0]);
    assert("ENTR"@[1] != "ESLG"@[1]);
    assert("ENTR"@[1] != "EVCA"@[1]);
    assert("ENTR"@[1] != "EXSC"@[1]);
    assert("ENTR"@[0] != "FINC"@[0]);
    assert("ENTR"@[0] != "FREN"@[0]);
    assert("ENTR"@[0] != "GRBK"@[0]);
    assert("ESLG"@[1] != "EVCA"@[1]);
    assert("ESLG"@[1] != "EXSC"@[1]);
    assert("ESLG"@[0] != "FINC"@[0]);
    assert("ESLG"@[0] != "FREN"@[0]);
    assert("ESLG"@[0] != "GRBK"@[0]);
    assert("EVCA"@[1] != "EXSC"@[1]);
    assert("EVCA"@[0] != "FINC"@[0]);
    assert("EVCA"@[0] != "FREN"@[0]);
    assert("EVCA"@[0] != "GRBK"@[0]);
    assert("EXSC"@[0] != "FINC"@[0]);
    assert("EXSC"@[0] != "FREN"@[0]);
    assert("EXSC"@[0] != "GRBK"@[0]);
    assert("FINC"@[1] != "FREN"@[1]);
    assert("FINC"@[0] != "GRBK"@[0]);
    assert("FREN"@[0] != "GRBK"@[0]);
}

/// The merged table is the merged subjects' tables laid end to end.
pub proof fn lemma_merged_table_unfolds()
    ensures
        merged_table() == Seq::<(CourseCodeView, ReqView)>::empty()
        + stem_acct::prereq_table()
        + stem_arch::prereq_table()
        + stem_art::prereq_table()
        + stem_astr::prereq_table()
        + stem_athc::prereq_table()
        + stem_biol::prereq_table()
        + stem_busi::prereq_table()
        + stem_ceng::prereq_table()
        + stem_chem::prereq_table()
        + stem_civl::prereq_table()
        + stem_crim::prereq_table()
        + stem_csci::prereq_table()
        + stem_danc::prereq_table()
        + stem_econ::prereq_table()
        + stem_eeng::prereq_table()
        + stem_engl::prereq_table()
        + stem_engr::prereq_table()
        + stem_entr::prereq_table()
        + stem_eslg::prereq_table()
        + stem_evca::prereq_table()
        + stem_exsc::prereq_table()
        + stem_finc::prereq_table()
        + stem_fren::prereq_table()
        + stem_grbk::prereq_table(),
{
    reveal_with_fuel(flatten_upto, 25);
}

/// The merged map holds the courses of the merged subjects and no others:
/// every course of a merged subject's table is in it with the rule that its
/// own table gives it last, and every course in it is of a merged subject.
pub proof fn law_merged_subjects()
    ensures
        forall|k: CourseCodeView|
            #[trigger] pairs_to_map(merged_table()).contains_key(k) ==> merged_stems().contains(k.stem),
        pairs_to_map(stem_acct::prereq_table()).submap_of(pairs_to_map(merged_table())),
        pairs_to_map(stem_arch::prereq_table()).submap_of(pairs_to_map(merged_table())),
        pairs_to_map(stem_art::prereq_table()).submap_of(pairs_to_map(merged_table())),
        pairs_to_map(stem_astr::prereq_table()).submap_of(pairs_to_map(merged_table())),
        pairs_to_map(stem_athc::prereq_table()).submap_of(pairs_to_map(merged_table())),
        pairs_to_map(stem_biol::prereq_table()).submap_of(pairs_to_map(merged_table())),
        pairs_to_map(stem_busi::prereq_table()).submap_of(pairs_to_map(merged_table())),
        pairs_to_map(stem_ceng::prereq_table()).submap_of(pairs_to_map(merged_table())),
        pairs_to_map(stem_chem::prereq_table()).submap_of(pairs_to_map(merged_table())),
        pairs_to_map(stem_civl::prereq_table()).submap_of(pairs_to_map(merged_table())),
        pairs_to_map(stem_crim::prereq_table()).submap_of(pairs_to_map(merged_table())),
        pairs_to_map(stem_csci::prereq_table()).submap_of(pairs_to_map(merged_table())),
        pairs_to_map(stem_danc::prereq_table()).submap_of(pairs_to_map(merged_table())),
        pairs_to_map(stem_econ::prereq_table()).submap_of(pairs_to_map(merged_table())),
        pairs_to_map(stem_eeng::prereq_table()).submap_of(pairs_to_map(merged_table())),
        pairs_to_map(stem_engl::prereq_table()).submap_of(pairs_to_map(merged_table())),
        pairs_to_map(stem_engr::prereq_table()).submap_of(pairs_to_map(merged_table())),
        pairs_to_map(stem_entr::prereq_table()).submap_of(pairs_to_map(merged_table())),
        pairs_to_map(stem_eslg::prereq_table()).submap_of(pairs_to_map(merged_table())),
        pairs_to_map(stem_evca::prereq_table()).submap_of(pairs_to_map(merged_table())),
        pairs_to_map(stem_exsc::prereq_table()).submap_of(pairs_to_map(merged_table())),
        pairs_to_map(stem_finc::prereq_table()).submap_of(pairs_to_map(merged_table())),
        pairs_to_map(stem_fren::prereq_table()).submap_of(pairs_to_map(merged_table())),
        pairs_to_map(stem_grbk::prereq_table()).submap_of(pairs_to_map(merged_table())),
{
    lemma_merged_tables_keyed();
    lemma_merged_stems_owned();
    lemma_merge_upto(merged_tables(), merged_stem_sets(), |s: Seq<char>| merged_subject_of(s), 24);
    assert(union_upto(merged_stem_sets(), 24) =~= merged_stems()) by {
        reveal_with_fuel(union_upto, 25);
    }
    assert(pairs_to_map(merged_tables()[0]).submap_of(pairs_to_map(merged_table())));
    assert(pairs_to_map(merged_tables()[1]).submap_of(pairs_to_map(merged_table())));
    assert(pairs_to_map(merged_tables()[2]).submap_of(pairs_to_map(merged_table())));
    assert(pairs_to_map(merged_tables()[3]).submap_of(pairs_to_map(merged_table())));
    assert(pairs_to_map(merged_tables()[4]).submap_of(pairs_to_map(merged_table())));
    assert(pairs_to_map(merged_tables()[5]).submap_of(pairs_to_map(merged_table())));
    assert(pairs_to_map(merged_tables()[6]).submap_of(pairs_to_map(merged_table())));
    assert(pairs_to_map(merged_tables()[7]).submap_of(pairs_to_map(merged_table())));
    assert(pairs_to_map(merged_tables()[8]).submap_of(pairs_to_map(merged_table())));
    assert(pairs_to_map(merged_tables()[9]).submap_of(pairs_to_map(merged_table())));
    assert(pairs_to_map(merged_tables()[10]).submap_of(pairs_to_map(merged_table())));
    assert(pairs_to_map(merged_tables()[11]).submap_of(pairs_to_map(merged_table())));
    assert(pairs_to_map(merged_tables()[12]).submap_of(pairs_to_map(merged_table())));
    assert(pairs_to_map(merged_tables()[13]).submap_of(pairs_to_map(merged_table())));
    assert(pairs_to_map(merged_tables()[14]).submap_of(pairs_to_map(merged_table())));
    assert(pairs_to_map(merged_tables()[15]).submap_of(pairs_to_map(merged_table())));
    assert(pairs_to_map(merged_tables()[16]).submap_of(pairs_to_map(merged_table())));
    assert(pairs_to_map(merged_tables()[17]).submap_of(pairs_to_map(merged_table())));
    assert(pairs_to_map(merged_tables()[18]).submap_of(pairs_to_map(merged_table())));
    assert(pairs_to_map(merged_tables()[19]).submap_of(pairs_to_map(merged_table())));
    assert(pairs_to_map(merged_tables()[20]).submap_of(pairs_to_map(merged_table())));
    assert(pairs_to_map(merged_tables()[21]).submap_of(pairs_to_map(merged_table())));
    assert(pairs_to_map(merged_tables()[22]).submap_of(pairs_to_map(merged_table())));
    assert(pairs_to_map(merged_tables()[23]).submap_of(pairs_to_map(merged_table())));
    assert forall|k: CourseCodeView| #[trigger] pairs_to_map(merged_table()).contains_key(k) implies merged_stems().contains(k.stem) by {
        lemma_pairs_to_map_domain(merged_table(), k);
        let i = choose|i: int| 0 <= i < merged_table().len() && merged_table()[i].0 == k;
        assert(union_upto(merged_stem_sets(), 24).contains(merged_table()[i].0.stem));
    }
}

/// Appends the pairs of `more` to `all`.
fn append_table(all: &mut Vec<(CourseCode, CourseReq)>, more: Vec<(CourseCode, CourseReq)>)
    ensures
        final(all).deep_view() == old(all).deep_view() + more.deep_view(),
{
    let mut more = more;
    let ghost added = more.deep_view();
    all.append(&mut more);
    assert(all.deep_view() =~= old(all).deep_view() + added);
}

/// The prerequisite rule of each course of the merged subjects. A course that
/// is listed more than once keeps the rule of its last listing.
pub fn prereqs() -> (rules: CourseMap<CourseReq>)
    ensures
        rules@ == pairs_to_map(merged_table()),
        forall|k: CourseCodeView| #[trigger] rules@.contains_key(k) ==> merged_stems().contains(k.stem),
        pairs_to_map(stem_acct::prereq_table()).submap_of(rules@),
        pairs_to_map(stem_arch::prereq_table()).submap_of(rules@),
        pairs_to_map(stem_art::prereq_table()).submap_of(rules@),
        pairs_to_map(stem_astr::prereq_table()).submap_of(rules@),
        pairs_to_map(stem_athc::prereq_table()).submap_of(rules@),
        pairs_to_map(stem_biol::prereq_table()).submap_of(rules@),
        pairs_to_map(stem_busi::prereq_table()).submap_of(rules@),
        pairs_to_map(stem_ceng::prereq_table()).submap_of(rules@),
        pairs_to_map(stem_chem::prereq_table()).submap_of(rules@),
        pairs_to_map(stem_civl::prereq_table()).submap_of(rules@),
        pairs_to_map(stem_crim::prereq_table()).submap_of(rules@),
        pairs_to_map(stem_csci::prereq_table()).submap_of(rules@),
        pairs_to_map(stem_danc::prereq_table()).submap_of(rules@),
        pairs_to_map(stem_econ::prereq_table()).submap_of(rules@),
        pairs_to_map(stem_eeng::prereq_table()).submap_of(rules@),
        pairs_to_map(stem_engl::prereq_table()).submap_of(rules@),
        pairs_to_map(stem_engr::prereq_table()).submap_of(rules@),
        pairs_to_map(stem_entr::prereq_table()).submap_of(rules@),
        pairs_to_map(stem_eslg::prereq_table()).submap_of(rules@),
        pairs_to_map(stem_evca::prereq_table()).submap_of(rules@),
        pairs_to_map(stem_exsc::prereq_table()).submap_of(rules@),
        pairs_to_map(stem_finc::prereq_table()).submap_of(rules@),
        pairs_to_map(stem_fren::prereq_table()).submap_of(rules@),
        pairs_to_map(stem_grbk::prereq_table()).submap_of(rules@),
{
    let mut all: Vec<(CourseCode, CourseReq)> = Vec::new();
    assert(all.deep_view() =~= Seq::<(CourseCodeView, ReqView)>::empty());
    append_table(&mut all, stem_acct::prereqs());
    append_table(&mut all, stem_arch::prereqs());
    append_table(&mut all, stem_art::prereqs());
    append_table(&mut all, stem_astr::prereqs());
    append_table(&mut all, stem_athc::prereqs());
    append_table(&mut all, stem_biol::prereqs());
    append_table(&mut all, stem_busi::prereqs());
    append_table(&mut all, stem_ceng::prereqs());
    append_table(&mut all, stem_chem::prereqs());
    append_table(&mut all, stem_civl::prereqs());
    append_table(&mut all, stem_crim::prereqs());
    append_table(&mut all, stem_csci::prereqs());
    append_table(&mut all, stem_danc::prereqs());
    append_table(&mut all, stem_econ::prereqs());
    append_table(&mut all, stem_eeng::prereqs());
    append_table(&mut all, stem_engl::prereqs());
    append_table(&mut all, stem_engr::prereqs());
    append_table(&mut all, stem_entr::prereqs());
    append_table(&mut all, stem_eslg::prereqs());
    append_table(&mut all, stem_evca::prereqs());
    append_table(&mut all, stem_exsc::prereqs());
    append_table(&mut all, stem_finc::prereqs());
    append_table(&mut all, stem_fren::prereqs());
    append_table(&mut all, stem_grbk::prereqs());
    proof {
        lemma_merged_table_unfolds();
        law_merged_subjects();
    }
    CourseMap::from_pairs(all)
}

} // verus!
