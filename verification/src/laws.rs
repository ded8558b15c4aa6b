//! Document-level properties of the grammar and the generators, stated and
//! proved against the spec functions that the executable contracts use.

use vstd::prelude::*;

use crate::model::GenErrV;
use crate::model::SectionV;
use crate::defs::sp_defs_cfg_err;
use crate::defs::sp_defs_err;
use crate::defs::sp_defs_err_cfgs;
use crate::defs::sp_section_names;
use crate::loader::sp_loader_cfg_err;
use crate::loader::sp_loader_err;
use crate::loader::sp_loader_err_cfgs;
use crate::model::FeaturesV;
use crate::model::FeatureV;
use crate::parse::sp_accumulate;
use crate::parse::sp_apply_feature;
use crate::parse::sp_doc;
use crate::parse::sp_num;
use crate::parse::sp_num_expr;
use crate::scan::is_space;
use crate::scan::sp_space0;

verus! {

broadcast use vstd::string::group_string_axioms;

/// Parsing is deterministic: the outcome of parsing a document is a function
/// of its text alone, so re-parsing identical text yields an identical
/// section sequence.  [`crate::parse::parse_option_doc`] returns exactly
/// `sp_doc` of its input, so two runs on equal texts return equal results.
pub proof fn lemma_parse_deterministic(a: Seq<char>, b: Seq<char>)
    requires
        a == b,
    ensures
        sp_doc(a) == sp_doc(b),
{
}

/// A parenthesized numeric expression is accepted as a numeric term wherever
/// its body is accepted: wrapping in parentheses, to arbitrary nesting
/// depth, stays inside the numeric grammar and consumes through the closing
/// parenthesis.
pub proof fn lemma_num_paren_nesting(s: Seq<char>, pos: int, q: int)
    requires
        0 <= pos < s.len(),
        s[pos] == '(',
        sp_num_expr(s, pos + 1) == Some(q),
        0 <= q < s.len(),
        s[q] == ')',
    ensures
        sp_num(s, pos) == Some(q + 1),
{
    assert(!is_space('('));
    assert(!is_space(')'));
    assert(sp_space0(s, pos) == pos);
    assert(sp_space0(s, q) == q);
}

/// Whether two feature keywords are of the same kind (set the same part of
/// the feature record).
pub open spec fn sp_same_kind(f: FeatureV, g: FeatureV) -> bool {
    match (f, g) {
        (FeatureV::Private, FeatureV::Private) => true,
        (FeatureV::GlobalData, FeatureV::GlobalData) => true,
        (FeatureV::UnitCacheFlag, FeatureV::UnitCacheFlag) => true,
        (FeatureV::RepoOptionsFlag(_, _), FeatureV::RepoOptionsFlag(_, _)) => true,
        (FeatureV::CompilerOption(_), FeatureV::CompilerOption(_)) => true,
        (FeatureV::LookupPath(_), FeatureV::LookupPath(_)) => true,
        (FeatureV::NoBind, FeatureV::NoBind) => true,
        (FeatureV::PostProcess, FeatureV::PostProcess) => true,
        (FeatureV::StaticDefault(_), FeatureV::StaticDefault(_)) => true,
        _ => false,
    }
}

/// Applying two feature keywords of different kinds commutes: they set
/// disjoint parts of the feature record.
pub proof fn lemma_apply_feature_commutes(acc: FeaturesV, f: FeatureV, g: FeatureV)
    requires
        !sp_same_kind(f, g),
    ensures
        sp_apply_feature(sp_apply_feature(acc, f), g) == sp_apply_feature(
            sp_apply_feature(acc, g),
            f,
        ),
{
}

/// Accumulation only reads the keywords from `i` on: two lists that agree
/// there accumulate alike.
proof fn lemma_accumulate_agree(fs1: Seq<FeatureV>, fs2: Seq<FeatureV>, i: int, acc: FeaturesV)
    requires
        fs1.len() == fs2.len(),
        forall|k: int| i <= k < fs1.len() ==> fs1[k] == fs2[k],
    ensures
        sp_accumulate(fs1, i, acc) == sp_accumulate(fs2, i, acc),
    decreases fs1.len() - i,
{
    if 0 <= i < fs1.len() {
        lemma_accumulate_agree(fs1, fs2, i + 1, sp_apply_feature(acc, fs1[i]));
    }
}

proof fn lemma_accumulate_swap_from(fs: Seq<FeatureV>, p: int, i: int, acc: FeaturesV)
    requires
        0 <= i <= p,
        p + 1 < fs.len(),
        !sp_same_kind(fs[p], fs[p + 1]),
    ensures
        sp_accumulate(fs.update(p, fs[p + 1]).update(p + 1, fs[p]), i, acc) == sp_accumulate(
            fs,
            i,
            acc,
        ),
    decreases p - i,
{
    let sw = fs.update(p, fs[p + 1]).update(p + 1, fs[p]);
    assert(sw.len() == fs.len());
    if i < p {
        assert(sw[i] == fs[i]);
        lemma_accumulate_swap_from(fs, p, i + 1, sp_apply_feature(acc, fs[i]));
        assert(sp_accumulate(sw, i, acc) == sp_accumulate(sw, i + 1, sp_apply_feature(acc, sw[i])));
        assert(sp_accumulate(fs, i, acc) == sp_accumulate(fs, i + 1, sp_apply_feature(acc, fs[i])));
    } else {
        assert(sw[p] == fs[p + 1]);
        assert(sw[p + 1] == fs[p]);
        lemma_apply_feature_commutes(acc, fs[p], fs[p + 1]);
        lemma_accumulate_agree(
            sw,
            fs,
            p + 2,
            sp_apply_feature(sp_apply_feature(acc, fs[p]), fs[p + 1]),
        );
        assert(sp_accumulate(sw, p, acc) == sp_accumulate(sw, p + 1, sp_apply_feature(acc, sw[p])));
        assert(sp_accumulate(sw, p + 1, sp_apply_feature(acc, sw[p])) == sp_accumulate(
            sw,
            p + 2,
            sp_apply_feature(sp_apply_feature(acc, sw[p]), sw[p + 1]),
        ));
        assert(sp_accumulate(fs, p, acc) == sp_accumulate(fs, p + 1, sp_apply_feature(acc, fs[p])));
        assert(sp_accumulate(fs, p + 1, sp_apply_feature(acc, fs[p])) == sp_accumulate(
            fs,
            p + 2,
            sp_apply_feature(sp_apply_feature(acc, fs[p]), fs[p + 1]),
        ));
    }
}

/// Feature accumulation is order-independent: swapping two adjacent feature
/// keywords of different kinds, anywhere in the list, leaves the accumulated
/// feature set unchanged.  Any permutation of a list in which each kind
/// appears at most once is a product of such swaps, so `private|globaldata`
/// and `globaldata|private` produce identical feature sets.
pub proof fn lemma_accumulate_swap_adjacent(fs: Seq<FeatureV>, p: int, acc: FeaturesV)
    requires
        0 <= p,
        p + 1 < fs.len(),
        !sp_same_kind(fs[p], fs[p + 1]),
    ensures
        sp_accumulate(fs.update(p, fs[p + 1]).update(p + 1, fs[p]), 0, acc) == sp_accumulate(
            fs,
            0,
            acc,
        ),
{
    lemma_accumulate_swap_from(fs, p, 0, acc);
}

/// Applying the same feature keyword twice in a row is the same as applying
/// it once: each keyword sets its own part of the feature record, so
/// repetition is never observable.
pub proof fn lemma_apply_feature_idempotent(acc: FeaturesV, f: FeatureV)
    ensures
        sp_apply_feature(sp_apply_feature(acc, f), f) == sp_apply_feature(acc, f),
{
}

/// Accumulation reads only positions, not indices: two lists whose suffixes
/// from `i1` and `i2` spell the same keywords accumulate alike.
proof fn lemma_accumulate_shift(
    fs1: Seq<FeatureV>,
    fs2: Seq<FeatureV>,
    i1: int,
    i2: int,
    acc: FeaturesV,
)
    requires
        0 <= i1 <= fs1.len(),
        0 <= i2 <= fs2.len(),
        fs1.len() - i1 == fs2.len() - i2,
        forall|k: int| 0 <= k < fs1.len() - i1 ==> (#[trigger] fs1[i1 + k]) == fs2[i2 + k],
    ensures
        sp_accumulate(fs1, i1, acc) == sp_accumulate(fs2, i2, acc),
    decreases fs1.len() - i1,
{
    if i1 < fs1.len() {
        assert(fs1[i1] == fs2[i2]) by {
            assert(fs1[i1 + 0] == fs2[i2 + 0]);
        }
        assert forall|k: int| 0 <= k < fs1.len() - (i1 + 1) implies (#[trigger] fs1[i1 + 1 + k])
            == fs2[i2 + 1 + k] by {
            assert(fs1[i1 + (k + 1)] == fs2[i2 + (k + 1)]);
        }
        lemma_accumulate_shift(fs1, fs2, i1 + 1, i2 + 1, sp_apply_feature(acc, fs1[i1]));
    }
}

proof fn lemma_accumulate_dup_from(fs: Seq<FeatureV>, p: int, i: int, acc: FeaturesV)
    requires
        0 <= i <= p,
        p + 1 < fs.len(),
        fs[p] == fs[p + 1],
    ensures
        sp_accumulate(fs.subrange(0, p + 1) + fs.subrange(p + 2, fs.len() as int), i, acc)
            == sp_accumulate(fs, i, acc),
    decreases p - i,
{
    let rm = fs.subrange(0, p + 1) + fs.subrange(p + 2, fs.len() as int);
    assert(rm.len() == fs.len() - 1);
    if i < p {
        assert(rm[i] == fs[i]);
        lemma_accumulate_dup_from(fs, p, i + 1, sp_apply_feature(acc, fs[i]));
    } else {
        let f = fs[p];
        assert(rm[p] == f);
        lemma_apply_feature_idempotent(acc, f);
        assert forall|k: int| 0 <= k < fs.len() - (p + 2) implies (#[trigger] fs[p + 2 + k]) == rm[
            p + 1 + k
        ] by {
            assert(rm[p + 1 + k] == fs.subrange(p + 2, fs.len() as int)[k]);
        }
        lemma_accumulate_shift(fs, rm, p + 2, p + 1, sp_apply_feature(acc, f));
        assert(sp_accumulate(fs, p, acc) == sp_accumulate(
            fs,
            p + 2,
            sp_apply_feature(sp_apply_feature(acc, f), f),
        ));
        assert(sp_accumulate(rm, p, acc) == sp_accumulate(rm, p + 1, sp_apply_feature(acc, f)));
    }
}

/// A feature keyword mentioned twice in a row accumulates as if mentioned
/// once: dropping the repetition leaves the feature set unchanged.  With the
/// order-independence of distinct kinds, any number of mentions of the same
/// keyword accumulate like a single one.
pub proof fn lemma_accumulate_duplicate_adjacent(fs: Seq<FeatureV>, p: int, acc: FeaturesV)
    requires
        0 <= p,
        p + 1 < fs.len(),
        fs[p] == fs[p + 1],
    ensures
        sp_accumulate(fs.subrange(0, p + 1) + fs.subrange(p + 2, fs.len() as int), 0, acc)
            == sp_accumulate(fs, 0, acc),
{
    lemma_accumulate_dup_from(fs, p, 0, acc);
}

proof fn lemma_defs_err_cfgs_none(cfgs: Seq<crate::model::ConfigV>, names: Seq<Seq<char>>, i: int, j: int)
    requires
        0 <= i <= j < cfgs.len(),
        sp_defs_err_cfgs(cfgs, names, i) is None,
    ensures
        sp_defs_cfg_err(cfgs[j], names) is None,
    decreases j - i,
{
    if i < j {
        lemma_defs_err_cfgs_none(cfgs, names, i + 1, j);
    }
}

proof fn lemma_defs_err_none(ss: Seq<SectionV>, names: Seq<Seq<char>>, i: int, j: int)
    requires
        0 <= i <= j < ss.len(),
        sp_defs_err(ss, names, i) is None,
    ensures
        sp_defs_err_cfgs(ss[j].configs, names, 0) is None,
    decreases j - i,
{
    if i < j {
        lemma_defs_err_none(ss, names, i + 1, j);
    }
}

/// A `nobind` option with no default is never silently defaulted: a document
/// holding one (outside the repo-options route) is rejected by the
/// declarations generator.
pub proof fn lemma_nobind_without_default_rejected(ss: Seq<SectionV>, i: int, j: int)
    requires
        0 <= i < ss.len(),
        0 <= j < ss[i].configs.len(),
        ss[i].configs[j].features.has_no_bind,
        ss[i].configs[j].features.repo_options_flag is None,
        ss[i].configs[j].default_value is None,
    ensures
        sp_defs_err(ss, sp_section_names(ss), 0) is Some,
{
    let names = sp_section_names(ss);
    if sp_defs_err(ss, names, 0) is None {
        lemma_defs_err_none(ss, names, 0, i);
        lemma_defs_err_cfgs_none(ss[i].configs, names, 0, j);
        assert(sp_defs_cfg_err(ss[i].configs[j], names) == Some(
            GenErrV::MissingRequiredDefault(ss[i].configs[j].name),
        ));
    }
}

proof fn lemma_loader_err_cfgs_none(cfgs: Seq<crate::model::ConfigV>, names: Seq<Seq<char>>, i: int, j: int)
    requires
        0 <= i <= j < cfgs.len(),
        sp_loader_err_cfgs(cfgs, names, i) is None,
    ensures
        sp_loader_cfg_err(cfgs[j], names) is None,
    decreases j - i,
{
    if i < j {
        lemma_loader_err_cfgs_none(cfgs, names, i + 1, j);
    }
}

proof fn lemma_loader_err_none(ss: Seq<SectionV>, names: Seq<Seq<char>>, i: int, j: int)
    requires
        0 <= i <= j < ss.len(),
        sp_loader_err(ss, names, i) is None,
    ensures
        sp_loader_err_cfgs(ss[j].configs, names, 0) is None,
    decreases j - i,
{
    if i < j {
        lemma_loader_err_none(ss, names, i + 1, j);
    }
}

/// A `repooptionsflag` option whose ordinary default is symbolic and whose
/// feature argument supplies no explicit fallback is rejected by the loader
/// generator, which needs a literal constant for the library-default path.
pub proof fn lemma_repo_flag_symbolic_default_rejected(ss: Seq<SectionV>, i: int, j: int)
    requires
        0 <= i < ss.len(),
        0 <= j < ss[i].configs.len(),
        ss[i].configs[j].features.repo_options_flag matches Some(f) && f.default_value is None,
        ss[i].configs[j].default_value matches Some(v) && v is Name,
    ensures
        sp_loader_err(ss, sp_section_names(ss), 0) is Some,
{
    let names = sp_section_names(ss);
    if sp_loader_err(ss, names, 0) is None {
        lemma_loader_err_none(ss, names, 0, i);
        lemma_loader_err_cfgs_none(ss[i].configs, names, 0, j);
        assert(sp_loader_cfg_err(ss[i].configs[j], names) is Some);
    }
}

} // verus!
