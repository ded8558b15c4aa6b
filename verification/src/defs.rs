//! The declarations generator: per section, a header artifact declaring one
//! storage field per option, and a definitions artifact initializing each.

use vstd::prelude::*;
use vstd::string::StringExecFns;

use crate::model::Artifact;
use crate::model::ArtifactV;
use crate::model::ConfigSection;
use crate::model::ConfigV;
use crate::model::GenErrV;
use crate::model::GenError;
use crate::model::SectionV;
use crate::model::ValueV;
use crate::model::sp_resolve;
use crate::model::sp_sections_shortnames_unique;
use crate::model::sp_shortname;
use crate::model::wf_config;
use crate::model::wf_section;
use crate::model::wf_sections;
use crate::text::join;
use crate::text::lower;
use crate::text::sorted_unique;
use crate::text::sp_join;
use crate::text::sp_lower;
use crate::text::sp_remove_dots;
use crate::text::sp_sorted_unique;

verus! {

broadcast use vstd::string::group_string_axioms;

/// The names of the document's sections, in order.
pub open spec fn sp_section_names(ss: Seq<SectionV>) -> Seq<Seq<char>> {
    Seq::new(ss.len(), |i: int| ss[i].name)
}

/// Executable twin of [`sp_section_names`].
pub fn section_names(sections: &Vec<ConfigSection>) -> (r: Vec<String>)
    ensures
        r.deep_view() == sp_section_names(sections.deep_view()),
{
    let mut names: Vec<String> = Vec::new();
    let mut i: usize = 0;
    while i < sections.len()
        invariant
            i <= sections.len(),
            names.deep_view() =~= sp_section_names(sections.deep_view()).subrange(0, i as int),
        decreases sections.len() - i,
    {
        let ghost before = names.deep_view();
        names.push(sections[i].name.clone());
        proof {
            let dv = sections.deep_view();
            assert(names.deep_view() =~= before + seq![sections@[i as int].name@]);
            assert(sp_section_names(dv)[i as int] == dv[i as int].name);
            assert(dv[i as int] == sections@[i as int].deep_view());
            assert(names.deep_view() =~= sp_section_names(dv).subrange(0, i + 1));
        }
        i = i + 1;
    }
    proof {
        assert(names.deep_view() =~= sp_section_names(sections.deep_view()));
    }
    names
}

/// The resolved text of a value, where resolution is known to succeed.
pub open spec fn sp_resolve_ok(v: ValueV, names: Seq<Seq<char>>) -> Seq<char> {
    match sp_resolve(v, names) {
        Ok(s) => s,
        Err(_) => Seq::empty(),
    }
}

/// The static initializer chosen for an option, in priority order: the
/// resolved default for a `nobind` option, else an explicit `staticdefault`,
/// else the type's zero-value literal.
pub open spec fn sp_init_value(c: ConfigV, names: Seq<Seq<char>>) -> Seq<char> {
    if c.features.has_no_bind {
        match c.default_value {
            Some(v) => sp_resolve_ok(v, names),
            None => Seq::empty(),
        }
    } else {
        match c.features.static_default {
            Some(d) => d,
            None => c.type_.sp_default(),
        }
    }
}

/// The generation error an option raises in the declarations generator, if
/// any: a `nobind` option must have a default, and that default must resolve.
pub open spec fn sp_defs_cfg_err(c: ConfigV, names: Seq<Seq<char>>) -> Option<GenErrV> {
    if c.features.repo_options_flag is None && c.features.has_no_bind {
        match c.default_value {
            None => Some(GenErrV::MissingRequiredDefault(c.name)),
            Some(v) => match sp_resolve(v, names) {
                Err(e) => Some(e),
                Ok(_) => None,
            },
        }
    } else {
        None
    }
}

/// The first declarations-generator error among the options from index `i`.
pub open spec fn sp_defs_err_cfgs(cfgs: Seq<ConfigV>, names: Seq<Seq<char>>, i: int) -> Option<
    GenErrV,
>
    decreases cfgs.len() - i,
{
    if 0 <= i < cfgs.len() {
        match sp_defs_cfg_err(cfgs[i], names) {
            Some(e) => Some(e),
            None => sp_defs_err_cfgs(cfgs, names, i + 1),
        }
    } else {
        None
    }
}

/// The first declarations-generator error among the sections from index `i`.
pub open spec fn sp_defs_err(ss: Seq<SectionV>, names: Seq<Seq<char>>, i: int) -> Option<GenErrV>
    decreases ss.len() - i,
{
    if 0 <= i < ss.len() {
        match sp_defs_err_cfgs(ss[i].configs, names, 0) {
            Some(e) => Some(e),
            None => sp_defs_err(ss, names, i + 1),
        }
    } else {
        None
    }
}

/// The headers needed by the options from index `i` (repo-flag options are
/// declared elsewhere and contribute nothing), in source order with
/// duplicates kept.
pub open spec fn sp_include_strs(cfgs: Seq<ConfigV>, i: int) -> Seq<Seq<char>>
    decreases cfgs.len() - i,
{
    if 0 <= i < cfgs.len() {
        (if cfgs[i].features.repo_options_flag is None {
            cfgs[i].type_.sp_includes()
        } else {
            Seq::empty()
        }) + sp_include_strs(cfgs, i + 1)
    } else {
        Seq::empty()
    }
}

/// One storage declaration line.
pub open spec fn sp_decl_line(c: ConfigV, sname: Seq<char>) -> Seq<char> {
    "  static "@ + c.type_.sp_str() + " "@ + sp_shortname(c.name, sname) + ";"@
}

/// The declaration lines of the externally visible options from index `i`.
pub open spec fn sp_public_lines(cfgs: Seq<ConfigV>, sname: Seq<char>, i: int) -> Seq<Seq<char>>
    decreases cfgs.len() - i,
{
    if 0 <= i < cfgs.len() {
        (if cfgs[i].features.repo_options_flag is None && !cfgs[i].features.is_private {
            seq![sp_decl_line(cfgs[i], sname)]
        } else {
            Seq::empty()
        }) + sp_public_lines(cfgs, sname, i + 1)
    } else {
        Seq::empty()
    }
}

/// The declaration lines of the private options from index `i`.
pub open spec fn sp_private_lines(cfgs: Seq<ConfigV>, sname: Seq<char>, i: int) -> Seq<Seq<char>>
    decreases cfgs.len() - i,
{
    if 0 <= i < cfgs.len() {
        (if cfgs[i].features.repo_options_flag is None && cfgs[i].features.is_private {
            seq![sp_decl_line(cfgs[i], sname)]
        } else {
            Seq::empty()
        }) + sp_private_lines(cfgs, sname, i + 1)
    } else {
        Seq::empty()
    }
}

/// One storage definition line with its static initializer.
pub open spec fn sp_def_line(c: ConfigV, sname: Seq<char>, names: Seq<Seq<char>>) -> Seq<char> {
    c.type_.sp_str() + " "@ + sp_remove_dots(sname) + "::"@ + sp_shortname(c.name, sname) + " = "@
        + sp_init_value(c, names) + ";"@
}

/// The definition lines of the options from index `i`.
pub open spec fn sp_def_lines(
    cfgs: Seq<ConfigV>,
    sname: Seq<char>,
    names: Seq<Seq<char>>,
    i: int,
) -> Seq<Seq<char>>
    decreases cfgs.len() - i,
{
    if 0 <= i < cfgs.len() {
        (if cfgs[i].features.repo_options_flag is None {
            seq![sp_def_line(cfgs[i], sname, names)]
        } else {
            Seq::empty()
        }) + sp_def_lines(cfgs, sname, names, i + 1)
    } else {
        Seq::empty()
    }
}

/// The `#include <...>` lines for the given header names, from index `i`.
pub open spec fn sp_include_paths(incs: Seq<Seq<char>>, i: int) -> Seq<Seq<char>>
    decreases incs.len() - i,
{
    if 0 <= i < incs.len() {
        seq!["#include <"@ + incs[i] + ">"@] + sp_include_paths(incs, i + 1)
    } else {
        Seq::empty()
    }
}

/// The full text of a section's declarations header artifact.
pub open spec fn sp_defs_h(sec: SectionV) -> Seq<char> {
    let sshort = sp_remove_dots(sec.name);
    "#pragma once\n\n"@ + sp_join(
        sp_include_paths(sp_sorted_unique(sp_include_strs(sec.configs, 0)), 0),
        "\n"@,
    ) + "\n\nnamespace HPHP::Cfg {\n\nstruct "@ + sshort + " {\n\n  friend struct "@ + sshort
        + "Loader;\n\n"@ + sp_join(sp_public_lines(sec.configs, sec.name, 0), "\n"@)
        + "\n\nprivate:\n"@ + sp_join(sp_private_lines(sec.configs, sec.name, 0), "\n"@)
        + "\n\n};\n\n} // namespace HPHP::Cfg\n"@
}

/// The full text of a section's definitions artifact.
pub open spec fn sp_defs_cpp(sec: SectionV, names: Seq<Seq<char>>) -> Seq<char> {
    "#include \""@ + sp_lower(sp_remove_dots(sec.name)) + ".h\"\n\nnamespace HPHP::Cfg {\n\n"@
        + sp_join(sp_def_lines(sec.configs, sec.name, names, 0), "\n"@)
        + "\n\n} // namespace HPHP::Cfg\n"@
}

/// The declarations-mode artifacts of the sections from index `i`: for each
/// section, its header and its definitions file.
pub open spec fn sp_defs_artifacts(ss: Seq<SectionV>, names: Seq<Seq<char>>, i: int) -> Seq<
    ArtifactV,
>
    decreases ss.len() - i,
{
    if 0 <= i < ss.len() {
        let low = sp_lower(sp_remove_dots(ss[i].name));
        seq![
            ArtifactV { name: low + ".h"@, content: sp_defs_h(ss[i]) },
            ArtifactV { name: low + ".cpp"@, content: sp_defs_cpp(ss[i], names) },
        ] + sp_defs_artifacts(ss, names, i + 1)
    } else {
        Seq::empty()
    }
}

/// Generate the declarations-mode artifacts: per section, a header with one
/// storage declaration per option (repo-flag options excluded; auxiliary
/// includes deduplicated and sorted; private options in the private part),
/// and a definitions file initializing each storage field.  Fails on the
/// first `nobind` option without a default, and on the first symbolic
/// default that names no known section.  Short identifiers become field
/// names, so every section's must be pairwise distinct
/// ([`crate::model::sections_shortnames_unique`] checks this).
pub fn generate_defs(sections: &Vec<ConfigSection>) -> (r: Result<Vec<Artifact>, GenError>)
    requires
        wf_sections(sections.deep_view()),
        sp_sections_shortnames_unique(sections.deep_view()),
    ensures
        ({
            let ss = sections.deep_view();
            let names = sp_section_names(ss);
            match r {
                Ok(arts) => sp_defs_err(ss, names, 0) is None && arts.deep_view()
                    == sp_defs_artifacts(ss, names, 0),
                Err(e) => sp_defs_err(ss, names, 0) == Some(e@),
            }
        }),
{
    let ghost ss = sections.deep_view();
    let names = section_names(sections);
    let ghost ndv = names.deep_view();
    let mut arts: Vec<Artifact> = Vec::new();
    let mut i: usize = 0;
    proof {
        assert(arts.deep_view() =~= Seq::<ArtifactV>::empty());
        assert(sp_defs_artifacts(ss, ndv, 0) =~= arts.deep_view() + sp_defs_artifacts(ss, ndv, 0));
    }
    while i < sections.len()
        invariant
            i <= sections.len(),
            ss == sections.deep_view(),
            ndv == names.deep_view(),
            ndv == sp_section_names(ss),
            wf_sections(ss),
            sp_defs_err(ss, ndv, 0) == sp_defs_err(ss, ndv, i as int),
            sp_defs_artifacts(ss, ndv, 0) == arts.deep_view() + sp_defs_artifacts(
                ss,
                ndv,
                i as int,
            ),
        decreases sections.len() - i,
    {
        let section = &sections[i];
        let ghost sec = ss[i as int];
        proof {
            assert(sec == section@);
            assert(wf_section(sec));
        }
        let sshort = section.shortname();
        let lower_short = lower(sshort.as_str());
        let ghost cfgs = sec.configs;

        let mut includes: Vec<String> = Vec::new();
        let mut public_defs: Vec<String> = Vec::new();
        let mut private_defs: Vec<String> = Vec::new();
        let mut defs: Vec<String> = Vec::new();
        let mut j: usize = 0;
        proof {
            assert(includes.deep_view() =~= Seq::<Seq<char>>::empty());
            assert(public_defs.deep_view() =~= Seq::<Seq<char>>::empty());
            assert(private_defs.deep_view() =~= Seq::<Seq<char>>::empty());
            assert(defs.deep_view() =~= Seq::<Seq<char>>::empty());
        }
        while j < section.configs.len()
            invariant
                j <= section.configs.len(),
                ss == sections.deep_view(),
                ndv == names.deep_view(),
                ndv == sp_section_names(ss),
                wf_sections(ss),
                i < ss.len(),
                sec == section@,
                sec == ss[i as int],
                cfgs == sec.configs,
                wf_section(sec),
                sshort@ == sp_remove_dots(sec.name),
                sp_defs_err(ss, ndv, 0) == sp_defs_err(ss, ndv, i as int),
                sp_defs_err_cfgs(cfgs, ndv, 0) == sp_defs_err_cfgs(cfgs, ndv, j as int),
                sp_include_strs(cfgs, 0) == includes.deep_view() + sp_include_strs(cfgs, j as int),
                sp_public_lines(cfgs, sec.name, 0) == public_defs.deep_view() + sp_public_lines(
                    cfgs,
                    sec.name,
                    j as int,
                ),
                sp_private_lines(cfgs, sec.name, 0) == private_defs.deep_view()
                    + sp_private_lines(cfgs, sec.name, j as int),
                sp_def_lines(cfgs, sec.name, ndv, 0) == defs.deep_view() + sp_def_lines(
                    cfgs,
                    sec.name,
                    ndv,
                    j as int,
                ),
            decreases section.configs.len() - j,
        {
            let c = &section.configs[j];
            proof {
                assert(c@ == cfgs[j as int]);
                assert(wf_config(c@, sec.name));
            }
            if c.features.repo_options_flag.is_none() {
                let shortname = c.shortname(section.name.as_str());
                let incs = c.type_.includes();
                let ghost inc_contrib = c@.type_.sp_includes();
                let ghost inc_base = includes.deep_view();
                let mut k: usize = 0;
                while k < incs.len()
                    invariant
                        k <= incs.len(),
                        incs.deep_view() == inc_contrib,
                        includes.deep_view() == inc_base + inc_contrib.subrange(0, k as int),
                    decreases incs.len() - k,
                {
                    let ghost before = includes.deep_view();
                    includes.push(incs[k].to_owned());
                    proof {
                        assert(includes.deep_view() =~= before + seq![inc_contrib[k as int]]);
                        assert(before + seq![inc_contrib[k as int]] =~= inc_base
                            + inc_contrib.subrange(0, k + 1));
                    }
                    k = k + 1;
                }
                proof {
                    assert(inc_contrib.subrange(0, inc_contrib.len() as int) =~= inc_contrib);
                    assert(includes.deep_view() == inc_base + inc_contrib);
                }
                let mut line = "  static ".to_owned();
                line.append(c.type_.str());
                line.append(" ");
                line.append(shortname.as_str());
                line.append(";");
                proof {
                    assert(line@ == sp_decl_line(c@, sec.name));
                }
                if c.features.is_private {
                    let ghost before = private_defs.deep_view();
                    private_defs.push(line);
                    proof {
                        assert(private_defs.deep_view() =~= before + seq![
                            sp_decl_line(cfgs[j as int], sec.name),
                        ]);
                    }
                } else {
                    let ghost before = public_defs.deep_view();
                    public_defs.push(line);
                    proof {
                        assert(public_defs.deep_view() =~= before + seq![
                            sp_decl_line(cfgs[j as int], sec.name),
                        ]);
                    }
                }
                let value: String = if c.features.has_no_bind {
                    match &c.default_value {
                        None => {
                            proof {
                                assert(sp_defs_cfg_err(cfgs[j as int], ndv) == Some(
                                    GenErrV::MissingRequiredDefault(cfgs[j as int].name),
                                ));
                                assert(sp_defs_err_cfgs(cfgs, ndv, 0) == Some(
                                    GenErrV::MissingRequiredDefault(cfgs[j as int].name),
                                ));
                                assert(sp_defs_err(ss, ndv, 0) == Some(
                                    GenErrV::MissingRequiredDefault(cfgs[j as int].name),
                                ));
                            }
                            return Err(GenError::MissingRequiredDefault(c.name.clone()));
                        },
                        Some(v) => {
                            match v.string(&names) {
                                Ok(s) => s,
                                Err(e) => {
                                    proof {
                                        assert(sp_defs_cfg_err(cfgs[j as int], ndv) == Some(e@));
                                        assert(sp_defs_err_cfgs(cfgs, ndv, 0) == Some(e@));
                                        assert(sp_defs_err(ss, ndv, 0) == Some(e@));
                                    }
                                    return Err(e);
                                },
                            }
                        },
                    }
                } else if let Some(d) = &c.features.static_default {
                    d.clone()
                } else {
                    c.type_.default().to_owned()
                };
                proof {
                    assert(value@ == sp_init_value(cfgs[j as int], ndv));
                }
                let mut dline = c.type_.str().to_owned();
                dline.append(" ");
                dline.append(sshort.as_str());
                dline.append("::");
                dline.append(shortname.as_str());
                dline.append(" = ");
                dline.append(value.as_str());
                dline.append(";");
                proof {
                    assert(dline@ == sp_def_line(cfgs[j as int], sec.name, ndv));
                }
                let ghost before = defs.deep_view();
                defs.push(dline);
                proof {
                    assert(defs.deep_view() =~= before + seq![
                        sp_def_line(cfgs[j as int], sec.name, ndv),
                    ]);
                }
            }
            proof {
                assert(sp_defs_cfg_err(cfgs[j as int], ndv) is None);
                assert(sp_defs_err_cfgs(cfgs, ndv, j as int) == sp_defs_err_cfgs(
                    cfgs,
                    ndv,
                    j + 1,
                ));
                assert(sp_include_strs(cfgs, 0) =~= includes.deep_view() + sp_include_strs(
                    cfgs,
                    j + 1,
                ));
                assert(sp_public_lines(cfgs, sec.name, 0) =~= public_defs.deep_view()
                    + sp_public_lines(cfgs, sec.name, j + 1));
                assert(sp_private_lines(cfgs, sec.name, 0) =~= private_defs.deep_view()
                    + sp_private_lines(cfgs, sec.name, j + 1));
                assert(sp_def_lines(cfgs, sec.name, ndv, 0) =~= defs.deep_view() + sp_def_lines(
                    cfgs,
                    sec.name,
                    ndv,
                    j + 1,
                ));
            }
            j = j + 1;
        }
        proof {
            assert(sp_include_strs(cfgs, cfgs.len() as int) =~= Seq::<Seq<char>>::empty());
            assert(includes.deep_view() =~= sp_include_strs(cfgs, 0));
            assert(public_defs.deep_view() =~= sp_public_lines(cfgs, sec.name, 0));
            assert(private_defs.deep_view() =~= sp_private_lines(cfgs, sec.name, 0));
            assert(defs.deep_view() =~= sp_def_lines(cfgs, sec.name, ndv, 0));
        }

        let unique_includes = sorted_unique(includes);
        let mut include_paths: Vec<String> = Vec::new();
        let ghost u = unique_includes.deep_view();
        let mut k: usize = 0;
        proof {
            assert(include_paths.deep_view() =~= Seq::<Seq<char>>::empty());
        }
        while k < unique_includes.len()
            invariant
                k <= unique_includes.len(),
                u == unique_includes.deep_view(),
                sp_include_paths(u, 0) == include_paths.deep_view() + sp_include_paths(
                    u,
                    k as int,
                ),
            decreases unique_includes.len() - k,
        {
            let mut p = "#include <".to_owned();
            p.append(unique_includes[k].as_str());
            p.append(">");
            proof {
                assert(p@ == "#include <"@ + u[k as int] + ">"@);
            }
            let ghost before = include_paths.deep_view();
            include_paths.push(p);
            proof {
                assert(include_paths.deep_view() =~= before + seq![
                    "#include <"@ + u[k as int] + ">"@,
                ]);
                assert(sp_include_paths(u, 0) =~= include_paths.deep_view() + sp_include_paths(
                    u,
                    k + 1,
                ));
            }
            k = k + 1;
        }
        proof {
            assert(include_paths.deep_view() =~= sp_include_paths(u, 0));
        }

        let mut h = "#pragma once\n\n".to_owned();
        h.append(join(&include_paths, "\n").as_str());
        h.append("\n\nnamespace HPHP::Cfg {\n\nstruct ");
        h.append(sshort.as_str());
        h.append(" {\n\n  friend struct ");
        h.append(sshort.as_str());
        h.append("Loader;\n\n");
        h.append(join(&public_defs, "\n").as_str());
        h.append("\n\nprivate:\n");
        h.append(join(&private_defs, "\n").as_str());
        h.append("\n\n};\n\n} // namespace HPHP::Cfg\n");
        proof {
            assert(h@ == sp_defs_h(sec));
        }

        let mut cpp = "#include \"".to_owned();
        cpp.append(lower_short.as_str());
        cpp.append(".h\"\n\nnamespace HPHP::Cfg {\n\n");
        cpp.append(join(&defs, "\n").as_str());
        cpp.append("\n\n} // namespace HPHP::Cfg\n");
        proof {
            assert(cpp@ == sp_defs_cpp(sec, ndv));
        }

        let mut h_name = lower_short.clone();
        h_name.append(".h");
        let mut cpp_name = lower_short.clone();
        cpp_name.append(".cpp");
        let ghost arts_before = arts.deep_view();
        arts.push(Artifact { name: h_name, content: h });
        arts.push(Artifact { name: cpp_name, content: cpp });
        proof {
            let low = sp_lower(sp_remove_dots(sec.name));
            assert(arts.deep_view() =~= arts_before + seq![
                ArtifactV { name: low + ".h"@, content: sp_defs_h(sec) },
                ArtifactV { name: low + ".cpp"@, content: sp_defs_cpp(sec, ndv) },
            ]);
            assert(sp_defs_artifacts(ss, ndv, 0) =~= arts.deep_view() + sp_defs_artifacts(
                ss,
                ndv,
                i + 1,
            ));
            assert(sp_defs_err_cfgs(cfgs, ndv, cfgs.len() as int) is None);
            assert(sp_defs_err(ss, ndv, i as int) == sp_defs_err(ss, ndv, i + 1));
        }
        i = i + 1;
    }
    proof {
        assert(sp_defs_artifacts(ss, ndv, ss.len() as int) =~= Seq::<ArtifactV>::empty());
        assert(arts.deep_view() =~= sp_defs_artifacts(ss, ndv, 0));
        assert(sp_defs_err(ss, ndv, ss.len() as int) is None);
    }
    Ok(arts)
}

} // verus!
