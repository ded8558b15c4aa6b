//! The loader generator: per section, a loader header and implementation
//! (binding, debug dump, compiler-option and repo-options entry points), the
//! document-wide macro tables, and the whole-program aggregator.

use vstd::prelude::*;
use vstd::string::StringExecFns;

use crate::defs::sp_resolve_ok;
use crate::defs::sp_section_names;
use crate::defs::section_names;
use crate::model::Artifact;
use crate::model::ArtifactV;
use crate::model::Config;
use crate::model::ConfigSection;
use crate::model::ConfigV;
use crate::model::ConfigValue;
use crate::model::GenErrV;
use crate::model::GenError;
use crate::model::SectionV;
use crate::model::ValueV;
use crate::model::sp_hdf_path;
use crate::model::sp_resolve;
use crate::model::sp_sections_shortnames_unique;
use crate::model::sp_shortname;
use crate::model::wf_config;
use crate::model::wf_section;
use crate::model::wf_sections;
use crate::text::join;
use crate::text::lower;
use crate::text::sp_join;
use crate::text::sp_lower;
use crate::text::sp_remove_dots;

verus! {

broadcast use vstd::string::group_string_axioms;

// ---------------------------------------------------------------------------
// Errors
// ---------------------------------------------------------------------------
/// The library-default check for a `repooptionsflag` option: when the feature
/// supplies no explicit fallback, the option's ordinary default must be a
/// literal constant.
pub open spec fn sp_systemlib_err(c: ConfigV) -> Option<GenErrV> {
    match c.features.repo_options_flag {
        Some(f) => match f.default_value {
            Some(_) => None,
            None => match c.default_value {
                Some(v) => match v {
                    ValueV::Const(_) => None,
                    ValueV::Name(_) => Some(GenErrV::MissingRequiredDefault(c.name)),
                },
                None => Some(GenErrV::MissingRequiredDefault(c.name)),
            },
        },
        None => None,
    }
}

/// The generation error an option raises in the loader generator, if any:
/// its default (when present) must resolve, and a `repooptionsflag` option
/// must pass the library-default check.
pub open spec fn sp_loader_cfg_err(c: ConfigV, names: Seq<Seq<char>>) -> Option<GenErrV> {
    match c.default_value {
        Some(v) => match sp_resolve(v, names) {
            Err(e) => Some(e),
            Ok(_) => sp_systemlib_err(c),
        },
        None => sp_systemlib_err(c),
    }
}

/// The first loader-generator error among the options from index `i`.
pub open spec fn sp_loader_err_cfgs(cfgs: Seq<ConfigV>, names: Seq<Seq<char>>, i: int) -> Option<
    GenErrV,
>
    decreases cfgs.len() - i,
{
    if 0 <= i < cfgs.len() {
        match sp_loader_cfg_err(cfgs[i], names) {
            Some(e) => Some(e),
            None => sp_loader_err_cfgs(cfgs, names, i + 1),
        }
    } else {
        None
    }
}

/// The first loader-generator error among the sections from index `i`.
pub open spec fn sp_loader_err(ss: Seq<SectionV>, names: Seq<Seq<char>>, i: int) -> Option<GenErrV>
    decreases ss.len() - i,
{
    if 0 <= i < ss.len() {
        match sp_loader_err_cfgs(ss[i].configs, names, 0) {
            Some(e) => Some(e),
            None => sp_loader_err(ss, names, i + 1),
        }
    } else {
        None
    }
}

// ---------------------------------------------------------------------------
// Per-option lines
// ---------------------------------------------------------------------------
/// Whether a section has at least one `repooptionsflag` option.
pub open spec fn sp_has_repo_flags(sec: SectionV) -> bool {
    exists|k: int|
        0 <= k < sec.configs.len() && (#[trigger] sec.configs[k]).features.repo_options_flag
            is Some
}

/// Whether a section has at least one `compileroption` option.
pub open spec fn sp_has_compiler(sec: SectionV) -> bool {
    exists|k: int|
        0 <= k < sec.configs.len() && (#[trigger] sec.configs[k]).features.compiler_option is Some
}

/// The bind-time default expression of an option: its resolved default, or a
/// call of its generated default accessor.
pub open spec fn sp_cfg_default(c: ConfigV, sname: Seq<char>, names: Seq<Seq<char>>) -> Seq<char> {
    match c.default_value {
        Some(v) => sp_resolve_ok(v, names),
        None => sp_shortname(c.name, sname) + "Default()"@,
    }
}

/// The declaration lines of the default accessors (options with no explicit
/// default) from index `i`.
pub open spec fn sp_default_methods(cfgs: Seq<ConfigV>, sname: Seq<char>, i: int) -> Seq<Seq<char>>
    decreases cfgs.len() - i,
{
    if 0 <= i < cfgs.len() {
        (if cfgs[i].default_value is None {
            seq![
                "  static "@ + cfgs[i].type_.sp_str() + " "@ + sp_shortname(cfgs[i].name, sname)
                    + "Default();"@,
            ]
        } else {
            Seq::empty()
        }) + sp_default_methods(cfgs, sname, i + 1)
    } else {
        Seq::empty()
    }
}

/// The declaration lines of the post-process hooks from index `i`.
pub open spec fn sp_pp_methods(cfgs: Seq<ConfigV>, sname: Seq<char>, i: int) -> Seq<Seq<char>>
    decreases cfgs.len() - i,
{
    if 0 <= i < cfgs.len() {
        (if cfgs[i].features.has_post_process {
            seq![
                "  static void "@ + sp_shortname(cfgs[i].name, sname) + "PostProcess("@
                    + cfgs[i].type_.sp_str() + "& value);"@,
            ]
        } else {
            Seq::empty()
        }) + sp_pp_methods(cfgs, sname, i + 1)
    } else {
        Seq::empty()
    }
}

/// One generic bind call.
pub open spec fn sp_bind_line(c: ConfigV, sec: SectionV, names: Seq<Seq<char>>) -> Seq<char> {
    "  Config::Bind(Cfg::"@ + sp_remove_dots(sec.name) + "::"@ + sp_shortname(c.name, sec.name)
        + ", ini, config, \""@ + sp_hdf_path(c, sec) + "\", "@ + sp_cfg_default(
        c,
        sec.name,
        names,
    ) + ");"@
}

/// One post-process call.
pub open spec fn sp_pp_call_line(c: ConfigV, sname: Seq<char>) -> Seq<char> {
    "  "@ + sp_shortname(c.name, sname) + "PostProcess(Cfg::"@ + sp_remove_dots(sname) + "::"@
        + sp_shortname(c.name, sname) + ");"@
}

/// The bind calls (with post-process calls interleaved) from index `i`.
pub open spec fn sp_bind_lines(sec: SectionV, names: Seq<Seq<char>>, i: int) -> Seq<Seq<char>>
    decreases sec.configs.len() - i,
{
    if 0 <= i < sec.configs.len() {
        (if sec.configs[i].features.repo_options_flag is None
            && !sec.configs[i].features.has_no_bind {
            seq![sp_bind_line(sec.configs[i], sec, names)] + (if sec.configs[
                i
            ].features.has_post_process {
                seq![sp_pp_call_line(sec.configs[i], sec.name)]
            } else {
                Seq::empty()
            })
        } else {
            Seq::empty()
        }) + sp_bind_lines(sec, names, i + 1)
    } else {
        Seq::empty()
    }
}

/// One debug-dump line: repo-flag options render a fixed placeholder, every
/// other option its value.
pub open spec fn sp_debug_line(c: ConfigV, sname: Seq<char>) -> Seq<char> {
    if c.features.repo_options_flag is Some {
        "  fmt::format_to(std::back_inserter(out), \"Cfg::"@ + sp_remove_dots(sname) + "::"@
            + sp_shortname(c.name, sname) + " = Repo Option Flag so UNKNOWN!\\n\");"@
    } else {
        "  fmt::format_to(std::back_inserter(out), \"Cfg::"@ + sp_remove_dots(sname) + "::"@
            + sp_shortname(c.name, sname) + " = {}\\n\", Cfg::"@ + sp_remove_dots(sname) + "::"@
            + sp_shortname(c.name, sname) + ");"@
    }
}

/// The debug-dump lines from index `i`.
pub open spec fn sp_debug_lines(cfgs: Seq<ConfigV>, sname: Seq<char>, i: int) -> Seq<Seq<char>>
    decreases cfgs.len() - i,
{
    if 0 <= i < cfgs.len() {
        seq![sp_debug_line(cfgs[i], sname)] + sp_debug_lines(cfgs, sname, i + 1)
    } else {
        Seq::empty()
    }
}

/// The compiler-option bind calls from index `i`.
pub open spec fn sp_compiler_lines(sec: SectionV, names: Seq<Seq<char>>, i: int) -> Seq<Seq<char>>
    decreases sec.configs.len() - i,
{
    if 0 <= i < sec.configs.len() {
        (if sec.configs[i].features.repo_options_flag is None && sec.configs[
            i
        ].features.compiler_option is Some {
            seq![
                "  Config::Bind(Cfg::"@ + sp_remove_dots(sec.name) + "::"@ + sp_shortname(
                    sec.configs[i].name,
                    sec.name,
                ) + ", ini, config, \""@ + sec.configs[i].features.compiler_option->0 + "\", "@
                    + sp_cfg_default(sec.configs[i], sec.name, names) + ");"@,
            ]
        } else {
            Seq::empty()
        }) + sp_compiler_lines(sec, names, i + 1)
    } else {
        Seq::empty()
    }
}

/// The repo-options bind calls from index `i`.
pub open spec fn sp_repo_bind_lines(sec: SectionV, names: Seq<Seq<char>>, i: int) -> Seq<Seq<char>>
    decreases sec.configs.len() - i,
{
    if 0 <= i < sec.configs.len() {
        (if sec.configs[i].features.repo_options_flag is Some {
            seq![
                "  Config::Bind(flags."@ + sp_shortname(sec.configs[i].name, sec.name)
                    + ", ini, config, \""@ + sp_hdf_path(sec.configs[i], sec) + "\", "@
                    + sp_cfg_default(sec.configs[i], sec.name, names) + ");"@,
            ]
        } else {
            Seq::empty()
        }) + sp_repo_bind_lines(sec, names, i + 1)
    } else {
        Seq::empty()
    }
}

/// The trusted-blob extraction calls from index `i`.
pub open spec fn sp_repo_fromcfg_lines(sec: SectionV, i: int) -> Seq<Seq<char>>
    decreases sec.configs.len() - i,
{
    if 0 <= i < sec.configs.len() {
        (match sec.configs[i].features.repo_options_flag {
            Some(f) => seq![
                "  hdfExtract(config, \""@ + f.prefix + "."@ + sp_hdf_path(sec.configs[i], sec)
                    + "\", flags."@ + sp_shortname(sec.configs[i].name, sec.name)
                    + ", default_flags."@ + sp_shortname(sec.configs[i].name, sec.name) + ");"@,
            ],
            None => Seq::empty(),
        }) + sp_repo_fromcfg_lines(sec, i + 1)
    } else {
        Seq::empty()
    }
}

/// The library-default value of a repo-flag option: the feature's explicit
/// fallback, or the option's literal constant default.
pub open spec fn sp_systemlib_value(c: ConfigV) -> Seq<char> {
    match c.features.repo_options_flag {
        Some(f) => match f.default_value {
            Some(d) => d,
            None => match c.default_value {
                Some(v) => match v {
                    ValueV::Const(s) => s,
                    ValueV::Name(_) => Seq::empty(),
                },
                None => Seq::empty(),
            },
        },
        None => Seq::empty(),
    }
}

/// The library-default assignments from index `i`.
pub open spec fn sp_repo_systemlib_lines(sec: SectionV, i: int) -> Seq<Seq<char>>
    decreases sec.configs.len() - i,
{
    if 0 <= i < sec.configs.len() {
        (if sec.configs[i].features.repo_options_flag is Some {
            seq![
                "  flags."@ + sp_shortname(sec.configs[i].name, sec.name) + " = "@
                    + sp_systemlib_value(sec.configs[i]) + ";"@,
            ]
        } else {
            Seq::empty()
        }) + sp_repo_systemlib_lines(sec, i + 1)
    } else {
        Seq::empty()
    }
}

/// The repo-global-data macro rows of a section's options from index `i`.
pub open spec fn sp_global_rows_cfgs(cfgs: Seq<ConfigV>, sname: Seq<char>, i: int) -> Seq<
    Seq<char>,
>
    decreases cfgs.len() - i,
{
    if 0 <= i < cfgs.len() {
        (if cfgs[i].features.is_global_data {
            seq![
                "  C(Cfg::"@ + sp_remove_dots(sname) + "::"@ + sp_shortname(cfgs[i].name, sname)
                    + ", "@ + sp_remove_dots(sname) + "_"@ + sp_shortname(cfgs[i].name, sname)
                    + ", "@ + cfgs[i].type_.sp_str() + ")\\"@,
            ]
        } else {
            Seq::empty()
        }) + sp_global_rows_cfgs(cfgs, sname, i + 1)
    } else {
        Seq::empty()
    }
}

/// The unit-cache macro rows of a section's options from index `i`.
pub open spec fn sp_unit_rows_cfgs(cfgs: Seq<ConfigV>, sname: Seq<char>, i: int) -> Seq<Seq<char>>
    decreases cfgs.len() - i,
{
    if 0 <= i < cfgs.len() {
        (if cfgs[i].features.is_unit_cache_flag {
            seq![
                "  C(Cfg::"@ + sp_remove_dots(sname) + "::"@ + sp_shortname(cfgs[i].name, sname)
                    + ", "@ + sp_remove_dots(sname) + "_"@ + sp_shortname(cfgs[i].name, sname)
                    + ", "@ + cfgs[i].type_.sp_str() + ")\\"@,
            ]
        } else {
            Seq::empty()
        }) + sp_unit_rows_cfgs(cfgs, sname, i + 1)
    } else {
        Seq::empty()
    }
}

/// The repo-options macro rows of a section's options from index `i`.
pub open spec fn sp_repo_rows_cfgs(cfgs: Seq<ConfigV>, sname: Seq<char>, i: int) -> Seq<Seq<char>>
    decreases cfgs.len() - i,
{
    if 0 <= i < cfgs.len() {
        (if cfgs[i].features.repo_options_flag is Some {
            seq![
                "  C("@ + cfgs[i].type_.sp_repo_option() + ", "@ + sp_shortname(
                    cfgs[i].name,
                    sname,
                ) + ")\\"@,
            ]
        } else {
            Seq::empty()
        }) + sp_repo_rows_cfgs(cfgs, sname, i + 1)
    } else {
        Seq::empty()
    }
}

// ---------------------------------------------------------------------------
// Document-wide lists
// ---------------------------------------------------------------------------
/// The repo-global-data macro rows of the sections from index `i`.
pub open spec fn sp_global_rows(ss: Seq<SectionV>, i: int) -> Seq<Seq<char>>
    decreases ss.len() - i,
{
    if 0 <= i < ss.len() {
        sp_global_rows_cfgs(ss[i].configs, ss[i].name, 0) + sp_global_rows(ss, i + 1)
    } else {
        Seq::empty()
    }
}

/// The unit-cache macro rows of the sections from index `i`.
pub open spec fn sp_unit_rows(ss: Seq<SectionV>, i: int) -> Seq<Seq<char>>
    decreases ss.len() - i,
{
    if 0 <= i < ss.len() {
        sp_unit_rows_cfgs(ss[i].configs, ss[i].name, 0) + sp_unit_rows(ss, i + 1)
    } else {
        Seq::empty()
    }
}

/// The repo-options macro rows of the sections from index `i`.
pub open spec fn sp_repo_rows(ss: Seq<SectionV>, i: int) -> Seq<Seq<char>>
    decreases ss.len() - i,
{
    if 0 <= i < ss.len() {
        sp_repo_rows_cfgs(ss[i].configs, ss[i].name, 0) + sp_repo_rows(ss, i + 1)
    } else {
        Seq::empty()
    }
}

/// The loader includes of the sections with repo flags, from index `i`.
pub open spec fn sp_repo_includes(ss: Seq<SectionV>, i: int) -> Seq<Seq<char>>
    decreases ss.len() - i,
{
    if 0 <= i < ss.len() {
        (if sp_has_repo_flags(ss[i]) {
            seq![
                "#include \"hphp/runtime/base/configs/"@ + sp_lower(sp_remove_dots(ss[i].name))
                    + "-loader.h\""@,
            ]
        } else {
            Seq::empty()
        }) + sp_repo_includes(ss, i + 1)
    } else {
        Seq::empty()
    }
}

/// The section-participation rows of the sections with repo flags.
pub open spec fn sp_repo_section_rows(ss: Seq<SectionV>, i: int) -> Seq<Seq<char>>
    decreases ss.len() - i,
{
    if 0 <= i < ss.len() {
        (if sp_has_repo_flags(ss[i]) {
            seq!["  S("@ + sp_remove_dots(ss[i].name) + "Loader)\\"@]
        } else {
            Seq::empty()
        }) + sp_repo_section_rows(ss, i + 1)
    } else {
        Seq::empty()
    }
}

/// The aggregator's per-section loader includes.
pub open spec fn sp_load_includes(ss: Seq<SectionV>, i: int) -> Seq<Seq<char>>
    decreases ss.len() - i,
{
    if 0 <= i < ss.len() {
        seq![
            "#include \"hphp/runtime/base/configs/"@ + sp_lower(sp_remove_dots(ss[i].name))
                + "-loader.h\""@,
        ] + sp_load_includes(ss, i + 1)
    } else {
        Seq::empty()
    }
}

/// The aggregator's per-section primary bind calls.
pub open spec fn sp_load_calls(ss: Seq<SectionV>, i: int) -> Seq<Seq<char>>
    decreases ss.len() - i,
{
    if 0 <= i < ss.len() {
        seq!["  Cfg::"@ + sp_remove_dots(ss[i].name) + "Loader::Load(ini, config);"@]
            + sp_load_calls(ss, i + 1)
    } else {
        Seq::empty()
    }
}

/// The aggregator's compiler-option bind calls (participating sections only).
pub open spec fn sp_load_compiler_calls(ss: Seq<SectionV>, i: int) -> Seq<Seq<char>>
    decreases ss.len() - i,
{
    if 0 <= i < ss.len() {
        (if sp_has_compiler(ss[i]) {
            seq![
                "  Cfg::"@ + sp_remove_dots(ss[i].name)
                    + "Loader::LoadForCompiler(ini, config);"@,
            ]
        } else {
            Seq::empty()
        }) + sp_load_compiler_calls(ss, i + 1)
    } else {
        Seq::empty()
    }
}

/// The aggregator's repo-options calls (participating sections only).
pub open spec fn sp_agg_repo_calls(ss: Seq<SectionV>, i: int) -> Seq<Seq<char>>
    decreases ss.len() - i,
{
    if 0 <= i < ss.len() {
        (if sp_has_repo_flags(ss[i]) {
            seq![
                "  Cfg::"@ + sp_remove_dots(ss[i].name)
                    + "Loader::GetRepoOptionsFlags(flags, ini, config);"@,
            ]
        } else {
            Seq::empty()
        }) + sp_agg_repo_calls(ss, i + 1)
    } else {
        Seq::empty()
    }
}

/// The aggregator's trusted-blob extraction calls.
pub open spec fn sp_agg_fromcfg_calls(ss: Seq<SectionV>, i: int) -> Seq<Seq<char>>
    decreases ss.len() - i,
{
    if 0 <= i < ss.len() {
        (if sp_has_repo_flags(ss[i]) {
            seq![
                "  Cfg::"@ + sp_remove_dots(ss[i].name)
                    + "Loader::GetRepoOptionsFlagsFromConfig(flags, config, default_flags);"@,
            ]
        } else {
            Seq::empty()
        }) + sp_agg_fromcfg_calls(ss, i + 1)
    } else {
        Seq::empty()
    }
}

/// The aggregator's library-default calls.
pub open spec fn sp_agg_systemlib_calls(ss: Seq<SectionV>, i: int) -> Seq<Seq<char>>
    decreases ss.len() - i,
{
    if 0 <= i < ss.len() {
        (if sp_has_repo_flags(ss[i]) {
            seq![
                "  Cfg::"@ + sp_remove_dots(ss[i].name)
                    + "Loader::GetRepoOptionsFlagsForSystemlib(flags);"@,
            ]
        } else {
            Seq::empty()
        }) + sp_agg_systemlib_calls(ss, i + 1)
    } else {
        Seq::empty()
    }
}

// ---------------------------------------------------------------------------
// Artifact texts
// ---------------------------------------------------------------------------
/// The externally visible method declarations of a section's loader.
pub open spec fn sp_public_methods(sec: SectionV) -> Seq<Seq<char>> {
    sp_default_methods(sec.configs, sec.name, 0) + seq![
        "  static void Load(const IniSettingMap& ini, const Hdf& config);"@,
        "  static std::string Debug();"@,
    ] + (if sp_has_repo_flags(sec) {
        seq![
            "  static void GetRepoOptionsFlags(RepoOptionsFlags& flags, const IniSettingMap& ini, const Hdf& config);"@,
            "  static void GetRepoOptionsFlagsFromConfig(RepoOptionsFlags& flags, const Hdf& config, const RepoOptionsFlags& default_flags);"@,
            "  static void GetRepoOptionsFlagsForSystemlib(RepoOptionsFlags& flags);"@,
        ]
    } else {
        Seq::empty()
    }) + (if sp_has_compiler(sec) {
        seq!["  static void LoadForCompiler(const IniSettingMap& ini, const Hdf& config);"@]
    } else {
        Seq::empty()
    })
}

/// The full text of a section's loader header artifact.
pub open spec fn sp_loader_h(sec: SectionV) -> Seq<char> {
    let sshort = sp_remove_dots(sec.name);
    "#pragma once\n\n#include <string>\n\nnamespace HPHP {\n\nstruct IniSettingMap;\nstruct Hdf;\nstruct RepoOptionsFlags;\n\nnamespace Cfg {\n\nstruct "@
        + sshort + "Loader {\n\n"@ + sp_join(sp_public_methods(sec), "\n"@) + "\n\nprivate:\n"@
        + sp_join(sp_pp_methods(sec.configs, sec.name, 0), "\n"@)
        + "\n\n};\n\n} // namespace Cfg\n\n} // namespace HPHP\n\n"@
}

/// The repo-options method implementations of a section's loader, when it
/// has repo-flag options; empty otherwise.
pub open spec fn sp_repo_methods_text(sec: SectionV, names: Seq<Seq<char>>) -> Seq<char> {
    if sp_has_repo_flags(sec) {
        let sshort = sp_remove_dots(sec.name);
        "void "@ + sshort
            + "Loader::GetRepoOptionsFlags(RepoOptionsFlags& flags, const IniSetting::Map& ini, const Hdf& config) {\n"@
            + sp_join(sp_repo_bind_lines(sec, names, 0), "\n"@) + "\n}\n\nvoid "@ + sshort
            + "Loader::GetRepoOptionsFlagsFromConfig(RepoOptionsFlags& flags, const Hdf& config, const RepoOptionsFlags& default_flags) {\n"@
            + sp_join(sp_repo_fromcfg_lines(sec, 0), "\n"@) + "\n}\n\nvoid "@ + sshort
            + "Loader::GetRepoOptionsFlagsForSystemlib(RepoOptionsFlags& flags) {\n"@ + sp_join(
            sp_repo_systemlib_lines(sec, 0),
            "\n"@,
        ) + "\n}\n\n"@
    } else {
        Seq::empty()
    }
}

/// The compiler-option method implementation of a section's loader, when it
/// has compiler options; empty otherwise.
pub open spec fn sp_compiler_method_text(sec: SectionV, names: Seq<Seq<char>>) -> Seq<char> {
    if sp_has_compiler(sec) {
        "void "@ + sp_remove_dots(sec.name)
            + "Loader::LoadForCompiler(const IniSettingMap& ini, const Hdf& config) {\n"@
            + sp_join(sp_compiler_lines(sec, names, 0), "\n"@) + "\n}\n\n"@
    } else {
        Seq::empty()
    }
}

/// The full text of a section's loader implementation artifact.
pub open spec fn sp_loader_cpp(sec: SectionV, names: Seq<Seq<char>>) -> Seq<char> {
    let sshort = sp_remove_dots(sec.name);
    let low = sp_lower(sshort);
    "#include \"hphp/runtime/base/configs/"@ + low
        + "-loader.h\"\n\n#include \"hphp/runtime/base/ini-setting.h\"\n#include \"hphp/runtime/base/runtime-option.h\"\n#include \"hphp/util/configs/"@
        + low
        + ".h\"\n#include \"hphp/util/hdf-extract.h\"\n\n#include <fmt/core.h>\n#include <fmt/ranges.h>\n\nnamespace HPHP::Cfg {\n\nvoid "@
        + sshort + "Loader::Load(const IniSetting::Map& ini, const Hdf& config) {\n"@ + sp_join(
        sp_bind_lines(sec, names, 0),
        "\n"@,
    ) + "\n}\n\nstd::string "@ + sshort + "Loader::Debug() {\n  std::string out;\n"@ + sp_join(
        sp_debug_lines(sec.configs, sec.name, 0),
        "\n"@,
    ) + "\n  return out;\n}\n\n"@ + sp_repo_methods_text(sec, names) + sp_compiler_method_text(
        sec,
        names,
    ) + "} // namespace HPHP::Cfg\n"@
}

/// The per-section loader artifacts of the sections from index `i`.
pub open spec fn sp_loader_section_artifacts(
    ss: Seq<SectionV>,
    names: Seq<Seq<char>>,
    i: int,
) -> Seq<ArtifactV>
    decreases ss.len() - i,
{
    if 0 <= i < ss.len() {
        let low = sp_lower(sp_remove_dots(ss[i].name));
        seq![
            ArtifactV { name: low + "-loader.h"@, content: sp_loader_h(ss[i]) },
            ArtifactV { name: low + "-loader.cpp"@, content: sp_loader_cpp(ss[i], names) },
        ] + sp_loader_section_artifacts(ss, names, i + 1)
    } else {
        Seq::empty()
    }
}

/// The full text of the repo-global-data macro table.
pub open spec fn sp_global_file(ss: Seq<SectionV>) -> Seq<char> {
    "#pragma once\n#define CONFIGS_FOR_REPOGLOBALDATA() \\\n"@ + sp_join(
        sp_global_rows(ss, 0),
        "\n"@,
    ) + "\n\n"@
}

/// The full text of the unit-cache macro table.
pub open spec fn sp_unit_file(ss: Seq<SectionV>) -> Seq<char> {
    "#pragma once\n\n#define CONFIGS_FOR_UNITCACHEFLAGS() \\\n"@ + sp_join(
        sp_unit_rows(ss, 0),
        "\n"@,
    ) + "\n\n"@
}

/// The full text of the repo-options macro table with its include list and
/// section-participation table.
pub open spec fn sp_repo_file(ss: Seq<SectionV>) -> Seq<char> {
    "#pragma once\n\n#include \"hphp/runtime/base/configs/configs.h\"\n"@ + sp_join(
        sp_repo_includes(ss, 0),
        "\n"@,
    ) + "\n\n#define CONFIGS_FOR_REPOOPTIONSFLAGS() \\\n"@ + sp_join(sp_repo_rows(ss, 0), "\n"@)
        + "\n\n#define SECTIONS_FOR_REPOOPTIONSFLAGS() \\\n"@ + sp_join(
        sp_repo_section_rows(ss, 0),
        "\n"@,
    ) + "\n\n"@
}

/// The full text of the whole-program aggregator.
pub open spec fn sp_agg_file(ss: Seq<SectionV>) -> Seq<char> {
    "#include \"hphp/runtime/base/configs/configs.h\"\n\n"@ + sp_join(
        sp_load_includes(ss, 0),
        "\n"@,
    )
        + "\n\nnamespace HPHP {\n\nstruct IniSettingMap;\nstruct Hdf;\nstruct RepoOptionsFlags;\n\nnamespace Cfg {\n\nvoid Load(const IniSettingMap& ini, const Hdf& config) {\n"@
        + sp_join(sp_load_calls(ss, 0), "\n"@)
        + "\n}\n\nvoid LoadForCompiler(const IniSettingMap& ini, const Hdf& config) {\n"@
        + sp_join(sp_load_compiler_calls(ss, 0), "\n"@)
        + "\n}\n\nvoid GetRepoOptionsFlags(RepoOptionsFlags& flags, const IniSettingMap& ini, const Hdf& config) {\n"@
        + sp_join(sp_agg_repo_calls(ss, 0), "\n"@)
        + "\n}\n\nvoid GetRepoOptionsFlagsFromConfig(RepoOptionsFlags& flags, const Hdf& config, const RepoOptionsFlags& default_flags) {\n"@
        + sp_join(sp_agg_fromcfg_calls(ss, 0), "\n"@)
        + "\n}\n\nvoid GetRepoOptionsFlagsForSystemlib(RepoOptionsFlags& flags) {\n"@ + sp_join(
        sp_agg_systemlib_calls(ss, 0),
        "\n"@,
    ) + "\n}\n\n} // namespace Cfg\n\n} // namespace HPHP\n"@
}

/// Every loader-mode artifact: per section its loader header and
/// implementation, then the three macro tables and the aggregator.
pub open spec fn sp_loader_artifacts(ss: Seq<SectionV>, names: Seq<Seq<char>>) -> Seq<ArtifactV> {
    sp_loader_section_artifacts(ss, names, 0) + seq![
        ArtifactV { name: "repo-global-data-generated.h"@, content: sp_global_file(ss) },
        ArtifactV { name: "unit-cache-generated.h"@, content: sp_unit_file(ss) },
        ArtifactV { name: "repo-options-flags-generated.h"@, content: sp_repo_file(ss) },
        ArtifactV { name: "configs-generated.cpp"@, content: sp_agg_file(ss) },
    ]
}

/// Whether the section holds a `repooptionsflag` option.
fn has_repo_flags(section: &ConfigSection) -> (r: bool)
    ensures
        r == sp_has_repo_flags(section@),
{
    let mut k: usize = 0;
    while k < section.configs.len()
        invariant
            k <= section.configs.len(),
            forall|m: int| 0 <= m < k ==> (#[trigger] section@.configs[m]).features
                .repo_options_flag is None,
        decreases section.configs.len() - k,
    {
        if section.configs[k].features.repo_options_flag.is_some() {
            proof {
                assert(section@.configs[k as int].features.repo_options_flag is Some);
            }
            return true;
        }
        k = k + 1;
    }
    false
}

/// Whether the section holds a `compileroption` option.
fn has_compiler_option(section: &ConfigSection) -> (r: bool)
    ensures
        r == sp_has_compiler(section@),
{
    let mut k: usize = 0;
    while k < section.configs.len()
        invariant
            k <= section.configs.len(),
            forall|m: int| 0 <= m < k ==> (#[trigger] section@.configs[m]).features
                .compiler_option is None,
        decreases section.configs.len() - k,
    {
        if section.configs[k].features.compiler_option.is_some() {
            proof {
                assert(section@.configs[k as int].features.compiler_option is Some);
            }
            return true;
        }
        k = k + 1;
    }
    false
}

/// Generate the loader-mode artifacts: per section, a loader header and
/// implementation; then the repo-global-data and unit-cache macro tables,
/// the repo-options table, and the whole-program aggregator.  Fails on the
/// first symbolic default that names no known section, and on the first
/// `repooptionsflag` option that needs a literal library default but has
/// none.  Short identifiers become member names, so every section's must be
/// pairwise distinct ([`crate::model::sections_shortnames_unique`] checks
/// this).
#[verifier::rlimit(100)]
#[verifier::spinoff_prover]
pub fn generate_loader(sections: &Vec<ConfigSection>) -> (r: Result<Vec<Artifact>, GenError>)
    requires
        wf_sections(sections.deep_view()),
        sp_sections_shortnames_unique(sections.deep_view()),
    ensures
        ({
            let ss = sections.deep_view();
            let names = sp_section_names(ss);
            match r {
                Ok(arts) => sp_loader_err(ss, names, 0) is None && arts.deep_view()
                    == sp_loader_artifacts(ss, names),
                Err(e) => sp_loader_err(ss, names, 0) == Some(e@),
            }
        }),
{
    let ghost ss = sections.deep_view();
    let names = section_names(sections);
    let ghost ndv = names.deep_view();
    let mut arts: Vec<Artifact> = Vec::new();
    let mut global_rows: Vec<String> = Vec::new();
    let mut unit_rows: Vec<String> = Vec::new();
    let mut repo_rows: Vec<String> = Vec::new();
    let mut repo_includes: Vec<String> = Vec::new();
    let mut repo_section_rows: Vec<String> = Vec::new();
    let mut load_includes: Vec<String> = Vec::new();
    let mut load_calls: Vec<String> = Vec::new();
    let mut load_compiler_calls: Vec<String> = Vec::new();
    let mut agg_repo_calls: Vec<String> = Vec::new();
    let mut agg_fromcfg_calls: Vec<String> = Vec::new();
    let mut agg_systemlib_calls: Vec<String> = Vec::new();
    let mut i: usize = 0;
    proof {
        assert(arts.deep_view() =~= Seq::<ArtifactV>::empty());
        assert(sp_loader_section_artifacts(ss, ndv, 0) =~= arts.deep_view()
            + sp_loader_section_artifacts(ss, ndv, 0));
        assert(global_rows.deep_view() =~= Seq::<Seq<char>>::empty());
        assert(unit_rows.deep_view() =~= Seq::<Seq<char>>::empty());
        assert(repo_rows.deep_view() =~= Seq::<Seq<char>>::empty());
        assert(repo_includes.deep_view() =~= Seq::<Seq<char>>::empty());
        assert(repo_section_rows.deep_view() =~= Seq::<Seq<char>>::empty());
        assert(load_includes.deep_view() =~= Seq::<Seq<char>>::empty());
        assert(load_calls.deep_view() =~= Seq::<Seq<char>>::empty());
        assert(load_compiler_calls.deep_view() =~= Seq::<Seq<char>>::empty());
        assert(agg_repo_calls.deep_view() =~= Seq::<Seq<char>>::empty());
        assert(agg_fromcfg_calls.deep_view() =~= Seq::<Seq<char>>::empty());
        assert(agg_systemlib_calls.deep_view() =~= Seq::<Seq<char>>::empty());
    }
    while i < sections.len()
        invariant
            i <= sections.len(),
            ss == sections.deep_view(),
            ndv == names.deep_view(),
            ndv == sp_section_names(ss),
            wf_sections(ss),
            sp_loader_err(ss, ndv, 0) == sp_loader_err(ss, ndv, i as int),
            sp_loader_section_artifacts(ss, ndv, 0) == arts.deep_view()
                + sp_loader_section_artifacts(ss, ndv, i as int),
            sp_global_rows(ss, 0) == global_rows.deep_view() + sp_global_rows(ss, i as int),
            sp_unit_rows(ss, 0) == unit_rows.deep_view() + sp_unit_rows(ss, i as int),
            sp_repo_rows(ss, 0) == repo_rows.deep_view() + sp_repo_rows(ss, i as int),
            sp_repo_includes(ss, 0) == repo_includes.deep_view() + sp_repo_includes(ss, i as int),
            sp_repo_section_rows(ss, 0) == repo_section_rows.deep_view() + sp_repo_section_rows(
                ss,
                i as int,
            ),
            sp_load_includes(ss, 0) == load_includes.deep_view() + sp_load_includes(ss, i as int),
            sp_load_calls(ss, 0) == load_calls.deep_view() + sp_load_calls(ss, i as int),
            sp_load_compiler_calls(ss, 0) == load_compiler_calls.deep_view()
                + sp_load_compiler_calls(ss, i as int),
            sp_agg_repo_calls(ss, 0) == agg_repo_calls.deep_view() + sp_agg_repo_calls(
                ss,
                i as int,
            ),
            sp_agg_fromcfg_calls(ss, 0) == agg_fromcfg_calls.deep_view() + sp_agg_fromcfg_calls(
                ss,
                i as int,
            ),
            sp_agg_systemlib_calls(ss, 0) == agg_systemlib_calls.deep_view()
                + sp_agg_systemlib_calls(ss, i as int),
        decreases sections.len() - i,
    {
        let section = &sections[i];
        let ghost sec = ss[i as int];
        proof {
            assert(sec == section@);
            assert(wf_section(sec));
        }
        let sshort = section.shortname();
        let low = lower(sshort.as_str());
        let has_repo = has_repo_flags(section);
        let has_comp = has_compiler_option(section);
        let ghost cfgs = sec.configs;

        let mut row = "#include \"hphp/runtime/base/configs/".to_owned();
        row.append(low.as_str());
        row.append("-loader.h\"");
        let ghost b0 = load_includes.deep_view();
        load_includes.push(row);
        proof {
            assert(load_includes.deep_view() =~= b0 + seq![
                "#include \"hphp/runtime/base/configs/"@ + sp_lower(sp_remove_dots(sec.name))
                    + "-loader.h\""@,
            ]);
        }
        let mut row = "  Cfg::".to_owned();
        row.append(sshort.as_str());
        row.append("Loader::Load(ini, config);");
        let ghost b0 = load_calls.deep_view();
        load_calls.push(row);
        proof {
            assert(load_calls.deep_view() =~= b0 + seq![
                "  Cfg::"@ + sp_remove_dots(sec.name) + "Loader::Load(ini, config);"@,
            ]);
        }
        if has_repo {
            let mut row = "#include \"hphp/runtime/base/configs/".to_owned();
            row.append(low.as_str());
            row.append("-loader.h\"");
            let ghost b0 = repo_includes.deep_view();
            repo_includes.push(row);
            proof {
                assert(repo_includes.deep_view() =~= b0 + seq![
                    "#include \"hphp/runtime/base/configs/"@ + sp_lower(sp_remove_dots(sec.name))
                        + "-loader.h\""@,
                ]);
            }
            let mut row = "  S(".to_owned();
            row.append(sshort.as_str());
            row.append("Loader)\\");
            let ghost b0 = repo_section_rows.deep_view();
            repo_section_rows.push(row);
            proof {
                assert(repo_section_rows.deep_view() =~= b0 + seq![
                    "  S("@ + sp_remove_dots(sec.name) + "Loader)\\"@,
                ]);
            }
            let mut row = "  Cfg::".to_owned();
            row.append(sshort.as_str());
            row.append("Loader::GetRepoOptionsFlags(flags, ini, config);");
            let ghost b0 = agg_repo_calls.deep_view();
            agg_repo_calls.push(row);
            proof {
                assert(agg_repo_calls.deep_view() =~= b0 + seq![
                    "  Cfg::"@ + sp_remove_dots(sec.name)
                        + "Loader::GetRepoOptionsFlags(flags, ini, config);"@,
                ]);
            }
            let mut row = "  Cfg::".to_owned();
            row.append(sshort.as_str());
            row.append("Loader::GetRepoOptionsFlagsFromConfig(flags, config, default_flags);");
            let ghost b0 = agg_fromcfg_calls.deep_view();
            agg_fromcfg_calls.push(row);
            proof {
                assert(agg_fromcfg_calls.deep_view() =~= b0 + seq![
                    "  Cfg::"@ + sp_remove_dots(sec.name)
                        + "Loader::GetRepoOptionsFlagsFromConfig(flags, config, default_flags);"@,
                ]);
            }
            let mut row = "  Cfg::".to_owned();
            row.append(sshort.as_str());
            row.append("Loader::GetRepoOptionsFlagsForSystemlib(flags);");
            let ghost b0 = agg_systemlib_calls.deep_view();
            agg_systemlib_calls.push(row);
            proof {
                assert(agg_systemlib_calls.deep_view() =~= b0 + seq![
                    "  Cfg::"@ + sp_remove_dots(sec.name)
                        + "Loader::GetRepoOptionsFlagsForSystemlib(flags);"@,
                ]);
            }
        }
        if has_comp {
            let mut row = "  Cfg::".to_owned();
            row.append(sshort.as_str());
            row.append("Loader::LoadForCompiler(ini, config);");
            let ghost b0 = load_compiler_calls.deep_view();
            load_compiler_calls.push(row);
            proof {
                assert(load_compiler_calls.deep_view() =~= b0 + seq![
                    "  Cfg::"@ + sp_remove_dots(sec.name)
                        + "Loader::LoadForCompiler(ini, config);"@,
                ]);
            }
        }

        let mut default_methods: Vec<String> = Vec::new();
        let mut pp_methods: Vec<String> = Vec::new();
        let mut bind_calls: Vec<String> = Vec::new();
        let mut debug_calls: Vec<String> = Vec::new();
        let mut compiler_calls: Vec<String> = Vec::new();
        let mut repo_bind_calls: Vec<String> = Vec::new();
        let mut fromcfg_calls: Vec<String> = Vec::new();
        let mut systemlib_calls: Vec<String> = Vec::new();
        let ghost gbase = global_rows.deep_view();
        let ghost ubase = unit_rows.deep_view();
        let ghost rbase = repo_rows.deep_view();
        let mut j: usize = 0;
        proof {
            assert(default_methods.deep_view() =~= Seq::<Seq<char>>::empty());
            assert(pp_methods.deep_view() =~= Seq::<Seq<char>>::empty());
            assert(bind_calls.deep_view() =~= Seq::<Seq<char>>::empty());
            assert(debug_calls.deep_view() =~= Seq::<Seq<char>>::empty());
            assert(compiler_calls.deep_view() =~= Seq::<Seq<char>>::empty());
            assert(repo_bind_calls.deep_view() =~= Seq::<Seq<char>>::empty());
            assert(fromcfg_calls.deep_view() =~= Seq::<Seq<char>>::empty());
            assert(systemlib_calls.deep_view() =~= Seq::<Seq<char>>::empty());
        }
        while j < section.configs.len()
            invariant
                j <= section.configs.len(),
                ss == sections.deep_view(),
                ndv == names.deep_view(),
                ndv == sp_section_names(ss),
                wf_sections(ss),
                i < ss.len(),
                sec == section@,
                sec == ss[i as int],
                cfgs == sec.configs,
                wf_section(sec),
                sshort@ == sp_remove_dots(sec.name),
                sp_loader_err(ss, ndv, 0) == sp_loader_err(ss, ndv, i as int),
                sp_loader_err_cfgs(cfgs, ndv, 0) == sp_loader_err_cfgs(cfgs, ndv, j as int),
                sp_default_methods(cfgs, sec.name, 0) == default_methods.deep_view()
                    + sp_default_methods(cfgs, sec.name, j as int),
                sp_pp_methods(cfgs, sec.name, 0) == pp_methods.deep_view() + sp_pp_methods(
                    cfgs,
                    sec.name,
                    j as int,
                ),
                sp_bind_lines(sec, ndv, 0) == bind_calls.deep_view() + sp_bind_lines(
                    sec,
                    ndv,
                    j as int,
                ),
                sp_debug_lines(cfgs, sec.name, 0) == debug_calls.deep_view() + sp_debug_lines(
                    cfgs,
                    sec.name,
                    j as int,
                ),
                sp_compiler_lines(sec, ndv, 0) == compiler_calls.deep_view() + sp_compiler_lines(
                    sec,
                    ndv,
                    j as int,
                ),
                sp_repo_bind_lines(sec, ndv, 0) == repo_bind_calls.deep_view()
                    + sp_repo_bind_lines(sec, ndv, j as int),
                sp_repo_fromcfg_lines(sec, 0) == fromcfg_calls.deep_view()
                    + sp_repo_fromcfg_lines(sec, j as int),
                sp_repo_systemlib_lines(sec, 0) == systemlib_calls.deep_view()
                    + sp_repo_systemlib_lines(sec, j as int),
                gbase + sp_global_rows_cfgs(cfgs, sec.name, 0) == global_rows.deep_view()
                    + sp_global_rows_cfgs(cfgs, sec.name, j as int),
                ubase + sp_unit_rows_cfgs(cfgs, sec.name, 0) == unit_rows.deep_view()
                    + sp_unit_rows_cfgs(cfgs, sec.name, j as int),
                rbase + sp_repo_rows_cfgs(cfgs, sec.name, 0) == repo_rows.deep_view()
                    + sp_repo_rows_cfgs(cfgs, sec.name, j as int),
            decreases section.configs.len() - j,
        {
            let c = &section.configs[j];
            proof {
                assert(c@ == cfgs[j as int]);
                assert(wf_config(c@, sec.name));
            }
            let shortname = c.shortname(section.name.as_str());
            let default_str: String = match &c.default_value {
                Some(v) => {
                    match v.string(&names) {
                        Ok(s) => s,
                        Err(e) => {
                            proof {
                                assert(sp_loader_cfg_err(cfgs[j as int], ndv) == Some(e@));
                                assert(sp_loader_err_cfgs(cfgs, ndv, 0) == Some(e@));
                                assert(sp_loader_err(ss, ndv, 0) == Some(e@));
                            }
                            return Err(e);
                        },
                    }
                },
                None => {
                    let mut d = shortname.clone();
                    d.append("Default()");
                    d
                },
            };
            proof {
                assert(default_str@ == sp_cfg_default(cfgs[j as int], sec.name, ndv));
            }
            if c.default_value.is_none() {
                let mut line = "  static ".to_owned();
                line.append(c.type_.str());
                line.append(" ");
                line.append(shortname.as_str());
                line.append("Default();");
                let ghost b = default_methods.deep_view();
                default_methods.push(line);
                proof {
                    assert(default_methods.deep_view() =~= b + seq![
                        "  static "@ + cfgs[j as int].type_.sp_str() + " "@ + sp_shortname(
                            cfgs[j as int].name,
                            sec.name,
                        ) + "Default();"@,
                    ]);
                }
            }
            if c.features.has_post_process {
                let mut line = "  static void ".to_owned();
                line.append(shortname.as_str());
                line.append("PostProcess(");
                line.append(c.type_.str());
                line.append("& value);");
                let ghost b = pp_methods.deep_view();
                pp_methods.push(line);
                proof {
                    assert(pp_methods.deep_view() =~= b + seq![
                        "  static void "@ + sp_shortname(cfgs[j as int].name, sec.name)
                            + "PostProcess("@ + cfgs[j as int].type_.sp_str() + "& value);"@,
                    ]);
                }
            }
            match &c.features.repo_options_flag {
                Some(flag) => {
                    let hdf = c.hdf_path(section);
                    let mut line = "  Config::Bind(flags.".to_owned();
                    line.append(shortname.as_str());
                    line.append(", ini, config, \"");
                    line.append(hdf.as_str());
                    line.append("\", ");
                    line.append(default_str.as_str());
                    line.append(");");
                    let ghost b = repo_bind_calls.deep_view();
                    repo_bind_calls.push(line);
                    proof {
                        assert(repo_bind_calls.deep_view() =~= b + seq![
                            "  Config::Bind(flags."@ + sp_shortname(cfgs[j as int].name, sec.name)
                                + ", ini, config, \""@ + sp_hdf_path(cfgs[j as int], sec) + "\", "@
                                + sp_cfg_default(cfgs[j as int], sec.name, ndv) + ");"@,
                        ]);
                    }
                    let mut line = "  hdfExtract(config, \"".to_owned();
                    line.append(flag.prefix.as_str());
                    line.append(".");
                    line.append(hdf.as_str());
                    line.append("\", flags.");
                    line.append(shortname.as_str());
                    line.append(", default_flags.");
                    line.append(shortname.as_str());
                    line.append(");");
                    let ghost b = fromcfg_calls.deep_view();
                    fromcfg_calls.push(line);
                    proof {
                        assert(cfgs[j as int].features.repo_options_flag == Some(flag@));
                        assert(fromcfg_calls.deep_view() =~= b + seq![
                            "  hdfExtract(config, \""@ + flag@.prefix + "."@ + sp_hdf_path(
                                cfgs[j as int],
                                sec,
                            ) + "\", flags."@ + sp_shortname(cfgs[j as int].name, sec.name)
                                + ", default_flags."@ + sp_shortname(
                                cfgs[j as int].name,
                                sec.name,
                            ) + ");"@,
                        ]);
                    }
                    let value: String = match &flag.default_value {
                        Some(d) => d.clone(),
                        None => {
                            match &c.default_value {
                                Some(ConfigValue::Const(s)) => s.clone(),
                                _ => {
                                    proof {
                                        assert(sp_systemlib_err(cfgs[j as int]) == Some(
                                            GenErrV::MissingRequiredDefault(cfgs[j as int].name),
                                        ));
                                        assert(sp_loader_cfg_err(cfgs[j as int], ndv) == Some(
                                            GenErrV::MissingRequiredDefault(cfgs[j as int].name),
                                        ));
                                        assert(sp_loader_err_cfgs(cfgs, ndv, 0) == Some(
                                            GenErrV::MissingRequiredDefault(cfgs[j as int].name),
                                        ));
                                        assert(sp_loader_err(ss, ndv, 0) == Some(
                                            GenErrV::MissingRequiredDefault(cfgs[j as int].name),
                                        ));
                                    }
                                    return Err(GenError::MissingRequiredDefault(c.name.clone()));
                                },
                            }
                        },
                    };
                    proof {
                        assert(value@ == sp_systemlib_value(cfgs[j as int]));
                    }
                    let mut line = "  flags.".to_owned();
                    line.append(shortname.as_str());
                    line.append(" = ");
                    line.append(value.as_str());
                    line.append(";");
                    let ghost b = systemlib_calls.deep_view();
                    systemlib_calls.push(line);
                    proof {
                        assert(systemlib_calls.deep_view() =~= b + seq![
                            "  flags."@ + sp_shortname(cfgs[j as int].name, sec.name) + " = "@
                                + sp_systemlib_value(cfgs[j as int]) + ";"@,
                        ]);
                    }
                    let mut line =
                        "  fmt::format_to(std::back_inserter(out), \"Cfg::".to_owned();
                    line.append(sshort.as_str());
                    line.append("::");
                    line.append(shortname.as_str());
                    line.append(" = Repo Option Flag so UNKNOWN!\\n\");");
                    let ghost b = debug_calls.deep_view();
                    debug_calls.push(line);
                    proof {
                        assert(debug_calls.deep_view() =~= b + seq![
                            sp_debug_line(cfgs[j as int], sec.name),
                        ]);
                    }
                    let mut line = "  C(".to_owned();
                    line.append(c.type_.repo_option());
                    line.append(", ");
                    line.append(shortname.as_str());
                    line.append(")\\");
                    let ghost b = repo_rows.deep_view();
                    repo_rows.push(line);
                    proof {
                        assert(repo_rows.deep_view() =~= b + seq![
                            "  C("@ + cfgs[j as int].type_.sp_repo_option() + ", "@ + sp_shortname(
                                cfgs[j as int].name,
                                sec.name,
                            ) + ")\\"@,
                        ]);
                    }
                },
                None => {
                    if !c.features.has_no_bind {
                        let hdf = c.hdf_path(section);
                        let mut line = "  Config::Bind(Cfg::".to_owned();
                        line.append(sshort.as_str());
                        line.append("::");
                        line.append(shortname.as_str());
                        line.append(", ini, config, \"");
                        line.append(hdf.as_str());
                        line.append("\", ");
                        line.append(default_str.as_str());
                        line.append(");");
                        let ghost b = bind_calls.deep_view();
                        bind_calls.push(line);
                        proof {
                            assert(bind_calls.deep_view() =~= b + seq![
                                sp_bind_line(cfgs[j as int], sec, ndv),
                            ]);
                        }
                        if c.features.has_post_process {
                            let mut line = "  ".to_owned();
                            line.append(shortname.as_str());
                            line.append("PostProcess(Cfg::");
                            line.append(sshort.as_str());
                            line.append("::");
                            line.append(shortname.as_str());
                            line.append(");");
                            let ghost b = bind_calls.deep_view();
                            bind_calls.push(line);
                            proof {
                                assert(bind_calls.deep_view() =~= b + seq![
                                    sp_pp_call_line(cfgs[j as int], sec.name),
                                ]);
                            }
                        }
                    }
                    let mut line =
                        "  fmt::format_to(std::back_inserter(out), \"Cfg::".to_owned();
                    line.append(sshort.as_str());
                    line.append("::");
                    line.append(shortname.as_str());
                    line.append(" = {}\\n\", Cfg::");
                    line.append(sshort.as_str());
                    line.append("::");
                    line.append(shortname.as_str());
                    line.append(");");
                    let ghost b = debug_calls.deep_view();
                    debug_calls.push(line);
                    proof {
                        assert(debug_calls.deep_view() =~= b + seq![
                            sp_debug_line(cfgs[j as int], sec.name),
                        ]);
                    }
                    if let Some(con) = &c.features.compiler_option {
                        let mut line = "  Config::Bind(Cfg::".to_owned();
                        line.append(sshort.as_str());
                        line.append("::");
                        line.append(shortname.as_str());
                        line.append(", ini, config, \"");
                        line.append(con.as_str());
                        line.append("\", ");
                        line.append(default_str.as_str());
                        line.append(");");
                        let ghost b = compiler_calls.deep_view();
                        compiler_calls.push(line);
                        proof {
                            assert(cfgs[j as int].features.compiler_option == Some(con@));
                            assert(compiler_calls.deep_view() =~= b + seq![
                                "  Config::Bind(Cfg::"@ + sp_remove_dots(sec.name) + "::"@
                                    + sp_shortname(cfgs[j as int].name, sec.name)
                                    + ", ini, config, \""@ + cfgs[
                                    j as int
                                ].features.compiler_option->0 + "\", "@ + sp_cfg_default(
                                    cfgs[j as int],
                                    sec.name,
                                    ndv,
                                ) + ");"@,
                            ]);
                        }
                    }
                },
            }
            if c.features.is_global_data {
                let mut line = "  C(Cfg::".to_owned();
                line.append(sshort.as_str());
                line.append("::");
                line.append(shortname.as_str());
                line.append(", ");
                line.append(sshort.as_str());
                line.append("_");
                line.append(shortname.as_str());
                line.append(", ");
                line.append(c.type_.str());
                line.append(")\\");
                let ghost b = global_rows.deep_view();
                global_rows.push(line);
                proof {
                    assert(global_rows.deep_view() =~= b + seq![
                        "  C(Cfg::"@ + sp_remove_dots(sec.name) + "::"@ + sp_shortname(
                            cfgs[j as int].name,
                            sec.name,
                        ) + ", "@ + sp_remove_dots(sec.name) + "_"@ + sp_shortname(
                            cfgs[j as int].name,
                            sec.name,
                        ) + ", "@ + cfgs[j as int].type_.sp_str() + ")\\"@,
                    ]);
                }
            }
            if c.features.is_unit_cache_flag {
                let mut line = "  C(Cfg::".to_owned();
                line.append(sshort.as_str());
                line.append("::");
                line.append(shortname.as_str());
                line.append(", ");
                line.append(sshort.as_str());
                line.append("_");
                line.append(shortname.as_str());
                line.append(", ");
                line.append(c.type_.str());
                line.append(")\\");
                let ghost b = unit_rows.deep_view();
                unit_rows.push(line);
                proof {
                    assert(unit_rows.deep_view() =~= b + seq![
                        "  C(Cfg::"@ + sp_remove_dots(sec.name) + "::"@ + sp_shortname(
                            cfgs[j as int].name,
                            sec.name,
                        ) + ", "@ + sp_remove_dots(sec.name) + "_"@ + sp_shortname(
                            cfgs[j as int].name,
                            sec.name,
                        ) + ", "@ + cfgs[j as int].type_.sp_str() + ")\\"@,
                    ]);
                }
            }
            proof {
                assert(sp_loader_cfg_err(cfgs[j as int], ndv) is None);
                assert(sp_loader_err_cfgs(cfgs, ndv, j as int) == sp_loader_err_cfgs(
                    cfgs,
                    ndv,
                    j + 1,
                ));
                assert(sp_default_methods(cfgs, sec.name, 0) =~= default_methods.deep_view()
                    + sp_default_methods(cfgs, sec.name, j + 1));
                assert(sp_pp_methods(cfgs, sec.name, 0) =~= pp_methods.deep_view()
                    + sp_pp_methods(cfgs, sec.name, j + 1));
                assert(sp_bind_lines(sec, ndv, 0) =~= bind_calls.deep_view() + sp_bind_lines(
                    sec,
                    ndv,
                    j + 1,
                ));
                assert(sp_debug_lines(cfgs, sec.name, 0) =~= debug_calls.deep_view()
                    + sp_debug_lines(cfgs, sec.name, j + 1));
                assert(sp_compiler_lines(sec, ndv, 0) =~= compiler_calls.deep_view()
                    + sp_compiler_lines(sec, ndv, j + 1));
                assert(sp_repo_bind_lines(sec, ndv, 0) =~= repo_bind_calls.deep_view()
                    + sp_repo_bind_lines(sec, ndv, j + 1));
                assert(sp_repo_fromcfg_lines(sec, 0) =~= fromcfg_calls.deep_view()
                    + sp_repo_fromcfg_lines(sec, j + 1));
                assert(sp_repo_systemlib_lines(sec, 0) =~= systemlib_calls.deep_view()
                    + sp_repo_systemlib_lines(sec, j + 1));
                assert(gbase + sp_global_rows_cfgs(cfgs, sec.name, 0) =~= global_rows.deep_view()
                    + sp_global_rows_cfgs(cfgs, sec.name, j + 1));
                assert(ubase + sp_unit_rows_cfgs(cfgs, sec.name, 0) =~= unit_rows.deep_view()
                    + sp_unit_rows_cfgs(cfgs, sec.name, j + 1));
                assert(rbase + sp_repo_rows_cfgs(cfgs, sec.name, 0) =~= repo_rows.deep_view()
                    + sp_repo_rows_cfgs(cfgs, sec.name, j + 1));
            }
            j = j + 1;
        }
        proof {
            assert(default_methods.deep_view() =~= sp_default_methods(cfgs, sec.name, 0));
            assert(pp_methods.deep_view() =~= sp_pp_methods(cfgs, sec.name, 0));
            assert(bind_calls.deep_view() =~= sp_bind_lines(sec, ndv, 0));
            assert(debug_calls.deep_view() =~= sp_debug_lines(cfgs, sec.name, 0));
            assert(compiler_calls.deep_view() =~= sp_compiler_lines(sec, ndv, 0));
            assert(repo_bind_calls.deep_view() =~= sp_repo_bind_lines(sec, ndv, 0));
            assert(fromcfg_calls.deep_view() =~= sp_repo_fromcfg_lines(sec, 0));
            assert(systemlib_calls.deep_view() =~= sp_repo_systemlib_lines(sec, 0));
            assert(global_rows.deep_view() =~= gbase + sp_global_rows_cfgs(cfgs, sec.name, 0));
            assert(unit_rows.deep_view() =~= ubase + sp_unit_rows_cfgs(cfgs, sec.name, 0));
            assert(repo_rows.deep_view() =~= rbase + sp_repo_rows_cfgs(cfgs, sec.name, 0));
        }

        let mut public_methods = default_methods;
        let ghost pm0 = public_methods.deep_view();
        public_methods.push("  static void Load(const IniSettingMap& ini, const Hdf& config);".to_owned());
        public_methods.push("  static std::string Debug();".to_owned());
        proof {
            assert(public_methods.deep_view() =~= pm0 + seq![
                "  static void Load(const IniSettingMap& ini, const Hdf& config);"@,
                "  static std::string Debug();"@,
            ]);
        }
        if has_repo {
            let ghost pm1 = public_methods.deep_view();
            public_methods.push("  static void GetRepoOptionsFlags(RepoOptionsFlags& flags, const IniSettingMap& ini, const Hdf& config);".to_owned());
            public_methods.push("  static void GetRepoOptionsFlagsFromConfig(RepoOptionsFlags& flags, const Hdf& config, const RepoOptionsFlags& default_flags);".to_owned());
            public_methods.push("  static void GetRepoOptionsFlagsForSystemlib(RepoOptionsFlags& flags);".to_owned());
            proof {
                assert(public_methods.deep_view() =~= pm1 + seq![
                    "  static void GetRepoOptionsFlags(RepoOptionsFlags& flags, const IniSettingMap& ini, const Hdf& config);"@,
                    "  static void GetRepoOptionsFlagsFromConfig(RepoOptionsFlags& flags, const Hdf& config, const RepoOptionsFlags& default_flags);"@,
                    "  static void GetRepoOptionsFlagsForSystemlib(RepoOptionsFlags& flags);"@,
                ]);
            }
        }
        if has_comp {
            let ghost pm2 = public_methods.deep_view();
            public_methods.push("  static void LoadForCompiler(const IniSettingMap& ini, const Hdf& config);".to_owned());
            proof {
                assert(public_methods.deep_view() =~= pm2 + seq![
                    "  static void LoadForCompiler(const IniSettingMap& ini, const Hdf& config);"@,
                ]);
            }
        }
        proof {
            assert(public_methods.deep_view() =~= sp_public_methods(sec));
        }

        let mut h = "#pragma once\n\n#include <string>\n\nnamespace HPHP {\n\nstruct IniSettingMap;\nstruct Hdf;\nstruct RepoOptionsFlags;\n\nnamespace Cfg {\n\nstruct ".to_owned();
        h.append(sshort.as_str());
        h.append("Loader {\n\n");
        h.append(join(&public_methods, "\n").as_str());
        h.append("\n\nprivate:\n");
        h.append(join(&pp_methods, "\n").as_str());
        h.append("\n\n};\n\n} // namespace Cfg\n\n} // namespace HPHP\n\n");
        proof {
            assert(h@ == sp_loader_h(sec));
        }

        let repo_methods: String = if has_repo {
            let mut m = "void ".to_owned();
            m.append(sshort.as_str());
            m.append(
                "Loader::GetRepoOptionsFlags(RepoOptionsFlags& flags, const IniSetting::Map& ini, const Hdf& config) {\n",
            );
            m.append(join(&repo_bind_calls, "\n").as_str());
            m.append("\n}\n\nvoid ");
            m.append(sshort.as_str());
            m.append(
                "Loader::GetRepoOptionsFlagsFromConfig(RepoOptionsFlags& flags, const Hdf& config, const RepoOptionsFlags& default_flags) {\n",
            );
            m.append(join(&fromcfg_calls, "\n").as_str());
            m.append("\n}\n\nvoid ");
            m.append(sshort.as_str());
            m.append("Loader::GetRepoOptionsFlagsForSystemlib(RepoOptionsFlags& flags) {\n");
            m.append(join(&systemlib_calls, "\n").as_str());
            m.append("\n}\n\n");
            m
        } else {
            String::new()
        };
        proof {
            assert(repo_methods@ == sp_repo_methods_text(sec, ndv));
        }
        let compiler_method: String = if has_comp {
            let mut m = "void ".to_owned();
            m.append(sshort.as_str());
            m.append("Loader::LoadForCompiler(const IniSettingMap& ini, const Hdf& config) {\n");
            m.append(join(&compiler_calls, "\n").as_str());
            m.append("\n}\n\n");
            m
        } else {
            String::new()
        };
        proof {
            assert(compiler_method@ == sp_compiler_method_text(sec, ndv));
        }

        let mut cpp = "#include \"hphp/runtime/base/configs/".to_owned();
        cpp.append(low.as_str());
        cpp.append(
            "-loader.h\"\n\n#include \"hphp/runtime/base/ini-setting.h\"\n#include \"hphp/runtime/base/runtime-option.h\"\n#include \"hphp/util/configs/",
        );
        cpp.append(low.as_str());
        cpp.append(
            ".h\"\n#include \"hphp/util/hdf-extract.h\"\n\n#include <fmt/core.h>\n#include <fmt/ranges.h>\n\nnamespace HPHP::Cfg {\n\nvoid ",
        );
        cpp.append(sshort.as_str());
        cpp.append("Loader::Load(const IniSetting::Map& ini, const Hdf& config) {\n");
        cpp.append(join(&bind_calls, "\n").as_str());
        cpp.append("\n}\n\nstd::string ");
        cpp.append(sshort.as_str());
        cpp.append("Loader::Debug() {\n  std::string out;\n");
        cpp.append(join(&debug_calls, "\n").as_str());
        cpp.append("\n  return out;\n}\n\n");
        cpp.append(repo_methods.as_str());
        cpp.append(compiler_method.as_str());
        cpp.append("} // namespace HPHP::Cfg\n");
        proof {
            assert(cpp@ == sp_loader_cpp(sec, ndv));
        }

        let mut h_name = low.clone();
        h_name.append("-loader.h");
        let mut cpp_name = low.clone();
        cpp_name.append("-loader.cpp");
        let ghost arts_before = arts.deep_view();
        arts.push(Artifact { name: h_name, content: h });
        arts.push(Artifact { name: cpp_name, content: cpp });
        proof {
            let lowv = sp_lower(sp_remove_dots(sec.name));
            assert(arts.deep_view() =~= arts_before + seq![
                ArtifactV { name: lowv + "-loader.h"@, content: sp_loader_h(sec) },
                ArtifactV { name: lowv + "-loader.cpp"@, content: sp_loader_cpp(sec, ndv) },
            ]);
            assert(sp_loader_section_artifacts(ss, ndv, 0) =~= arts.deep_view()
                + sp_loader_section_artifacts(ss, ndv, i + 1));
            assert(sp_loader_err_cfgs(cfgs, ndv, cfgs.len() as int) is None);
            assert(sp_loader_err(ss, ndv, i as int) == sp_loader_err(ss, ndv, i + 1));
            assert(sp_global_rows(ss, i as int) =~= sp_global_rows_cfgs(cfgs, sec.name, 0)
                + sp_global_rows(ss, i + 1));
            assert(sp_global_rows(ss, 0) =~= global_rows.deep_view() + sp_global_rows(ss, i + 1));
            assert(sp_unit_rows(ss, 0) =~= unit_rows.deep_view() + sp_unit_rows(ss, i + 1));
            assert(sp_repo_rows(ss, 0) =~= repo_rows.deep_view() + sp_repo_rows(ss, i + 1));
            assert(sp_repo_includes(ss, 0) =~= repo_includes.deep_view() + sp_repo_includes(
                ss,
                i + 1,
            ));
            assert(sp_repo_section_rows(ss, 0) =~= repo_section_rows.deep_view()
                + sp_repo_section_rows(ss, i + 1));
            assert(sp_load_includes(ss, 0) =~= load_includes.deep_view() + sp_load_includes(
                ss,
                i + 1,
            ));
            assert(sp_load_calls(ss, 0) =~= load_calls.deep_view() + sp_load_calls(ss, i + 1));
            assert(sp_load_compiler_calls(ss, 0) =~= load_compiler_calls.deep_view()
                + sp_load_compiler_calls(ss, i + 1));
            assert(sp_agg_repo_calls(ss, 0) =~= agg_repo_calls.deep_view() + sp_agg_repo_calls(
                ss,
                i + 1,
            ));
            assert(sp_agg_fromcfg_calls(ss, 0) =~= agg_fromcfg_calls.deep_view()
                + sp_agg_fromcfg_calls(ss, i + 1));
            assert(sp_agg_systemlib_calls(ss, 0) =~= agg_systemlib_calls.deep_view()
                + sp_agg_systemlib_calls(ss, i + 1));
        }
        i = i + 1;
    }
    proof {
        assert(global_rows.deep_view() =~= sp_global_rows(ss, 0));
        assert(unit_rows.deep_view() =~= sp_unit_rows(ss, 0));
        assert(repo_rows.deep_view() =~= sp_repo_rows(ss, 0));
        assert(repo_includes.deep_view() =~= sp_repo_includes(ss, 0));
        assert(repo_section_rows.deep_view() =~= sp_repo_section_rows(ss, 0));
        assert(load_includes.deep_view() =~= sp_load_includes(ss, 0));
        assert(load_calls.deep_view() =~= sp_load_calls(ss, 0));
        assert(load_compiler_calls.deep_view() =~= sp_load_compiler_calls(ss, 0));
        assert(agg_repo_calls.deep_view() =~= sp_agg_repo_calls(ss, 0));
        assert(agg_fromcfg_calls.deep_view() =~= sp_agg_fromcfg_calls(ss, 0));
        assert(agg_systemlib_calls.deep_view() =~= sp_agg_systemlib_calls(ss, 0));
    }

    let mut global_file = "#pragma once\n#define CONFIGS_FOR_REPOGLOBALDATA() \\\n".to_owned();
    global_file.append(join(&global_rows, "\n").as_str());
    global_file.append("\n\n");
    proof {
        assert(global_file@ == sp_global_file(ss));
    }
    let mut unit_file = "#pragma once\n\n#define CONFIGS_FOR_UNITCACHEFLAGS() \\\n".to_owned();
    unit_file.append(join(&unit_rows, "\n").as_str());
    unit_file.append("\n\n");
    proof {
        assert(unit_file@ == sp_unit_file(ss));
    }
    let mut repo_file =
        "#pragma once\n\n#include \"hphp/runtime/base/configs/configs.h\"\n".to_owned();
    repo_file.append(join(&repo_includes, "\n").as_str());
    repo_file.append("\n\n#define CONFIGS_FOR_REPOOPTIONSFLAGS() \\\n");
    repo_file.append(join(&repo_rows, "\n").as_str());
    repo_file.append("\n\n#define SECTIONS_FOR_REPOOPTIONSFLAGS() \\\n");
    repo_file.append(join(&repo_section_rows, "\n").as_str());
    repo_file.append("\n\n");
    proof {
        assert(repo_file@ == sp_repo_file(ss));
    }
    let mut agg_file = "#include \"hphp/runtime/base/configs/configs.h\"\n\n".to_owned();
    agg_file.append(join(&load_includes, "\n").as_str());
    agg_file.append(
        "\n\nnamespace HPHP {\n\nstruct IniSettingMap;\nstruct Hdf;\nstruct RepoOptionsFlags;\n\nnamespace Cfg {\n\nvoid Load(const IniSettingMap& ini, const Hdf& config) {\n",
    );
    agg_file.append(join(&load_calls, "\n").as_str());
    agg_file.append("\n}\n\nvoid LoadForCompiler(const IniSettingMap& ini, const Hdf& config) {\n");
    agg_file.append(join(&load_compiler_calls, "\n").as_str());
    agg_file.append(
        "\n}\n\nvoid GetRepoOptionsFlags(RepoOptionsFlags& flags, const IniSettingMap& ini, const Hdf& config) {\n",
    );
    agg_file.append(join(&agg_repo_calls, "\n").as_str());
    agg_file.append(
        "\n}\n\nvoid GetRepoOptionsFlagsFromConfig(RepoOptionsFlags& flags, const Hdf& config, const RepoOptionsFlags& default_flags) {\n",
    );
    agg_file.append(join(&agg_fromcfg_calls, "\n").as_str());
    agg_file.append("\n}\n\nvoid GetRepoOptionsFlagsForSystemlib(RepoOptionsFlags& flags) {\n");
    agg_file.append(join(&agg_systemlib_calls, "\n").as_str());
    agg_file.append("\n}\n\n} // namespace Cfg\n\n} // namespace HPHP\n");
    proof {
        assert(agg_file@ == sp_agg_file(ss));
    }

    let ghost arts_before = arts.deep_view();
    arts.push(Artifact { name: "repo-global-data-generated.h".to_owned(), content: global_file });
    arts.push(Artifact { name: "unit-cache-generated.h".to_owned(), content: unit_file });
    arts.push(Artifact { name: "repo-options-flags-generated.h".to_owned(), content: repo_file });
    arts.push(Artifact { name: "configs-generated.cpp".to_owned(), content: agg_file });
    proof {
        assert(sp_loader_section_artifacts(ss, ndv, ss.len() as int) =~= Seq::<
            ArtifactV,
        >::empty());
        assert(arts_before =~= sp_loader_section_artifacts(ss, ndv, 0));
        assert(arts.deep_view() =~= arts_before + seq![
            ArtifactV { name: "repo-global-data-generated.h"@, content: sp_global_file(ss) },
            ArtifactV { name: "unit-cache-generated.h"@, content: sp_unit_file(ss) },
            ArtifactV { name: "repo-options-flags-generated.h"@, content: sp_repo_file(ss) },
            ArtifactV { name: "configs-generated.cpp"@, content: sp_agg_file(ss) },
        ]);
        assert(arts.deep_view() =~= sp_loader_artifacts(ss, ndv));
        assert(sp_loader_err(ss, ndv, ss.len() as int) is None);
    }
    Ok(arts)
}

} // verus!
