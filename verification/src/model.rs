//! The parsed document model: sections of typed configuration options.

use vstd::prelude::*;
use vstd::string::StrSliceExecFns;
use vstd::string::StringExecFns;

use crate::text::remove_dots;
use crate::text::sp_remove_dots;
use crate::text::sp_starts_with;
use crate::text::starts_with;
use crate::text::suffix_from;

verus! {

broadcast use vstd::string::group_string_axioms;

/// A default expression: either a literal constant in target-language syntax,
/// or the dotted name of another option.
#[derive(Debug, PartialEq, Clone)]
pub enum ConfigValue {
    Const(String),
    Name(String),
}

/// Spec-level mirror of [`ConfigValue`].
pub enum ValueV {
    Const(Seq<char>),
    Name(Seq<char>),
}

impl View for ConfigValue {
    type V = ValueV;

    open spec fn view(&self) -> ValueV {
        match self {
            ConfigValue::Const(s) => ValueV::Const(s@),
            ConfigValue::Name(s) => ValueV::Name(s@),
        }
    }
}

impl DeepView for ConfigValue {
    type V = ValueV;

    open spec fn deep_view(&self) -> ValueV {
        self.view()
    }
}

/// One feature keyword as it appears in the document.
#[derive(Debug, PartialEq, Clone)]
pub enum ConfigFeature {
    Private,
    GlobalData,
    UnitCacheFlag,
    RepoOptionsFlag(String, Option<String>),
    CompilerOption(String),
    LookupPath(String),
    NoBind,
    PostProcess,
    StaticDefault(String),
}

/// Spec-level mirror of [`ConfigFeature`].
pub enum FeatureV {
    Private,
    GlobalData,
    UnitCacheFlag,
    RepoOptionsFlag(Seq<char>, Option<Seq<char>>),
    CompilerOption(Seq<char>),
    LookupPath(Seq<char>),
    NoBind,
    PostProcess,
    StaticDefault(Seq<char>),
}

impl View for ConfigFeature {
    type V = FeatureV;

    open spec fn view(&self) -> FeatureV {
        match self {
            ConfigFeature::Private => FeatureV::Private,
            ConfigFeature::GlobalData => FeatureV::GlobalData,
            ConfigFeature::UnitCacheFlag => FeatureV::UnitCacheFlag,
            ConfigFeature::RepoOptionsFlag(p, d) => FeatureV::RepoOptionsFlag(p@, d.deep_view()),
            ConfigFeature::CompilerOption(n) => FeatureV::CompilerOption(n@),
            ConfigFeature::LookupPath(n) => FeatureV::LookupPath(n@),
            ConfigFeature::NoBind => FeatureV::NoBind,
            ConfigFeature::PostProcess => FeatureV::PostProcess,
            ConfigFeature::StaticDefault(s) => FeatureV::StaticDefault(s@),
        }
    }
}

impl DeepView for ConfigFeature {
    type V = FeatureV;

    open spec fn deep_view(&self) -> FeatureV {
        self.view()
    }
}

/// The argument of a `repooptionsflag` feature: the lookup prefix inside the
/// repo configuration, and an optional explicit library-default literal.
#[derive(Debug, PartialEq, Default)]
pub struct ConfigFeatureRepoOptionFlag {
    pub prefix: String,
    pub default_value: Option<String>,
}

/// Spec-level mirror of [`ConfigFeatureRepoOptionFlag`].
pub struct RepoFlagV {
    pub prefix: Seq<char>,
    pub default_value: Option<Seq<char>>,
}

impl View for ConfigFeatureRepoOptionFlag {
    type V = RepoFlagV;

    open spec fn view(&self) -> RepoFlagV {
        RepoFlagV { prefix: self.prefix@, default_value: self.default_value.deep_view() }
    }
}

impl DeepView for ConfigFeatureRepoOptionFlag {
    type V = RepoFlagV;

    open spec fn deep_view(&self) -> RepoFlagV {
        self.view()
    }
}

/// The accumulated feature set of one option.
#[derive(Debug, PartialEq, Default)]
pub struct ConfigFeatures {
    pub is_repo_specific: bool,
    pub is_request_level: bool,
    pub is_private: bool,
    pub is_global_data: bool,
    pub is_unit_cache_flag: bool,
    pub repo_options_flag: Option<ConfigFeatureRepoOptionFlag>,
    pub compiler_option: Option<String>,
    pub lookup_path: Option<String>,
    pub has_no_bind: bool,
    pub has_post_process: bool,
    pub static_default: Option<String>,
}

/// Spec-level mirror of [`ConfigFeatures`].
pub struct FeaturesV {
    pub is_repo_specific: bool,
    pub is_request_level: bool,
    pub is_private: bool,
    pub is_global_data: bool,
    pub is_unit_cache_flag: bool,
    pub repo_options_flag: Option<RepoFlagV>,
    pub compiler_option: Option<Seq<char>>,
    pub lookup_path: Option<Seq<char>>,
    pub has_no_bind: bool,
    pub has_post_process: bool,
    pub static_default: Option<Seq<char>>,
}

impl View for ConfigFeatures {
    type V = FeaturesV;

    open spec fn view(&self) -> FeaturesV {
        FeaturesV {
            is_repo_specific: self.is_repo_specific,
            is_request_level: self.is_request_level,
            is_private: self.is_private,
            is_global_data: self.is_global_data,
            is_unit_cache_flag: self.is_unit_cache_flag,
            repo_options_flag: self.repo_options_flag.deep_view(),
            compiler_option: self.compiler_option.deep_view(),
            lookup_path: self.lookup_path.deep_view(),
            has_no_bind: self.has_no_bind,
            has_post_process: self.has_post_process,
            static_default: self.static_default.deep_view(),
        }
    }
}

impl DeepView for ConfigFeatures {
    type V = FeaturesV;

    open spec fn deep_view(&self) -> FeaturesV {
        self.view()
    }
}

/// The closed vocabulary of option value types.
#[derive(Debug, PartialEq, Eq, Structural, Clone, Copy)]
pub enum ConfigType {
    Bool,
    Int,
    Double,
    Int8t,
    Int16t,
    Int32t,
    Int64t,
    UInt8t,
    UInt16t,
    UInt32t,
    UInt64t,
    StdString,
    StdVectorStdString,
    StdSetStdString,
    StdMapStdStringStdString,
    BoostFlatSetStdString,
}

/// One option declaration.
#[derive(Debug, PartialEq)]
pub struct Config {
    pub type_: ConfigType,
    pub name: String,
    pub default_value: Option<ConfigValue>,
    pub owner: Option<String>,
    pub description: Option<String>,
    pub features: ConfigFeatures,
}

/// Spec-level mirror of [`Config`].
pub struct ConfigV {
    pub type_: ConfigType,
    pub name: Seq<char>,
    pub default_value: Option<ValueV>,
    pub owner: Option<Seq<char>>,
    pub description: Option<Seq<char>>,
    pub features: FeaturesV,
}

impl View for Config {
    type V = ConfigV;

    open spec fn view(&self) -> ConfigV {
        ConfigV {
            type_: self.type_,
            name: self.name@,
            default_value: self.default_value.deep_view(),
            owner: self.owner.deep_view(),
            description: self.description.deep_view(),
            features: self.features@,
        }
    }
}

impl DeepView for Config {
    type V = ConfigV;

    open spec fn deep_view(&self) -> ConfigV {
        self.view()
    }
}

/// One named group of options sharing a dotted name prefix.
#[derive(Debug, PartialEq)]
pub struct ConfigSection {
    pub name: String,
    pub prefix: Option<String>,
    pub description: Option<String>,
    pub configs: Vec<Config>,
}

/// Spec-level mirror of [`ConfigSection`].
pub struct SectionV {
    pub name: Seq<char>,
    pub prefix: Option<Seq<char>>,
    pub description: Option<Seq<char>>,
    pub configs: Seq<ConfigV>,
}

impl View for ConfigSection {
    type V = SectionV;

    open spec fn view(&self) -> SectionV {
        SectionV {
            name: self.name@,
            prefix: self.prefix.deep_view(),
            description: self.description.deep_view(),
            configs: self.configs.deep_view(),
        }
    }
}

impl DeepView for ConfigSection {
    type V = SectionV;

    open spec fn deep_view(&self) -> SectionV {
        self.view()
    }
}

/// A fatal generation-time error.
#[derive(Debug, PartialEq, Clone)]
pub enum GenError {
    /// A symbolic default names an option in no known section.
    UnresolvedReference(String),
    /// An option needs a literal default (for `nobind` initialization, or for
    /// the library-default path of a `repooptionsflag` option) but has none.
    MissingRequiredDefault(String),
}

/// Spec-level mirror of [`GenError`].
pub enum GenErrV {
    UnresolvedReference(Seq<char>),
    MissingRequiredDefault(Seq<char>),
}

impl View for GenError {
    type V = GenErrV;

    open spec fn view(&self) -> GenErrV {
        match self {
            GenError::UnresolvedReference(s) => GenErrV::UnresolvedReference(s@),
            GenError::MissingRequiredDefault(s) => GenErrV::MissingRequiredDefault(s@),
        }
    }
}

impl DeepView for GenError {
    type V = GenErrV;

    open spec fn deep_view(&self) -> GenErrV {
        self.view()
    }
}

impl GenError {
    /// A human-readable description of the error.
    pub fn message(&self) -> (r: String)
        ensures
            r@ == match self@ {
                GenErrV::UnresolvedReference(n) => "unknown section prefix in "@ + n,
                GenErrV::MissingRequiredDefault(n) => "a constant default value is required for "@
                    + n,
            },
    {
        match self {
            GenError::UnresolvedReference(n) => {
                let mut m = "unknown section prefix in ".to_owned();
                m.append(n.as_str());
                m
            },
            GenError::MissingRequiredDefault(n) => {
                let mut m = "a constant default value is required for ".to_owned();
                m.append(n.as_str());
                m
            },
        }
    }
}

/// One generated output: a file name and its full text.
#[derive(Debug, PartialEq)]
pub struct Artifact {
    pub name: String,
    pub content: String,
}

/// Spec-level mirror of [`Artifact`].
pub struct ArtifactV {
    pub name: Seq<char>,
    pub content: Seq<char>,
}

impl View for Artifact {
    type V = ArtifactV;

    open spec fn view(&self) -> ArtifactV {
        ArtifactV { name: self.name@, content: self.content@ }
    }
}

impl DeepView for Artifact {
    type V = ArtifactV;

    open spec fn deep_view(&self) -> ArtifactV {
        self.view()
    }
}

impl ConfigType {
    /// The rendered type name.
    pub open spec fn sp_str(self) -> Seq<char> {
        match self {
            ConfigType::Bool => "bool"@,
            ConfigType::Int => "int"@,
            ConfigType::Double => "double"@,
            ConfigType::Int8t => "int8_t"@,
            ConfigType::Int16t => "int16_t"@,
            ConfigType::Int32t => "int32_t"@,
            ConfigType::Int64t => "int64_t"@,
            ConfigType::UInt8t => "uint8_t"@,
            ConfigType::UInt16t => "uint16_t"@,
            ConfigType::UInt32t => "uint32_t"@,
            ConfigType::UInt64t => "uint64_t"@,
            ConfigType::StdString => "std::string"@,
            ConfigType::StdVectorStdString => "std::vector<std::string>"@,
            ConfigType::StdSetStdString => "std::set<std::string>"@,
            ConfigType::StdMapStdStringStdString => "std::map<std::string,std::string>"@,
            ConfigType::BoostFlatSetStdString => "boost::container::flat_set<std::string>"@,
        }
    }

    /// The auxiliary headers the rendered type needs.
    pub open spec fn sp_includes(self) -> Seq<Seq<char>> {
        match self {
            ConfigType::Bool | ConfigType::Double | ConfigType::Int => Seq::empty(),
            ConfigType::Int8t | ConfigType::Int16t | ConfigType::Int32t | ConfigType::Int64t
                | ConfigType::UInt8t | ConfigType::UInt16t | ConfigType::UInt32t
                | ConfigType::UInt64t => seq!["cstdint"@],
            ConfigType::StdString => seq!["string"@],
            ConfigType::StdVectorStdString => seq!["vector"@, "string"@],
            ConfigType::StdSetStdString => seq!["set"@, "string"@],
            ConfigType::StdMapStdStringStdString => seq!["map"@, "string"@],
            ConfigType::BoostFlatSetStdString => seq!["boost/container/flat_set.hpp"@, "string"@],
        }
    }

    /// The zero-value literal used for static initialization.
    pub open spec fn sp_default(self) -> Seq<char> {
        match self {
            ConfigType::Bool => "false"@,
            ConfigType::Double => "0.0"@,
            ConfigType::Int | ConfigType::Int8t | ConfigType::Int16t | ConfigType::Int32t
                | ConfigType::Int64t | ConfigType::UInt8t | ConfigType::UInt16t
                | ConfigType::UInt32t | ConfigType::UInt64t => "0"@,
            ConfigType::StdString => "\"\""@,
            ConfigType::StdVectorStdString => "{}"@,
            ConfigType::StdSetStdString => "{}"@,
            ConfigType::StdMapStdStringStdString => "{}"@,
            ConfigType::BoostFlatSetStdString => "{}"@,
        }
    }

    /// The type name used in the repo-options table: container types use the
    /// dedicated aliases, every other type its plain rendered name.
    pub open spec fn sp_repo_option(self) -> Seq<char> {
        match self {
            ConfigType::StdVectorStdString => "Cfg::StringVector"@,
            ConfigType::StdSetStdString => "Cfg::StringSet"@,
            ConfigType::StdMapStdStringStdString => "Cfg::StringStringMap"@,
            ConfigType::BoostFlatSetStdString => "Cfg::StringBoostFlatSet"@,
            _ => self.sp_str(),
        }
    }

    /// The rendered type name.
    pub fn str(&self) -> (r: &'static str)
        ensures
            r@ == self.sp_str(),
    {
        match *self {
            ConfigType::Bool => "bool",
            ConfigType::Int => "int",
            ConfigType::Double => "double",
            ConfigType::Int8t => "int8_t",
            ConfigType::Int16t => "int16_t",
            ConfigType::Int32t => "int32_t",
            ConfigType::Int64t => "int64_t",
            ConfigType::UInt8t => "uint8_t",
            ConfigType::UInt16t => "uint16_t",
            ConfigType::UInt32t => "uint32_t",
            ConfigType::UInt64t => "uint64_t",
            ConfigType::StdString => "std::string",
            ConfigType::StdVectorStdString => "std::vector<std::string>",
            ConfigType::StdSetStdString => "std::set<std::string>",
            ConfigType::StdMapStdStringStdString => "std::map<std::string,std::string>",
            ConfigType::BoostFlatSetStdString => "boost::container::flat_set<std::string>",
        }
    }

    /// The auxiliary headers the rendered type needs.
    pub fn includes(&self) -> (r: Vec<&'static str>)
        ensures
            r.deep_view() == self.sp_includes(),
    {
        let r: Vec<&'static str> = match *self {
            ConfigType::Bool | ConfigType::Double | ConfigType::Int => vec![],
            ConfigType::Int8t | ConfigType::Int16t | ConfigType::Int32t | ConfigType::Int64t
                | ConfigType::UInt8t | ConfigType::UInt16t | ConfigType::UInt32t
                | ConfigType::UInt64t => vec!["cstdint"],
            ConfigType::StdString => vec!["string"],
            ConfigType::StdVectorStdString => vec!["vector", "string"],
            ConfigType::StdSetStdString => vec!["set", "string"],
            ConfigType::StdMapStdStringStdString => vec!["map", "string"],
            ConfigType::BoostFlatSetStdString => vec!["boost/container/flat_set.hpp", "string"],
        };
        proof {
            assert(r.deep_view() =~= self.sp_includes());
        }
        r
    }

    /// The zero-value literal used for static initialization.
    pub fn default(&self) -> (r: &'static str)
        ensures
            r@ == self.sp_default(),
    {
        match *self {
            ConfigType::Bool => "false",
            ConfigType::Double => "0.0",
            ConfigType::Int | ConfigType::Int8t | ConfigType::Int16t | ConfigType::Int32t
                | ConfigType::Int64t | ConfigType::UInt8t | ConfigType::UInt16t
                | ConfigType::UInt32t | ConfigType::UInt64t => "0",
            ConfigType::StdString => "\"\"",
            ConfigType::StdVectorStdString => "{}",
            ConfigType::StdSetStdString => "{}",
            ConfigType::StdMapStdStringStdString => "{}",
            ConfigType::BoostFlatSetStdString => "{}",
        }
    }

    /// The type name used in the repo-options table.
    pub fn repo_option(&self) -> (r: &'static str)
        ensures
            r@ == self.sp_repo_option(),
    {
        match *self {
            ConfigType::StdVectorStdString => "Cfg::StringVector",
            ConfigType::StdSetStdString => "Cfg::StringSet",
            ConfigType::StdMapStdStringStdString => "Cfg::StringStringMap",
            ConfigType::BoostFlatSetStdString => "Cfg::StringBoostFlatSet",
            _ => self.str(),
        }
    }
}

/// The short identifier of an option: its name minus the owning section's
/// dotted prefix, with the remaining dots removed.
pub open spec fn sp_shortname(name: Seq<char>, section_name: Seq<char>) -> Seq<char> {
    sp_remove_dots(name.skip(section_name.len() as int + 1))
}

/// Whether an option's dotted name starts with its section's name plus a dot.
pub open spec fn wf_config(c: ConfigV, section_name: Seq<char>) -> bool {
    sp_starts_with(c.name, section_name + "."@)
}

/// Whether every option of the section carries the section's dotted prefix.
pub open spec fn wf_section(s: SectionV) -> bool {
    forall|i: int| 0 <= i < s.configs.len() ==> wf_config(#[trigger] s.configs[i], s.name)
}

/// Whether every section of the document is well-formed.
pub open spec fn wf_sections(ss: Seq<SectionV>) -> bool {
    forall|i: int| 0 <= i < ss.len() ==> wf_section(#[trigger] ss[i])
}

/// Resolution of a symbolic name against the known section names, scanning in
/// order from index `i`: the first section whose dotted prefix (plus the
/// joining dot) starts the name wins; the reference is rendered into that
/// section's generated namespace.
pub open spec fn sp_resolve_name(n: Seq<char>, names: Seq<Seq<char>>, i: int) -> Result<
    Seq<char>,
    GenErrV,
>
    decreases names.len() - i,
{
    if i < 0 || i >= names.len() {
        Err(GenErrV::UnresolvedReference(n))
    } else if sp_starts_with(n, names[i] + "."@) {
        Ok("Cfg::"@ + sp_remove_dots(names[i]) + "::"@ + sp_remove_dots(n.skip(names[i].len() as int + 1)))
    } else {
        sp_resolve_name(n, names, i + 1)
    }
}

/// The rendered form of a default value: a constant stays as written, a
/// symbolic name resolves against the known section names.
pub open spec fn sp_resolve(v: ValueV, names: Seq<Seq<char>>) -> Result<Seq<char>, GenErrV> {
    match v {
        ValueV::Const(s) => Ok(s),
        ValueV::Name(n) => sp_resolve_name(n, names, 0),
    }
}

impl ConfigValue {
    /// The rendered form of this value, resolving a symbolic name against the
    /// known section names; fails when no section's prefix matches.
    pub fn string(&self, section_names: &Vec<String>) -> (r: Result<String, GenError>)
        ensures
            match r {
                Ok(s) => sp_resolve(self@, section_names.deep_view()) == Ok::<Seq<char>, GenErrV>(
                    s@,
                ),
                Err(e) => sp_resolve(self@, section_names.deep_view()) == Err::<
                    Seq<char>,
                    GenErrV,
                >(e@),
            },
    {
        match self {
            ConfigValue::Const(v) => Ok(v.clone()),
            ConfigValue::Name(v) => {
                let n: usize = v.unicode_len();
                let mut i: usize = 0;
                while i < section_names.len()
                    invariant
                        i <= section_names.len(),
                        n == v@.len(),
                        self@ == ValueV::Name(v@),
                        sp_resolve_name(v@, section_names.deep_view(), 0) == sp_resolve_name(
                            v@,
                            section_names.deep_view(),
                            i as int,
                        ),
                    decreases section_names.len() - i,
                {
                    let sn = &section_names[i];
                    let pre = sn.clone().concat(".");
                    proof {
                        assert(pre@ == section_names.deep_view()[i as int] + "."@);
                    }
                    if starts_with(v.as_str(), pre.as_str()) {
                        let k: usize = sn.unicode_len();
                        proof {
                            reveal_strlit(".");
                            assert(pre@.len() == k + 1);
                            assert(k + 1 <= n);
                        }
                        let mut out = "Cfg::".to_owned();
                        out.append(remove_dots(sn.as_str()).as_str());
                        out.append("::");
                        let rest = suffix_from(v.as_str(), k + 1);
                        out.append(remove_dots(rest.as_str()).as_str());
                        proof {
                            let dv = section_names.deep_view();
                            assert(dv[i as int] == section_names@[i as int]@);
                            assert(sp_starts_with(v@, dv[i as int] + "."@));
                            assert(out@ == "Cfg::"@ + sp_remove_dots(dv[i as int]) + "::"@
                                + sp_remove_dots(v@.skip(dv[i as int].len() as int + 1)));
                            assert(sp_resolve_name(v@, dv, i as int) == Ok::<Seq<char>, GenErrV>(
                                out@,
                            ));
                            assert(self@ == ValueV::Name(v@));
                            assert(sp_resolve(self@, dv) == sp_resolve_name(v@, dv, 0));
                        }
                        return Ok(out);
                    }
                    proof {
                        let dv = section_names.deep_view();
                        assert(!sp_starts_with(v@, dv[i as int] + "."@));
                        assert(sp_resolve_name(v@, dv, i as int) == sp_resolve_name(
                            v@,
                            dv,
                            i as int + 1,
                        ));
                    }
                    i = i + 1;
                }
                Err(GenError::UnresolvedReference(v.clone()))
            },
        }
    }
}

impl Config {
    /// The option's short identifier inside its section: the name minus the
    /// section's dotted prefix, with remaining dots removed.
    pub fn shortname(&self, section_name: &str) -> (r: String)
        requires
            wf_config(self@, section_name@),
        ensures
            r@ == sp_shortname(self.name@, section_name@),
    {
        let k: usize = section_name.unicode_len();
        let n: usize = self.name.as_str().unicode_len();
        proof {
            reveal_strlit(".");
            assert((section_name@ + "."@).len() == k + 1);
            assert(k + 1 <= n);
        }
        let rest = suffix_from(self.name.as_str(), k + 1);
        remove_dots(rest.as_str())
    }

    /// The on-disk lookup path used when binding this option: an explicit
    /// `lookuppath` override wins; else, with a section prefix, the prefix
    /// plus the name minus the section's dotted prefix; else the full name.
    pub fn hdf_path(&self, section: &ConfigSection) -> (r: String)
        requires
            wf_config(self@, section.name@),
        ensures
            r@ == sp_hdf_path(self@, section@),
    {
        if let Some(lookup_path) = &self.features.lookup_path {
            return lookup_path.clone();
        }
        match &section.prefix {
            Some(prefix) => {
                let k: usize = section.name.unicode_len();
                let n: usize = self.name.as_str().unicode_len();
                proof {
                    reveal_strlit(".");
                    assert((section.name@ + "."@).len() == k + 1);
                    assert(k + 1 <= n);
                }
                let rest = suffix_from(self.name.as_str(), k + 1);
                let mut out = prefix.clone();
                out.append(rest.as_str());
                out
            },
            None => self.name.clone(),
        }
    }
}

/// The on-disk lookup path of an option (see [`Config::hdf_path`]).
pub open spec fn sp_hdf_path(c: ConfigV, s: SectionV) -> Seq<char> {
    match c.features.lookup_path {
        Some(p) => p,
        None => match s.prefix {
            Some(prefix) => prefix + c.name.skip(s.name.len() as int + 1),
            None => c.name,
        },
    }
}

impl ConfigSection {
    /// The section's generated identifier: its dotted name with dots removed.
    pub fn shortname(&self) -> (r: String)
        ensures
            r@ == sp_remove_dots(self.name@),
    {
        remove_dots(self.name.as_str())
    }
}

/// Whether every option of `sections` carries its section's dotted prefix,
/// so that short identifiers and lookup paths are defined.  The generators
/// require this; it holds of any document whose option names follow the
/// grammar's naming rule.
pub fn check_sections(sections: &Vec<ConfigSection>) -> (r: bool)
    ensures
        r == wf_sections(sections.deep_view()),
{
    let mut i: usize = 0;
    while i < sections.len()
        invariant
            i <= sections.len(),
            forall|k: int| 0 <= k < i ==> wf_section(#[trigger] sections.deep_view()[k]),
        decreases sections.len() - i,
    {
        let section = &sections[i];
        let pre = section.name.clone().concat(".");
        let mut j: usize = 0;
        while j < section.configs.len()
            invariant
                j <= section.configs.len(),
                i < sections@.len(),
                section@ == sections.deep_view()[i as int],
                pre@ == section@.name + "."@,
                forall|k: int| 0 <= k < j ==> wf_config(
                    #[trigger] section@.configs[k],
                    section@.name,
                ),
            decreases section.configs.len() - j,
        {
            if !starts_with(section.configs[j].name.as_str(), pre.as_str()) {
                proof {
                    assert(section@.configs[j as int] == section.configs[j as int]@);
                    assert(!wf_config(section@.configs[j as int], section@.name));
                    assert(!wf_section(sections.deep_view()[i as int]));
                }
                return false;
            }
            proof {
                assert(section@.configs[j as int] == section.configs[j as int]@);
                assert(wf_config(section@.configs[j as int], section@.name));
            }
            j = j + 1;
        }
        proof {
            assert(sections.deep_view().len() == sections@.len());
            assert(sections.deep_view()[i as int] == sections@[i as int].deep_view());
            assert(wf_section(sections.deep_view()[i as int]));
        }
        i = i + 1;
    }
    true
}


/// Whether every option of every section has a unique short identifier and
/// carries its section's dotted prefix, together the document invariants the
/// generators rely on.
pub open spec fn sp_sections_shortnames_unique(ss: Seq<SectionV>) -> bool {
    forall|i: int| 0 <= i < ss.len() ==> sp_shortnames_unique(#[trigger] ss[i])
}

/// Whether every option's short identifier is unique within its section, for
/// every section of the document.  The generators require this: short
/// identifiers become field and method names of the generated code.
pub fn sections_shortnames_unique(sections: &Vec<ConfigSection>) -> (r: bool)
    requires
        wf_sections(sections.deep_view()),
    ensures
        r == sp_sections_shortnames_unique(sections.deep_view()),
{
    let mut i: usize = 0;
    while i < sections.len()
        invariant
            i <= sections.len(),
            wf_sections(sections.deep_view()),
            forall|k: int| 0 <= k < i ==> sp_shortnames_unique(
                #[trigger] sections.deep_view()[k],
            ),
        decreases sections.len() - i,
    {
        proof {
            assert(sections.deep_view()[i as int] == sections@[i as int].deep_view());
            assert(wf_section(sections[i as int]@));
        }
        if !shortnames_unique(&sections[i]) {
            return false;
        }
        i = i + 1;
    }
    true
}

/// Whether the short identifiers of a section's options are pairwise
/// distinct.  Each becomes a field and method name in the generated code, so
/// a document should satisfy this for every section.
pub open spec fn sp_shortnames_unique(sec: SectionV) -> bool {
    forall|a: int, b: int|
        0 <= a < b < sec.configs.len() ==> sp_shortname(
            (#[trigger] sec.configs[a]).name,
            sec.name,
        ) != sp_shortname((#[trigger] sec.configs[b]).name, sec.name)
}

/// Check that every option's short identifier — its name minus the section's
/// dotted prefix, remaining dots removed — is unique within the section.
pub fn shortnames_unique(section: &ConfigSection) -> (r: bool)
    requires
        wf_section(section@),
    ensures
        r == sp_shortnames_unique(section@),
{
    let mut shorts: Vec<String> = Vec::new();
    let mut j: usize = 0;
    while j < section.configs.len()
        invariant
            j <= section.configs.len(),
            wf_section(section@),
            shorts@.len() == j,
            forall|k: int| 0 <= k < j ==> shorts@[k]@ == sp_shortname(
                (#[trigger] section@.configs[k]).name,
                section@.name,
            ),
        decreases section.configs.len() - j,
    {
        proof {
            assert(wf_config(section@.configs[j as int], section@.name));
        }
        shorts.push(section.configs[j].shortname(section.name.as_str()));
        j = j + 1;
    }
    let mut a: usize = 0;
    while a < shorts.len()
        invariant
            a <= shorts.len(),
            shorts@.len() == section@.configs.len(),
            forall|k: int| 0 <= k < shorts@.len() ==> shorts@[k]@ == sp_shortname(
                (#[trigger] section@.configs[k]).name,
                section@.name,
            ),
            forall|x: int, y: int| 0 <= x < y < shorts@.len() && x < a ==> sp_shortname(
                (#[trigger] section@.configs[x]).name,
                section@.name,
            ) != sp_shortname((#[trigger] section@.configs[y]).name, section@.name),
        decreases shorts.len() - a,
    {
        let mut b: usize = a + 1;
        while b < shorts.len()
            invariant
                a < b <= shorts@.len() || (a + 1 == b && b >= shorts@.len()),
                a < shorts@.len(),
                shorts@.len() == section@.configs.len(),
                forall|k: int| 0 <= k < shorts@.len() ==> shorts@[k]@ == sp_shortname(
                    (#[trigger] section@.configs[k]).name,
                    section@.name,
                ),
                forall|y: int| a < y < b ==> sp_shortname(
                    (#[trigger] section@.configs[a as int]).name,
                    section@.name,
                ) != sp_shortname((#[trigger] section@.configs[y]).name, section@.name),
            decreases shorts.len() - b,
        {
            if shorts[a].eq(&shorts[b]) {
                proof {
                    assert(sp_shortname(section@.configs[a as int].name, section@.name)
                        == sp_shortname(section@.configs[b as int].name, section@.name));
                }
                return false;
            }
            b = b + 1;
        }
        a = a + 1;
    }
    true
}

} // verus!

