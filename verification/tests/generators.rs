use cfggen::defs::generate_defs;
use cfggen::model::sections_shortnames_unique;
use cfggen::model::shortnames_unique;
use cfggen::loader::generate_loader;
use cfggen::model::check_sections;
use cfggen::model::ConfigValue;
use cfggen::model::GenError;
use cfggen::parse::parse_option_doc;

#[test]
fn defs_for_simple_bool_section() {
    let doc = "prose\n\n# Foo.Bar\n\n- bool Foo.Bar.Enabled = true, UNKNOWN\n";
    let sections = parse_option_doc(doc).unwrap();
    assert!(check_sections(&sections));
    let arts = generate_defs(&sections).unwrap();
    assert_eq!(arts.len(), 2);
    assert_eq!(arts[0].name, "foobar.h");
    assert_eq!(arts[1].name, "foobar.cpp");
    assert!(arts[0].content.contains("struct FooBar {"));
    assert!(arts[0].content.contains("  static bool Enabled;"));
    // the literal `true` is the bind-time default, not the static initializer
    assert!(arts[1].content.contains("bool FooBar::Enabled = false;"));
    assert!(!arts[1].content.contains("= true"));
}

#[test]
fn defs_includes_are_sorted_and_unique() {
    let doc = "# A\n\n- std::map<std::string,std::string> A.M = {}, UNKNOWN\n- int8_t A.B = 0, UNKNOWN\n- std::string A.S = \"\", UNKNOWN\n";
    let sections = parse_option_doc(doc).unwrap();
    let arts = generate_defs(&sections).unwrap();
    let h = &arts[0].content;
    assert!(h.contains("#include <cstdint>\n#include <map>\n#include <string>"));
}

#[test]
fn defs_private_options_in_private_part() {
    let doc = "# A\n\n- int A.Pub = 1, UNKNOWN\n- int A.Priv = 2, UNKNOWN, private\n";
    let sections = parse_option_doc(doc).unwrap();
    let arts = generate_defs(&sections).unwrap();
    let h = &arts[0].content;
    let private_at = h.find("private:").unwrap();
    assert!(h.find("static int Pub;").unwrap() < private_at);
    assert!(h.find("static int Priv;").unwrap() > private_at);
}

#[test]
fn defs_static_default_and_nobind() {
    let doc = "# A\n\n- int A.S = 9, UNKNOWN, staticdefault(5)\n- int A.N = 7, UNKNOWN, nobind\n";
    let sections = parse_option_doc(doc).unwrap();
    let arts = generate_defs(&sections).unwrap();
    let cpp = &arts[1].content;
    assert!(cpp.contains("int A::S = 5;"));
    assert!(cpp.contains("int A::N = 7;"));
}

#[test]
fn nobind_without_default_is_rejected() {
    let doc = "# A\n\n- int A.X, UNKNOWN, nobind\n";
    let sections = parse_option_doc(doc).unwrap();
    let err = generate_defs(&sections).unwrap_err();
    assert_eq!(err, GenError::MissingRequiredDefault("A.X".to_string()));
}

#[test]
fn gen_error_messages_name_the_option() {
    let e = GenError::MissingRequiredDefault("A.X".to_string());
    assert_eq!(e.message(), "a constant default value is required for A.X");
    let e = GenError::UnresolvedReference("Foo.Bar".to_string());
    assert_eq!(e.message(), "unknown section prefix in Foo.Bar");
}

#[test]
fn unresolved_reference_is_rejected() {
    let doc = "# A\n\n- int A.X = Missing.Thing, UNKNOWN, nobind\n";
    let sections = parse_option_doc(doc).unwrap();
    let err = generate_defs(&sections).unwrap_err();
    assert_eq!(err, GenError::UnresolvedReference("Missing.Thing".to_string()));
}

#[test]
fn symbolic_default_resolves_across_sections() {
    let doc = "# Foo\n\n- int Foo.Setting = 1, UNKNOWN\n\n# B\n\n- int B.Opt = Foo.Setting, UNKNOWN\n";
    let sections = parse_option_doc(doc).unwrap();
    assert_eq!(sections.len(), 2);
    let arts = generate_loader(&sections).unwrap();
    let b_cpp = &arts[3].content;
    assert_eq!(arts[3].name, "b-loader.cpp");
    assert!(b_cpp.contains("Config::Bind(Cfg::B::Opt, ini, config, \"B.Opt\", Cfg::Foo::Setting);"));
}

#[test]
fn removing_referenced_section_breaks_resolution() {
    let doc = "# B\n\n- int B.Opt = Foo.Setting, UNKNOWN\n";
    let sections = parse_option_doc(doc).unwrap();
    let err = generate_loader(&sections).unwrap_err();
    assert_eq!(err, GenError::UnresolvedReference("Foo.Setting".to_string()));
}

#[test]
fn repo_flag_symbolic_default_without_fallback_is_rejected() {
    let doc = "# A\n\n- int A.X = A.Y, UNKNOWN, repooptionsflag(Rx)\n- int A.Y = 1, UNKNOWN\n";
    let sections = parse_option_doc(doc).unwrap();
    let err = generate_loader(&sections).unwrap_err();
    assert_eq!(err, GenError::MissingRequiredDefault("A.X".to_string()));
}

#[test]
fn repo_flag_with_fallback_is_accepted() {
    let doc = "# A\n\n- int A.X = A.Y, UNKNOWN, repooptionsflag(Rx, 3)\n- int A.Y = 1, UNKNOWN\n";
    let sections = parse_option_doc(doc).unwrap();
    let arts = generate_loader(&sections).unwrap();
    let cpp = &arts[1].content;
    assert!(cpp.contains("  flags.X = 3;"));
}

#[test]
fn loader_artifacts_and_tables() {
    let doc = "# A\n\n- int A.G = 1, UNKNOWN, globaldata\n- int A.U = 2, UNKNOWN, unitcacheflag\n- std::vector<std::string> A.R = {}, UNKNOWN, repooptionsflag(Rx, {})\n";
    let sections = parse_option_doc(doc).unwrap();
    let arts = generate_loader(&sections).unwrap();
    assert_eq!(arts.len(), 6);
    assert_eq!(arts[0].name, "a-loader.h");
    assert_eq!(arts[1].name, "a-loader.cpp");
    assert_eq!(arts[2].name, "repo-global-data-generated.h");
    assert_eq!(arts[3].name, "unit-cache-generated.h");
    assert_eq!(arts[4].name, "repo-options-flags-generated.h");
    assert_eq!(arts[5].name, "configs-generated.cpp");
    assert!(arts[2].content.contains("  C(Cfg::A::G, A_G, int)\\"));
    assert!(arts[3].content.contains("  C(Cfg::A::U, A_U, int)\\"));
    assert!(arts[4].content.contains("  C(Cfg::StringVector, R)\\"));
    assert!(arts[4].content.contains("  S(ALoader)\\"));
    assert!(arts[5].content.contains("  Cfg::ALoader::Load(ini, config);"));
    assert!(arts[5].content.contains("  Cfg::ALoader::GetRepoOptionsFlags(flags, ini, config);"));
}

#[test]
fn loader_nobind_and_postprocess() {
    let doc = "# A\n\n- int A.N = 7, UNKNOWN, nobind\n- int A.P = 1, UNKNOWN, postprocess\n- int A.D, UNKNOWN\n";
    let sections = parse_option_doc(doc).unwrap();
    let arts = generate_loader(&sections).unwrap();
    let h = &arts[0].content;
    let cpp = &arts[1].content;
    // an option with no default gets a default accessor declaration
    assert!(h.contains("  static int DDefault();"));
    assert!(h.contains("  static void PPostProcess(int& value);"));
    // nobind options are not bound
    assert!(!cpp.contains("Config::Bind(Cfg::A::N"));
    assert!(cpp.contains("Config::Bind(Cfg::A::P, ini, config, \"A.P\", 1);"));
    assert!(cpp.contains("  PPostProcess(Cfg::A::P);"));
    assert!(cpp.contains("Config::Bind(Cfg::A::D, ini, config, \"A.D\", DDefault());"));
    // every non-repo option appears in the debug dump
    assert!(cpp.contains("\"Cfg::A::N = {}\\n\""));
}

#[test]
fn loader_compiler_option_and_lookup_path() {
    let doc = "# A (Pre.)\n\n- int A.C = 1, UNKNOWN, compileroption(cc.opt)\n- int A.L = 2, UNKNOWN, lookuppath(other.path)\n";
    let sections = parse_option_doc(doc).unwrap();
    let arts = generate_loader(&sections).unwrap();
    let cpp = &arts[1].content;
    assert!(cpp.contains("void ALoader::LoadForCompiler(const IniSettingMap& ini, const Hdf& config) {"));
    assert!(cpp.contains("Config::Bind(Cfg::A::C, ini, config, \"cc.opt\", 1);"));
    // a section prefix rewrites the lookup path; lookuppath overrides it
    assert!(cpp.contains("Config::Bind(Cfg::A::C, ini, config, \"Pre.C\", 1);"));
    assert!(cpp.contains("Config::Bind(Cfg::A::L, ini, config, \"other.path\", 2);"));
}

#[test]
fn repo_flag_debug_renders_placeholder() {
    let doc = "# A\n\n- int A.R = 1, UNKNOWN, repooptionsflag(Rx)\n";
    let sections = parse_option_doc(doc).unwrap();
    let arts = generate_loader(&sections).unwrap();
    let cpp = &arts[1].content;
    assert!(cpp.contains("\"Cfg::A::R = Repo Option Flag so UNKNOWN!\\n\""));
    assert!(cpp.contains("  hdfExtract(config, \"Rx.A.R\", flags.R, default_flags.R);"));
}

#[test]
fn shortname_uniqueness_checked() {
    let doc = "# A\n\n- int A.B.C = 1, UNKNOWN\n- int A.BC = 2, UNKNOWN\n";
    let sections = parse_option_doc(doc).unwrap();
    assert!(check_sections(&sections));
    assert!(!shortnames_unique(&sections[0]));
    assert!(!sections_shortnames_unique(&sections));
    let doc = "# A\n\n- int A.B.C = 1, UNKNOWN\n- int A.D = 2, UNKNOWN\n";
    let sections = parse_option_doc(doc).unwrap();
    assert!(shortnames_unique(&sections[0]));
}

#[test]
fn check_sections_spots_foreign_prefix() {
    let doc = "# A\n\n- int B.X = 1, UNKNOWN\n";
    let sections = parse_option_doc(doc).unwrap();
    assert!(!check_sections(&sections));
}

#[test]
fn resolved_reference_strips_dots() {
    let doc = "# Foo.Bar\n\n- int Foo.Bar.Deep.Val = 1, UNKNOWN\n\n# B\n\n- int B.Opt = Foo.Bar.Deep.Val, UNKNOWN\n";
    let sections = parse_option_doc(doc).unwrap();
    let v = ConfigValue::Name("Foo.Bar.Deep.Val".to_string());
    let names = vec!["Foo.Bar".to_string(), "B".to_string()];
    assert_eq!(v.string(&names).unwrap(), "Cfg::FooBar::DeepVal");
    let arts = generate_loader(&sections).unwrap();
    assert!(arts[3].content.contains("Cfg::FooBar::DeepVal"));
}
