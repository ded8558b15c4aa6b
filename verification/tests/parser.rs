use cfggen::model::ConfigFeatureRepoOptionFlag;
use cfggen::model::ConfigType;
use cfggen::model::ConfigValue;
use cfggen::parse::parse_config;
use cfggen::parse::parse_num_expr;
use cfggen::parse::parse_option_doc;
use cfggen::parse::parse_string;
use cfggen::parse::parse_type;
use cfggen::text::to_chars;

#[test]
fn test_parse_string() {
    let s = to_chars(r#""foo""#);
    let res = parse_string(&s, 0);
    assert_eq!(res, Some(s.len()));
    let s = to_chars(r#""f\\\"o\"o""#);
    let res = parse_string(&s, 0);
    assert_eq!(res, Some(s.len()));
}

#[test]
fn test_parse_num_expr() {
    let s = to_chars(r#"1 + 2 * 3 - 4 / 5 << 6"#);
    assert_eq!(parse_num_expr(&s, 0), Some(s.len()));
    let s = to_chars(r#"( 1 + 2 )"#);
    assert_eq!(parse_num_expr(&s, 0), Some(s.len()));
    let s = to_chars(r#"((25 << 10) + 1)"#);
    assert_eq!(parse_num_expr(&s, 0), Some(s.len()));
    let s = to_chars(r#"(25 << 10) + 1"#);
    assert_eq!(parse_num_expr(&s, 0), Some(s.len()));
    let s = to_chars(r#"15 - (25 << 10) + 1"#);
    assert_eq!(parse_num_expr(&s, 0), Some(s.len()));
}

#[test]
fn parse_num_expr_nested_parens() {
    let s = to_chars("((1 + 2) * 3)");
    assert_eq!(parse_num_expr(&s, 0), Some(s.len()));
}

#[test]
fn parse_string_keeps_escapes() {
    // A backslash-escaped quote inside the literal must not close it.
    let s = to_chars(r#""f\"o""#);
    assert_eq!(parse_string(&s, 0), Some(s.len()));
    // An unescaped quote closes the literal early.
    let s = to_chars(r#""f"o""#);
    assert_eq!(parse_string(&s, 0), Some(3));
    // A backslash before anything else is not an escape.
    let s = to_chars(r#""f\x""#);
    assert_eq!(parse_string(&s, 0), None);
}

#[test]
fn parsing_is_deterministic() {
    let doc = "intro text\n# A\n\n- int A.X = 1, UNKNOWN\n\n- bool A.Y = true, Alice\n";
    let first = parse_option_doc(doc).unwrap();
    let second = parse_option_doc(doc).unwrap();
    assert_eq!(first, second);
}

#[test]
fn parse_type_longest_keyword_wins() {
    let s = to_chars("int8_t");
    assert_eq!(parse_type(&s, 0), Some((6, ConfigType::Int8t)));
    let s = to_chars("int ");
    assert_eq!(parse_type(&s, 0), Some((3, ConfigType::Int)));
    let s = to_chars("uint64_t");
    assert_eq!(parse_type(&s, 0), Some((8, ConfigType::UInt64t)));
    let s = to_chars("std::map<std::string,std::string>");
    assert_eq!(parse_type(&s, 0), Some((s.len(), ConfigType::StdMapStdStringStdString)));
}

#[test]
fn parse_config_fields() {
    let s = to_chars("- bool Foo.Bar.Enabled = true, UNKNOWN\n");
    let (_, c) = parse_config(&s, 0).unwrap();
    assert_eq!(c.type_, ConfigType::Bool);
    assert_eq!(c.name, "Foo.Bar.Enabled");
    assert_eq!(c.default_value, Some(ConfigValue::Const("true".to_string())));
    assert_eq!(c.owner, None);
    assert_eq!(c.description, None);
}

#[test]
fn parse_config_owner_and_symbolic_default() {
    let s = to_chars("- int A.X = B.Y, Alice\n");
    let (_, c) = parse_config(&s, 0).unwrap();
    assert_eq!(c.default_value, Some(ConfigValue::Name("B.Y".to_string())));
    assert_eq!(c.owner, Some("Alice".to_string()));
}

#[test]
fn parse_config_features() {
    let s = to_chars(
        "- std::string A.Str = \"x\", Alice, private|globaldata|unitcacheflag|repooptionsflag(Rx, 42)|nobind|compileroption(cc.name)|lookuppath(lp)|postprocess|staticdefault(7)\n",
    );
    let (_, c) = parse_config(&s, 0).unwrap();
    let f = &c.features;
    assert!(f.is_private);
    assert!(f.is_global_data);
    assert!(f.is_unit_cache_flag);
    assert_eq!(
        f.repo_options_flag,
        Some(ConfigFeatureRepoOptionFlag {
            prefix: "Rx".to_string(),
            default_value: Some("42".to_string()),
        })
    );
    assert!(f.has_no_bind);
    assert_eq!(f.compiler_option, Some("cc.name".to_string()));
    assert_eq!(f.lookup_path, Some("lp".to_string()));
    assert!(f.has_post_process);
    assert_eq!(f.static_default, Some("7".to_string()));
}

#[test]
fn feature_order_does_not_matter() {
    let a = to_chars("- int A.X = 1, UNKNOWN, private|globaldata\n");
    let b = to_chars("- int A.X = 1, UNKNOWN, globaldata|private\n");
    let (_, ca) = parse_config(&a, 0).unwrap();
    let (_, cb) = parse_config(&b, 0).unwrap();
    assert_eq!(ca.features, cb.features);
}

#[test]
fn description_needs_exactly_two_newlines() {
    let doc = "# A\n\n- int A.X = 1, UNKNOWN\n\n  described here\n  and here\n";
    let sections = parse_option_doc(doc).unwrap();
    assert_eq!(
        sections[0].configs[0].description,
        Some("described here\nand here".to_string())
    );
    let doc = "# A\n\n- int A.X = 1, UNKNOWN\n- int A.Y = 2, UNKNOWN\n";
    let sections = parse_option_doc(doc).unwrap();
    assert_eq!(sections[0].configs.len(), 2);
    assert_eq!(sections[0].configs[0].description, None);
}

#[test]
fn section_with_prefix_and_description() {
    let doc = "leading prose\n\n# Foo.Bar (Custom.)\n\n  section docs\n\n- int Foo.Bar.N = 0, UNKNOWN\n";
    let sections = parse_option_doc(doc).unwrap();
    assert_eq!(sections.len(), 1);
    assert_eq!(sections[0].name, "Foo.Bar");
    assert_eq!(sections[0].prefix, Some("Custom.".to_string()));
    assert_eq!(sections[0].description, Some("section docs".to_string()));
    assert_eq!(sections[0].configs.len(), 1);
}

#[test]
fn document_without_sections_fails() {
    let err = parse_option_doc("no marker anywhere\n").unwrap_err();
    assert_eq!(err.pos, 0);
}

#[test]
fn malformed_section_fails() {
    assert!(parse_option_doc("# A\n\njunk that is no option\n").is_err());
}

#[test]
fn malformed_default_value_fails_hard() {
    let err = parse_option_doc("# A\n\n- int A.X = @bad, UNKNOWN\n").unwrap_err();
    assert!(err.hard);
}

#[test]
fn parse_errors_carry_position_and_trail() {
    let doc = "# A\n\n- int A.X = @bad, UNKNOWN\n";
    let err = parse_option_doc(doc).unwrap_err();
    assert!(err.hard);
    assert_eq!(err.trace, vec!["default value", "config", "section"]);
    assert_eq!(err.pos, doc.find('@').unwrap());
    let err = parse_option_doc("no marker anywhere\n").unwrap_err();
    assert!(!err.hard);
    assert_eq!(err.trace, vec!["document"]);
    assert_eq!(err.pos, 0);
}

#[test]
fn unterminated_option_reports_input_end() {
    let doc = "# A\n\n- int A.X";
    let err = parse_option_doc(doc).unwrap_err();
    assert_eq!(err.pos, doc.chars().count());
}
