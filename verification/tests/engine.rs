use enums::case::convert;
use enums::case::CaseStyle;
use enums::config::case_of_keyword;
use enums::config::parse_options;
use enums::config::ArgToken;
use enums::config::ConfigError;
use enums::mapping::generate;
use enums::mapping::Mapping;

fn case_args(keyword: &str) -> Vec<ArgToken> {
    vec![
        ArgToken::Ident(String::from("case")),
        ArgToken::Equals,
        ArgToken::LitStr(String::from(keyword)),
    ]
}

#[test]
fn snake_scenario() {
    assert_eq!(convert("ThisIs", CaseStyle::Snake), "this_is");
}

#[test]
fn kebab_scenario() {
    assert_eq!(convert("ThisIs", CaseStyle::Kebab), "this-is");
}

#[test]
fn upper_camel_scenario() {
    assert_eq!(convert("ThisIs", CaseStyle::UpperCamel), "ThisIs");
}

#[test]
fn lower_camel_scenario() {
    assert_eq!(convert("ThisIs", CaseStyle::LowerCamel), "thisIs");
}

#[test]
fn shouty_snake_scenario() {
    assert_eq!(convert("ThisIs", CaseStyle::ShoutySnake), "THIS_IS");
}

#[test]
fn shouty_kebab_scenario() {
    assert_eq!(convert("ThisIs", CaseStyle::ShoutyKebab), "THIS-IS");
}

#[test]
fn title_scenario() {
    assert_eq!(convert("ThisIs", CaseStyle::Title), "This Is");
}

#[test]
fn train_scenario() {
    assert_eq!(convert("ThisIs", CaseStyle::Train), "This-Is");
}

#[test]
fn identity_keeps_spelling() {
    assert_eq!(convert("ThisIs", CaseStyle::Identity), "ThisIs");
    assert_eq!(convert("snake_already", CaseStyle::Identity), "snake_already");
    assert_eq!(convert("", CaseStyle::Identity), "");
}

#[test]
fn conversion_is_deterministic() {
    for _ in 0..3 {
        assert_eq!(convert("ThisIs", CaseStyle::Snake), "this_is");
        assert_eq!(convert("ThisIs", CaseStyle::Title), "This Is");
    }
}

#[test]
fn keyword_lookup() {
    assert_eq!(case_of_keyword("snake"), Some(CaseStyle::Snake));
    assert_eq!(case_of_keyword("kebab"), Some(CaseStyle::Kebab));
    assert_eq!(case_of_keyword("title"), Some(CaseStyle::Title));
    assert_eq!(case_of_keyword("train"), Some(CaseStyle::Train));
    assert_eq!(case_of_keyword("lower-camel"), Some(CaseStyle::LowerCamel));
    assert_eq!(case_of_keyword("upper-camel"), Some(CaseStyle::UpperCamel));
    assert_eq!(case_of_keyword("shouty-snake"), Some(CaseStyle::ShoutySnake));
    assert_eq!(case_of_keyword("shouty-kebab"), Some(CaseStyle::ShoutyKebab));
    assert_eq!(case_of_keyword("bogus"), None);
    assert_eq!(case_of_keyword("SNAKE"), None);
    assert_eq!(case_of_keyword(""), None);
}

#[test]
fn empty_arguments_select_identity() {
    assert_eq!(parse_options(&Vec::new()), Ok(CaseStyle::Identity));
}

#[test]
fn case_argument_selects_style() {
    assert_eq!(parse_options(&case_args("kebab")), Ok(CaseStyle::Kebab));
    assert_eq!(parse_options(&case_args("shouty-snake")), Ok(CaseStyle::ShoutySnake));
}

#[test]
fn unknown_parameter_scenario() {
    let args = vec![
        ArgToken::Ident(String::from("foo")),
        ArgToken::Equals,
        ArgToken::LitStr(String::from("snake")),
    ];
    assert_eq!(
        parse_options(&args),
        Err(ConfigError::UnknownParameter { name: String::from("foo"), at: 0 })
    );
}

#[test]
fn invalid_case_value_scenario() {
    assert_eq!(
        parse_options(&case_args("bogus")),
        Err(ConfigError::InvalidCaseValue { value: String::from("bogus"), at: 2 })
    );
}

#[test]
fn missing_separator_is_malformed() {
    let args = vec![ArgToken::Ident(String::from("case"))];
    assert_eq!(parse_options(&args), Err(ConfigError::MalformedArguments { at: 1 }));
    let args = vec![
        ArgToken::Ident(String::from("case")),
        ArgToken::Other,
        ArgToken::LitStr(String::from("snake")),
    ];
    assert_eq!(parse_options(&args), Err(ConfigError::MalformedArguments { at: 1 }));
}

#[test]
fn missing_literal_is_malformed() {
    let args = vec![ArgToken::Ident(String::from("case")), ArgToken::Equals];
    assert_eq!(parse_options(&args), Err(ConfigError::MalformedArguments { at: 2 }));
    let args = vec![ArgToken::Ident(String::from("case")), ArgToken::Equals, ArgToken::Other];
    assert_eq!(parse_options(&args), Err(ConfigError::MalformedArguments { at: 2 }));
}

#[test]
fn leading_non_identifier_is_malformed() {
    let args = vec![ArgToken::Other];
    assert_eq!(parse_options(&args), Err(ConfigError::MalformedArguments { at: 0 }));
}

#[test]
fn trailing_tokens_are_malformed() {
    let mut args = case_args("snake");
    args.push(ArgToken::Other);
    assert_eq!(parse_options(&args), Err(ConfigError::MalformedArguments { at: 3 }));
}

#[test]
fn generate_builds_labels_in_order() {
    let variants = vec![String::from("ThisIs"), String::from("ThatIs")];
    let m = generate(&case_args("kebab"), variants).unwrap();
    assert_eq!(m.label_of(0).as_str(), "this-is");
    assert_eq!(m.label_of(1).as_str(), "that-is");
}

#[test]
fn round_trip_over_generated_labels() {
    let variants = vec![String::from("ThisIs"), String::from("ThatIs"), String::from("Other")];
    let m = generate(&case_args("snake"), variants).unwrap();
    for v in 0..3 {
        let label = m.label_of(v).clone();
        assert_eq!(m.parse(label.as_str()), Some(v));
    }
}

#[test]
fn unknown_input_is_not_found() {
    let variants = vec![String::from("ThisIs"), String::from("ThatIs")];
    let m = generate(&case_args("kebab"), variants).unwrap();
    assert_eq!(m.parse("ThisIs"), None);
    assert_eq!(m.parse("this-is "), None);
    assert_eq!(m.parse(""), None);
}

#[test]
fn parser_is_deterministic() {
    let variants = vec![String::from("ThisIs"), String::from("ThatIs")];
    let m = generate(&case_args("kebab"), variants).unwrap();
    for _ in 0..3 {
        assert_eq!(m.parse("that-is"), Some(1));
        assert_eq!(m.parse("nope"), None);
    }
}

#[test]
fn identity_mapping_round_trip() {
    let variants = vec![String::from("This"), String::from("That")];
    let m = generate(&Vec::new(), variants).unwrap();
    assert_eq!(m.label_of(0).as_str(), "This");
    assert_eq!(m.label_of(1).as_str(), "That");
    assert_eq!(m.parse("This"), Some(0));
    assert_eq!(m.parse("That"), Some(1));
    assert_eq!(m.parse("this"), None);
}

#[test]
fn generation_fails_on_bad_configuration() {
    let variants = vec![String::from("ThisIs")];
    match generate(&case_args("bogus"), variants) {
        Err(ConfigError::InvalidCaseValue { value, at }) => {
            assert_eq!(value, "bogus");
            assert_eq!(at, 2);
        }
        _ => panic!("expected an invalid-case diagnostic"),
    }
}

#[test]
fn empty_declaration_scenario() {
    let m = generate(&case_args("snake"), Vec::new()).unwrap();
    assert_eq!(m.parse("anything"), None);
    assert_eq!(m.parse(""), None);
    let m = Mapping::new(Vec::new(), CaseStyle::Identity);
    assert_eq!(m.parse("still-nothing"), None);
}

#[test]
fn colliding_labels_resolve_to_first_variant() {
    let variants = vec![String::from("ThisIs"), String::from("This_Is")];
    let m = generate(&case_args("snake"), variants).unwrap();
    assert_eq!(m.label_of(0).as_str(), "this_is");
    assert_eq!(m.label_of(1).as_str(), "this_is");
    assert_eq!(m.parse("this_is"), Some(0));
}
