use fel4_build::flags::{translate, truthy_identifiers, ConfigValue, ConversionError, FlagModel};
use fel4_build::rustflags::merge_feature_flags_with_rustflags_env_var;

fn entry(k: &str, v: ConfigValue) -> (String, ConfigValue) {
    (k.to_string(), v)
}

#[test]
fn translate_keeps_booleans_and_renders_the_rest() {
    let entries = vec![
        entry("debug_build", ConfigValue::Boolean(true)),
        entry("log_level", ConfigValue::String("info".to_string())),
        entry("depth", ConfigValue::Integer(42)),
        entry("offset", ConfigValue::Integer(-7)),
        entry("ratio", ConfigValue::Float("0.5".to_string())),
        entry("stamp", ConfigValue::Timestamp("1979-05-27T07:32:00Z".to_string())),
    ];
    let flags = translate(&entries).unwrap();
    assert_eq!(
        flags,
        vec![
            FlagModel::Boolish("debug_build".to_string(), true),
            FlagModel::Stringish("log_level".to_string(), "info".to_string()),
            FlagModel::Stringish("depth".to_string(), "42".to_string()),
            FlagModel::Stringish("offset".to_string(), "-7".to_string()),
            FlagModel::Stringish("ratio".to_string(), "0.5".to_string()),
            FlagModel::Stringish("stamp".to_string(), "1979-05-27T07:32:00Z".to_string()),
        ]
    );
}

#[test]
fn translate_twice_gives_the_same_flags() {
    let entries = vec![
        entry("a", ConfigValue::Boolean(false)),
        entry("b", ConfigValue::Integer(0)),
    ];
    assert_eq!(translate(&entries), translate(&entries));
}

#[test]
fn translate_of_nothing_is_nothing() {
    assert_eq!(translate(&vec![]), Ok(vec![]));
}

#[test]
fn translate_rejects_an_empty_key() {
    let entries = vec![entry("a", ConfigValue::Boolean(true)), entry("", ConfigValue::Boolean(true))];
    assert_eq!(translate(&entries), Err(ConversionError { key: String::new() }));
}

#[test]
fn translate_rejects_a_repeated_key() {
    let entries = vec![
        entry("a", ConfigValue::Boolean(true)),
        entry("b", ConfigValue::Integer(3)),
        entry("a", ConfigValue::String("x".to_string())),
    ];
    assert_eq!(translate(&entries), Err(ConversionError { key: "a".to_string() }));
}

#[test]
fn truthy_identifiers_keep_true_booleans_in_order() {
    let flags = vec![
        FlagModel::Boolish("z".to_string(), true),
        FlagModel::Boolish("off".to_string(), false),
        FlagModel::Stringish("s".to_string(), "true".to_string()),
        FlagModel::Boolish("a".to_string(), true),
    ];
    assert_eq!(truthy_identifiers(&flags), vec!["z".to_string(), "a".to_string()]);
    assert_eq!(truthy_identifiers(&vec![]), Vec::<String>::new());
}

#[test]
fn merge_onto_nothing() {
    let features = vec!["debug_build".to_string(), "x".to_string()];
    assert_eq!(
        merge_feature_flags_with_rustflags_env_var(None, &features),
        "--cfg feature=\"debug_build\" --cfg feature=\"x\" "
    );
    assert_eq!(merge_feature_flags_with_rustflags_env_var(None, &vec![]), "");
}

#[test]
fn merge_keeps_the_existing_value_as_prefix() {
    let features = vec!["debug_build".to_string()];
    let bare = merge_feature_flags_with_rustflags_env_var(None, &features);
    let with_base =
        merge_feature_flags_with_rustflags_env_var(Some("-C opt-level=2".to_string()), &features);
    assert_eq!(with_base, format!("-C opt-level=2 {}", bare));
    assert_eq!(
        merge_feature_flags_with_rustflags_env_var(Some(String::new()), &features),
        bare
    );
    assert_eq!(
        merge_feature_flags_with_rustflags_env_var(Some("-g".to_string()), &vec![]),
        "-g "
    );
}
