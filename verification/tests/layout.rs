use include_wasm_rs::layout::{
    artifact_pattern_of, derive_output_dir, descriptor_in, join, output_root_of,
    sources_pattern_of,
};

fn vars(pairs: &[(&str, &str)]) -> Vec<(String, String)> {
    pairs.iter().map(|(k, v)| (k.to_string(), v.to_string())).collect()
}

#[test]
fn output_dir_without_variables_is_the_base() {
    assert_eq!(derive_output_dir(&vec![]), "target/");
}

#[test]
fn output_dir_names_each_variable() {
    assert_eq!(derive_output_dir(&vars(&[("LEVEL", "12")])), "target/_LEVEL_12");
    assert_eq!(
        derive_output_dir(&vars(&[("LEVEL", "12"), ("MODE", "fast")])),
        "target/_LEVEL_12_MODE_fast"
    );
}

#[test]
fn output_dir_is_the_same_for_the_same_variables() {
    let a = vars(&[("A", "1"), ("B", "2")]);
    let b = vars(&[("A", "1"), ("B", "2")]);
    assert_eq!(derive_output_dir(&a), derive_output_dir(&b));
}

#[test]
fn output_dir_differs_with_the_variables() {
    let base = derive_output_dir(&vars(&[("A", "1"), ("B", "2")]));
    assert_ne!(base, derive_output_dir(&vars(&[("A", "1"), ("B", "3")])));
    assert_ne!(base, derive_output_dir(&vars(&[("A", "1"), ("C", "2")])));
    assert_ne!(base, derive_output_dir(&vars(&[("A", "1")])));
    assert_ne!(base, derive_output_dir(&vars(&[])));
}

#[test]
fn output_dir_differs_with_the_order() {
    let ab = derive_output_dir(&vars(&[("A", "1"), ("B", "2")]));
    let ba = derive_output_dir(&vars(&[("B", "2"), ("A", "1")]));
    assert_eq!(ab, "target/_A_1_B_2");
    assert_eq!(ba, "target/_B_2_A_1");
    assert_ne!(ab, ba);
}

#[test]
fn underscores_in_variables_can_make_output_dirs_collide() {
    let one = derive_output_dir(&vars(&[("A", "B_C")]));
    let other = derive_output_dir(&vars(&[("A_B", "C")]));
    assert_eq!(one, "target/_A_B_C");
    assert_eq!(one, other);
}

#[test]
fn join_puts_one_separator_between() {
    assert_eq!(join("m", "Cargo.toml"), "m/Cargo.toml");
    assert_eq!(join("/abs/m", "target/"), "/abs/m/target/");
}

#[test]
fn join_adds_no_separator_after_one() {
    assert_eq!(join("m/", "Cargo.toml"), "m/Cargo.toml");
    assert_eq!(join("/", "x"), "/x");
}

#[test]
fn join_to_nothing_is_the_relative_path() {
    assert_eq!(join("", "x/y"), "x/y");
}

#[test]
fn join_of_an_absolute_path_replaces() {
    assert_eq!(join("/home/me/src", "/opt/module"), "/opt/module");
}

#[test]
fn join_of_nothing_ends_in_a_separator() {
    assert_eq!(join("m", ""), "m/");
    assert_eq!(join("m/", ""), "m/");
}

#[test]
fn join_counts_characters_not_bytes() {
    assert_eq!(join("modül", "é"), "modül/é");
    assert_eq!(join("é/", "ü"), "é/ü");
}

#[test]
fn descriptor_is_directly_in_the_module() {
    assert_eq!(descriptor_in("/work/m"), "/work/m/Cargo.toml");
}

#[test]
fn output_root_is_below_the_output_dir() {
    assert_eq!(
        output_root_of("m", &vars(&[("LEVEL", "12")])),
        "m/target/_LEVEL_12/wasm32-unknown-unknown/"
    );
    assert_eq!(output_root_of("m", &vec![]), "m/target/wasm32-unknown-unknown/");
}

#[test]
fn artifact_pattern_follows_the_profile() {
    let env = vars(&[("LEVEL", "12")]);
    assert_eq!(
        artifact_pattern_of("m", &env, true),
        "m/target/_LEVEL_12/wasm32-unknown-unknown/release/*.wasm"
    );
    assert_eq!(
        artifact_pattern_of("m", &env, false),
        "m/target/_LEVEL_12/wasm32-unknown-unknown/debug/*.wasm"
    );
}

#[test]
fn sources_pattern_reaches_every_depth() {
    assert_eq!(sources_pattern_of("/work/m"), "/work/m/**/*");
}
