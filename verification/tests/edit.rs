use flutter_lazy::edit::{
    capitalize, keep_nonempty, replace_all, split, split_names, text_starts_with,
};
use flutter_lazy::templates::{copy_template_dir, copy_template_file, template_candidates};
use flutter_lazy::text::{
    join, join_path, last_path_segment, list_has, strip_suffix, text_contains, text_eq,
};

fn strings(items: &[&str]) -> Vec<String> {
    items.iter().map(|s| s.to_string()).collect()
}

#[test]
fn replace_all_replaces_from_the_left_without_overlap() {
    assert_eq!(replace_all("a_b_c", "_", " "), "a b c");
    assert_eq!(replace_all("aaaa", "aa", "b"), "bb");
    assert_eq!(replace_all("aaa", "aa", "b"), "ba");
    assert_eq!(replace_all("abc", "x", "y"), "abc");
    assert_eq!(replace_all("", "x", "y"), "");
    assert_eq!(replace_all("xx", "x", "xx"), "xxxx");
    assert_eq!(replace_all("héllo wörld", "ö", "oe"), "héllo woerld");
}

#[test]
fn replace_all_of_the_empty_text_spreads_the_new_text() {
    assert_eq!(replace_all("abc", "", "-"), "-a-b-c-");
    assert_eq!(replace_all("", "", "-"), "-");
    assert_eq!(replace_all("abc", "", "-"), "abc".replace("", "-"));
}

#[test]
fn split_gives_one_part_more_than_separators() {
    assert_eq!(split("a_b", '_'), strings(&["a", "b"]));
    assert_eq!(split("", '_'), strings(&[""]));
    assert_eq!(split("a_", '_'), strings(&["a", ""]));
    assert_eq!(split("_a__b", '_'), strings(&["", "a", "", "b"]));
    assert_eq!(split("abc", '_'), strings(&["abc"]));
}

#[test]
fn capitalize_raises_the_first_character() {
    assert_eq!(capitalize("dev"), "Dev");
    assert_eq!(capitalize("Dev"), "Dev");
    assert_eq!(capitalize("d"), "D");
    assert_eq!(capitalize(""), "");
    assert_eq!(capitalize("élan"), "Élan");
    assert_eq!(capitalize("1a"), "1a");
}

#[test]
fn names_are_split_at_commas_and_trimmed() {
    assert_eq!(split_names(" Pets , Store,,Users "), strings(&["Pets", "Store", "", "Users"]));
    assert_eq!(split_names(""), strings(&[""]));
    assert_eq!(
        keep_nonempty(split_names(" Pets , Store,,Users ")),
        strings(&["Pets", "Store", "Users"])
    );
    assert!(keep_nonempty(split_names(" , ,")).is_empty());
}

#[test]
fn starts_with_tests_the_head_of_a_text() {
    assert!(text_starts_with("https://x", "https://"));
    assert!(!text_starts_with("ftp://x", "http://"));
    assert!(!text_starts_with("http", "http://"));
    assert!(text_starts_with("anything", ""));
}

#[test]
fn placeholders_are_filled_in_order() {
    let replacements = vec![
        ("FEATURE_NAME_PASCAL".to_string(), "Cart".to_string()),
        ("FEATURE_NAME_SNAKE".to_string(), "cart".to_string()),
    ];
    assert_eq!(
        copy_template_file(
            "class {{ FEATURE_NAME_PASCAL }}Page {} // {{ FEATURE_NAME_SNAKE }} {{FEATURE_NAME_SNAKE}} {{ FEATURE_NAME_PASCAL }}",
            &replacements
        ),
        "class CartPage {} // cart {{FEATURE_NAME_SNAKE}} Cart"
    );
    assert_eq!(copy_template_file("plain", &replacements), "plain");
    assert_eq!(copy_template_file("{{ a }}", &Vec::new()), "{{ a }}");
    let chained = vec![
        ("a".to_string(), "{{ b }}".to_string()),
        ("b".to_string(), "done".to_string()),
    ];
    assert_eq!(copy_template_file("{{ a }}", &chained), "done");
}

#[test]
fn templates_are_looked_for_in_four_places() {
    assert_eq!(
        template_candidates("common/router.dart.tmpl"),
        strings(&[
            "templates/common/router.dart.tmpl",
            "flutter_lazy/templates/common/router.dart.tmpl",
            "./templates/common/router.dart.tmpl",
            "../templates/common/router.dart.tmpl",
        ])
    );
    assert_eq!(copy_template_dir("common"), "flutter_lazy/templates/common");
}

#[test]
fn paths_are_joined_with_one_slash() {
    assert_eq!(join_path("a", "b"), "a/b");
    assert_eq!(join_path("a/", "b"), "a/b");
    assert_eq!(join_path("", "b"), "b");
    assert_eq!(join_path("a", "/b"), "/b");
    assert_eq!(join_path("a", ""), "a/");
    assert_eq!(join_path(".", "lib/x"), "./lib/x");
}

#[test]
fn text_helpers_agree_with_the_standard_library() {
    assert!(text_eq("abc", "abc"));
    assert!(!text_eq("abc", "abd"));
    assert!(text_contains("hello world", "o w"));
    assert!(text_contains("hello", ""));
    assert!(!text_contains("hello", "world"));
    assert!(!text_contains("ab", "abc"));
    assert_eq!(strip_suffix("UserModel", "Model"), "User");
    assert_eq!(strip_suffix("ModelUserModel", "Model"), "ModelUser");
    assert_eq!(strip_suffix("Model", "Model"), "");
    assert_eq!(strip_suffix("User", "Model"), "User");
    assert_eq!(last_path_segment("#/definitions/Pet"), "Pet");
    assert_eq!(last_path_segment("Pet"), "Pet");
    assert_eq!(last_path_segment("a/"), "");
    assert_eq!(last_path_segment(""), "");
    assert_eq!(join(&strings(&["a", "b", "c"]), ", "), "a, b, c");
    assert_eq!(join(&strings(&["a"]), ", "), "a");
    assert_eq!(join(&Vec::new(), ", "), "");
    assert!(list_has(&strings(&["id", "name"]), "name"));
    assert!(!list_has(&strings(&["id", "name"]), "nam"));
}
