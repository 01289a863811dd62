use flutter_lazy::validation::{
    create_api_feature_validation, create_custom_validation, FileContentCheck, PathState,
    ProjectSnapshot, ValidationResult, ValidationSystem,
};

fn strings(items: &[&str]) -> Vec<String> {
    items.iter().map(|s| s.to_string()).collect()
}

#[test]
fn validation_test_validation_rules_creation() {
    let rules = ValidationSystem::default_new_project_rules();
    assert!(!rules.required_directories.is_empty());
    assert!(!rules.required_files.is_empty());
    assert!(!rules.file_content_checks.is_empty());
}

#[test]
fn validation_test_feature_validation_rules() {
    let feature_name = "test_feature";
    let rules = ValidationSystem::default_feature_rules(feature_name);

    for dir in &rules.required_directories {
        assert!(dir.contains(feature_name));
    }

    for file in &rules.required_files {
        assert!(file.contains(feature_name));
    }
}

#[test]
fn validation_test_api_feature_validation_rules() {
    let feature_name = "test_api";
    let rules = create_api_feature_validation(feature_name);

    for dir in &rules.required_directories {
        assert!(dir.contains(feature_name));
    }

    for file in &rules.required_files {
        assert!(file.contains(feature_name));
    }
}

#[test]
fn validation_test_validation_result() {
    let temp_dir = String::from("/tmp/flutter_test");
    let result = ValidationResult::new(temp_dir.clone());

    assert!(result.passed);
    assert!(result.missing_directories.is_empty());
    assert!(result.missing_files.is_empty());
    assert!(result.failed_content_checks.is_empty());
}

#[test]
fn validation_tests_test_validation_rules_creation() {
    let rules = ValidationSystem::default_new_project_rules();
    assert!(!rules.required_directories.is_empty());
    assert!(!rules.required_files.is_empty());
    assert!(!rules.file_content_checks.is_empty());
}

#[test]
fn validation_tests_test_feature_validation_rules() {
    let feature_name = "test_feature";
    let rules = ValidationSystem::default_feature_rules(feature_name);

    for dir in &rules.required_directories {
        assert!(dir.contains(feature_name));
    }

    for file in &rules.required_files {
        assert!(file.contains(feature_name));
    }
}

#[test]
fn validation_tests_test_api_feature_validation_rules() {
    let feature_name = "test_api";
    let rules = create_api_feature_validation(feature_name);

    for dir in &rules.required_directories {
        assert!(dir.contains(feature_name));
    }

    for file in &rules.required_files {
        assert!(file.contains(feature_name));
    }
}

#[test]
fn validation_tests_test_validation_result() {
    let temp_dir = String::from("/tmp/flutter_test");
    let result = ValidationResult::new(temp_dir.clone());

    assert!(result.passed);
    assert!(result.missing_directories.is_empty());
    assert!(result.missing_files.is_empty());
    assert!(result.failed_content_checks.is_empty());
}

#[test]
fn new_result_keeps_the_project_path() {
    let result = ValidationResult::new(String::from("/tmp/flutter_test"));
    assert_eq!(result.project_path, "/tmp/flutter_test");
}

#[test]
fn default_project_rules_are_the_built_in_lists() {
    let rules = ValidationSystem::default_new_project_rules();
    assert_eq!(
        rules.required_directories,
        strings(&[
            "lib/config",
            "lib/core/entities",
            "lib/core/failures",
            "lib/core/utils",
            "lib/features",
            "lib/modules/bloc",
            "lib/modules/rest_module",
            "lib/widgets/buttons",
            "assets/images",
            "assets/i18n",
        ])
    );
    assert_eq!(
        rules.required_files,
        strings(&[
            "lib/main.dart",
            "lib/flavors.dart",
            "lib/core/failures/failure.dart",
            "lib/core/utils/logger.dart",
            "pubspec.yaml",
        ])
    );
    assert_eq!(rules.file_content_checks.len(), 2);
    assert_eq!(rules.file_content_checks[0].file_path, "pubspec.yaml");
    assert_eq!(
        rules.file_content_checks[0].expected_content,
        strings(&["flutter_bloc:", "get_it:", "dio:", "assets:"])
    );
    assert_eq!(rules.file_content_checks[1].file_path, "lib/flavors.dart");
    assert_eq!(rules.file_content_checks[1].expected_content, strings(&["enum Flavor"]));
}

#[test]
fn default_feature_rules_name_the_feature_paths() {
    let rules = ValidationSystem::default_feature_rules("cart");
    assert_eq!(
        rules.required_directories,
        strings(&[
            "lib/features/cart/presentation",
            "lib/features/cart/data",
            "lib/features/cart/domain",
        ])
    );
    assert_eq!(
        rules.required_files,
        strings(&[
            "lib/features/cart/presentation/pages/cart_page.dart",
            "lib/features/cart/domain/repositories/cart_repository.dart",
        ])
    );
    assert!(rules.file_content_checks.is_empty());
}

#[test]
fn api_feature_rules_name_the_data_layer() {
    let rules = create_api_feature_validation("pets");
    assert_eq!(
        rules.required_directories,
        strings(&[
            "lib/features/pets/data/models",
            "lib/features/pets/data/datasources",
            "lib/features/pets/data/repository",
            "lib/core/entities/pets",
        ])
    );
    assert_eq!(
        rules.required_files,
        strings(&[
            "lib/features/pets/data/datasources/pets_remote_datasource.dart",
            "lib/features/pets/data/datasources/pets_local_datasource.dart",
            "lib/features/pets/data/repository/pets_repository.dart",
        ])
    );
}

#[test]
fn custom_validation_keeps_the_three_lists() {
    let rules = create_custom_validation(
        strings(&["lib"]),
        strings(&["pubspec.yaml"]),
        vec![FileContentCheck {
            file_path: "pubspec.yaml".to_string(),
            expected_content: strings(&["name:"]),
        }],
    );
    assert_eq!(rules.required_directories, strings(&["lib"]));
    assert_eq!(rules.required_files, strings(&["pubspec.yaml"]));
    assert_eq!(rules.file_content_checks.len(), 1);
    assert_eq!(rules.file_content_checks[0].expected_content, strings(&["name:"]));
}

fn sample_system() -> ValidationSystem {
    ValidationSystem::new(create_custom_validation(
        strings(&["lib", "assets"]),
        strings(&["pubspec.yaml", "lib/main.dart"]),
        vec![
            FileContentCheck {
                file_path: "pubspec.yaml".to_string(),
                expected_content: strings(&["dio:", "get_it:", "assets:"]),
            },
            FileContentCheck {
                file_path: "lib/main.dart".to_string(),
                expected_content: strings(&["void main"]),
            },
            FileContentCheck {
                file_path: "lib/absent.dart".to_string(),
                expected_content: strings(&["anything"]),
            },
        ],
    ))
}

#[test]
fn a_complete_project_passes() {
    let snapshot = ProjectSnapshot {
        entries: vec![
            ("lib".to_string(), PathState::Directory),
            ("assets".to_string(), PathState::Directory),
            (
                "pubspec.yaml".to_string(),
                PathState::File(Some("dio: 1\nget_it: 2\nassets:\n".to_string())),
            ),
            ("lib/main.dart".to_string(), PathState::File(Some("void main() {}".to_string()))),
        ],
    };
    let result = sample_system().validate_project("/work/app", &snapshot);
    assert!(result.passed);
    assert_eq!(result.project_path, "/work/app");
    assert!(result.missing_directories.is_empty());
    assert!(result.missing_files.is_empty());
    assert!(result.failed_content_checks.is_empty());
    let (passed, lines) = sample_system().run_validation("/work/app", &snapshot);
    assert!(passed);
    assert_eq!(
        lines,
        strings(&["", "Validation Summary", "\u{2705} All validations passed!"])
    );
}

#[test]
fn missing_paths_and_failed_checks_are_reported() {
    let snapshot = ProjectSnapshot {
        entries: vec![
            ("lib".to_string(), PathState::File(Some(String::new()))),
            ("pubspec.yaml".to_string(), PathState::File(Some("dio: 1\nassets:\n".to_string()))),
            ("lib/main.dart".to_string(), PathState::File(None)),
        ],
    };
    let result = sample_system().validate_feature("/work/app", "cart", &snapshot);
    assert!(!result.passed);
    assert_eq!(result.missing_directories, strings(&["/work/app/lib", "/work/app/assets"]));
    assert!(result.missing_files.is_empty());
    assert_eq!(
        result.failed_content_checks,
        vec![
            (
                "/work/app/pubspec.yaml".to_string(),
                "Missing expected content: 'get_it:'".to_string()
            ),
            ("/work/app/lib/main.dart".to_string(), "Could not read file content".to_string()),
        ]
    );
    assert_eq!(
        result.print_summary(),
        strings(&[
            "",
            "Validation Summary",
            "\u{274c} Missing directories:",
            "  - /work/app/lib",
            "  - /work/app/assets",
            "\u{274c} Failed content checks:",
            "  - /work/app/pubspec.yaml: Missing expected content: 'get_it:'",
            "  - /work/app/lib/main.dart: Could not read file content",
        ])
    );
}

#[test]
fn a_directory_in_the_place_of_a_file_is_a_missing_file() {
    let snapshot = ProjectSnapshot {
        entries: vec![
            ("lib".to_string(), PathState::Directory),
            ("assets".to_string(), PathState::Directory),
            ("pubspec.yaml".to_string(), PathState::Directory),
            ("lib/main.dart".to_string(), PathState::Missing),
        ],
    };
    let result = sample_system().validate_project("app/", &snapshot);
    assert!(!result.passed);
    assert_eq!(result.missing_files, strings(&["app/pubspec.yaml", "app/lib/main.dart"]));
    assert!(result.failed_content_checks.is_empty());
}

#[test]
fn the_later_entry_of_a_path_counts() {
    let snapshot = ProjectSnapshot {
        entries: vec![
            ("lib".to_string(), PathState::Missing),
            ("lib".to_string(), PathState::Directory),
        ],
    };
    let system = ValidationSystem::new(create_custom_validation(
        strings(&["lib"]),
        Vec::new(),
        Vec::new(),
    ));
    assert!(system.validate_project("", &snapshot).passed);
    assert_eq!(system.rules().required_directories, strings(&["lib"]));
}
