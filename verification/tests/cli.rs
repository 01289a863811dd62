use flutter_lazy::cli::{
    feature_kind, minimal_components, select_components, validate_feature_name,
    validate_package_name, validate_project_name, FeatureKind, FeatureSwitches,
};
use flutter_lazy::features::FeatureParams;
use flutter_lazy::generator::{
    add_flavorizr_config, create_api_spec, prompt_for_api_url, prompt_for_domains,
    pubspec_with_assets, pubspec_with_dependencies, try_load_swagger_from_file,
    try_load_swagger_from_url, ApiSetupAction, ApiSetupEvent,
};
use flutter_lazy::swagger::SwaggerSource;

fn flags(p: &FeatureParams) -> [bool; 8] {
    [
        p.has_state_management,
        p.has_repository,
        p.has_models,
        p.has_pages,
        p.has_services,
        p.has_utils,
        p.needs_routing,
        p.needs_di,
    ]
}

fn switches(no_pages: bool, no_di: bool) -> FeatureSwitches {
    FeatureSwitches {
        no_state: false,
        no_repository: false,
        no_models: false,
        no_pages,
        no_services: false,
        no_utils: false,
        no_routing: false,
        no_di,
    }
}

#[test]
fn a_project_name_is_not_empty_and_has_no_white_space() {
    assert_eq!(validate_project_name("my_app"), Ok(()));
    assert_eq!(validate_project_name(""), Err("Project name cannot be empty".to_string()));
    assert_eq!(
        validate_project_name("my app"),
        Err("Project name cannot contain spaces".to_string())
    );
    assert_eq!(
        validate_project_name("my\tapp"),
        Err("Project name cannot contain spaces".to_string())
    );
    assert_eq!(
        validate_project_name("my\u{a0}app"),
        Err("Project name cannot contain spaces".to_string())
    );
}

#[test]
fn a_package_name_holds_a_dot() {
    assert_eq!(validate_package_name("com.example.app"), Ok(()));
    assert_eq!(
        validate_package_name("app"),
        Err("Package name should follow format: com.example.app".to_string())
    );
}

#[test]
fn a_feature_name_is_not_empty() {
    assert_eq!(validate_feature_name("cart"), Ok(()));
    assert_eq!(validate_feature_name(""), Err("Feature name cannot be empty".to_string()));
}

#[test]
fn the_three_known_features_have_generators_of_their_own() {
    assert_eq!(feature_kind("auth"), FeatureKind::Auth);
    assert_eq!(feature_kind("authentication"), FeatureKind::Auth);
    assert_eq!(feature_kind("notification"), FeatureKind::Notifications);
    assert_eq!(feature_kind("notifications"), FeatureKind::Notifications);
    assert_eq!(feature_kind("main_page"), FeatureKind::MainPage);
    assert_eq!(feature_kind("home"), FeatureKind::MainPage);
    assert_eq!(feature_kind("Auth"), FeatureKind::General);
    assert_eq!(feature_kind("settings"), FeatureKind::General);
}

#[test]
fn chosen_parts_stay_unless_switched_off() {
    let p = select_components("cart", &vec![0, 3, 7, 6], &switches(false, true));
    assert_eq!(p.name, "cart");
    assert_eq!(flags(&p), [true, false, false, true, false, false, true, false]);
    let q = select_components("cart", &vec![0, 1, 2, 3, 4, 5, 6, 7], &switches(true, false));
    assert_eq!(flags(&q), [true, true, true, false, true, true, true, true]);
    let none = select_components("cart", &Vec::new(), &switches(false, false));
    assert_eq!(flags(&none), [false; 8]);
}

#[test]
fn a_minimal_feature_loses_what_is_switched_off() {
    let p = minimal_components("cart", &switches(false, false));
    assert_eq!(flags(&p), [false, false, false, true, false, false, true, false]);
    let q = minimal_components("cart", &switches(true, true));
    assert_eq!(flags(&q), [false, false, false, false, false, false, true, false]);
}

#[test]
fn domains_are_read_from_a_list_with_commas() {
    assert_eq!(
        prompt_for_domains("Pets, Store ,Users"),
        Some(vec!["Pets".to_string(), "Store".to_string(), "Users".to_string()])
    );
    assert_eq!(prompt_for_domains(" , "), None);
    assert_eq!(prompt_for_domains(""), None);
}

#[test]
fn an_api_address_starts_with_http() {
    assert_eq!(prompt_for_api_url("http://x/swagger.json"), Ok(()));
    assert_eq!(prompt_for_api_url("https://petstore.swagger.io/v2/swagger.json"), Ok(()));
    assert_eq!(
        prompt_for_api_url("petstore.swagger.io"),
        Err("URL must start with http:// or https://".to_string())
    );
}

#[test]
fn sources_are_made_from_addresses_and_existing_files() {
    assert!(matches!(
        try_load_swagger_from_url("http://x".to_string()),
        SwaggerSource::Url(u) if u == "http://x"
    ));
    assert!(matches!(
        try_load_swagger_from_file("api.json".to_string(), true),
        Some(SwaggerSource::File(p)) if p == "api.json"
    ));
    assert!(try_load_swagger_from_file("api.json".to_string(), false).is_none());
}

#[test]
fn dependencies_are_added_behind_the_heads_of_the_manifest() {
    let manifest = "name: app\ndependencies:\n  flutter:\n    sdk: flutter\ndev_dependencies:\n  flutter_test:\n    sdk: flutter\n";
    let updated = pubspec_with_dependencies(manifest);
    assert!(updated.starts_with(
        "name: app\ndependencies:\n  flutter:\n  # State Management\n  flutter_bloc: ^8.1.3\n  equatable: ^2.0.5\n  \n  # Dependency Injection\n"
    ));
    assert!(updated.contains("  shimmer: ^3.0.0\n    sdk: flutter\ndev_dependencies:\n  flutter_test:\n  # Flutter flavorizr for handling flavors\n  flutter_flavorizr: ^2.2.1\n  \n  # Code generation\n  build_runner: ^2.4.6\n  json_serializable: ^6.7.1\n  injectable_generator: ^2.4.1\n    sdk: flutter\n"));
    assert_eq!(pubspec_with_dependencies("name: app\n"), "name: app\n");
}

#[test]
fn the_assets_are_added_once() {
    assert_eq!(
        pubspec_with_assets("name: app\n"),
        Some(
            "name: app\n\n  assets:\n    - assets/i18n/\n    - assets/images/\n    \n  fonts:\n    - family: AppIcons\n      fonts:\n        - asset: assets/fonts/AppIcons.ttf"
                .to_string()
        )
    );
    assert_eq!(pubspec_with_assets("flutter:\n  assets:\n"), None);
}

#[test]
fn the_flavours_are_listed_in_the_configuration() {
    assert_eq!(
        add_flavorizr_config(&vec!["dev".to_string(), "prod".to_string()]),
        "\nflutter_flavorizr:\n  flavors: {\n    dev: {}\n    prod: {}}"
    );
    assert_eq!(add_flavorizr_config(&Vec::new()), "\nflutter_flavorizr:\n  flavors: {}");
}

#[test]
fn the_setup_of_the_api_document_goes_step_by_step() {
    let start = create_api_spec(ApiSetupEvent::Started { api_url: None, api_file: None });
    assert!(matches!(start, ApiSetupAction::AskInclude));
    let both = create_api_spec(ApiSetupEvent::Started {
        api_url: Some("http://x".to_string()),
        api_file: Some("api.json".to_string()),
    });
    assert!(matches!(
        both,
        ApiSetupAction::AskDomains { source: SwaggerSource::Url(u) } if u == "http://x"
    ));
    let file = create_api_spec(ApiSetupEvent::Started {
        api_url: None,
        api_file: Some("api.json".to_string()),
    });
    assert!(matches!(file, ApiSetupAction::CheckFile { path } if path == "api.json"));
    assert!(matches!(
        create_api_spec(ApiSetupEvent::IncludeChosen { choice: 0 }),
        ApiSetupAction::Finish { api_spec: None }
    ));
    assert!(matches!(
        create_api_spec(ApiSetupEvent::IncludeChosen { choice: 1 }),
        ApiSetupAction::AskUrl
    ));
    assert!(matches!(
        create_api_spec(ApiSetupEvent::IncludeChosen { choice: 2 }),
        ApiSetupAction::AskFile
    ));
    assert!(matches!(
        create_api_spec(ApiSetupEvent::FileEntered { path: "a".to_string() }),
        ApiSetupAction::CheckFile { path } if path == "a"
    ));
    assert!(matches!(
        create_api_spec(ApiSetupEvent::FileChecked { path: "a".to_string(), present: true }),
        ApiSetupAction::AskDomains { source: SwaggerSource::File(p) } if p == "a"
    ));
    assert!(matches!(
        create_api_spec(ApiSetupEvent::FileChecked { path: "a".to_string(), present: false }),
        ApiSetupAction::AskRetry { path } if path == "a"
    ));
    assert!(matches!(
        create_api_spec(ApiSetupEvent::RetryChosen { choice: 0 }),
        ApiSetupAction::AskFile
    ));
    assert!(matches!(
        create_api_spec(ApiSetupEvent::RetryChosen { choice: 1 }),
        ApiSetupAction::AskUrl
    ));
    assert!(matches!(
        create_api_spec(ApiSetupEvent::RetryChosen { choice: 2 }),
        ApiSetupAction::Finish { api_spec: None }
    ));
    let done = create_api_spec(ApiSetupEvent::DomainsEntered {
        source: SwaggerSource::Url("http://x".to_string()),
        domains: Some(vec!["Pets".to_string()]),
    });
    match done {
        ApiSetupAction::Finish { api_spec: Some(spec) } => {
            assert!(matches!(spec.source, SwaggerSource::Url(u) if u == "http://x"));
            assert_eq!(spec.domains, Some(vec!["Pets".to_string()]));
        }
        _ => panic!("the setup ends with the document"),
    }
}
