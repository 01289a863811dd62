use flutter_lazy::features::auth::create_auth_feature;
use flutter_lazy::features::main_page::create_main_page_feature;
use flutter_lazy::features::notifications::create_notification_feature;
use flutter_lazy::features::{
    create_feature, generate_feature_files, update_main_di, update_main_router, FeatureParams,
};
use flutter_lazy::generator::{FlutterProjectGenerator, GenerationStep};
use flutter_lazy::plan::Action;

fn report(line: &str) -> Action {
    Action::Report { line: line.to_string() }
}

fn make_dir(path: &str, context: &str) -> Action {
    Action::MakeDir { path: path.to_string(), context: context.to_string() }
}

fn template(template: &str, destination: &str, replacements: &[(&str, &str)]) -> Action {
    Action::CopyTemplate {
        template: template.to_string(),
        destination: destination.to_string(),
        replacements: replacements.iter().map(|(k, v)| (k.to_string(), v.to_string())).collect(),
        context: String::new(),
    }
}

fn write(destination: &str, content: &str, context: &str) -> Action {
    Action::WriteFile {
        destination: destination.to_string(),
        content: content.to_string(),
        context: context.to_string(),
    }
}

fn copy_or(source: &str, destination: &str, fallback: &str, context: &str) -> Action {
    Action::CopyFileOr {
        source: source.to_string(),
        destination: destination.to_string(),
        fallback: fallback.to_string(),
        context: context.to_string(),
    }
}

fn router(project_dir: &str, feature_name: &str, pascal_name: &str) -> Action {
    Action::UpdateRouter {
        project_dir: project_dir.to_string(),
        feature_name: feature_name.to_string(),
        pascal_name: pascal_name.to_string(),
    }
}

fn di(project_dir: &str, feature_name: &str) -> Action {
    Action::UpdateDi { project_dir: project_dir.to_string(), feature_name: feature_name.to_string() }
}

const CART: [(&str, &str); 3] = [
    ("FEATURE_NAME_PASCAL", "ShoppingCart"),
    ("FEATURE_NAME_SNAKE", "shopping_cart"),
    ("FEATURE_NAME_CAMEL", "shoppingCart"),
];

const CREATED: &str = "\n\u{2705} Feature created successfully with the following components:";
const SIMPLIFIED: &str = "\n\u{2139}\u{fe0f}  Using simplified templates with reduced boilerplate";

fn minimal_plan(project: &str, name: &str, snake: &str, names: &[(&str, &str)]) -> Vec<Action> {
    let dir = format!("{}/lib/features/{}", project, snake);
    vec![
        Action::FailIfExists { path: dir.clone(), feature_name: snake.to_string() },
        report(&format!("Creating feature: {}", snake)),
        make_dir(&dir, "Failed to create feature directory"),
        make_dir(&format!("{}/ui/pages", dir), "Failed to create pages directory"),
        make_dir(&format!("{}/ui/_widgets", dir), "Failed to create _widgets directory"),
        template(
            "features/common/ui/pages/feature_page.dart.tmpl",
            &format!("{}/ui/pages/{}_page.dart", dir, snake),
            names,
        ),
        template(
            "features/common/ui/_widgets/feature_item_widget.dart.tmpl",
            &format!("{}/ui/_widgets/{}_item_widget.dart", dir, snake),
            names,
        ),
        template("features/common/router.dart.tmpl", &format!("{}/router.dart", dir), names),
        router(project, snake, name),
        report(CREATED),
        report(&format!("- UI Page: {}/ui/pages/{}_page.dart", dir, snake)),
        report(&format!("- UI Widget: {}/ui/_widgets/{}_item_widget.dart", dir, snake)),
        report(&format!("- Router: {}/router.dart", dir)),
        report(SIMPLIFIED),
    ]
}

#[test]
fn a_minimal_feature_has_pages_and_a_router() {
    let plan = create_feature("proj", &FeatureParams::minimal("Shopping Cart"));
    assert_eq!(plan, minimal_plan("proj", "ShoppingCart", "shopping_cart", &CART));
}

#[test]
fn a_full_feature_has_every_part() {
    let plan = create_feature("proj", &FeatureParams::new("Shopping Cart"));
    let d = "proj/lib/features/shopping_cart";
    let expected = vec![
        Action::FailIfExists { path: d.to_string(), feature_name: "shopping_cart".to_string() },
        report("Creating feature: shopping_cart"),
        make_dir(d, "Failed to create feature directory"),
        make_dir(&format!("{d}/cubits"), "Failed to create cubits directory"),
        make_dir(&format!("{d}/data/repository"), "Failed to create repository directory"),
        make_dir(&format!("{d}/data/models"), "Failed to create models directory"),
        make_dir(&format!("{d}/data/datasources"), "Failed to create datasources directory"),
        make_dir(&format!("{d}/ui/pages"), "Failed to create pages directory"),
        make_dir(&format!("{d}/ui/_widgets"), "Failed to create _widgets directory"),
        make_dir(&format!("{d}/services"), "Failed to create services directory"),
        make_dir(&format!("{d}/utils"), "Failed to create utils directory"),
        make_dir(&format!("{d}/cubits/shopping_cart_cubit"), "Failed to create cubit directory"),
        template(
            "features/common/cubits/feature_cubit/feature_cubit.dart.tmpl",
            &format!("{d}/cubits/shopping_cart_cubit/shopping_cart_cubit.dart"),
            &CART,
        ),
        template(
            "features/common/cubits/feature_cubit/feature_state.dart.tmpl",
            &format!("{d}/cubits/shopping_cart_cubit/shopping_cart_state.dart"),
            &CART,
        ),
        template(
            "features/common/data/repository/feature_repository.dart.tmpl",
            &format!("{d}/data/repository/shopping_cart_repository.dart"),
            &CART,
        ),
        template(
            "features/common/data/models/feature_model.dart.tmpl",
            &format!("{d}/data/models/shopping_cart_model.dart"),
            &CART,
        ),
        template(
            "features/common/ui/pages/feature_page.dart.tmpl",
            &format!("{d}/ui/pages/shopping_cart_page.dart"),
            &CART,
        ),
        template(
            "features/common/ui/_widgets/feature_item_widget.dart.tmpl",
            &format!("{d}/ui/_widgets/shopping_cart_item_widget.dart"),
            &CART,
        ),
        template("features/common/router.dart.tmpl", &format!("{d}/router.dart"), &CART),
        router("proj", "shopping_cart", "ShoppingCart"),
        template(
            "features/common/services/feature_service.dart.tmpl",
            &format!("{d}/services/shopping_cart_service.dart"),
            &CART,
        ),
        template(
            "features/common/utils/feature_helpers.dart.tmpl",
            &format!("{d}/utils/shopping_cart_helpers.dart"),
            &CART,
        ),
        template("features/common/di.dart.tmpl", &format!("{d}/di.dart"), &CART),
        di("proj", "shopping_cart"),
        report(CREATED),
        report(&format!(
            "- State Management: {d}/cubits/shopping_cart_cubit/shopping_cart_cubit.dart"
        )),
        report(&format!("- State: {d}/cubits/shopping_cart_cubit/shopping_cart_state.dart")),
        report(&format!("- Repository: {d}/data/repository/shopping_cart_repository.dart")),
        report(&format!("- Model: {d}/data/models/shopping_cart_model.dart")),
        report(&format!("- UI Page: {d}/ui/pages/shopping_cart_page.dart")),
        report(&format!("- UI Widget: {d}/ui/_widgets/shopping_cart_item_widget.dart")),
        report(&format!("- Router: {d}/router.dart")),
        report(&format!("- Service: {d}/services/shopping_cart_service.dart")),
        report(&format!("- Utils: {d}/utils/shopping_cart_helpers.dart")),
        report(&format!("- DI: {d}/di.dart")),
        report(SIMPLIFIED),
    ];
    assert_eq!(plan, expected);
}

#[test]
fn models_come_only_with_the_data_layer() {
    let mut params = FeatureParams::minimal("cart");
    params.has_models = true;
    params.has_pages = false;
    params.needs_routing = false;
    let plan = create_feature("", &params);
    assert_eq!(
        plan,
        vec![
            Action::FailIfExists {
                path: "lib/features/cart".to_string(),
                feature_name: "cart".to_string()
            },
            report("Creating feature: cart"),
            make_dir("lib/features/cart", "Failed to create feature directory"),
            report(CREATED),
            report(SIMPLIFIED),
        ]
    );
    params.has_repository = true;
    params.has_models = false;
    let files = generate_feature_files("p", "p/f", "Cart", "cart", "cart", &params);
    let names = [
        ("FEATURE_NAME_PASCAL", "Cart"),
        ("FEATURE_NAME_SNAKE", "cart"),
        ("FEATURE_NAME_CAMEL", "cart"),
    ];
    assert_eq!(
        files,
        vec![
            template(
                "features/common/data/repository/feature_repository.dart.tmpl",
                "p/f/data/repository/cart_repository.dart",
                &names
            ),
            report(CREATED),
            report("- Repository: p/f/data/repository/cart_repository.dart"),
            report(SIMPLIFIED),
        ]
    );
}

const ROUTER: &str = "import 'package:go_router/go_router.dart';
import 'features/home/router.dart';

final router = GoRouter(
  routes: [
    ...homeRoutes,
  ],
);
";

#[test]
fn the_router_gets_the_import_and_the_routes() {
    let (content, found) = update_main_router(ROUTER, "cart", "Cart");
    assert!(found);
    assert_eq!(
        content,
        "import 'package:go_router/go_router.dart';
import 'features/home/router.dart';
import 'features/cart/router.dart';

final router = GoRouter(
  routes: [
      // Cart Routes
      ...cartRoutes,
    ...homeRoutes,
  ],
);
"
    );
    let (again, found_again) = update_main_router(&content, "cart", "Cart");
    assert!(found_again);
    assert_eq!(again.matches("import 'features/cart/router.dart';").count(), 1);
    assert_eq!(again.matches("...cartRoutes,").count(), 2);
}

#[test]
fn the_router_without_routes_gets_the_import_only() {
    let (content, found) = update_main_router("import 'a.dart';\nvoid main() {}\n", "cart", "Cart");
    assert!(!found);
    assert_eq!(content, "import 'a.dart';\nimport 'features/cart/router.dart';\nvoid main() {}\n");
    let (plain, plain_found) = update_main_router("void main() {}\n", "cart", "Cart");
    assert!(!plain_found);
    assert_eq!(plain, "void main() {}\n");
    let (open, _) = update_main_router("import 'a.dart'", "cart", "Cart");
    assert_eq!(open, "import 'a.dart'");
    let (routes, routes_found) = update_main_router("routes: []", "cart", "Cart");
    assert!(routes_found);
    assert_eq!(routes, "routes: [\n      // Cart Routes\n      ...cartRoutes,]");
}

#[test]
fn the_injection_file_gets_the_import_and_the_call() {
    let content = "import 'package:get_it/get_it.dart';\n\nvoid setupDependencyInjection() {\n  registerCore();\n}\n";
    let (updated, found) = update_main_di(content, "shopping_cart");
    assert!(found);
    assert_eq!(
        updated,
        "import 'package:get_it/get_it.dart';\nimport 'features/shopping_cart/di.dart';\n\nvoid setupDependencyInjection() {\n  // Register shopping cart dependencies\n  registerShoppingCartDependencies();\n  registerCore();\n}\n"
    );
    let (none, none_found) = update_main_di("import 'a.dart';\n", "cart");
    assert!(!none_found);
    assert_eq!(none, "import 'a.dart';\nimport 'features/cart/di.dart';\n");
    let (no_brace, no_brace_found) = update_main_di("void setupDependencyInjection()", "cart");
    assert!(no_brace_found);
    assert_eq!(no_brace, "void setupDependencyInjection()");
}

#[test]
fn the_notifications_feature_adds_services_pages_and_a_model() {
    let plan = create_notification_feature("proj");
    let d = "proj/lib/features/notifications";
    let base = create_feature("proj", &FeatureParams::new("notifications"));
    let mut expected = vec![
        Action::FailIfExists { path: d.to_string(), feature_name: "notifications".to_string() },
        report("Creating notifications feature with specialized components..."),
    ];
    expected.extend(base);
    expected.extend(vec![
        make_dir(&format!("{d}/services"), "Failed to create notification services directory"),
        report("Creating notification service files..."),
        write(
            &format!("{d}/services/notification_service.dart"),
            "// TODO: Implement notification service\n",
            "Failed to create service file: notification_service.dart",
        ),
        write(
            &format!("{d}/services/local_notification_service.dart"),
            "// TODO: Implement notification service\n",
            "Failed to create service file: local_notification_service.dart",
        ),
        write(
            &format!("{d}/services/push_notification_service.dart"),
            "// TODO: Implement notification service\n",
            "Failed to create service file: push_notification_service.dart",
        ),
        write(
            &format!("{d}/ui/pages/notification_page.dart"),
            "// TODO: Implement notification page\n",
            "Failed to create page file: notification_page.dart",
        ),
        write(
            &format!("{d}/ui/pages/notification_details_page.dart"),
            "// TODO: Implement notification page\n",
            "Failed to create page file: notification_details_page.dart",
        ),
        make_dir(&format!("{d}/data/models"), "Failed to create notification models directory"),
        write(
            &format!("{d}/data/models/notification_model.dart"),
            "class NotificationModel {}\n",
            "Failed to create notification model",
        ),
        router("proj", "notifications", "Notifications"),
        di("proj", "notifications"),
        report(
            "\n\u{e2}\u{153}\u{2026} Notification feature created successfully with the following components:",
        ),
        report(&format!("- Service: {d}/services/notification_service.dart")),
        report(&format!("- Service: {d}/services/local_notification_service.dart")),
        report(&format!("- Service: {d}/services/push_notification_service.dart")),
        report(&format!("- UI Page: {d}/ui/pages/notification_page.dart")),
        report(&format!("- UI Page: {d}/ui/pages/notification_details_page.dart")),
        report(&format!("- Model: {d}/data/models/notification_model.dart")),
    ]);
    assert_eq!(plan, expected);
}

#[test]
fn the_main_page_feature_copies_its_files_or_writes_placeholders() {
    let plan = create_main_page_feature("proj");
    let d = "proj/lib/features/main_page";
    let t = "flutter_lazy/templates/features/main_page";
    let mut params = FeatureParams::new("main_page");
    params.has_state_management = false;
    let mut expected = vec![
        Action::FailIfExists { path: d.to_string(), feature_name: "main_page".to_string() },
        report("Creating main_page feature with navigation components..."),
    ];
    expected.extend(create_feature("proj", &params));
    expected.extend(vec![
        make_dir(&format!("{d}/blocs"), "Failed to create blocs directory"),
        make_dir(&format!("{d}/ui/widgets"), "Failed to create widgets directory"),
        report("Creating main page files..."),
        copy_or(
            &format!("{t}/ui/pages/main_tabs.dart.tmpl"),
            &format!("{d}/ui/pages/main_tabs.dart"),
            "// TODO: Implement main page\n",
            "Failed to create page file: main_tabs.dart",
        ),
        copy_or(
            &format!("{t}/ui/pages/home_page.dart.tmpl"),
            &format!("{d}/ui/pages/home_page.dart"),
            "// TODO: Implement main page\n",
            "Failed to create page file: home_page.dart",
        ),
        copy_or(
            &format!("{t}/ui/pages/settings_page.dart.tmpl"),
            &format!("{d}/ui/pages/settings_page.dart"),
            "// TODO: Implement main page\n",
            "Failed to create page file: settings_page.dart",
        ),
        make_dir(&format!("{d}/blocs/bottom_navigation_cubit"), "Failed to create blocs directory"),
        copy_or(
            &format!("{t}/blocs/bottom_navigation_cubit/bottom_navigation_cubit.dart.tmpl"),
            &format!("{d}/blocs/bottom_navigation_cubit/bottom_navigation_cubit.dart"),
            "// TODO: Implement navigation state management\n",
            "Failed to create bloc file: bottom_navigation_cubit.dart",
        ),
        make_dir(&format!("{d}/blocs/bottom_navigation_cubit"), "Failed to create blocs directory"),
        copy_or(
            &format!("{t}/blocs/bottom_navigation_cubit/bottom_navigation_state.dart.tmpl"),
            &format!("{d}/blocs/bottom_navigation_cubit/bottom_navigation_state.dart"),
            "// TODO: Implement navigation state management\n",
            "Failed to create bloc file: bottom_navigation_state.dart",
        ),
        copy_or(
            &format!("{t}/router.dart.tmpl"),
            &format!("{d}/router.dart"),
            "// TODO: Implement main page router\n",
            "Failed to create router file",
        ),
        copy_or(
            &format!("{t}/di.dart.tmpl"),
            &format!("{d}/di.dart"),
            "// TODO: Implement main page DI\n",
            "Failed to create DI file",
        ),
        router("proj", "main_page", "MainPage"),
        di("proj", "main_page"),
        report("\n\u{2705} Main Page feature created successfully with the following components:"),
        report(&format!("- UI Page: {d}/ui/pages/main_tabs.dart")),
        report(&format!("- UI Page: {d}/ui/pages/home_page.dart")),
        report(&format!("- UI Page: {d}/ui/pages/settings_page.dart")),
        report(&format!(
            "- State Management: {d}/blocs/bottom_navigation_cubit/bottom_navigation_cubit.dart"
        )),
        report(&format!(
            "- State Management: {d}/blocs/bottom_navigation_cubit/bottom_navigation_state.dart"
        )),
        report(&format!("- Router: {d}/router.dart")),
        report(&format!("- DI: {d}/di.dart")),
    ]);
    assert_eq!(plan, expected);
}

#[test]
fn the_auth_feature_adds_cubits_pages_and_the_data_layer() {
    let plan = create_auth_feature("proj");
    let d = "proj/lib/features/auth";
    let base = create_feature("proj", &FeatureParams::minimal("auth"));
    assert_eq!(base, minimal_plan(
        "proj",
        "Auth",
        "auth",
        &[
            ("FEATURE_NAME_PASCAL", "Auth"),
            ("FEATURE_NAME_SNAKE", "auth"),
            ("FEATURE_NAME_CAMEL", "auth"),
        ],
    ));
    assert_eq!(plan.len(), 2 + base.len() + 1 + 8 + 12 + 2 + 8 + 7 + 22);
    assert_eq!(
        plan[0],
        Action::FailIfExists { path: d.to_string(), feature_name: "auth".to_string() }
    );
    assert_eq!(plan[1], report("Creating auth feature with specialized components..."));
    assert_eq!(plan[2..2 + base.len()], base[..]);
    let rest = &plan[2 + base.len()..];
    assert_eq!(rest[0], report("Creating auth specific cubits..."));
    assert_eq!(
        rest[1],
        make_dir(&format!("{d}/cubits/login_cubit"), "Failed to create login_cubit directory")
    );
    assert_eq!(
        rest[8],
        make_dir(&format!("{d}/cubits/loading_cubit"), "Failed to create loading_cubit directory")
    );
    assert_eq!(
        rest[9],
        Action::CopyTemplate {
            template: "features/auth/cubits/login_cubit/login_cubit.dart.tmpl".to_string(),
            destination: format!("{d}/cubits/login_cubit/login_cubit.dart"),
            replacements: Vec::new(),
            context: "Failed to copy template features/auth/cubits/login_cubit/login_cubit.dart.tmpl"
                .to_string(),
        }
    );
    assert_eq!(
        rest[20],
        Action::CopyTemplate {
            template: "features/auth/cubits/welcome_cubit/welcome_state.dart.tmpl".to_string(),
            destination: format!("{d}/cubits/welcome_cubit/welcome_state.dart"),
            replacements: Vec::new(),
            context:
                "Failed to copy template features/auth/cubits/welcome_cubit/welcome_state.dart.tmpl"
                    .to_string(),
        }
    );
    assert_eq!(rest[21], make_dir(&format!("{d}/services"), "Failed to create services directory"));
    assert_eq!(rest[22], report("Creating auth pages..."));
    assert_eq!(
        rest[23],
        write(
            &format!("{d}/ui/pages/login_page.dart"),
            "// TODO: Implement auth page\n",
            "Failed to create page file: login_page.dart"
        )
    );
    assert_eq!(
        rest[31],
        make_dir(&format!("{d}/data/models"), "Failed to create auth models directory")
    );
    assert_eq!(
        rest[32],
        make_dir(&format!("{d}/data/repository"), "Failed to create auth repository directory")
    );
    assert_eq!(
        rest[34],
        Action::CopyTemplate {
            template: "features/auth/data/repository/auth_repository.dart.tmpl".to_string(),
            destination: format!("{d}/data/repository/auth_repository.dart"),
            replacements: Vec::new(),
            context: "Failed to copy auth repository template".to_string(),
        }
    );
    assert_eq!(rest[35], router("proj", "auth", "Auth"));
    assert_eq!(rest[36], di("proj", "auth"));
    assert_eq!(
        rest[37],
        report(
            "\n\u{e2}\u{153}\u{2026} Auth feature created successfully with the following components:"
        )
    );
    assert_eq!(rest[38], report(&format!("- Cubit: {d}/cubits/login_cubit/login_cubit.dart")));
    assert_eq!(rest[44], report(&format!("- State: {d}/cubits/login_cubit/login_state.dart")));
    assert_eq!(rest[50], report(&format!("- UI Page: {d}/ui/pages/login_page.dart")));
    assert_eq!(rest[58], report(&format!("- Model: {d}/data/models/user_model.dart")));
    assert_eq!(
        rest[59],
        report(&format!("- Repository: {d}/data/repository/auth_repository.dart"))
    );
}

fn generator(features: &[&str], flavors: &[&str]) -> FlutterProjectGenerator {
    FlutterProjectGenerator::new(
        "My App",
        &Some("out".to_string()),
        &None,
        flavors.iter().map(|s| s.to_string()).collect(),
        features.iter().map(|s| s.to_string()).collect(),
        None,
    )
}

#[test]
fn a_generator_derives_the_directory_and_the_package() {
    let g = generator(&["auth"], &["dev", "prod"]);
    let config = g.project_config();
    assert_eq!(config.name, "My App");
    assert_eq!(config.package_name, "com.example.my_app");
    assert_eq!(config.output_dir, "out/my_app");
    assert_eq!(config.flavors, vec!["dev".to_string(), "prod".to_string()]);
    assert_eq!(config.features, vec!["auth".to_string()]);
    assert!(g.api_source().is_none());
    let h = FlutterProjectGenerator::new(
        "shop",
        &None,
        &Some("org.shop".to_string()),
        Vec::new(),
        Vec::new(),
        None,
    );
    assert_eq!(h.project_config().package_name, "org.shop");
    assert_eq!(h.project_config().output_dir, "./shop");
}

#[test]
fn the_generation_runs_six_steps_in_order() {
    assert_eq!(
        generator(&[], &[]).generate(),
        vec![
            GenerationStep::CreateBaseProject,
            GenerationStep::SetupProjectStructure,
            GenerationStep::CreateFlavors,
            GenerationStep::AddFeatures,
            GenerationStep::UpdatePubspec,
            GenerationStep::ProcessApiFeatures,
        ]
    );
}

#[test]
fn the_base_project_is_created_by_the_tool_and_gets_its_assets() {
    let g = generator(&[], &[]);
    let none: [(&str, &str); 0] = [];
    assert_eq!(
        g.create_base_project(),
        vec![
            report("Creating base Flutter project..."),
            Action::RunFlutterCreate {
                args: vec![
                    "create".to_string(),
                    "--org".to_string(),
                    "com.example.my_app".to_string(),
                    "--project-name".to_string(),
                    "my_app".to_string(),
                    "out/my_app".to_string(),
                ]
            },
            Action::CopyTemplateDir {
                template_subpath: "common".to_string(),
                destination: "out/my_app".to_string()
            },
            report("Setting up asset directories..."),
            make_dir("out/my_app/assets/fonts", "Failed to create asset directory: assets/fonts"),
            make_dir("out/my_app/assets/i18n", "Failed to create asset directory: assets/i18n"),
            make_dir("out/my_app/assets/images", "Failed to create asset directory: assets/images"),
            make_dir("out/my_app/assets/colors", "Failed to create asset directory: assets/colors"),
            template("assets/i18n/en.json", "out/my_app/assets/i18n/en.json", &none),
            template(
                "assets/images/placeholder.png",
                "out/my_app/assets/images/placeholder.png",
                &none
            ),
            Action::AddAssetsSection { pubspec_path: "out/my_app/pubspec.yaml".to_string() },
            report("\u{2705} Asset directories created"),
            report("\u{2705} Base project created"),
        ]
    );
}

#[test]
fn the_structure_has_the_directories_of_the_architecture() {
    let plan = generator(&[], &[]).setup_project_structure();
    assert_eq!(plan.len(), 1 + 18 + 3);
    assert_eq!(plan[0], report("Setting up project structure..."));
    assert_eq!(plan[1], make_dir("out/my_app/lib/config", "Failed to create directory: config"));
    assert_eq!(
        plan[18],
        make_dir("out/my_app/lib/widgets/inputs", "Failed to create directory: widgets/inputs")
    );
    assert_eq!(
        plan[19],
        template(
            "core/failures/failure.dart",
            "out/my_app/lib/core/failures/failure.dart",
            &[("{package_name}", "com.example.my_app")]
        )
    );
    assert_eq!(
        plan[20],
        template(
            "core/utils/logger.dart",
            "out/my_app/lib/core/utils/logger.dart",
            &[("{package_name}", "com.example.my_app")]
        )
    );
    assert_eq!(plan[21], report("\u{2705} Directory structure created"));
}

#[test]
fn each_flavour_gets_an_entry_file() {
    let plan = generator(&[], &["dev", "prod"]).create_flavors();
    let package = ("{package_name}", "com.example.my_app");
    assert_eq!(
        plan,
        vec![
            report("Setting up flavors..."),
            template("common/main_flavor.dart.tmpl", "out/my_app/lib/main.dart", &[package]),
            template(
                "common/main_flavor.dart.tmpl",
                "out/my_app/lib/main_dev.dart",
                &[package, ("{flavor}", "dev"), ("{flavor_title}", "Dev")]
            ),
            template(
                "common/main_flavor.dart.tmpl",
                "out/my_app/lib/main_prod.dart",
                &[package, ("{flavor}", "prod"), ("{flavor_title}", "Prod")]
            ),
            template(
                "common/flavors.dart",
                "out/my_app/lib/flavors.dart",
                &[("{flavors}", "dev, prod")]
            ),
            report("\u{2705} Flavors setup completed"),
        ]
    );
}

#[test]
fn chosen_features_are_added_and_unknown_ones_skipped() {
    let plan = generator(&["notifications", "search", "main_page"], &[]).add_features();
    let mut expected = vec![report("Adding selected features...")];
    expected.extend(create_notification_feature("out/my_app"));
    expected.push(report("Skipping unknown feature: search"));
    expected.extend(create_main_page_feature("out/my_app"));
    expected.push(report("\u{2705} All selected features added"));
    assert_eq!(plan, expected);
    let auth = generator(&["auth"], &[]).add_features();
    assert_eq!(auth.len(), 2 + create_auth_feature("out/my_app").len());
}

#[test]
fn the_manifest_gets_the_dependencies() {
    assert_eq!(
        generator(&[], &[]).update_pubspec(),
        vec![
            report("Updating pubspec.yaml..."),
            Action::AddDependencies { pubspec_path: "out/my_app/pubspec.yaml".to_string() },
            report("\u{2705} pubspec.yaml updated"),
        ]
    );
}
