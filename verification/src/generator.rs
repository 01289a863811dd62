use crate::casing::{case_text, to_case, CaseStyle};
use crate::edit::{
    capitalize, capitalized, keep_nonempty, listed_names, nonempty_texts, replace_all, replaced,
    split_names, starts_with_text, text_starts_with,
};
use crate::features::auth::{auth_plan, create_auth_feature};
use crate::features::main_page::{create_main_page_feature, main_page_plan};
use crate::features::notifications::{create_notification_feature, notification_plan};
use crate::features::scaffold::template_step;
use crate::plan::{
    dir_steps, pair_views, push_action, push_dirs, push_plan, push_report, push_template,
    push_text, Action, ActionView,
};
use crate::swagger::SwaggerSource;
use crate::text::{
    concat_map, contains_text, join, join_path, join_texts, joined_path, opt_text, push_each,
    text_contains, text_eq, texts, views,
};
use vstd::prelude::*;
use vstd::string::*;

verus! {

/// What a new project is made from.
pub struct ProjectConfig {
    pub name: String,
    pub package_name: String,
    pub flavors: Vec<String>,
    pub features: Vec<String>,
    /// The directory of the project: the output directory, then the project's name in
    /// snake case.
    pub output_dir: String,
}

/// The API document to generate features from, and the domains to keep.
pub struct ApiSpec {
    pub source: SwaggerSource,
    pub domains: Option<Vec<String>>,
}

/// Generates a project.
pub struct FlutterProjectGenerator {
    config: ProjectConfig,
    api_spec: Option<ApiSpec>,
}

/// The configuration of a project, as texts.
pub ghost struct ConfigView {
    pub name: Seq<char>,
    pub package_name: Seq<char>,
    pub flavors: Seq<Seq<char>>,
    pub features: Seq<Seq<char>>,
    pub output_dir: Seq<char>,
}

impl View for ProjectConfig {
    type V = ConfigView;

    open spec fn view(&self) -> ConfigView {
        ConfigView {
            name: self.name@,
            package_name: self.package_name@,
            flavors: texts(self.flavors@),
            features: texts(self.features@),
            output_dir: self.output_dir@,
        }
    }
}

/// One step of the generation of a project.
#[derive(Clone, Copy, Debug, PartialEq, Eq)]
pub enum GenerationStep {
    /// Run the tool that creates the project, copy the common files, set up the assets.
    CreateBaseProject,
    /// Make the directories of the architecture and copy the core files.
    SetupProjectStructure,
    /// Write the entry file of each flavour.
    CreateFlavors,
    /// Add the chosen features.
    AddFeatures,
    /// Add the dependencies to the manifest.
    UpdatePubspec,
    /// Generate the features of the API document, where one was given.
    ProcessApiFeatures,
}

/// The steps of a generation, in the order in which they run.
pub open spec fn generation_steps() -> Seq<GenerationStep> {
    seq![
        GenerationStep::CreateBaseProject,
        GenerationStep::SetupProjectStructure,
        GenerationStep::CreateFlavors,
        GenerationStep::AddFeatures,
        GenerationStep::UpdatePubspec,
        GenerationStep::ProcessApiFeatures,
    ]
}

/// The name of the package of a project where none is given.
pub open spec fn default_package_name(name: Seq<char>) -> Seq<char> {
    "com.example."@ + case_text(name, CaseStyle::Snake)
}

/// The configuration of a project called `name`.
pub open spec fn config_of(
    name: Seq<char>,
    output: Option<Seq<char>>,
    package_name: Option<Seq<char>>,
    flavors: Seq<Seq<char>>,
    features: Seq<Seq<char>>,
) -> ConfigView {
    ConfigView {
        name,
        package_name: match package_name {
            Some(p) => p,
            None => default_package_name(name),
        },
        flavors,
        features,
        output_dir: joined_path(
            match output {
                Some(o) => o,
                None => "."@,
            },
            case_text(name, CaseStyle::Snake),
        ),
    }
}

impl FlutterProjectGenerator {
    /// A generator for the project called `name`, with the flavours and features that
    /// were chosen. The project lies under `output`, or under the current directory,
    /// in a directory named by the project's name in snake case; where no package
    /// name is given, it is `com.example.` and that name.
    pub fn new(
        name: &str,
        output: &Option<String>,
        package_name: &Option<String>,
        flavors: Vec<String>,
        features: Vec<String>,
        api_spec: Option<ApiSpec>,
    ) -> (generator: FlutterProjectGenerator)
        ensures
            generator.config()@ == config_of(
                name@,
                opt_text(*output),
                opt_text(*package_name),
                texts(flavors@),
                texts(features@),
            ),
            generator.api_spec() == api_spec,
    {
        let project_dir_name = to_case(name, CaseStyle::Snake);
        let package = match package_name {
            Some(p) => p.clone(),
            None => {
                let mut p = "com.example.".to_owned();
                p.append(project_dir_name.as_str());
                p
            },
        };
        let output_dir = match output {
            Some(o) => join_path(o.as_str(), project_dir_name.as_str()),
            None => join_path(".", project_dir_name.as_str()),
        };
        FlutterProjectGenerator {
            config: ProjectConfig {
                name: name.to_owned(),
                package_name: package,
                flavors,
                features,
                output_dir,
            },
            api_spec,
        }
    }

    /// The configuration of the project.
    pub closed spec fn config(&self) -> ProjectConfig {
        self.config
    }

    /// The API document of the project, if it has one.
    pub closed spec fn api_spec(&self) -> Option<ApiSpec> {
        self.api_spec
    }

    /// The configuration of the project.
    pub fn project_config(&self) -> (r: &ProjectConfig)
        ensures
            *r == self.config(),
    {
        &self.config
    }

    /// The API document of the project, if it has one.
    pub fn api_source(&self) -> (r: &Option<ApiSpec>)
        ensures
            *r == self.api_spec(),
    {
        &self.api_spec
    }

    /// The steps that generate the project, in the order in which they run. Each
    /// step runs only after the one before it succeeded.
    pub fn generate(&self) -> (steps: Vec<GenerationStep>)
        ensures
            steps@ == generation_steps(),
    {
        let mut steps: Vec<GenerationStep> = Vec::new();
        steps.push(GenerationStep::CreateBaseProject);
        steps.push(GenerationStep::SetupProjectStructure);
        steps.push(GenerationStep::CreateFlavors);
        steps.push(GenerationStep::AddFeatures);
        steps.push(GenerationStep::UpdatePubspec);
        steps.push(GenerationStep::ProcessApiFeatures);
        assert(steps@ =~= generation_steps());
        steps
    }
}

/// The directories of the architecture, from the directory `lib` of a project.
pub open spec fn structure_dirs() -> Seq<Seq<char>> {
    seq![
        "config"@,
        "core/entities"@,
        "core/enums"@,
        "core/failures"@,
        "core/form"@,
        "core/models"@,
        "core/extensions"@,
        "core/utils"@,
        "features"@,
        "helpers"@,
        "modules/bloc"@,
        "modules/local_storage_module"@,
        "modules/push_notification"@,
        "modules/rest_module"@,
        "widgets/buttons"@,
        "widgets/cards"@,
        "widgets/dialogs"@,
        "widgets/inputs"@,
    ]
}

/// The directories of the assets, from the directory of a project.
pub open spec fn asset_dirs() -> Seq<Seq<char>> {
    seq!["assets/fonts"@, "assets/i18n"@, "assets/images"@, "assets/colors"@]
}

/// The placeholder of the package name, with its value.
pub open spec fn package_replacement(config: ConfigView) -> (Seq<char>, Seq<char>) {
    ("{package_name}"@, config.package_name)
}

/// The arguments of the tool that creates the project.
pub open spec fn create_arguments(config: ConfigView) -> Seq<Seq<char>> {
    seq![
        "create"@,
        "--org"@,
        config.package_name,
        "--project-name"@,
        case_text(config.name, CaseStyle::Snake),
        config.output_dir,
    ]
}

/// The plan that sets up the assets: their directories, the two placeholder assets,
/// and the section of the assets in the manifest.
pub open spec fn assets_plan(config: ConfigView) -> Seq<ActionView> {
    seq![ActionView::Report { line: "Setting up asset directories..."@ }] + dir_steps(
        config.output_dir,
        asset_dirs(),
        "Failed to create asset directory: "@,
        Seq::empty(),
    ) + seq![
        template_step(
            "assets/i18n/en.json"@,
            joined_path(config.output_dir, "assets/i18n/en.json"@),
            Seq::empty(),
        ),
        template_step(
            "assets/images/placeholder.png"@,
            joined_path(config.output_dir, "assets/images/placeholder.png"@),
            Seq::empty(),
        ),
        ActionView::AddAssetsSection {
            pubspec_path: joined_path(config.output_dir, "pubspec.yaml"@),
        },
        ActionView::Report { line: "\u{2705} Asset directories created"@ },
    ]
}

/// The plan of the first step: the tool creates the project, the common templates are
/// copied into it, and the assets are set up.
pub open spec fn base_project_plan(config: ConfigView) -> Seq<ActionView> {
    seq![
        ActionView::Report { line: "Creating base Flutter project..."@ },
        ActionView::RunFlutterCreate { args: create_arguments(config) },
        ActionView::CopyTemplateDir {
            template_subpath: "common"@,
            destination: config.output_dir,
        },
    ] + assets_plan(config) + seq![ActionView::Report { line: "\u{2705} Base project created"@ }]
}

/// The step that copies a core file of the architecture.
pub open spec fn core_file_step(config: ConfigView, file: Seq<char>) -> ActionView {
    template_step(
        file,
        joined_path(joined_path(config.output_dir, "lib"@), file),
        seq![package_replacement(config)],
    )
}

/// The plan of the second step: the directories of the architecture are made, and the
/// core files are copied.
pub open spec fn structure_plan(config: ConfigView) -> Seq<ActionView> {
    seq![ActionView::Report { line: "Setting up project structure..."@ }] + dir_steps(
        joined_path(config.output_dir, "lib"@),
        structure_dirs(),
        "Failed to create directory: "@,
        Seq::empty(),
    ) + seq![
        core_file_step(config, "core/failures/failure.dart"@),
        core_file_step(config, "core/utils/logger.dart"@),
        ActionView::Report { line: "\u{2705} Directory structure created"@ },
    ]
}

/// The step that writes the entry file of a flavour.
pub open spec fn flavor_step(config: ConfigView, flavor: Seq<char>) -> ActionView {
    template_step(
        "common/main_flavor.dart.tmpl"@,
        joined_path(config.output_dir, "lib/main_"@ + flavor + ".dart"@),
        seq![
            package_replacement(config),
            ("{flavor}"@, flavor),
            ("{flavor_title}"@, capitalized(flavor)),
        ],
    )
}

/// The plan of the third step: the entry file, the entry file of each flavour, and
/// the file that lists the flavours.
pub open spec fn flavors_plan(config: ConfigView) -> Seq<ActionView> {
    seq![
        ActionView::Report { line: "Setting up flavors..."@ },
        template_step(
            "common/main_flavor.dart.tmpl"@,
            joined_path(config.output_dir, "lib/main.dart"@),
            seq![package_replacement(config)],
        ),
    ] + config.flavors.map_values(|flavor: Seq<char>| flavor_step(config, flavor)) + seq![
        template_step(
            "common/flavors.dart"@,
            joined_path(config.output_dir, "lib/flavors.dart"@),
            seq![("{flavors}"@, join_texts(config.flavors, ", "@))],
        ),
        ActionView::Report { line: "\u{2705} Flavors setup completed"@ },
    ]
}

/// The plan that adds one chosen feature: the plan of the feature where it is one of
/// the three that the generator knows, else a line that says that it is skipped.
pub open spec fn chosen_feature_plan(project_dir: Seq<char>, feature: Seq<char>) -> Seq<ActionView> {
    if feature == "auth"@ {
        auth_plan(project_dir)
    } else if feature == "notifications"@ {
        notification_plan(project_dir)
    } else if feature == "main_page"@ {
        main_page_plan(project_dir)
    } else {
        seq![ActionView::Report { line: "Skipping unknown feature: "@ + feature }]
    }
}

/// The plans of the chosen features, one behind the other.
pub open spec fn chosen_features_plan(project_dir: Seq<char>, features: Seq<Seq<char>>) -> Seq<
    ActionView,
>
    decreases features.len(),
{
    if features.len() == 0 {
        Seq::empty()
    } else {
        chosen_features_plan(project_dir, features.drop_last()) + chosen_feature_plan(
            project_dir,
            features.last(),
        )
    }
}

/// The plan of the fourth step: the chosen features are added, in order.
pub open spec fn features_plan(config: ConfigView) -> Seq<ActionView> {
    seq![ActionView::Report { line: "Adding selected features..."@ }] + chosen_features_plan(
        config.output_dir,
        config.features,
    ) + seq![ActionView::Report { line: "\u{2705} All selected features added"@ }]
}

/// The plan of the fifth step: the dependencies are added to the manifest.
pub open spec fn pubspec_plan(config: ConfigView) -> Seq<ActionView> {
    seq![
        ActionView::Report { line: "Updating pubspec.yaml..."@ },
        ActionView::AddDependencies {
            pubspec_path: joined_path(config.output_dir, "pubspec.yaml"@),
        },
        ActionView::Report { line: "\u{2705} pubspec.yaml updated"@ },
    ]
}

/// The dependencies of the architecture, as they are added to the manifest.
pub open spec fn dependencies_text() -> Seq<char> {
    "\n  # State Management\n  flutter_bloc: ^8.1.3\n  equatable: ^2.0.5\n  \n  # Dependency Injection\n  get_it: ^7.6.4\n  injectable: ^2.3.2\n  \n  # Networking\n  dio: ^5.3.3\n  http: ^1.1.0\n  connectivity_plus: ^5.0.1\n  \n  # Local Storage\n  shared_preferences: ^2.2.2\n  \n  # Utilities\n  dartz: ^0.10.1\n  logger: ^2.0.2\n  intl: ^0.18.1\n  json_annotation: ^4.8.1\n  \n  # UI utilities\n  cached_network_image: ^3.3.0\n  flutter_svg: ^2.0.9\n  shimmer: ^3.0.0"@
}

/// The development dependencies of the architecture.
pub open spec fn dev_dependencies_text() -> Seq<char> {
    "\n  # Flutter flavorizr for handling flavors\n  flutter_flavorizr: ^2.2.1\n  \n  # Code generation\n  build_runner: ^2.4.6\n  json_serializable: ^6.7.1\n  injectable_generator: ^2.4.1"@
}

/// The section of the assets of a manifest.
pub open spec fn assets_section_text() -> Seq<char> {
    "\n  assets:\n    - assets/i18n/\n    - assets/images/\n    \n  fonts:\n    - family: AppIcons\n      fonts:\n        - asset: assets/fonts/AppIcons.ttf"@
}

/// A manifest with the dependencies of the architecture behind the head of its
/// dependencies, and the development dependencies behind the head of its
/// development dependencies.
pub open spec fn manifest_with_dependencies(content: Seq<char>) -> Seq<char> {
    replaced(
        replaced(
            content,
            "dependencies:\n  flutter:"@,
            "dependencies:\n  flutter:"@ + dependencies_text(),
        ),
        "dev_dependencies:\n  flutter_test:"@,
        "dev_dependencies:\n  flutter_test:"@ + dev_dependencies_text(),
    )
}

/// The entry of a flavour in the configuration of the flavours.
pub open spec fn flavor_entry(flavor: Seq<char>) -> Seq<char> {
    "\n    "@ + flavor + ": {}"@
}

/// The configuration of the flavours, as it is added to the manifest.
pub open spec fn flavorizr_text(flavors: Seq<Seq<char>>) -> Seq<char> {
    "\nflutter_flavorizr:\n  flavors: {"@ + concat_map(
        flavors,
        |flavor: Seq<char>| flavor_entry(flavor),
    ) + "}"@
}

/// The domains that an answer names: the parts between its commas, without the white
/// space around them and without the empty ones; none where nothing is left.
pub open spec fn domain_filter_of(input: Seq<char>) -> Option<Seq<Seq<char>>> {
    let names = nonempty_texts(listed_names(input));
    if names.len() == 0 {
        None
    } else {
        Some(names)
    }
}

/// A manifest with the dependencies of the architecture.
pub fn pubspec_with_dependencies(content: &str) -> (r: String)
    ensures
        r@ == manifest_with_dependencies(content@),
{
    let mut dependencies = "dependencies:\n  flutter:".to_owned();
    dependencies.append(
        "\n  # State Management\n  flutter_bloc: ^8.1.3\n  equatable: ^2.0.5\n  \n  # Dependency Injection\n  get_it: ^7.6.4\n  injectable: ^2.3.2\n  \n  # Networking\n  dio: ^5.3.3\n  http: ^1.1.0\n  connectivity_plus: ^5.0.1\n  \n  # Local Storage\n  shared_preferences: ^2.2.2\n  \n  # Utilities\n  dartz: ^0.10.1\n  logger: ^2.0.2\n  intl: ^0.18.1\n  json_annotation: ^4.8.1\n  \n  # UI utilities\n  cached_network_image: ^3.3.0\n  flutter_svg: ^2.0.9\n  shimmer: ^3.0.0",
    );
    let mut dev_dependencies = "dev_dependencies:\n  flutter_test:".to_owned();
    dev_dependencies.append(
        "\n  # Flutter flavorizr for handling flavors\n  flutter_flavorizr: ^2.2.1\n  \n  # Code generation\n  build_runner: ^2.4.6\n  json_serializable: ^6.7.1\n  injectable_generator: ^2.4.1",
    );
    let first = replace_all(content, "dependencies:\n  flutter:", dependencies.as_str());
    replace_all(first.as_str(), "dev_dependencies:\n  flutter_test:", dev_dependencies.as_str())
}

/// A manifest with the section of the assets at its end; `None` where the manifest
/// names assets already, and is left as it is.
pub fn pubspec_with_assets(content: &str) -> (r: Option<String>)
    ensures
        contains_text(content@, "assets:"@) ==> r is None,
        !contains_text(content@, "assets:"@) ==> r is Some && r.unwrap()@ == content@
            + assets_section_text(),
{
    if text_contains(content, "assets:") {
        None
    } else {
        let mut r = content.to_owned();
        r.append(
            "\n  assets:\n    - assets/i18n/\n    - assets/images/\n    \n  fonts:\n    - family: AppIcons\n      fonts:\n        - asset: assets/fonts/AppIcons.ttf",
        );
        Some(r)
    }
}

/// The entry of a flavour in the configuration of the flavours.
fn flavor_entry_of(flavor: &String) -> (r: String)
    ensures
        r@ == flavor_entry(flavor@),
{
    let mut r = "\n    ".to_owned();
    r.append(flavor.as_str());
    r.append(": {}");
    r
}

/// The configuration of the flavours, as it is added at the end of the manifest.
pub fn add_flavorizr_config(flavors: &Vec<String>) -> (r: String)
    ensures
        r@ == flavorizr_text(texts(flavors@)),
{
    let mut r = "\nflutter_flavorizr:\n  flavors: {".to_owned();
    assert(views(flavors@) =~= texts(flavors@));
    push_each(&mut r, flavors, flavor_entry_of, Ghost(|flavor: Seq<char>| flavor_entry(flavor)));
    r.append("}");
    r
}

/// The domains that an answer names; `None` where it names none, and all domains are
/// to be kept.
pub fn prompt_for_domains(input: &str) -> (r: Option<Vec<String>>)
    ensures
        crate::swagger::opt_texts(r) == domain_filter_of(input@),
{
    let names = keep_nonempty(split_names(input));
    if names.len() == 0 {
        None
    } else {
        Some(names)
    }
}

/// Why an answer is no address of an API document, if it is none: it must start with
/// `http://` or `https://`.
pub fn prompt_for_api_url(input: &str) -> (r: Result<(), String>)
    ensures
        r is Ok <==> starts_with_text(input@, "http://"@) || starts_with_text(
            input@,
            "https://"@,
        ),
        r is Err ==> r->Err_0@ == "URL must start with http:// or https://"@,
{
    if text_starts_with(input, "http://") || text_starts_with(input, "https://") {
        Ok(())
    } else {
        Err("URL must start with http:// or https://".to_owned())
    }
}

/// The source of an API document at an address. An address is taken as it is: whether
/// a document is there shows when it is fetched.
pub fn try_load_swagger_from_url(url: String) -> (source: SwaggerSource)
    ensures
        source == SwaggerSource::Url(url),
{
    SwaggerSource::Url(url)
}

/// The source of an API document in a file, where the file exists.
pub fn try_load_swagger_from_file(path: String, present: bool) -> (r: Option<SwaggerSource>)
    ensures
        present ==> r == Some(SwaggerSource::File(path)),
        !present ==> r is None,
{
    if present {
        Some(SwaggerSource::File(path))
    } else {
        None
    }
}

/// The plan that adds one chosen feature to the project under `project_dir`.
fn chosen_feature(project_dir: &str, feature: &str) -> (plan: Vec<Action>)
    ensures
        views(plan@) == chosen_feature_plan(project_dir@, feature@),
{
    if text_eq(feature, "auth") {
        create_auth_feature(project_dir)
    } else if text_eq(feature, "notifications") {
        create_notification_feature(project_dir)
    } else if text_eq(feature, "main_page") {
        create_main_page_feature(project_dir)
    } else {
        let mut plan: Vec<Action> = Vec::new();
        let mut line = "Skipping unknown feature: ".to_owned();
        line.append(feature);
        push_report(&mut plan, line);
        assert(views(plan@) =~= chosen_feature_plan(project_dir@, feature@));
        plan
    }
}

/// The placeholder of a package name, with its value, in a list of its own.
fn package_replacements(package_name: &str) -> (r: Vec<(String, String)>)
    ensures
        pair_views(r@) == seq![("{package_name}"@, package_name@)],
{
    let mut r: Vec<(String, String)> = Vec::new();
    r.push(("{package_name}".to_owned(), package_name.to_owned()));
    assert(pair_views(r@) =~= seq![("{package_name}"@, package_name@)]);
    r
}

impl FlutterProjectGenerator {
    /// The plan that sets up the assets of the project.
    pub fn setup_assets(&self) -> (plan: Vec<Action>)
        ensures
            views(plan@) == assets_plan(self.config()@),
    {
        let out = self.config.output_dir.as_str();
        let mut plan: Vec<Action> = Vec::new();
        push_report(&mut plan, "Setting up asset directories...".to_owned());
        assert(views(plan@) =~= seq![
            ActionView::Report { line: "Setting up asset directories..."@ },
        ]);
        let mut dirs: Vec<String> = Vec::new();
        assert(texts(dirs@) =~= Seq::<Seq<char>>::empty());
        push_text(&mut dirs, "assets/fonts");
        push_text(&mut dirs, "assets/i18n");
        push_text(&mut dirs, "assets/images");
        push_text(&mut dirs, "assets/colors");
        assert(texts(dirs@) =~= asset_dirs());
        proof {
            reveal_strlit("");
            assert(""@ =~= Seq::<char>::empty());
        }
        push_dirs(&mut plan, out, &dirs, "Failed to create asset directory: ", "");
        let ghost steps = views(plan@);
        let none: Vec<(String, String)> = Vec::new();
        assert(pair_views(none@) =~= Seq::<(Seq<char>, Seq<char>)>::empty());
        push_template(
            &mut plan,
            "assets/i18n/en.json",
            join_path(out, "assets/i18n/en.json"),
            &none,
            String::new(),
        );
        push_template(
            &mut plan,
            "assets/images/placeholder.png",
            join_path(out, "assets/images/placeholder.png"),
            &none,
            String::new(),
        );
        push_action(
            &mut plan,
            Action::AddAssetsSection { pubspec_path: join_path(out, "pubspec.yaml") },
        );
        push_report(&mut plan, "\u{2705} Asset directories created".to_owned());
        assert(views(plan@) =~= steps + seq![
            template_step(
                "assets/i18n/en.json"@,
                joined_path(out@, "assets/i18n/en.json"@),
                Seq::empty(),
            ),
            template_step(
                "assets/images/placeholder.png"@,
                joined_path(out@, "assets/images/placeholder.png"@),
                Seq::empty(),
            ),
            ActionView::AddAssetsSection { pubspec_path: joined_path(out@, "pubspec.yaml"@) },
            ActionView::Report { line: "\u{2705} Asset directories created"@ },
        ]);
        plan
    }

    /// The plan of the first step of the generation.
    pub fn create_base_project(&self) -> (plan: Vec<Action>)
        ensures
            views(plan@) == base_project_plan(self.config()@),
    {
        let out = self.config.output_dir.as_str();
        let mut args: Vec<String> = Vec::new();
        assert(texts(args@) =~= Seq::<Seq<char>>::empty());
        push_text(&mut args, "create");
        push_text(&mut args, "--org");
        push_text(&mut args, self.config.package_name.as_str());
        push_text(&mut args, "--project-name");
        push_text(&mut args, to_case(self.config.name.as_str(), CaseStyle::Snake).as_str());
        push_text(&mut args, out);
        assert(texts(args@) =~= create_arguments(self.config()@));
        let mut plan: Vec<Action> = Vec::new();
        push_report(&mut plan, "Creating base Flutter project...".to_owned());
        push_action(&mut plan, Action::RunFlutterCreate { args });
        push_action(
            &mut plan,
            Action::CopyTemplateDir {
                template_subpath: "common".to_owned(),
                destination: out.to_owned(),
            },
        );
        assert(views(plan@) =~= seq![
            ActionView::Report { line: "Creating base Flutter project..."@ },
            ActionView::RunFlutterCreate { args: create_arguments(self.config()@) },
            ActionView::CopyTemplateDir { template_subpath: "common"@, destination: out@ },
        ]);
        push_plan(&mut plan, self.setup_assets());
        let ghost steps = views(plan@);
        push_report(&mut plan, "\u{2705} Base project created".to_owned());
        assert(views(plan@) =~= steps + seq![
            ActionView::Report { line: "\u{2705} Base project created"@ },
        ]);
        plan
    }

    /// The plan of the second step of the generation.
    pub fn setup_project_structure(&self) -> (plan: Vec<Action>)
        ensures
            views(plan@) == structure_plan(self.config()@),
    {
        let lib_dir = join_path(self.config.output_dir.as_str(), "lib");
        let mut plan: Vec<Action> = Vec::new();
        push_report(&mut plan, "Setting up project structure...".to_owned());
        assert(views(plan@) =~= seq![
            ActionView::Report { line: "Setting up project structure..."@ },
        ]);
        let mut dirs: Vec<String> = Vec::new();
        assert(texts(dirs@) =~= Seq::<Seq<char>>::empty());
        push_text(&mut dirs, "config");
        push_text(&mut dirs, "core/entities");
        push_text(&mut dirs, "core/enums");
        push_text(&mut dirs, "core/failures");
        push_text(&mut dirs, "core/form");
        push_text(&mut dirs, "core/models");
        push_text(&mut dirs, "core/extensions");
        push_text(&mut dirs, "core/utils");
        push_text(&mut dirs, "features");
        push_text(&mut dirs, "helpers");
        push_text(&mut dirs, "modules/bloc");
        push_text(&mut dirs, "modules/local_storage_module");
        push_text(&mut dirs, "modules/push_notification");
        push_text(&mut dirs, "modules/rest_module");
        push_text(&mut dirs, "widgets/buttons");
        push_text(&mut dirs, "widgets/cards");
        push_text(&mut dirs, "widgets/dialogs");
        push_text(&mut dirs, "widgets/inputs");
        assert(texts(dirs@) =~= structure_dirs());
        proof {
            reveal_strlit("");
            assert(""@ =~= Seq::<char>::empty());
        }
        push_dirs(&mut plan, lib_dir.as_str(), &dirs, "Failed to create directory: ", "");
        let ghost steps = views(plan@);
        let package = package_replacements(self.config.package_name.as_str());
        push_template(
            &mut plan,
            "core/failures/failure.dart",
            join_path(lib_dir.as_str(), "core/failures/failure.dart"),
            &package,
            String::new(),
        );
        push_template(
            &mut plan,
            "core/utils/logger.dart",
            join_path(lib_dir.as_str(), "core/utils/logger.dart"),
            &package,
            String::new(),
        );
        push_report(&mut plan, "\u{2705} Directory structure created".to_owned());
        assert(views(plan@) =~= steps + seq![
            core_file_step(self.config()@, "core/failures/failure.dart"@),
            core_file_step(self.config()@, "core/utils/logger.dart"@),
            ActionView::Report { line: "\u{2705} Directory structure created"@ },
        ]);
        plan
    }

    /// The step that writes the entry file of a flavour.
    fn flavor_file(&self, flavor: &str) -> (step: Action)
        ensures
            step@ == flavor_step(self.config()@, flavor@),
    {
        let mut replacements = package_replacements(self.config.package_name.as_str());
        let ghost one = pair_views(replacements@);
        replacements.push(("{flavor}".to_owned(), flavor.to_owned()));
        let ghost two = pair_views(replacements@);
        assert(two =~= one.push(("{flavor}"@, flavor@)));
        replacements.push(("{flavor_title}".to_owned(), capitalize(flavor)));
        assert(pair_views(replacements@) =~= two.push(("{flavor_title}"@, capitalized(flavor@))));
        assert(pair_views(replacements@) =~= seq![
            package_replacement(self.config()@),
            ("{flavor}"@, flavor@),
            ("{flavor_title}"@, capitalized(flavor@)),
        ]);
        let mut name = "lib/main_".to_owned();
        name.append(flavor);
        name.append(".dart");
        Action::CopyTemplate {
            template: "common/main_flavor.dart.tmpl".to_owned(),
            destination: join_path(self.config.output_dir.as_str(), name.as_str()),
            replacements,
            context: String::new(),
        }
    }

    /// The plan of the third step of the generation.
    pub fn create_flavors(&self) -> (plan: Vec<Action>)
        ensures
            views(plan@) == flavors_plan(self.config()@),
    {
        let out = self.config.output_dir.as_str();
        let package = package_replacements(self.config.package_name.as_str());
        let mut plan: Vec<Action> = Vec::new();
        push_report(&mut plan, "Setting up flavors...".to_owned());
        push_template(
            &mut plan,
            "common/main_flavor.dart.tmpl",
            join_path(out, "lib/main.dart"),
            &package,
            String::new(),
        );
        assert(views(plan@) =~= seq![
            ActionView::Report { line: "Setting up flavors..."@ },
            template_step(
                "common/main_flavor.dart.tmpl"@,
                joined_path(out@, "lib/main.dart"@),
                seq![package_replacement(self.config()@)],
            ),
        ]);
        let ghost steps = views(plan@);
        let ghost all = self.config()@.flavors.map_values(
            |flavor: Seq<char>| flavor_step(self.config()@, flavor),
        );
        let mut i: usize = 0;
        assert(views(plan@) =~= steps + all.take(0));
        while i < self.config.flavors.len()
            invariant
                i <= self.config.flavors.len(),
                all == self.config()@.flavors.map_values(
                    |flavor: Seq<char>| flavor_step(self.config()@, flavor),
                ),
                self.config == self.config(),
                views(plan@) == steps + all.take(i as int),
            decreases self.config.flavors.len() - i,
        {
            let step = self.flavor_file(self.config.flavors[i].as_str());
            assert(all[i as int] == step@);
            push_action(&mut plan, step);
            assert(views(plan@) =~= steps + all.take(i + 1));
            i += 1;
        }
        assert(all.take(self.config.flavors.len() as int) =~= all);
        let ghost steps2 = views(plan@);
        let mut listing: Vec<(String, String)> = Vec::new();
        listing.push(("{flavors}".to_owned(), join(&self.config.flavors, ", ")));
        assert(pair_views(listing@) =~= seq![
            ("{flavors}"@, join_texts(self.config()@.flavors, ", "@)),
        ]);
        push_template(
            &mut plan,
            "common/flavors.dart",
            join_path(out, "lib/flavors.dart"),
            &listing,
            String::new(),
        );
        push_report(&mut plan, "\u{2705} Flavors setup completed".to_owned());
        assert(views(plan@) =~= steps2 + seq![
            template_step(
                "common/flavors.dart"@,
                joined_path(out@, "lib/flavors.dart"@),
                seq![("{flavors}"@, join_texts(self.config()@.flavors, ", "@))],
            ),
            ActionView::Report { line: "\u{2705} Flavors setup completed"@ },
        ]);
        plan
    }

    /// The plan of the fourth step of the generation.
    pub fn add_features(&self) -> (plan: Vec<Action>)
        ensures
            views(plan@) == features_plan(self.config()@),
    {
        let out = self.config.output_dir.as_str();
        let mut plan: Vec<Action> = Vec::new();
        push_report(&mut plan, "Adding selected features...".to_owned());
        assert(views(plan@) =~= seq![ActionView::Report { line: "Adding selected features..."@ }]);
        let ghost steps = views(plan@);
        let ghost all = self.config()@.features;
        let mut i: usize = 0;
        assert(all.take(0) =~= Seq::<Seq<char>>::empty());
        assert(views(plan@) =~= steps + chosen_features_plan(out@, all.take(0)));
        while i < self.config.features.len()
            invariant
                i <= self.config.features.len(),
                all == self.config()@.features,
                self.config == self.config(),
                out@ == self.config()@.output_dir,
                views(plan@) == steps + chosen_features_plan(out@, all.take(i as int)),
            decreases self.config.features.len() - i,
        {
            let more = chosen_feature(out, self.config.features[i].as_str());
            proof {
                let next = all.take(i + 1);
                assert(next.drop_last() =~= all.take(i as int));
                assert(next.last() == self.config.features@[i as int]@);
                crate::text::concat_assoc(
                    steps,
                    chosen_features_plan(out@, all.take(i as int)),
                    views(more@),
                );
            }
            push_plan(&mut plan, more);
            i += 1;
        }
        assert(all.take(self.config.features.len() as int) =~= all);
        let ghost steps2 = views(plan@);
        push_report(&mut plan, "\u{2705} All selected features added".to_owned());
        assert(views(plan@) =~= steps2 + seq![
            ActionView::Report { line: "\u{2705} All selected features added"@ },
        ]);
        plan
    }

    /// The plan of the fifth step of the generation.
    pub fn update_pubspec(&self) -> (plan: Vec<Action>)
        ensures
            views(plan@) == pubspec_plan(self.config()@),
    {
        let mut plan: Vec<Action> = Vec::new();
        push_report(&mut plan, "Updating pubspec.yaml...".to_owned());
        push_action(
            &mut plan,
            Action::AddDependencies {
                pubspec_path: join_path(self.config.output_dir.as_str(), "pubspec.yaml"),
            },
        );
        push_report(&mut plan, "\u{2705} pubspec.yaml updated".to_owned());
        assert(views(plan@) =~= pubspec_plan(self.config()@));
        plan
    }
}

/// What happened while the API document of a project was being asked for.
pub enum ApiSetupEvent {
    /// The setup starts, with the address and the file that were given beforehand.
    Started { api_url: Option<String>, api_file: Option<String> },
    /// The answer to whether a document is wanted: the position in the list of no,
    /// from an address, from a file.
    IncludeChosen { choice: usize },
    /// An address was entered.
    UrlEntered { url: String },
    /// A path was entered.
    FileEntered { path: String },
    /// The disk was asked whether the file is there.
    FileChecked { path: String, present: bool },
    /// The answer to what to do after a file was not found: the position in the list
    /// of another file, an address, no document.
    RetryChosen { choice: usize },
    /// The domains to keep were asked for.
    DomainsEntered { source: SwaggerSource, domains: Option<Vec<String>> },
}

/// What is to be done next while the API document of a project is being asked for.
pub enum ApiSetupAction {
    /// Ask whether a document is wanted.
    AskInclude,
    /// Ask for an address.
    AskUrl,
    /// Ask for a path.
    AskFile,
    /// Ask the disk whether the file is there.
    CheckFile { path: String },
    /// Say that the file does not exist, and ask what to do.
    AskRetry { path: String },
    /// Ask for the domains to keep of the document at this source.
    AskDomains { source: SwaggerSource },
    /// The setup is over, with or without a document.
    Finish { api_spec: Option<ApiSpec> },
}

/// The next thing to do after an event of the setup. An address that was given
/// beforehand counts before a file; an address is taken as it is, a file only where
/// it is there; after a missing file the user chooses another file, an address, or
/// no document.
pub fn create_api_spec(event: ApiSetupEvent) -> (action: ApiSetupAction)
    ensures
        match event {
            ApiSetupEvent::Started { api_url: Some(url), api_file } => action
                == (ApiSetupAction::AskDomains { source: SwaggerSource::Url(url) }),
            ApiSetupEvent::Started { api_url: None, api_file: Some(path) } => action
                == (ApiSetupAction::CheckFile { path }),
            ApiSetupEvent::Started { api_url: None, api_file: None } => action
                == ApiSetupAction::AskInclude,
            ApiSetupEvent::IncludeChosen { choice } => action == if choice == 0 {
                ApiSetupAction::Finish { api_spec: None }
            } else if choice == 1 {
                ApiSetupAction::AskUrl
            } else {
                ApiSetupAction::AskFile
            },
            ApiSetupEvent::UrlEntered { url } => action
                == (ApiSetupAction::AskDomains { source: SwaggerSource::Url(url) }),
            ApiSetupEvent::FileEntered { path } => action == (ApiSetupAction::CheckFile { path }),
            ApiSetupEvent::FileChecked { path, present } => action == if present {
                ApiSetupAction::AskDomains { source: SwaggerSource::File(path) }
            } else {
                ApiSetupAction::AskRetry { path }
            },
            ApiSetupEvent::RetryChosen { choice } => action == if choice == 0 {
                ApiSetupAction::AskFile
            } else if choice == 1 {
                ApiSetupAction::AskUrl
            } else {
                ApiSetupAction::Finish { api_spec: None }
            },
            ApiSetupEvent::DomainsEntered { source, domains } => action
                == (ApiSetupAction::Finish { api_spec: Some(ApiSpec { source, domains }) }),
        },
{
    match event {
        ApiSetupEvent::Started { api_url, api_file } => match api_url {
            Some(url) => ApiSetupAction::AskDomains { source: try_load_swagger_from_url(url) },
            None => match api_file {
                Some(path) => ApiSetupAction::CheckFile { path },
                None => ApiSetupAction::AskInclude,
            },
        },
        ApiSetupEvent::IncludeChosen { choice } => {
            if choice == 0 {
                ApiSetupAction::Finish { api_spec: None }
            } else if choice == 1 {
                ApiSetupAction::AskUrl
            } else {
                ApiSetupAction::AskFile
            }
        },
        ApiSetupEvent::UrlEntered { url } => ApiSetupAction::AskDomains {
            source: try_load_swagger_from_url(url),
        },
        ApiSetupEvent::FileEntered { path } => ApiSetupAction::CheckFile { path },
        ApiSetupEvent::FileChecked { path, present } => {
            let missing = path.clone();
            match try_load_swagger_from_file(path, present) {
                Some(source) => ApiSetupAction::AskDomains { source },
                None => ApiSetupAction::AskRetry { path: missing },
            }
        },
        ApiSetupEvent::RetryChosen { choice } => {
            if choice == 0 {
                ApiSetupAction::AskFile
            } else if choice == 1 {
                ApiSetupAction::AskUrl
            } else {
                ApiSetupAction::Finish { api_spec: None }
            }
        },
        ApiSetupEvent::DomainsEntered { source, domains } => ApiSetupAction::Finish {
            api_spec: Some(ApiSpec { source, domains }),
        },
    }
}

} // verus!
