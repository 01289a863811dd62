use crate::casing::{case_text, to_case, CaseStyle};
use crate::features::{FeatureParams, FeatureParamsView};
use crate::plan::{
    pair_views, push_action, push_make_dir, push_plan, push_report, push_reports, push_template,
    report_steps, Action, ActionView,
};
use crate::text::{concat, concat_assoc, join_path, joined_path, texts, views};
use vstd::prelude::*;
use vstd::string::*;

verus! {

/// The placeholders of a feature template, with the names that stand for them.
pub open spec fn name_replacements(
    pascal_name: Seq<char>,
    snake_name: Seq<char>,
    camel_name: Seq<char>,
) -> Seq<(Seq<char>, Seq<char>)> {
    seq![
        ("FEATURE_NAME_PASCAL"@, pascal_name),
        ("FEATURE_NAME_SNAKE"@, snake_name),
        ("FEATURE_NAME_CAMEL"@, camel_name),
    ]
}

/// The step that copies a template of a feature.
pub open spec fn template_step(
    template: Seq<char>,
    destination: Seq<char>,
    replacements: Seq<(Seq<char>, Seq<char>)>,
) -> ActionView {
    ActionView::CopyTemplate { template, destination, replacements, context: Seq::empty() }
}

/// The directory of the cubit of a feature.
pub open spec fn cubit_dir(feature_dir: Seq<char>, snake_name: Seq<char>) -> Seq<char> {
    joined_path(joined_path(feature_dir, "cubits"@), snake_name + "_cubit"@)
}

/// The file `stem` + `tail` in the directory `sub` of a feature.
pub open spec fn feature_file(
    feature_dir: Seq<char>,
    sub: Seq<char>,
    stem: Seq<char>,
    tail: Seq<char>,
) -> Seq<char> {
    joined_path(joined_path(feature_dir, sub), stem + tail)
}

/// The files of the state management: the cubit's directory, the cubit, the state.
pub open spec fn state_steps(
    feature_dir: Seq<char>,
    snake_name: Seq<char>,
    replacements: Seq<(Seq<char>, Seq<char>)>,
) -> Seq<ActionView> {
    seq![
        ActionView::MakeDir {
            path: cubit_dir(feature_dir, snake_name),
            context: "Failed to create cubit directory"@,
        },
        template_step(
            "features/common/cubits/feature_cubit/feature_cubit.dart.tmpl"@,
            joined_path(cubit_dir(feature_dir, snake_name), snake_name + "_cubit.dart"@),
            replacements,
        ),
        template_step(
            "features/common/cubits/feature_cubit/feature_state.dart.tmpl"@,
            joined_path(cubit_dir(feature_dir, snake_name), snake_name + "_state.dart"@),
            replacements,
        ),
    ]
}

/// The lines that report the files of the state management.
pub open spec fn state_lines(feature_dir: Seq<char>, snake_name: Seq<char>) -> Seq<Seq<char>> {
    seq![
        "- State Management: "@ + joined_path(
            cubit_dir(feature_dir, snake_name),
            snake_name + "_cubit.dart"@,
        ),
        "- State: "@ + joined_path(cubit_dir(feature_dir, snake_name), snake_name + "_state.dart"@),
    ]
}

/// The files of the data layer: the repository, and the model where the feature has
/// models.
pub open spec fn repository_steps(
    feature_dir: Seq<char>,
    snake_name: Seq<char>,
    replacements: Seq<(Seq<char>, Seq<char>)>,
    has_models: bool,
) -> Seq<ActionView> {
    seq![
        template_step(
            "features/common/data/repository/feature_repository.dart.tmpl"@,
            feature_file(feature_dir, "data/repository"@, snake_name, "_repository.dart"@),
            replacements,
        ),
    ] + (if has_models {
        seq![
            template_step(
                "features/common/data/models/feature_model.dart.tmpl"@,
                feature_file(feature_dir, "data/models"@, snake_name, "_model.dart"@),
                replacements,
            ),
        ]
    } else {
        Seq::empty()
    })
}

/// The lines that report the files of the data layer.
pub open spec fn repository_lines(feature_dir: Seq<char>, snake_name: Seq<char>, has_models: bool) -> Seq<
    Seq<char>,
> {
    seq![
        "- Repository: "@ + feature_file(
            feature_dir,
            "data/repository"@,
            snake_name,
            "_repository.dart"@,
        ),
    ] + (if has_models {
        seq!["- Model: "@ + feature_file(feature_dir, "data/models"@, snake_name, "_model.dart"@)]
    } else {
        Seq::empty()
    })
}

/// The files of the pages: the page and the item widget.
pub open spec fn page_steps(
    feature_dir: Seq<char>,
    snake_name: Seq<char>,
    replacements: Seq<(Seq<char>, Seq<char>)>,
) -> Seq<ActionView> {
    seq![
        template_step(
            "features/common/ui/pages/feature_page.dart.tmpl"@,
            feature_file(feature_dir, "ui/pages"@, snake_name, "_page.dart"@),
            replacements,
        ),
        template_step(
            "features/common/ui/_widgets/feature_item_widget.dart.tmpl"@,
            feature_file(feature_dir, "ui/_widgets"@, snake_name, "_item_widget.dart"@),
            replacements,
        ),
    ]
}

/// The lines that report the files of the pages.
pub open spec fn page_lines(feature_dir: Seq<char>, snake_name: Seq<char>) -> Seq<Seq<char>> {
    seq![
        "- UI Page: "@ + feature_file(feature_dir, "ui/pages"@, snake_name, "_page.dart"@),
        "- UI Widget: "@ + feature_file(
            feature_dir,
            "ui/_widgets"@,
            snake_name,
            "_item_widget.dart"@,
        ),
    ]
}

/// The router of the feature, and its entry in the router of the project.
pub open spec fn routing_steps(
    project_dir: Seq<char>,
    feature_dir: Seq<char>,
    pascal_name: Seq<char>,
    snake_name: Seq<char>,
    replacements: Seq<(Seq<char>, Seq<char>)>,
) -> Seq<ActionView> {
    seq![
        template_step(
            "features/common/router.dart.tmpl"@,
            joined_path(feature_dir, "router.dart"@),
            replacements,
        ),
        ActionView::UpdateRouter { project_dir, feature_name: snake_name, pascal_name },
    ]
}

/// The injection file of the feature, and its entry in the injection file of the
/// project.
pub open spec fn di_steps(
    project_dir: Seq<char>,
    feature_dir: Seq<char>,
    snake_name: Seq<char>,
    replacements: Seq<(Seq<char>, Seq<char>)>,
) -> Seq<ActionView> {
    seq![
        template_step(
            "features/common/di.dart.tmpl"@,
            joined_path(feature_dir, "di.dart"@),
            replacements,
        ),
        ActionView::UpdateDi { project_dir, feature_name: snake_name },
    ]
}

/// The steps of the state management, of the data layer and of the pages, for those
/// that the parameters switch on.
pub open spec fn layer_steps(
    feature_dir: Seq<char>,
    snake_name: Seq<char>,
    r: Seq<(Seq<char>, Seq<char>)>,
    params: FeatureParamsView,
) -> Seq<ActionView> {
    (if params.has_state_management {
        state_steps(feature_dir, snake_name, r)
    } else {
        Seq::empty()
    }) + (if params.has_repository {
        repository_steps(feature_dir, snake_name, r, params.has_models)
    } else {
        Seq::empty()
    }) + (if params.has_pages {
        page_steps(feature_dir, snake_name, r)
    } else {
        Seq::empty()
    })
}

/// The lines that report the files of the state management, of the data layer and of
/// the pages.
pub open spec fn layer_lines(
    feature_dir: Seq<char>,
    snake_name: Seq<char>,
    params: FeatureParamsView,
) -> Seq<Seq<char>> {
    (if params.has_state_management {
        state_lines(feature_dir, snake_name)
    } else {
        Seq::empty()
    }) + (if params.has_repository {
        repository_lines(feature_dir, snake_name, params.has_models)
    } else {
        Seq::empty()
    }) + (if params.has_pages {
        page_lines(feature_dir, snake_name)
    } else {
        Seq::empty()
    })
}

/// The steps of the routing, of the services, of the utilities and of the injection,
/// for those that the parameters switch on.
pub open spec fn wiring_steps(
    project_dir: Seq<char>,
    feature_dir: Seq<char>,
    pascal_name: Seq<char>,
    snake_name: Seq<char>,
    r: Seq<(Seq<char>, Seq<char>)>,
    params: FeatureParamsView,
) -> Seq<ActionView> {
    (if params.needs_routing {
        routing_steps(project_dir, feature_dir, pascal_name, snake_name, r)
    } else {
        Seq::empty()
    }) + (if params.has_services {
        seq![
            template_step(
                "features/common/services/feature_service.dart.tmpl"@,
                feature_file(feature_dir, "services"@, snake_name, "_service.dart"@),
                r,
            ),
        ]
    } else {
        Seq::empty()
    }) + (if params.has_utils {
        seq![
            template_step(
                "features/common/utils/feature_helpers.dart.tmpl"@,
                feature_file(feature_dir, "utils"@, snake_name, "_helpers.dart"@),
                r,
            ),
        ]
    } else {
        Seq::empty()
    }) + (if params.needs_di {
        di_steps(project_dir, feature_dir, snake_name, r)
    } else {
        Seq::empty()
    })
}

/// The lines that report the files of the routing, of the services, of the utilities
/// and of the injection.
pub open spec fn wiring_lines(
    feature_dir: Seq<char>,
    snake_name: Seq<char>,
    params: FeatureParamsView,
) -> Seq<Seq<char>> {
    (if params.needs_routing {
        seq!["- Router: "@ + joined_path(feature_dir, "router.dart"@)]
    } else {
        Seq::empty()
    }) + (if params.has_services {
        seq!["- Service: "@ + feature_file(feature_dir, "services"@, snake_name, "_service.dart"@)]
    } else {
        Seq::empty()
    }) + (if params.has_utils {
        seq!["- Utils: "@ + feature_file(feature_dir, "utils"@, snake_name, "_helpers.dart"@)]
    } else {
        Seq::empty()
    }) + (if params.needs_di {
        seq!["- DI: "@ + joined_path(feature_dir, "di.dart"@)]
    } else {
        Seq::empty()
    })
}

/// The steps that write the files of a feature, part by part, for the parts that the
/// parameters switch on.
pub open spec fn file_steps(
    project_dir: Seq<char>,
    feature_dir: Seq<char>,
    pascal_name: Seq<char>,
    snake_name: Seq<char>,
    camel_name: Seq<char>,
    params: FeatureParamsView,
) -> Seq<ActionView> {
    let r = name_replacements(pascal_name, snake_name, camel_name);
    layer_steps(feature_dir, snake_name, r, params) + wiring_steps(
        project_dir,
        feature_dir,
        pascal_name,
        snake_name,
        r,
        params,
    )
}

/// The lines that report the files of a feature, in the order in which they are
/// written.
pub open spec fn file_lines(
    feature_dir: Seq<char>,
    snake_name: Seq<char>,
    params: FeatureParamsView,
) -> Seq<Seq<char>> {
    layer_lines(feature_dir, snake_name, params) + wiring_lines(feature_dir, snake_name, params)
}

/// The plan that writes the files of a feature and then reports them.
pub open spec fn feature_files_plan(
    project_dir: Seq<char>,
    feature_dir: Seq<char>,
    pascal_name: Seq<char>,
    snake_name: Seq<char>,
    camel_name: Seq<char>,
    params: FeatureParamsView,
) -> Seq<ActionView> {
    file_steps(project_dir, feature_dir, pascal_name, snake_name, camel_name, params) + seq![
        ActionView::Report {
            line: "\n\u{2705} Feature created successfully with the following components:"@,
        },
    ] + report_steps(file_lines(feature_dir, snake_name, params)) + seq![
        ActionView::Report {
            line: "\n\u{2139}\u{fe0f}  Using simplified templates with reduced boilerplate"@,
        },
    ]
}

/// The step that makes the directory `sub` of a feature, where it is wanted.
#[verifier::opaque]
pub open spec fn optional_dir(
    wanted: bool,
    feature_dir: Seq<char>,
    sub: Seq<char>,
    context: Seq<char>,
) -> Seq<ActionView> {
    if wanted {
        seq![ActionView::MakeDir { path: joined_path(feature_dir, sub), context }]
    } else {
        Seq::empty()
    }
}

/// The steps that make the directories of a feature, for the parts that the
/// parameters switch on. The directory of the models is made only with the data
/// layer.
pub open spec fn feature_dirs(feature_dir: Seq<char>, params: FeatureParamsView) -> Seq<ActionView> {
    optional_dir(
        params.has_state_management,
        feature_dir,
        "cubits"@,
        "Failed to create cubits directory"@,
    ) + optional_dir(
        params.has_repository,
        feature_dir,
        "data/repository"@,
        "Failed to create repository directory"@,
    ) + optional_dir(
        params.has_repository && params.has_models,
        feature_dir,
        "data/models"@,
        "Failed to create models directory"@,
    ) + optional_dir(
        params.has_repository,
        feature_dir,
        "data/datasources"@,
        "Failed to create datasources directory"@,
    ) + optional_dir(
        params.has_pages,
        feature_dir,
        "ui/pages"@,
        "Failed to create pages directory"@,
    ) + optional_dir(
        params.has_pages,
        feature_dir,
        "ui/_widgets"@,
        "Failed to create _widgets directory"@,
    ) + optional_dir(
        params.has_services,
        feature_dir,
        "services"@,
        "Failed to create services directory"@,
    ) + optional_dir(params.has_utils, feature_dir, "utils"@, "Failed to create utils directory"@)
}

/// The directory of the feature called `name` in the project under `project_dir`.
pub open spec fn feature_dir_of(project_dir: Seq<char>, name: Seq<char>) -> Seq<char> {
    joined_path(joined_path(project_dir, "lib/features"@), case_text(name, CaseStyle::Snake))
}

/// The plan that makes a feature: it fails where the feature is there already, makes
/// the directories of the parts that are switched on, writes their files, and
/// reports them.
pub open spec fn feature_plan(project_dir: Seq<char>, params: FeatureParamsView) -> Seq<ActionView> {
    let snake_name = case_text(params.name, CaseStyle::Snake);
    let feature_dir = feature_dir_of(project_dir, params.name);
    seq![
        ActionView::FailIfExists { path: feature_dir, feature_name: snake_name },
        ActionView::Report { line: "Creating feature: "@ + snake_name },
        ActionView::MakeDir { path: feature_dir, context: "Failed to create feature directory"@ },
    ] + feature_dirs(feature_dir, params) + feature_files_plan(
        project_dir,
        feature_dir,
        case_text(params.name, CaseStyle::Pascal),
        snake_name,
        case_text(params.name, CaseStyle::Camel),
        params,
    )
}

/// Adds the step that copies a template to the file `stem` + `tail` in `dir`, and the
/// line that reports the file under `label`.
fn add_file(
    plan: &mut Vec<Action>,
    created: &mut Vec<String>,
    label: &str,
    template: &str,
    dir: &str,
    stem: &str,
    tail: &str,
    replacements: &Vec<(String, String)>,
)
    ensures
        views(final(plan)@) == views(old(plan)@).push(
            template_step(
                template@,
                joined_path(dir@, stem@ + tail@),
                pair_views(replacements@),
            ),
        ),
        texts(final(created)@) == texts(old(created)@).push(
            label@ + joined_path(dir@, stem@ + tail@),
        ),
{
    let destination = join_path(dir, concat(stem, tail).as_str());
    let line = concat(label, destination.as_str());
    let ghost lines = texts(created@);
    created.push(line);
    assert(texts(created@) =~= lines.push(line@));
    push_template(plan, template, destination, replacements, String::new());
}

/// Adds the files of the state management.
fn add_state_management(
    plan: &mut Vec<Action>,
    created: &mut Vec<String>,
    feature_dir: &str,
    snake_name: &str,
    replacements: &Vec<(String, String)>,
)
    ensures
        views(final(plan)@) == views(old(plan)@) + state_steps(
            feature_dir@,
            snake_name@,
            pair_views(replacements@),
        ),
        texts(final(created)@) == texts(old(created)@) + state_lines(feature_dir@, snake_name@),
{
    let ghost steps = views(plan@);
    let ghost lines = texts(created@);
    let cubits = join_path(feature_dir, "cubits");
    let dir = join_path(cubits.as_str(), concat(snake_name, "_cubit").as_str());
    push_make_dir(plan, dir.clone(), "Failed to create cubit directory");
    add_file(
        plan,
        created,
        "- State Management: ",
        "features/common/cubits/feature_cubit/feature_cubit.dart.tmpl",
        dir.as_str(),
        snake_name,
        "_cubit.dart",
        replacements,
    );
    add_file(
        plan,
        created,
        "- State: ",
        "features/common/cubits/feature_cubit/feature_state.dart.tmpl",
        dir.as_str(),
        snake_name,
        "_state.dart",
        replacements,
    );
    assert(views(plan@) =~= steps + state_steps(
        feature_dir@,
        snake_name@,
        pair_views(replacements@),
    ));
    assert(texts(created@) =~= lines + state_lines(feature_dir@, snake_name@));
}

/// Adds the files of the data layer.
fn add_repository(
    plan: &mut Vec<Action>,
    created: &mut Vec<String>,
    feature_dir: &str,
    snake_name: &str,
    replacements: &Vec<(String, String)>,
    has_models: bool,
)
    ensures
        views(final(plan)@) == views(old(plan)@) + repository_steps(
            feature_dir@,
            snake_name@,
            pair_views(replacements@),
            has_models,
        ),
        texts(final(created)@) == texts(old(created)@) + repository_lines(
            feature_dir@,
            snake_name@,
            has_models,
        ),
{
    let ghost steps = views(plan@);
    let ghost lines = texts(created@);
    add_file(
        plan,
        created,
        "- Repository: ",
        "features/common/data/repository/feature_repository.dart.tmpl",
        join_path(feature_dir, "data/repository").as_str(),
        snake_name,
        "_repository.dart",
        replacements,
    );
    if has_models {
        add_file(
            plan,
            created,
            "- Model: ",
            "features/common/data/models/feature_model.dart.tmpl",
            join_path(feature_dir, "data/models").as_str(),
            snake_name,
            "_model.dart",
            replacements,
        );
    }
    assert(views(plan@) =~= steps + repository_steps(
        feature_dir@,
        snake_name@,
        pair_views(replacements@),
        has_models,
    ));
    assert(texts(created@) =~= lines + repository_lines(feature_dir@, snake_name@, has_models));
}

/// Adds the files of the pages.
fn add_pages(
    plan: &mut Vec<Action>,
    created: &mut Vec<String>,
    feature_dir: &str,
    snake_name: &str,
    replacements: &Vec<(String, String)>,
)
    ensures
        views(final(plan)@) == views(old(plan)@) + page_steps(
            feature_dir@,
            snake_name@,
            pair_views(replacements@),
        ),
        texts(final(created)@) == texts(old(created)@) + page_lines(feature_dir@, snake_name@),
{
    let ghost steps = views(plan@);
    let ghost lines = texts(created@);
    add_file(
        plan,
        created,
        "- UI Page: ",
        "features/common/ui/pages/feature_page.dart.tmpl",
        join_path(feature_dir, "ui/pages").as_str(),
        snake_name,
        "_page.dart",
        replacements,
    );
    add_file(
        plan,
        created,
        "- UI Widget: ",
        "features/common/ui/_widgets/feature_item_widget.dart.tmpl",
        join_path(feature_dir, "ui/_widgets").as_str(),
        snake_name,
        "_item_widget.dart",
        replacements,
    );
    assert(views(plan@) =~= steps + page_steps(
        feature_dir@,
        snake_name@,
        pair_views(replacements@),
    ));
    assert(texts(created@) =~= lines + page_lines(feature_dir@, snake_name@));
}

/// Adds the file `name` of a feature, which is made from a template of its own.
fn add_root_file(
    plan: &mut Vec<Action>,
    created: &mut Vec<String>,
    label: &str,
    template: &str,
    feature_dir: &str,
    name: &str,
    replacements: &Vec<(String, String)>,
)
    ensures
        views(final(plan)@) == views(old(plan)@).push(
            template_step(template@, joined_path(feature_dir@, name@), pair_views(replacements@)),
        ),
        texts(final(created)@) == texts(old(created)@).push(
            label@ + joined_path(feature_dir@, name@),
        ),
{
    proof {
        reveal_strlit("");
        assert(""@ + name@ =~= name@);
    }
    add_file(plan, created, label, template, feature_dir, "", name, replacements);
}

/// Adds the files of the state management, of the data layer and of the pages.
fn add_layers(
    plan: &mut Vec<Action>,
    created: &mut Vec<String>,
    feature_dir: &str,
    snake_name: &str,
    replacements: &Vec<(String, String)>,
    params: &FeatureParams,
)
    ensures
        views(final(plan)@) == views(old(plan)@) + layer_steps(
            feature_dir@,
            snake_name@,
            pair_views(replacements@),
            params@,
        ),
        texts(final(created)@) == texts(old(created)@) + layer_lines(
            feature_dir@,
            snake_name@,
            params@,
        ),
{
    let ghost steps = views(plan@);
    let ghost lines = texts(created@);
    let ghost r = pair_views(replacements@);
    let ghost none = Seq::<ActionView>::empty();
    let ghost no_line = Seq::<Seq<char>>::empty();
    if params.has_state_management {
        add_state_management(plan, created, feature_dir, snake_name, replacements);
    }
    let ghost steps1 = views(plan@);
    let ghost lines1 = texts(created@);
    assert(steps1 =~= steps + (if params.has_state_management {
        state_steps(feature_dir@, snake_name@, r)
    } else {
        none
    }));
    assert(lines1 =~= lines + (if params.has_state_management {
        state_lines(feature_dir@, snake_name@)
    } else {
        no_line
    }));
    if params.has_repository {
        add_repository(plan, created, feature_dir, snake_name, replacements, params.has_models);
    }
    let ghost steps2 = views(plan@);
    let ghost lines2 = texts(created@);
    assert(steps2 =~= steps1 + (if params.has_repository {
        repository_steps(feature_dir@, snake_name@, r, params.has_models)
    } else {
        none
    }));
    assert(lines2 =~= lines1 + (if params.has_repository {
        repository_lines(feature_dir@, snake_name@, params.has_models)
    } else {
        no_line
    }));
    if params.has_pages {
        add_pages(plan, created, feature_dir, snake_name, replacements);
    }
    assert(views(plan@) =~= steps2 + (if params.has_pages {
        page_steps(feature_dir@, snake_name@, r)
    } else {
        none
    }));
    assert(texts(created@) =~= lines2 + (if params.has_pages {
        page_lines(feature_dir@, snake_name@)
    } else {
        no_line
    }));
    assert(views(plan@) =~= steps + layer_steps(feature_dir@, snake_name@, r, params@));
    assert(texts(created@) =~= lines + layer_lines(feature_dir@, snake_name@, params@));
}

/// Adds the router of a feature and its entry in the router of the project.
fn add_routing(
    plan: &mut Vec<Action>,
    created: &mut Vec<String>,
    project_dir: &str,
    feature_dir: &str,
    pascal_name: &str,
    snake_name: &str,
    replacements: &Vec<(String, String)>,
)
    ensures
        views(final(plan)@) == views(old(plan)@) + routing_steps(
            project_dir@,
            feature_dir@,
            pascal_name@,
            snake_name@,
            pair_views(replacements@),
        ),
        texts(final(created)@) == texts(old(created)@).push(
            "- Router: "@ + joined_path(feature_dir@, "router.dart"@),
        ),
{
    let ghost steps = views(plan@);
    add_root_file(
        plan,
        created,
        "- Router: ",
        "features/common/router.dart.tmpl",
        feature_dir,
        "router.dart",
        replacements,
    );
    push_action(
        plan,
        Action::UpdateRouter {
            project_dir: project_dir.to_owned(),
            feature_name: snake_name.to_owned(),
            pascal_name: pascal_name.to_owned(),
        },
    );
    assert(views(plan@) =~= steps + routing_steps(
        project_dir@,
        feature_dir@,
        pascal_name@,
        snake_name@,
        pair_views(replacements@),
    ));
}

/// Adds the injection file of a feature and its entry in the injection file of the
/// project.
fn add_di(
    plan: &mut Vec<Action>,
    created: &mut Vec<String>,
    project_dir: &str,
    feature_dir: &str,
    snake_name: &str,
    replacements: &Vec<(String, String)>,
)
    ensures
        views(final(plan)@) == views(old(plan)@) + di_steps(
            project_dir@,
            feature_dir@,
            snake_name@,
            pair_views(replacements@),
        ),
        texts(final(created)@) == texts(old(created)@).push(
            "- DI: "@ + joined_path(feature_dir@, "di.dart"@),
        ),
{
    let ghost steps = views(plan@);
    add_root_file(
        plan,
        created,
        "- DI: ",
        "features/common/di.dart.tmpl",
        feature_dir,
        "di.dart",
        replacements,
    );
    push_action(
        plan,
        Action::UpdateDi { project_dir: project_dir.to_owned(), feature_name: snake_name.to_owned() },
    );
    assert(views(plan@) =~= steps + di_steps(
        project_dir@,
        feature_dir@,
        snake_name@,
        pair_views(replacements@),
    ));
}

/// Adds the files of the routing, of the services, of the utilities and of the
/// injection.
fn add_wiring(
    plan: &mut Vec<Action>,
    created: &mut Vec<String>,
    project_dir: &str,
    feature_dir: &str,
    pascal_name: &str,
    snake_name: &str,
    replacements: &Vec<(String, String)>,
    params: &FeatureParams,
)
    ensures
        views(final(plan)@) == views(old(plan)@) + wiring_steps(
            project_dir@,
            feature_dir@,
            pascal_name@,
            snake_name@,
            pair_views(replacements@),
            params@,
        ),
        texts(final(created)@) == texts(old(created)@) + wiring_lines(
            feature_dir@,
            snake_name@,
            params@,
        ),
{
    let ghost steps = views(plan@);
    let ghost lines = texts(created@);
    let ghost r = pair_views(replacements@);
    let ghost none = Seq::<ActionView>::empty();
    let ghost no_line = Seq::<Seq<char>>::empty();
    if params.needs_routing {
        add_routing(
            plan,
            created,
            project_dir,
            feature_dir,
            pascal_name,
            snake_name,
            replacements,
        );
    }
    let ghost steps1 = views(plan@);
    let ghost lines1 = texts(created@);
    assert(steps1 =~= steps + (if params.needs_routing {
        routing_steps(project_dir@, feature_dir@, pascal_name@, snake_name@, r)
    } else {
        none
    }));
    assert(lines1 =~= lines + (if params.needs_routing {
        seq!["- Router: "@ + joined_path(feature_dir@, "router.dart"@)]
    } else {
        no_line
    }));
    if params.has_services {
        add_file(
            plan,
            created,
            "- Service: ",
            "features/common/services/feature_service.dart.tmpl",
            join_path(feature_dir, "services").as_str(),
            snake_name,
            "_service.dart",
            replacements,
        );
    }
    let ghost steps2 = views(plan@);
    let ghost lines2 = texts(created@);
    assert(steps2 =~= steps1 + (if params.has_services {
        seq![
            template_step(
                "features/common/services/feature_service.dart.tmpl"@,
                feature_file(feature_dir@, "services"@, snake_name@, "_service.dart"@),
                r,
            ),
        ]
    } else {
        none
    }));
    assert(lines2 =~= lines1 + (if params.has_services {
        seq![
            "- Service: "@ + feature_file(feature_dir@, "services"@, snake_name@, "_service.dart"@),
        ]
    } else {
        no_line
    }));
    if params.has_utils {
        add_file(
            plan,
            created,
            "- Utils: ",
            "features/common/utils/feature_helpers.dart.tmpl",
            join_path(feature_dir, "utils").as_str(),
            snake_name,
            "_helpers.dart",
            replacements,
        );
    }
    let ghost steps3 = views(plan@);
    let ghost lines3 = texts(created@);
    assert(steps3 =~= steps2 + (if params.has_utils {
        seq![
            template_step(
                "features/common/utils/feature_helpers.dart.tmpl"@,
                feature_file(feature_dir@, "utils"@, snake_name@, "_helpers.dart"@),
                r,
            ),
        ]
    } else {
        none
    }));
    assert(lines3 =~= lines2 + (if params.has_utils {
        seq!["- Utils: "@ + feature_file(feature_dir@, "utils"@, snake_name@, "_helpers.dart"@)]
    } else {
        no_line
    }));
    if params.needs_di {
        add_di(plan, created, project_dir, feature_dir, snake_name, replacements);
    }
    assert(views(plan@) =~= steps3 + (if params.needs_di {
        di_steps(project_dir@, feature_dir@, snake_name@, r)
    } else {
        none
    }));
    assert(texts(created@) =~= lines3 + (if params.needs_di {
        seq!["- DI: "@ + joined_path(feature_dir@, "di.dart"@)]
    } else {
        no_line
    }));
    assert(views(plan@) =~= steps + wiring_steps(
        project_dir@,
        feature_dir@,
        pascal_name@,
        snake_name@,
        r,
        params@,
    ));
    assert(texts(created@) =~= lines + wiring_lines(feature_dir@, snake_name@, params@));
}

/// The placeholders of a feature template, with the names that stand for them.
fn replacements_of(pascal_name: &str, snake_name: &str, camel_name: &str) -> (r: Vec<
    (String, String),
>)
    ensures
        pair_views(r@) == name_replacements(pascal_name@, snake_name@, camel_name@),
{
    let mut r: Vec<(String, String)> = Vec::new();
    r.push(("FEATURE_NAME_PASCAL".to_owned(), pascal_name.to_owned()));
    r.push(("FEATURE_NAME_SNAKE".to_owned(), snake_name.to_owned()));
    r.push(("FEATURE_NAME_CAMEL".to_owned(), camel_name.to_owned()));
    assert(pair_views(r@) =~= name_replacements(pascal_name@, snake_name@, camel_name@));
    r
}

/// The plan that writes the files of a feature, for the parts that the parameters
/// switch on, and then reports each file that was written.
pub fn generate_feature_files(
    project_dir: &str,
    feature_dir: &str,
    pascal_name: &str,
    snake_name: &str,
    camel_name: &str,
    params: &FeatureParams,
) -> (plan: Vec<Action>)
    ensures
        views(plan@) == feature_files_plan(
            project_dir@,
            feature_dir@,
            pascal_name@,
            snake_name@,
            camel_name@,
            params@,
        ),
{
    let replacements = replacements_of(pascal_name, snake_name, camel_name);
    let mut plan: Vec<Action> = Vec::new();
    let mut created: Vec<String> = Vec::new();
    assert(views(plan@) =~= Seq::<ActionView>::empty());
    assert(texts(created@) =~= Seq::<Seq<char>>::empty());
    add_layers(&mut plan, &mut created, feature_dir, snake_name, &replacements, params);
    add_wiring(
        &mut plan,
        &mut created,
        project_dir,
        feature_dir,
        pascal_name,
        snake_name,
        &replacements,
        params,
    );
    assert(views(plan@) =~= file_steps(
        project_dir@,
        feature_dir@,
        pascal_name@,
        snake_name@,
        camel_name@,
        params@,
    ));
    assert(texts(created@) =~= file_lines(feature_dir@, snake_name@, params@));
    push_report(
        &mut plan,
        "\n\u{2705} Feature created successfully with the following components:".to_owned(),
    );
    push_reports(&mut plan, &created);
    push_report(
        &mut plan,
        "\n\u{2139}\u{fe0f}  Using simplified templates with reduced boilerplate".to_owned(),
    );
    assert(views(plan@) =~= feature_files_plan(
        project_dir@,
        feature_dir@,
        pascal_name@,
        snake_name@,
        camel_name@,
        params@,
    ));
    plan
}

/// Adds the step that makes the directory `sub` of a feature, where `wanted`.
fn add_dir(plan: &mut Vec<Action>, wanted: bool, feature_dir: &str, sub: &str, context: &str)
    ensures
        views(final(plan)@) == views(old(plan)@) + optional_dir(
            wanted,
            feature_dir@,
            sub@,
            context@,
        ),
{
    let ghost steps = views(plan@);
    if wanted {
        push_make_dir(plan, join_path(feature_dir, sub), context);
    }
    proof {
        reveal(optional_dir);
        assert(views(plan@) =~= steps + optional_dir(wanted, feature_dir@, sub@, context@));
    }
}

/// Adds the steps that make the directories of a feature.
fn add_feature_dirs(plan: &mut Vec<Action>, feature_dir: &str, params: &FeatureParams)
    ensures
        views(final(plan)@) == views(old(plan)@) + feature_dirs(feature_dir@, params@),
{
    let ghost steps = views(plan@);
    add_dir(
        plan,
        params.has_state_management,
        feature_dir,
        "cubits",
        "Failed to create cubits directory",
    );
    let ghost d1 = optional_dir(
        params.has_state_management,
        feature_dir@,
        "cubits"@,
        "Failed to create cubits directory"@,
    );
    add_dir(
        plan,
        params.has_repository,
        feature_dir,
        "data/repository",
        "Failed to create repository directory",
    );
    let ghost o2 = optional_dir(
        params.has_repository,
        feature_dir@,
        "data/repository"@,
        "Failed to create repository directory"@,
    );
    proof {
        concat_assoc(steps, d1, o2);
    }
    let ghost d2 = d1 + o2;
    add_dir(
        plan,
        params.has_repository && params.has_models,
        feature_dir,
        "data/models",
        "Failed to create models directory",
    );
    let ghost o3 = optional_dir(
        params.has_repository && params.has_models,
        feature_dir@,
        "data/models"@,
        "Failed to create models directory"@,
    );
    proof {
        concat_assoc(steps, d2, o3);
    }
    let ghost d3 = d2 + o3;
    add_dir(
        plan,
        params.has_repository,
        feature_dir,
        "data/datasources",
        "Failed to create datasources directory",
    );
    let ghost o4 = optional_dir(
        params.has_repository,
        feature_dir@,
        "data/datasources"@,
        "Failed to create datasources directory"@,
    );
    proof {
        concat_assoc(steps, d3, o4);
    }
    let ghost d4 = d3 + o4;
    add_dir(plan, params.has_pages, feature_dir, "ui/pages", "Failed to create pages directory");
    let ghost o5 = optional_dir(
        params.has_pages,
        feature_dir@,
        "ui/pages"@,
        "Failed to create pages directory"@,
    );
    proof {
        concat_assoc(steps, d4, o5);
    }
    let ghost d5 = d4 + o5;
    add_dir(
        plan,
        params.has_pages,
        feature_dir,
        "ui/_widgets",
        "Failed to create _widgets directory",
    );
    let ghost o6 = optional_dir(
        params.has_pages,
        feature_dir@,
        "ui/_widgets"@,
        "Failed to create _widgets directory"@,
    );
    proof {
        concat_assoc(steps, d5, o6);
    }
    let ghost d6 = d5 + o6;
    add_dir(
        plan,
        params.has_services,
        feature_dir,
        "services",
        "Failed to create services directory",
    );
    let ghost o7 = optional_dir(
        params.has_services,
        feature_dir@,
        "services"@,
        "Failed to create services directory"@,
    );
    proof {
        concat_assoc(steps, d6, o7);
    }
    let ghost d7 = d6 + o7;
    add_dir(plan, params.has_utils, feature_dir, "utils", "Failed to create utils directory");
    let ghost o8 = optional_dir(
        params.has_utils,
        feature_dir@,
        "utils"@,
        "Failed to create utils directory"@,
    );
    proof {
        concat_assoc(steps, d7, o8);
    }
    assert(views(plan@) == steps + (d7 + o8));
}

/// The plan that makes a feature in the project under `project_dir`: it fails where
/// the feature's directory is there already; else it makes the directories of the
/// parts that the parameters switch on, writes their files from the templates, adds
/// the feature to the router and to the injection file of the project where the
/// parameters ask for it, and reports what it wrote.
pub fn create_feature(project_dir: &str, params: &FeatureParams) -> (plan: Vec<Action>)
    ensures
        views(plan@) == feature_plan(project_dir@, params@),
{
    let feature_name = to_case(params.name.as_str(), CaseStyle::Snake);
    let features = join_path(project_dir, "lib/features");
    let feature_dir = join_path(features.as_str(), feature_name.as_str());
    let pascal_name = to_case(params.name.as_str(), CaseStyle::Pascal);
    let camel_name = to_case(params.name.as_str(), CaseStyle::Camel);
    let mut plan: Vec<Action> = Vec::new();
    assert(views(plan@) =~= Seq::<ActionView>::empty());
    push_action(
        &mut plan,
        Action::FailIfExists { path: feature_dir.clone(), feature_name: feature_name.clone() },
    );
    push_report(&mut plan, concat("Creating feature: ", feature_name.as_str()));
    push_make_dir(&mut plan, feature_dir.clone(), "Failed to create feature directory");
    add_feature_dirs(&mut plan, feature_dir.as_str(), params);
    let files = generate_feature_files(
        project_dir,
        feature_dir.as_str(),
        pascal_name.as_str(),
        feature_name.as_str(),
        camel_name.as_str(),
        params,
    );
    push_plan(&mut plan, files);
    plan
}

} // verus!
