use crate::features::scaffold::{create_feature, feature_plan};
use crate::features::{full_feature, FeatureParams, FeatureParamsView};
use crate::plan::{
    push_action, push_integration, push_make_dir, push_plan, push_report, push_reports,
    report_steps, Action, ActionView,
};
use crate::text::{concat, join_path, joined_path, texts, views};
use vstd::prelude::*;
use vstd::string::*;

verus! {

/// The directory of the main page feature.
pub open spec fn main_page_dir(project_dir: Seq<char>) -> Seq<char> {
    joined_path(project_dir, "lib/features/main_page"@)
}

/// The step that copies the file `template` of the directory `source_dir` to the file
/// `target` of the directory `target_dir`, or writes `fallback` there; a failure is
/// reported with `context`.
pub open spec fn copy_step(
    source_dir: Seq<char>,
    template: Seq<char>,
    target_dir: Seq<char>,
    target: Seq<char>,
    fallback: Seq<char>,
    context: Seq<char>,
) -> ActionView {
    ActionView::CopyFileOr {
        source: joined_path(source_dir, template),
        destination: joined_path(target_dir, target),
        fallback,
        context,
    }
}

/// The step that copies a page of the main page feature.
pub open spec fn page_step(dir: Seq<char>, stem: Seq<char>) -> ActionView {
    copy_step(
        "flutter_lazy/templates/features/main_page/ui/pages"@,
        stem + ".dart.tmpl"@,
        joined_path(dir, "ui/pages"@),
        stem + ".dart"@,
        "// TODO: Implement main page\n"@,
        "Failed to create page file: "@ + stem + ".dart"@,
    )
}

/// The steps that make the directory of the navigation cubit and copy one of its
/// files.
pub open spec fn bloc_steps(dir: Seq<char>, stem: Seq<char>) -> Seq<ActionView> {
    seq![
        ActionView::MakeDir {
            path: joined_path(dir, "blocs/bottom_navigation_cubit"@),
            context: "Failed to create blocs directory"@,
        },
        copy_step(
            "flutter_lazy/templates/features/main_page/blocs/bottom_navigation_cubit"@,
            stem + ".dart.tmpl"@,
            joined_path(dir, "blocs/bottom_navigation_cubit"@),
            stem + ".dart"@,
            "// TODO: Implement navigation state management\n"@,
            "Failed to create bloc file: "@ + stem + ".dart"@,
        ),
    ]
}

/// The steps of the pages of the main page feature.
pub open spec fn main_page_pages(dir: Seq<char>) -> Seq<ActionView> {
    seq![
        ActionView::MakeDir {
            path: joined_path(dir, "blocs"@),
            context: "Failed to create blocs directory"@,
        },
        ActionView::MakeDir {
            path: joined_path(dir, "ui/widgets"@),
            context: "Failed to create widgets directory"@,
        },
        ActionView::Report { line: "Creating main page files..."@ },
        page_step(dir, "main_tabs"@),
        page_step(dir, "home_page"@),
        page_step(dir, "settings_page"@),
    ]
}

/// The steps of the router and of the injection file of the main page feature, its
/// entries in the router and in the injection file of the project, and the head of
/// the report.
pub open spec fn main_page_wiring(project_dir: Seq<char>) -> Seq<ActionView> {
    let dir = main_page_dir(project_dir);
    seq![
        copy_step(
            "flutter_lazy/templates/features/main_page"@,
            "router.dart.tmpl"@,
            dir,
            "router.dart"@,
            "// TODO: Implement main page router\n"@,
            "Failed to create router file"@,
        ),
        copy_step(
            "flutter_lazy/templates/features/main_page"@,
            "di.dart.tmpl"@,
            dir,
            "di.dart"@,
            "// TODO: Implement main page DI\n"@,
            "Failed to create DI file"@,
        ),
        ActionView::UpdateRouter {
            project_dir,
            feature_name: "main_page"@,
            pascal_name: "MainPage"@,
        },
        ActionView::UpdateDi { project_dir, feature_name: "main_page"@ },
        ActionView::Report {
            line: "\n\u{2705} Main Page feature created successfully with the following components:"@,
        },
    ]
}

/// The lines that report the files of the main page feature.
pub open spec fn main_page_lines(project_dir: Seq<char>) -> Seq<Seq<char>> {
    let dir = main_page_dir(project_dir);
    let pages = joined_path(dir, "ui/pages"@);
    let blocs = joined_path(dir, "blocs/bottom_navigation_cubit"@);
    seq![
        "- UI Page: "@ + joined_path(pages, "main_tabs"@ + ".dart"@),
        "- UI Page: "@ + joined_path(pages, "home_page"@ + ".dart"@),
        "- UI Page: "@ + joined_path(pages, "settings_page"@ + ".dart"@),
        "- State Management: "@ + joined_path(blocs, "bottom_navigation_cubit"@ + ".dart"@),
        "- State Management: "@ + joined_path(blocs, "bottom_navigation_state"@ + ".dart"@),
        "- Router: "@ + joined_path(dir, "router.dart"@),
        "- DI: "@ + joined_path(dir, "di.dart"@),
    ]
}

/// The parameters of the main page feature: every part but the generic state
/// management, in whose place it has blocs.
pub open spec fn main_page_params() -> FeatureParamsView {
    FeatureParamsView { has_state_management: false, ..full_feature("main_page"@) }
}

/// The plan that makes the main page feature: a feature without the generic state
/// management, then its pages, the navigation cubit, its router and its injection
/// file, each copied from the templates or written as a placeholder where the
/// template cannot be read, and its entries in the project.
pub open spec fn main_page_plan(project_dir: Seq<char>) -> Seq<ActionView> {
    let dir = main_page_dir(project_dir);
    seq![
        ActionView::FailIfExists { path: dir, feature_name: "main_page"@ },
        ActionView::Report { line: "Creating main_page feature with navigation components..."@ },
    ] + feature_plan(project_dir, main_page_params()) + main_page_pages(dir) + bloc_steps(
        dir,
        "bottom_navigation_cubit"@,
    ) + bloc_steps(dir, "bottom_navigation_state"@) + main_page_wiring(project_dir)
        + report_steps(main_page_lines(project_dir))
}

/// Adds the step that copies a file of the templates or writes a placeholder, and the
/// line that reports the file under `label`.
fn push_copy(
    plan: &mut Vec<Action>,
    created: &mut Vec<String>,
    source_dir: &str,
    template: &str,
    target_dir: &str,
    target: &str,
    fallback: &str,
    context: String,
    label: &str,
)
    ensures
        views(final(plan)@) == views(old(plan)@).push(
            copy_step(source_dir@, template@, target_dir@, target@, fallback@, context@),
        ),
        texts(final(created)@) == texts(old(created)@).push(
            label@ + joined_path(target_dir@, target@),
        ),
{
    let destination = join_path(target_dir, target);
    let mut line = label.to_owned();
    line.append(destination.as_str());
    let ghost lines = texts(created@);
    created.push(line);
    assert(texts(created@) =~= lines.push(line@));
    push_action(
        plan,
        Action::CopyFileOr {
            source: join_path(source_dir, template),
            destination,
            fallback: fallback.to_owned(),
            context,
        },
    );
}

/// Adds the step that copies a page.
fn push_page(plan: &mut Vec<Action>, created: &mut Vec<String>, dir: &str, stem: &str)
    ensures
        views(final(plan)@) == views(old(plan)@).push(page_step(dir@, stem@)),
        texts(final(created)@) == texts(old(created)@).push(
            "- UI Page: "@ + joined_path(joined_path(dir@, "ui/pages"@), stem@ + ".dart"@),
        ),
{
    let target = concat(stem, ".dart");
    push_copy(
        plan,
        created,
        "flutter_lazy/templates/features/main_page/ui/pages",
        concat(stem, ".dart.tmpl").as_str(),
        join_path(dir, "ui/pages").as_str(),
        target.as_str(),
        "// TODO: Implement main page\n",
        concat("Failed to create page file: ", target.as_str()),
        "- UI Page: ",
    );
    assert("Failed to create page file: "@ + (stem@ + ".dart"@) =~= "Failed to create page file: "@
        + stem@ + ".dart"@);
}

/// Adds the steps that make the directory of the navigation cubit and copy one of its
/// files.
fn push_bloc(plan: &mut Vec<Action>, created: &mut Vec<String>, dir: &str, stem: &str)
    ensures
        views(final(plan)@) == views(old(plan)@) + bloc_steps(dir@, stem@),
        texts(final(created)@) == texts(old(created)@).push(
            "- State Management: "@ + joined_path(
                joined_path(dir@, "blocs/bottom_navigation_cubit"@),
                stem@ + ".dart"@,
            ),
        ),
{
    let ghost steps = views(plan@);
    let target_dir = join_path(dir, "blocs/bottom_navigation_cubit");
    let target = concat(stem, ".dart");
    push_make_dir(plan, target_dir.clone(), "Failed to create blocs directory");
    push_copy(
        plan,
        created,
        "flutter_lazy/templates/features/main_page/blocs/bottom_navigation_cubit",
        concat(stem, ".dart.tmpl").as_str(),
        target_dir.as_str(),
        target.as_str(),
        "// TODO: Implement navigation state management\n",
        concat("Failed to create bloc file: ", target.as_str()),
        "- State Management: ",
    );
    assert("Failed to create bloc file: "@ + (stem@ + ".dart"@) =~= "Failed to create bloc file: "@
        + stem@ + ".dart"@);
    assert(views(plan@) =~= steps + bloc_steps(dir@, stem@));
}

/// Adds the steps of the router and of the injection file of the feature, its entries
/// in the project, and the head of the report.
fn push_wiring(plan: &mut Vec<Action>, created: &mut Vec<String>, project_dir: &str, dir: &str)
    requires
        dir@ == main_page_dir(project_dir@),
    ensures
        views(final(plan)@) == views(old(plan)@) + main_page_wiring(project_dir@),
        texts(final(created)@) == texts(old(created)@).push(
            "- Router: "@ + joined_path(dir@, "router.dart"@),
        ).push("- DI: "@ + joined_path(dir@, "di.dart"@)),
{
    let ghost steps = views(plan@);
    push_copy(
        plan,
        created,
        "flutter_lazy/templates/features/main_page",
        "router.dart.tmpl",
        dir,
        "router.dart",
        "// TODO: Implement main page router\n",
        "Failed to create router file".to_owned(),
        "- Router: ",
    );
    push_copy(
        plan,
        created,
        "flutter_lazy/templates/features/main_page",
        "di.dart.tmpl",
        dir,
        "di.dart",
        "// TODO: Implement main page DI\n",
        "Failed to create DI file".to_owned(),
        "- DI: ",
    );
    push_integration(plan, project_dir, "main_page", "MainPage");
    push_report(
        plan,
        "\n\u{2705} Main Page feature created successfully with the following components:".to_owned(),
    );
    assert(views(plan@) =~= steps + main_page_wiring(project_dir@));
}

/// The plan that makes the main page feature in the project under `project_dir`.
pub fn create_main_page_feature(project_dir: &str) -> (plan: Vec<Action>)
    ensures
        views(plan@) == main_page_plan(project_dir@),
{
    let mut params = FeatureParams::new("main_page");
    params.has_state_management = false;
    let dir = join_path(project_dir, "lib/features/main_page");
    let mut plan: Vec<Action> = Vec::new();
    let mut created: Vec<String> = Vec::new();
    push_action(
        &mut plan,
        Action::FailIfExists { path: dir.clone(), feature_name: "main_page".to_owned() },
    );
    push_report(&mut plan, "Creating main_page feature with navigation components...".to_owned());
    assert(views(plan@) =~= seq![
        ActionView::FailIfExists { path: dir@, feature_name: "main_page"@ },
        ActionView::Report { line: "Creating main_page feature with navigation components..."@ },
    ]);
    push_plan(&mut plan, create_feature(project_dir, &params));
    let ghost steps1 = views(plan@);
    push_make_dir(&mut plan, join_path(dir.as_str(), "blocs"), "Failed to create blocs directory");
    push_make_dir(
        &mut plan,
        join_path(dir.as_str(), "ui/widgets"),
        "Failed to create widgets directory",
    );
    push_report(&mut plan, "Creating main page files...".to_owned());
    assert(texts(created@) =~= Seq::<Seq<char>>::empty());
    push_page(&mut plan, &mut created, dir.as_str(), "main_tabs");
    push_page(&mut plan, &mut created, dir.as_str(), "home_page");
    push_page(&mut plan, &mut created, dir.as_str(), "settings_page");
    assert(views(plan@) =~= steps1 + main_page_pages(dir@));
    push_bloc(&mut plan, &mut created, dir.as_str(), "bottom_navigation_cubit");
    push_bloc(&mut plan, &mut created, dir.as_str(), "bottom_navigation_state");
    push_wiring(&mut plan, &mut created, project_dir, dir.as_str());
    assert(texts(created@) =~= main_page_lines(project_dir@));
    push_reports(&mut plan, &created);
    plan
}

} // verus!
