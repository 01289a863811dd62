use crate::features::scaffold::{create_feature, feature_plan};
use crate::features::{page_feature, FeatureParams};
use crate::plan::{
    dir_steps, file_report_lines, pair_views, placeholder_steps, push_action, push_dirs,
    push_integration, push_make_dir, push_placeholders, push_plan, push_report, push_reports,
    push_template, push_text, report_steps, Action, ActionView,
};
use crate::text::{contains_text, join_path, joined_path, text_contains, texts, views};
use vstd::prelude::*;
use vstd::string::*;

verus! {

/// The cubits of the auth feature that have a directory.
pub open spec fn auth_cubits() -> Seq<Seq<char>> {
    seq![
        "login_cubit"@,
        "register_cubit"@,
        "forgot_password_cubit"@,
        "verify_email_cubit"@,
        "create_password_cubit"@,
        "personal_details_cubit"@,
        "welcome_cubit"@,
        "loading_cubit"@,
    ]
}

/// The pages of the auth feature.
pub open spec fn auth_pages() -> Seq<Seq<char>> {
    seq![
        "login_page.dart"@,
        "register_email_password_page.dart"@,
        "register_personal_details_page.dart"@,
        "forgot_password_page.dart"@,
        "verify_email_page.dart"@,
        "create_password_page.dart"@,
        "welcome_page.dart"@,
        "loading_page.dart"@,
    ]
}

/// The cubits of the auth feature that come from templates.
pub open spec fn templated_cubits() -> Seq<Seq<char>> {
    seq![
        "login"@,
        "register"@,
        "forgot_password"@,
        "verify_email"@,
        "create_password"@,
        "welcome"@,
    ]
}

/// The file of a cubit (`kind` is `cubit`) or of its state (`kind` is `state`), from
/// the directory of the feature.
pub open spec fn cubit_file(name: Seq<char>, kind: Seq<char>) -> Seq<char> {
    "cubits/"@ + name + "_cubit/"@ + name + "_"@ + kind + ".dart"@
}

/// The template of a cubit or of its state.
pub open spec fn cubit_template(name: Seq<char>, kind: Seq<char>) -> Seq<char> {
    "features/auth/"@ + cubit_file(name, kind) + ".tmpl"@
}

/// The step that copies the template of a cubit or of its state.
pub open spec fn cubit_step(feature_dir: Seq<char>, name: Seq<char>, kind: Seq<char>) -> ActionView {
    ActionView::CopyTemplate {
        template: cubit_template(name, kind),
        destination: joined_path(feature_dir, cubit_file(name, kind)),
        replacements: Seq::empty(),
        context: "Failed to copy template "@ + cubit_template(name, kind),
    }
}

/// The line that reports the file of a cubit or of its state: a state where the
/// file's path holds `state.dart`, else a cubit.
pub open spec fn cubit_line(feature_dir: Seq<char>, name: Seq<char>, kind: Seq<char>) -> Seq<char> {
    "- "@ + (if contains_text(cubit_file(name, kind), "state.dart"@) {
        "State"@
    } else {
        "Cubit"@
    }) + ": "@ + joined_path(feature_dir, cubit_file(name, kind))
}

/// The steps that copy the templates of the cubits (`kind` is `cubit`) or of their
/// states (`kind` is `state`), in order.
pub open spec fn cubit_steps(feature_dir: Seq<char>, kind: Seq<char>) -> Seq<ActionView> {
    templated_cubits().map_values(|name: Seq<char>| cubit_step(feature_dir, name, kind))
}

/// The lines that report the files of the cubits or of their states, in order.
pub open spec fn cubit_lines(feature_dir: Seq<char>, kind: Seq<char>) -> Seq<Seq<char>> {
    templated_cubits().map_values(|name: Seq<char>| cubit_line(feature_dir, name, kind))
}

/// The directory of the auth feature.
pub open spec fn auth_dir(project_dir: Seq<char>) -> Seq<char> {
    joined_path(project_dir, "lib/features/auth"@)
}

/// The lines that report the files of the auth feature.
pub open spec fn auth_lines(project_dir: Seq<char>) -> Seq<Seq<char>> {
    let dir = auth_dir(project_dir);
    cubit_lines(dir, "cubit"@) + cubit_lines(dir, "state"@) + file_report_lines(
        joined_path(dir, "ui/pages"@),
        auth_pages(),
        "- UI Page: "@,
    ) + seq![
        "- Model: "@ + joined_path(dir, "data/models/user_model.dart"@),
        "- Repository: "@ + joined_path(dir, "data/repository/auth_repository.dart"@),
    ]
}

/// The steps of the data layer of the auth feature, its entries in the router and in
/// the injection file of the project, and the head of the report.
pub open spec fn auth_data_steps(project_dir: Seq<char>) -> Seq<ActionView> {
    let dir = auth_dir(project_dir);
    seq![
        ActionView::MakeDir {
            path: joined_path(dir, "data/models"@),
            context: "Failed to create auth models directory"@,
        },
        ActionView::MakeDir {
            path: joined_path(dir, "data/repository"@),
            context: "Failed to create auth repository directory"@,
        },
        ActionView::CopyTemplate {
            template: "features/auth/data/models/user_model.dart.tmpl"@,
            destination: joined_path(dir, "data/models/user_model.dart"@),
            replacements: Seq::empty(),
            context: "Failed to copy user model template"@,
        },
        ActionView::CopyTemplate {
            template: "features/auth/data/repository/auth_repository.dart.tmpl"@,
            destination: joined_path(dir, "data/repository/auth_repository.dart"@),
            replacements: Seq::empty(),
            context: "Failed to copy auth repository template"@,
        },
        ActionView::UpdateRouter { project_dir, feature_name: "auth"@, pascal_name: "Auth"@ },
        ActionView::UpdateDi { project_dir, feature_name: "auth"@ },
        ActionView::Report {
            line: "\n\u{e2}\u{153}\u{2026} Auth feature created successfully with the following components:"@,
        },
    ]
}

/// The plan that makes the auth feature: a feature of pages and routing, then the
/// directories of its cubits, the cubits and states from their templates, the pages,
/// the model and the repository, and its entries in the router and in the injection
/// file of the project.
pub open spec fn auth_plan(project_dir: Seq<char>) -> Seq<ActionView> {
    let dir = auth_dir(project_dir);
    seq![
        ActionView::FailIfExists { path: dir, feature_name: "auth"@ },
        ActionView::Report { line: "Creating auth feature with specialized components..."@ },
    ] + feature_plan(project_dir, page_feature("auth"@, false)) + seq![
        ActionView::Report { line: "Creating auth specific cubits..."@ },
    ] + dir_steps(joined_path(dir, "cubits"@), auth_cubits(), "Failed to create "@, " directory"@)
        + cubit_steps(dir, "cubit"@) + cubit_steps(dir, "state"@) + seq![
        ActionView::MakeDir {
            path: joined_path(dir, "services"@),
            context: "Failed to create services directory"@,
        },
        ActionView::Report { line: "Creating auth pages..."@ },
    ] + placeholder_steps(
        joined_path(dir, "ui/pages"@),
        auth_pages(),
        "// TODO: Implement auth page\n"@,
        "Failed to create page file: "@,
    ) + auth_data_steps(project_dir) + report_steps(auth_lines(project_dir))
}

/// The file of a cubit or of its state, from the directory of the feature.
fn cubit_file_of(name: &str, kind: &str) -> (r: String)
    ensures
        r@ == cubit_file(name@, kind@),
{
    let mut r = "cubits/".to_owned();
    r.append(name);
    r.append("_cubit/");
    r.append(name);
    r.append("_");
    r.append(kind);
    r.append(".dart");
    r
}

/// Adds the steps that copy the templates of the cubits or of their states, and the
/// lines that report them.
fn push_cubits(
    plan: &mut Vec<Action>,
    created: &mut Vec<String>,
    feature_dir: &str,
    names: &Vec<String>,
    kind: &str,
)
    requires
        texts(names@) == templated_cubits(),
    ensures
        views(final(plan)@) == views(old(plan)@) + cubit_steps(feature_dir@, kind@),
        texts(final(created)@) == texts(old(created)@) + cubit_lines(feature_dir@, kind@),
{
    let ghost steps = views(plan@);
    let ghost lines = texts(created@);
    let ghost all = cubit_steps(feature_dir@, kind@);
    let ghost all_lines = cubit_lines(feature_dir@, kind@);
    let none: Vec<(String, String)> = Vec::new();
    assert(pair_views(none@) =~= Seq::<(Seq<char>, Seq<char>)>::empty());
    let mut i: usize = 0;
    assert(views(plan@) =~= steps + all.take(0));
    assert(texts(created@) =~= lines + all_lines.take(0));
    while i < names.len()
        invariant
            i <= names.len(),
            texts(names@) == templated_cubits(),
            all == cubit_steps(feature_dir@, kind@),
            all_lines == cubit_lines(feature_dir@, kind@),
            pair_views(none@) == Seq::<(Seq<char>, Seq<char>)>::empty(),
            views(plan@) == steps + all.take(i as int),
            texts(created@) == lines + all_lines.take(i as int),
        decreases names.len() - i,
    {
        let file = cubit_file_of(names[i].as_str(), kind);
        let mut template = "features/auth/".to_owned();
        template.append(file.as_str());
        template.append(".tmpl");
        let mut context = "Failed to copy template ".to_owned();
        context.append(template.as_str());
        let destination = join_path(feature_dir, file.as_str());
        let mut line = "- ".to_owned();
        if text_contains(file.as_str(), "state.dart") {
            line.append("State");
        } else {
            line.append("Cubit");
        }
        line.append(": ");
        line.append(destination.as_str());
        proof {
            assert(texts(names@)[i as int] == names@[i as int]@);
            assert(all[i as int] == cubit_step(feature_dir@, names@[i as int]@, kind@));
            assert(all_lines[i as int] == cubit_line(feature_dir@, names@[i as int]@, kind@));
            assert(line@ =~= cubit_line(feature_dir@, names@[i as int]@, kind@));
        }
        let ghost so_far = texts(created@);
        created.push(line);
        assert(texts(created@) =~= so_far.push(line@));
        push_template(plan, template.as_str(), destination, &none, context);
        assert(views(plan@) =~= steps + all.take(i + 1));
        assert(texts(created@) =~= lines + all_lines.take(i + 1));
        i += 1;
    }
    assert(all.take(names.len() as int) =~= all);
    assert(all_lines.take(names.len() as int) =~= all_lines);
}

/// Adds the steps of the data layer of the auth feature, its entries in the router
/// and in the injection file, and the head of the report.
fn push_auth_data(plan: &mut Vec<Action>, created: &mut Vec<String>, project_dir: &str, dir: &str)
    requires
        dir@ == auth_dir(project_dir@),
    ensures
        views(final(plan)@) == views(old(plan)@) + auth_data_steps(project_dir@),
        texts(final(created)@) == texts(old(created)@) + seq![
            "- Model: "@ + joined_path(dir@, "data/models/user_model.dart"@),
            "- Repository: "@ + joined_path(dir@, "data/repository/auth_repository.dart"@),
        ],
{
    let ghost steps = views(plan@);
    let ghost lines = texts(created@);
    let model_path = join_path(dir, "data/models/user_model.dart");
    let repo_path = join_path(dir, "data/repository/auth_repository.dart");
    let mut model_line = "- Model: ".to_owned();
    model_line.append(model_path.as_str());
    let mut repo_line = "- Repository: ".to_owned();
    repo_line.append(repo_path.as_str());
    created.push(model_line);
    created.push(repo_line);
    assert(texts(created@) =~= lines + seq![
        "- Model: "@ + joined_path(dir@, "data/models/user_model.dart"@),
        "- Repository: "@ + joined_path(dir@, "data/repository/auth_repository.dart"@),
    ]);
    push_make_dir(plan, join_path(dir, "data/models"), "Failed to create auth models directory");
    push_make_dir(
        plan,
        join_path(dir, "data/repository"),
        "Failed to create auth repository directory",
    );
    let none: Vec<(String, String)> = Vec::new();
    assert(pair_views(none@) =~= Seq::<(Seq<char>, Seq<char>)>::empty());
    push_template(
        plan,
        "features/auth/data/models/user_model.dart.tmpl",
        model_path,
        &none,
        "Failed to copy user model template".to_owned(),
    );
    push_template(
        plan,
        "features/auth/data/repository/auth_repository.dart.tmpl",
        repo_path,
        &none,
        "Failed to copy auth repository template".to_owned(),
    );
    push_integration(plan, project_dir, "auth", "Auth");
    push_report(
        plan,
        "\n\u{e2}\u{153}\u{2026} Auth feature created successfully with the following components:".to_owned(),
    );
    assert(views(plan@) =~= steps + auth_data_steps(project_dir@));
}

/// The names of the cubits that have a directory.
fn auth_cubit_names() -> (names: Vec<String>)
    ensures
        texts(names@) == auth_cubits(),
{
    let mut names: Vec<String> = Vec::new();
    assert(texts(names@) =~= Seq::<Seq<char>>::empty());
    push_text(&mut names, "login_cubit");
    push_text(&mut names, "register_cubit");
    push_text(&mut names, "forgot_password_cubit");
    push_text(&mut names, "verify_email_cubit");
    push_text(&mut names, "create_password_cubit");
    push_text(&mut names, "personal_details_cubit");
    push_text(&mut names, "welcome_cubit");
    push_text(&mut names, "loading_cubit");
    assert(texts(names@) =~= auth_cubits());
    names
}

/// The names of the pages.
fn auth_page_names() -> (names: Vec<String>)
    ensures
        texts(names@) == auth_pages(),
{
    let mut names: Vec<String> = Vec::new();
    assert(texts(names@) =~= Seq::<Seq<char>>::empty());
    push_text(&mut names, "login_page.dart");
    push_text(&mut names, "register_email_password_page.dart");
    push_text(&mut names, "register_personal_details_page.dart");
    push_text(&mut names, "forgot_password_page.dart");
    push_text(&mut names, "verify_email_page.dart");
    push_text(&mut names, "create_password_page.dart");
    push_text(&mut names, "welcome_page.dart");
    push_text(&mut names, "loading_page.dart");
    assert(texts(names@) =~= auth_pages());
    names
}

/// The names of the cubits that come from templates.
fn templated_cubit_names() -> (names: Vec<String>)
    ensures
        texts(names@) == templated_cubits(),
{
    let mut names: Vec<String> = Vec::new();
    assert(texts(names@) =~= Seq::<Seq<char>>::empty());
    push_text(&mut names, "login");
    push_text(&mut names, "register");
    push_text(&mut names, "forgot_password");
    push_text(&mut names, "verify_email");
    push_text(&mut names, "create_password");
    push_text(&mut names, "welcome");
    assert(texts(names@) =~= templated_cubits());
    names
}

/// The plan that makes the auth feature in the project under `project_dir`.
pub fn create_auth_feature(project_dir: &str) -> (plan: Vec<Action>)
    ensures
        views(plan@) == auth_plan(project_dir@),
{
    let params = FeatureParams::minimal("auth");
    let dir = join_path(project_dir, "lib/features/auth");
    let mut plan: Vec<Action> = Vec::new();
    let mut created: Vec<String> = Vec::new();
    push_action(
        &mut plan,
        Action::FailIfExists { path: dir.clone(), feature_name: "auth".to_owned() },
    );
    push_report(&mut plan, "Creating auth feature with specialized components...".to_owned());
    assert(views(plan@) =~= seq![
        ActionView::FailIfExists { path: dir@, feature_name: "auth"@ },
        ActionView::Report { line: "Creating auth feature with specialized components..."@ },
    ]);
    push_plan(&mut plan, create_feature(project_dir, &params));
    let ghost steps1 = views(plan@);
    push_report(&mut plan, "Creating auth specific cubits...".to_owned());
    assert(views(plan@) =~= steps1 + seq![
        ActionView::Report { line: "Creating auth specific cubits..."@ },
    ]);
    push_dirs(
        &mut plan,
        join_path(dir.as_str(), "cubits").as_str(),
        &auth_cubit_names(),
        "Failed to create ",
        " directory",
    );
    let names = templated_cubit_names();
    assert(texts(created@) =~= Seq::<Seq<char>>::empty());
    push_cubits(&mut plan, &mut created, dir.as_str(), &names, "cubit");
    assert(texts(created@) =~= cubit_lines(dir@, "cubit"@));
    push_cubits(&mut plan, &mut created, dir.as_str(), &names, "state");
    let ghost steps2 = views(plan@);
    push_make_dir(
        &mut plan,
        join_path(dir.as_str(), "services"),
        "Failed to create services directory",
    );
    push_report(&mut plan, "Creating auth pages...".to_owned());
    assert(views(plan@) =~= steps2 + seq![
        ActionView::MakeDir {
            path: joined_path(dir@, "services"@),
            context: "Failed to create services directory"@,
        },
        ActionView::Report { line: "Creating auth pages..."@ },
    ]);
    push_placeholders(
        &mut plan,
        &mut created,
        join_path(dir.as_str(), "ui/pages").as_str(),
        &auth_page_names(),
        "// TODO: Implement auth page\n",
        "- UI Page: ",
        "Failed to create page file: ",
    );
    push_auth_data(&mut plan, &mut created, project_dir, dir.as_str());
    push_reports(&mut plan, &created);
    plan
}

} // verus!
