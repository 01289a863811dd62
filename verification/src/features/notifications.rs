use crate::features::scaffold::{create_feature, feature_plan};
use crate::features::{full_feature, FeatureParams};
use crate::plan::{
    file_report_lines, placeholder_steps, push_action, push_integration, push_make_dir,
    push_placeholders, push_plan, push_report, push_reports, push_text, report_steps, Action,
    ActionView,
};
use crate::text::{join_path, joined_path, texts, views};
use vstd::prelude::*;
use vstd::string::*;

verus! {

/// The files of the notification services.
pub open spec fn service_files() -> Seq<Seq<char>> {
    seq![
        "notification_service.dart"@,
        "local_notification_service.dart"@,
        "push_notification_service.dart"@,
    ]
}

/// The files of the notification pages.
pub open spec fn page_files() -> Seq<Seq<char>> {
    seq!["notification_page.dart"@, "notification_details_page.dart"@]
}

/// The directory of the notifications feature.
pub open spec fn notifications_dir(project_dir: Seq<char>) -> Seq<char> {
    joined_path(project_dir, "lib/features/notifications"@)
}

/// The lines that report the files of the notifications feature.
pub open spec fn notification_lines(project_dir: Seq<char>) -> Seq<Seq<char>> {
    let dir = notifications_dir(project_dir);
    file_report_lines(joined_path(dir, "services"@), service_files(), "- Service: "@)
        + file_report_lines(joined_path(dir, "ui/pages"@), page_files(), "- UI Page: "@) + seq![
        "- Model: "@ + joined_path(dir, "data/models/notification_model.dart"@),
    ]
}

/// The plan that makes the notifications feature: a feature with every part, then the
/// service files, the pages and the model of the notifications, and its entries in
/// the router and in the injection file of the project.
pub open spec fn notification_plan(project_dir: Seq<char>) -> Seq<ActionView> {
    let dir = notifications_dir(project_dir);
    seq![
        ActionView::FailIfExists { path: dir, feature_name: "notifications"@ },
        ActionView::Report {
            line: "Creating notifications feature with specialized components..."@,
        },
    ] + feature_plan(project_dir, full_feature("notifications"@)) + seq![
        ActionView::MakeDir {
            path: joined_path(dir, "services"@),
            context: "Failed to create notification services directory"@,
        },
        ActionView::Report { line: "Creating notification service files..."@ },
    ] + placeholder_steps(
        joined_path(dir, "services"@),
        service_files(),
        "// TODO: Implement notification service\n"@,
        "Failed to create service file: "@,
    ) + placeholder_steps(
        joined_path(dir, "ui/pages"@),
        page_files(),
        "// TODO: Implement notification page\n"@,
        "Failed to create page file: "@,
    ) + seq![
        ActionView::MakeDir {
            path: joined_path(dir, "data/models"@),
            context: "Failed to create notification models directory"@,
        },
        ActionView::WriteFile {
            destination: joined_path(dir, "data/models/notification_model.dart"@),
            content: "class NotificationModel {}\n"@,
            context: "Failed to create notification model"@,
        },
        ActionView::UpdateRouter {
            project_dir,
            feature_name: "notifications"@,
            pascal_name: "Notifications"@,
        },
        ActionView::UpdateDi { project_dir, feature_name: "notifications"@ },
        ActionView::Report {
            line: "\n\u{e2}\u{153}\u{2026} Notification feature created successfully with the following components:"@,
        },
    ] + report_steps(notification_lines(project_dir))
}

/// The plan that makes the notifications feature in the project under `project_dir`.
pub fn create_notification_feature(project_dir: &str) -> (plan: Vec<Action>)
    ensures
        views(plan@) == notification_plan(project_dir@),
{
    let params = FeatureParams::new("notifications");
    let dir = join_path(project_dir, "lib/features/notifications");
    let services = join_path(dir.as_str(), "services");
    let pages = join_path(dir.as_str(), "ui/pages");
    let mut plan: Vec<Action> = Vec::new();
    let mut created: Vec<String> = Vec::new();
    push_action(
        &mut plan,
        Action::FailIfExists { path: dir.clone(), feature_name: "notifications".to_owned() },
    );
    push_report(
        &mut plan,
        "Creating notifications feature with specialized components...".to_owned(),
    );
    assert(views(plan@) =~= seq![
        ActionView::FailIfExists { path: dir@, feature_name: "notifications"@ },
        ActionView::Report {
            line: "Creating notifications feature with specialized components..."@,
        },
    ]);
    push_plan(&mut plan, create_feature(project_dir, &params));
    let ghost steps1 = views(plan@);
    push_make_dir(
        &mut plan,
        services.clone(),
        "Failed to create notification services directory",
    );
    push_report(&mut plan, "Creating notification service files...".to_owned());
    assert(views(plan@) =~= steps1 + seq![
        ActionView::MakeDir {
            path: joined_path(dir@, "services"@),
            context: "Failed to create notification services directory"@,
        },
        ActionView::Report { line: "Creating notification service files..."@ },
    ]);
    let mut names: Vec<String> = Vec::new();
    push_text(&mut names, "notification_service.dart");
    push_text(&mut names, "local_notification_service.dart");
    push_text(&mut names, "push_notification_service.dart");
    assert(texts(names@) =~= service_files());
    assert(texts(created@) =~= Seq::<Seq<char>>::empty());
    push_placeholders(
        &mut plan,
        &mut created,
        services.as_str(),
        &names,
        "// TODO: Implement notification service\n",
        "- Service: ",
        "Failed to create service file: ",
    );
    assert(texts(created@) =~= file_report_lines(
        joined_path(dir@, "services"@),
        service_files(),
        "- Service: "@,
    ));
    let mut page_names: Vec<String> = Vec::new();
    push_text(&mut page_names, "notification_page.dart");
    push_text(&mut page_names, "notification_details_page.dart");
    assert(texts(page_names@) =~= page_files());
    push_placeholders(
        &mut plan,
        &mut created,
        pages.as_str(),
        &page_names,
        "// TODO: Implement notification page\n",
        "- UI Page: ",
        "Failed to create page file: ",
    );
    let ghost steps2 = views(plan@);
    let ghost lines2 = texts(created@);
    let model_path = join_path(dir.as_str(), "data/models/notification_model.dart");
    let mut line = "- Model: ".to_owned();
    line.append(model_path.as_str());
    created.push(line);
    assert(texts(created@) =~= lines2 + seq![
        "- Model: "@ + joined_path(dir@, "data/models/notification_model.dart"@),
    ]);
    push_make_dir(
        &mut plan,
        join_path(dir.as_str(), "data/models"),
        "Failed to create notification models directory",
    );
    push_action(
        &mut plan,
        Action::WriteFile {
            destination: model_path,
            content: "class NotificationModel {}\n".to_owned(),
            context: "Failed to create notification model".to_owned(),
        },
    );
    push_integration(&mut plan, project_dir, "notifications", "Notifications");
    push_report(
        &mut plan,
        "\n\u{e2}\u{153}\u{2026} Notification feature created successfully with the following components:".to_owned(),
    );
    assert(views(plan@) =~= steps2 + seq![
        ActionView::MakeDir {
            path: joined_path(dir@, "data/models"@),
            context: "Failed to create notification models directory"@,
        },
        ActionView::WriteFile {
            destination: joined_path(dir@, "data/models/notification_model.dart"@),
            content: "class NotificationModel {}\n"@,
            context: "Failed to create notification model"@,
        },
        ActionView::UpdateRouter {
            project_dir: project_dir@,
            feature_name: "notifications"@,
            pascal_name: "Notifications"@,
        },
        ActionView::UpdateDi { project_dir: project_dir@, feature_name: "notifications"@ },
        ActionView::Report {
            line: "\n\u{e2}\u{153}\u{2026} Notification feature created successfully with the following components:"@,
        },
    ]);
    push_reports(&mut plan, &created);
    plan
}

} // verus!
