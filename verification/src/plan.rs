use crate::text::{join_path, joined_path, texts, views};
use vstd::string::*;
use vstd::prelude::*;

verus! {

/// One thing to do on disk or on the screen while a project or a feature is made.
/// The steps of a plan are done in order, and the first that fails ends the plan;
/// `context` is what the failure is reported with, where it is not empty.
#[derive(Debug, PartialEq, Eq)]
pub enum Action {
    /// Fail where `path` exists already: the feature `feature_name` is there.
    FailIfExists { path: String, feature_name: String },
    /// Make a directory, and those above it.
    MakeDir { path: String, context: String },
    /// Copy a template to `destination`, with the value of each placeholder in the
    /// place of the placeholder.
    CopyTemplate {
        template: String,
        destination: String,
        replacements: Vec<(String, String)>,
        context: String,
    },
    /// Write `content` to the file at `destination`.
    WriteFile { destination: String, content: String, context: String },
    /// Copy the file at `source` to `destination`; where it cannot be read, write
    /// `fallback`.
    CopyFileOr { source: String, destination: String, fallback: String, context: String },
    /// Add the routes of a feature to the router of the project under `project_dir`.
    UpdateRouter { project_dir: String, feature_name: String, pascal_name: String },
    /// Add the dependencies of a feature to the injection file of the project under
    /// `project_dir`.
    UpdateDi { project_dir: String, feature_name: String },
    /// Show a line.
    Report { line: String },
    /// Run the tool that creates a project, with these arguments.
    RunFlutterCreate { args: Vec<String> },
    /// Copy the directory of templates `template_subpath` into `destination`.
    CopyTemplateDir { template_subpath: String, destination: String },
    /// Add the section of the assets to the manifest at `pubspec_path`, unless it has
    /// one.
    AddAssetsSection { pubspec_path: String },
    /// Add the dependencies of the architecture to the manifest at `pubspec_path`.
    AddDependencies { pubspec_path: String },
}

/// A step of a plan, as plain values.
pub ghost enum ActionView {
    FailIfExists { path: Seq<char>, feature_name: Seq<char> },
    MakeDir { path: Seq<char>, context: Seq<char> },
    CopyTemplate {
        template: Seq<char>,
        destination: Seq<char>,
        replacements: Seq<(Seq<char>, Seq<char>)>,
        context: Seq<char>,
    },
    WriteFile { destination: Seq<char>, content: Seq<char>, context: Seq<char> },
    CopyFileOr { source: Seq<char>, destination: Seq<char>, fallback: Seq<char>, context: Seq<char> },
    UpdateRouter { project_dir: Seq<char>, feature_name: Seq<char>, pascal_name: Seq<char> },
    UpdateDi { project_dir: Seq<char>, feature_name: Seq<char> },
    Report { line: Seq<char> },
    RunFlutterCreate { args: Seq<Seq<char>> },
    CopyTemplateDir { template_subpath: Seq<char>, destination: Seq<char> },
    AddAssetsSection { pubspec_path: Seq<char> },
    AddDependencies { pubspec_path: Seq<char> },
}

/// The views of a list of pairs of a placeholder and its value, in order.
pub open spec fn pair_views(v: Seq<(String, String)>) -> Seq<(Seq<char>, Seq<char>)> {
    v.map_values(|e: (String, String)| (e.0@, e.1@))
}

impl View for Action {
    type V = ActionView;

    open spec fn view(&self) -> ActionView {
        match self {
            Action::FailIfExists { path, feature_name } => ActionView::FailIfExists {
                path: path@,
                feature_name: feature_name@,
            },
            Action::MakeDir { path, context } => ActionView::MakeDir {
                path: path@,
                context: context@,
            },
            Action::CopyTemplate {
                template,
                destination,
                replacements,
                context,
            } => ActionView::CopyTemplate {
                template: template@,
                destination: destination@,
                replacements: pair_views(replacements@),
                context: context@,
            },
            Action::WriteFile { destination, content, context } => ActionView::WriteFile {
                destination: destination@,
                content: content@,
                context: context@,
            },
            Action::CopyFileOr { source, destination, fallback, context } => ActionView::CopyFileOr {
                source: source@,
                destination: destination@,
                fallback: fallback@,
                context: context@,
            },
            Action::UpdateRouter { project_dir, feature_name, pascal_name } => ActionView::UpdateRouter {
                project_dir: project_dir@,
                feature_name: feature_name@,
                pascal_name: pascal_name@,
            },
            Action::UpdateDi { project_dir, feature_name } => ActionView::UpdateDi {
                project_dir: project_dir@,
                feature_name: feature_name@,
            },
            Action::Report { line } => ActionView::Report { line: line@ },
            Action::RunFlutterCreate { args } => ActionView::RunFlutterCreate { args: texts(args@) },
            Action::CopyTemplateDir { template_subpath, destination } => ActionView::CopyTemplateDir {
                template_subpath: template_subpath@,
                destination: destination@,
            },
            Action::AddAssetsSection { pubspec_path } => ActionView::AddAssetsSection {
                pubspec_path: pubspec_path@,
            },
            Action::AddDependencies { pubspec_path } => ActionView::AddDependencies {
                pubspec_path: pubspec_path@,
            },
        }
    }
}

/// Adds a step to a plan.
pub(crate) fn push_action(plan: &mut Vec<Action>, action: Action)
    ensures
        views(final(plan)@) == views(old(plan)@).push(action@),
{
    let ghost before = views(plan@);
    plan.push(action);
    assert(views(plan@) =~= before.push(action@));
}

/// Adds to a plan the step that makes a directory.
pub(crate) fn push_make_dir(plan: &mut Vec<Action>, path: String, context: &str)
    ensures
        views(final(plan)@) == views(old(plan)@).push(
            ActionView::MakeDir { path: path@, context: context@ },
        ),
{
    push_action(plan, Action::MakeDir { path, context: context.to_owned() });
}

/// Adds to a plan the step that shows a line.
pub(crate) fn push_report(plan: &mut Vec<Action>, line: String)
    ensures
        views(final(plan)@) == views(old(plan)@).push(ActionView::Report { line: line@ }),
{
    push_action(plan, Action::Report { line });
}

/// Adds to a plan the step that writes a file.
pub(crate) fn push_write(plan: &mut Vec<Action>, destination: String, content: &str, context: String)
    ensures
        views(final(plan)@) == views(old(plan)@).push(
            ActionView::WriteFile {
                destination: destination@,
                content: content@,
                context: context@,
            },
        ),
{
    push_action(plan, Action::WriteFile { destination, content: content.to_owned(), context });
}

/// A copy of a list of pairs of a placeholder and its value.
pub(crate) fn clone_pairs(v: &Vec<(String, String)>) -> (r: Vec<(String, String)>)
    ensures
        pair_views(r@) == pair_views(v@),
{
    let mut r: Vec<(String, String)> = Vec::new();
    let mut i: usize = 0;
    while i < v.len()
        invariant
            i <= v.len(),
            r.len() == i,
            forall|j: int| 0 <= j < i ==> r@[j].0@ == v@[j].0@ && r@[j].1@ == v@[j].1@,
        decreases v.len() - i,
    {
        r.push((v[i].0.clone(), v[i].1.clone()));
        i += 1;
    }
    assert(pair_views(r@) =~= pair_views(v@));
    r
}

/// Adds to a plan the step that copies a template.
pub(crate) fn push_template(
    plan: &mut Vec<Action>,
    template: &str,
    destination: String,
    replacements: &Vec<(String, String)>,
    context: String,
)
    ensures
        views(final(plan)@) == views(old(plan)@).push(
            ActionView::CopyTemplate {
                template: template@,
                destination: destination@,
                replacements: pair_views(replacements@),
                context: context@,
            },
        ),
{
    push_action(
        plan,
        Action::CopyTemplate {
            template: template.to_owned(),
            destination,
            replacements: clone_pairs(replacements),
            context,
        },
    );
}

/// The step that makes the directory `name` under `base`; a failure is reported
/// with the name between `context_head` and `context_tail`.
pub open spec fn dir_step(
    base: Seq<char>,
    name: Seq<char>,
    context_head: Seq<char>,
    context_tail: Seq<char>,
) -> ActionView {
    ActionView::MakeDir {
        path: joined_path(base, name),
        context: context_head + name + context_tail,
    }
}

/// The steps that make the directories `names` under `base`, in order.
pub open spec fn dir_steps(
    base: Seq<char>,
    names: Seq<Seq<char>>,
    context_head: Seq<char>,
    context_tail: Seq<char>,
) -> Seq<ActionView> {
    names.map_values(|name: Seq<char>| dir_step(base, name, context_head, context_tail))
}

/// Adds to a plan the steps that make the directories `names` under `base`.
pub(crate) fn push_dirs(
    plan: &mut Vec<Action>,
    base: &str,
    names: &Vec<String>,
    context_head: &str,
    context_tail: &str,
)
    ensures
        views(final(plan)@) == views(old(plan)@) + dir_steps(
            base@,
            texts(names@),
            context_head@,
            context_tail@,
        ),
{
    let ghost steps = views(plan@);
    let ghost all = dir_steps(base@, texts(names@), context_head@, context_tail@);
    let mut i: usize = 0;
    assert(views(plan@) =~= steps + all.take(0));
    while i < names.len()
        invariant
            i <= names.len(),
            all == dir_steps(base@, texts(names@), context_head@, context_tail@),
            views(plan@) == steps + all.take(i as int),
        decreases names.len() - i,
    {
        let mut context = context_head.to_owned();
        context.append(names[i].as_str());
        context.append(context_tail);
        push_action(
            plan,
            Action::MakeDir { path: join_path(base, names[i].as_str()), context },
        );
        assert(all[i as int] == dir_step(
            base@,
            names@[i as int]@,
            context_head@,
            context_tail@,
        ));
        assert(views(plan@) =~= steps + all.take(i + 1));
        i += 1;
    }
    assert(all.take(names.len() as int) =~= all);
}

/// The step that writes `content` to the file `name` in `dir`; a failure is reported
/// with `context_head` and the name.
pub open spec fn placeholder_step(
    dir: Seq<char>,
    name: Seq<char>,
    content: Seq<char>,
    context_head: Seq<char>,
) -> ActionView {
    ActionView::WriteFile {
        destination: joined_path(dir, name),
        content,
        context: context_head + name,
    }
}

/// The steps that write `content` to each of the files `names` in `dir`, in order.
pub open spec fn placeholder_steps(
    dir: Seq<char>,
    names: Seq<Seq<char>>,
    content: Seq<char>,
    context_head: Seq<char>,
) -> Seq<ActionView> {
    names.map_values(|name: Seq<char>| placeholder_step(dir, name, content, context_head))
}

/// The lines that report the files `names` in `dir` under `label`, in order.
pub open spec fn file_report_lines(dir: Seq<char>, names: Seq<Seq<char>>, label: Seq<char>) -> Seq<
    Seq<char>,
> {
    names.map_values(|name: Seq<char>| label + joined_path(dir, name))
}

/// Adds to a plan the steps that write `content` to each of the files `names` in
/// `dir`, and to `created` the lines that report the files under `label`.
pub(crate) fn push_placeholders(
    plan: &mut Vec<Action>,
    created: &mut Vec<String>,
    dir: &str,
    names: &Vec<String>,
    content: &str,
    label: &str,
    context_head: &str,
)
    ensures
        views(final(plan)@) == views(old(plan)@) + placeholder_steps(
            dir@,
            texts(names@),
            content@,
            context_head@,
        ),
        texts(final(created)@) == texts(old(created)@) + file_report_lines(
            dir@,
            texts(names@),
            label@,
        ),
{
    let ghost steps = views(plan@);
    let ghost lines = texts(created@);
    let ghost all = placeholder_steps(dir@, texts(names@), content@, context_head@);
    let ghost all_lines = file_report_lines(dir@, texts(names@), label@);
    let mut i: usize = 0;
    assert(views(plan@) =~= steps + all.take(0));
    assert(texts(created@) =~= lines + all_lines.take(0));
    while i < names.len()
        invariant
            i <= names.len(),
            all == placeholder_steps(dir@, texts(names@), content@, context_head@),
            all_lines == file_report_lines(dir@, texts(names@), label@),
            views(plan@) == steps + all.take(i as int),
            texts(created@) == lines + all_lines.take(i as int),
        decreases names.len() - i,
    {
        let path = join_path(dir, names[i].as_str());
        let mut line = label.to_owned();
        line.append(path.as_str());
        let mut context = context_head.to_owned();
        context.append(names[i].as_str());
        let ghost so_far = texts(created@);
        created.push(line);
        assert(texts(created@) =~= so_far.push(line@));
        push_write(plan, path, content, context);
        assert(all[i as int] == placeholder_step(
            dir@,
            names@[i as int]@,
            content@,
            context_head@,
        ));
        assert(all_lines[i as int] == label@ + joined_path(dir@, names@[i as int]@));
        assert(views(plan@) =~= steps + all.take(i + 1));
        assert(texts(created@) =~= lines + all_lines.take(i + 1));
        i += 1;
    }
    assert(all.take(names.len() as int) =~= all);
    assert(all_lines.take(names.len() as int) =~= all_lines);
}

/// The steps that show the lines, one for each.
pub open spec fn report_steps(lines: Seq<Seq<char>>) -> Seq<ActionView> {
    lines.map_values(|line: Seq<char>| ActionView::Report { line })
}

/// Adds to a plan the steps that show the lines, one for each.
pub(crate) fn push_reports(plan: &mut Vec<Action>, lines: &Vec<String>)
    ensures
        views(final(plan)@) == views(old(plan)@) + report_steps(texts(lines@)),
{
    let ghost steps = views(plan@);
    let ghost all = report_steps(texts(lines@));
    let mut i: usize = 0;
    assert(views(plan@) =~= steps + all.take(0));
    while i < lines.len()
        invariant
            i <= lines.len(),
            all == report_steps(texts(lines@)),
            views(plan@) == steps + all.take(i as int),
        decreases lines.len() - i,
    {
        push_report(plan, lines[i].clone());
        assert(all[i as int] == (ActionView::Report { line: lines@[i as int]@ }));
        assert(views(plan@) =~= steps + all.take(i + 1));
        i += 1;
    }
    assert(all.take(lines.len() as int) =~= all);
}

/// Adds a text to a list.
pub(crate) fn push_text(list: &mut Vec<String>, text: &str)
    ensures
        texts(final(list)@) == texts(old(list)@).push(text@),
{
    let ghost before = texts(list@);
    list.push(text.to_owned());
    assert(texts(list@) =~= before.push(text@));
}

/// Adds to a plan the steps that add a feature to the router and to the injection
/// file of the project.
pub(crate) fn push_integration(plan: &mut Vec<Action>, project_dir: &str, feature_name: &str, pascal_name: &str)
    ensures
        views(final(plan)@) == views(old(plan)@).push(
            ActionView::UpdateRouter {
                project_dir: project_dir@,
                feature_name: feature_name@,
                pascal_name: pascal_name@,
            },
        ).push(ActionView::UpdateDi { project_dir: project_dir@, feature_name: feature_name@ }),
{
    push_action(
        plan,
        Action::UpdateRouter {
            project_dir: project_dir.to_owned(),
            feature_name: feature_name.to_owned(),
            pascal_name: pascal_name.to_owned(),
        },
    );
    push_action(
        plan,
        Action::UpdateDi {
            project_dir: project_dir.to_owned(),
            feature_name: feature_name.to_owned(),
        },
    );
}

/// Adds the steps of `more` to a plan.
pub(crate) fn push_plan(plan: &mut Vec<Action>, more: Vec<Action>)
    ensures
        views(final(plan)@) == views(old(plan)@) + views(more@),
{
    let ghost steps = views(plan@);
    let mut rest = more;
    plan.append(&mut rest);
    assert(views(plan@) =~= steps + views(more@));
}

} // verus!
