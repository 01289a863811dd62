use crate::text::{
    contains_text, join_path, joined_path, last_index_of_text, text_contains, text_eq, texts,
    views,
};
use vstd::prelude::*;
use vstd::string::*;

verus! {

/// The texts that a file must hold.
pub struct FileContentCheck {
    pub file_path: String,
    pub expected_content: Vec<String>,
}

/// What the tree of a project must hold. The paths are written from the project's
/// root.
pub struct ValidationRules {
    pub required_directories: Vec<String>,
    pub required_files: Vec<String>,
    pub file_content_checks: Vec<FileContentCheck>,
}

/// What a validation found.
pub struct ValidationResult {
    pub project_path: String,
    pub passed: bool,
    pub missing_directories: Vec<String>,
    pub missing_files: Vec<String>,
    /// The files that failed a check, each with the reason.
    pub failed_content_checks: Vec<(String, String)>,
}

/// What stands at a path.
pub enum PathState {
    /// Nothing, or something that is neither a directory nor a file.
    Missing,
    Directory,
    /// A file with its text, or `None` where the text could not be read.
    File(Option<String>),
}

/// What was found on disk at the paths that the rules name, each path written as the
/// rules write it. Where a path occurs twice, the later entry counts; a path that
/// does not occur is missing.
pub struct ProjectSnapshot {
    pub entries: Vec<(String, PathState)>,
}

/// A content check, as texts.
pub ghost struct CheckView {
    pub file_path: Seq<char>,
    pub expected_content: Seq<Seq<char>>,
}

/// Validation rules, as texts.
pub ghost struct RulesView {
    pub required_directories: Seq<Seq<char>>,
    pub required_files: Seq<Seq<char>>,
    pub file_content_checks: Seq<CheckView>,
}

/// A validation result, as texts.
pub ghost struct ResultView {
    pub project_path: Seq<char>,
    pub passed: bool,
    pub missing_directories: Seq<Seq<char>>,
    pub missing_files: Seq<Seq<char>>,
    pub failed_content_checks: Seq<(Seq<char>, Seq<char>)>,
}

/// What stands at a path, as plain values.
pub ghost enum StateView {
    Missing,
    Directory,
    File(Option<Seq<char>>),
}

impl View for FileContentCheck {
    type V = CheckView;

    open spec fn view(&self) -> CheckView {
        CheckView { file_path: self.file_path@, expected_content: texts(self.expected_content@) }
    }
}

impl View for ValidationRules {
    type V = RulesView;

    open spec fn view(&self) -> RulesView {
        RulesView {
            required_directories: texts(self.required_directories@),
            required_files: texts(self.required_files@),
            file_content_checks: views(self.file_content_checks@),
        }
    }
}

/// The views of a list of pairs of texts, in order.
pub open spec fn text_pairs(v: Seq<(String, String)>) -> Seq<(Seq<char>, Seq<char>)> {
    v.map_values(|e: (String, String)| (e.0@, e.1@))
}

impl View for ValidationResult {
    type V = ResultView;

    open spec fn view(&self) -> ResultView {
        ResultView {
            project_path: self.project_path@,
            passed: self.passed,
            missing_directories: texts(self.missing_directories@),
            missing_files: texts(self.missing_files@),
            failed_content_checks: text_pairs(self.failed_content_checks@),
        }
    }
}

impl View for PathState {
    type V = StateView;

    open spec fn view(&self) -> StateView {
        match self {
            PathState::Missing => StateView::Missing,
            PathState::Directory => StateView::Directory,
            PathState::File(Some(text)) => StateView::File(Some(text@)),
            PathState::File(None) => StateView::File(None),
        }
    }
}

impl View for ProjectSnapshot {
    type V = Seq<(Seq<char>, StateView)>;

    open spec fn view(&self) -> Seq<(Seq<char>, StateView)> {
        self.entries@.map_values(|e: (String, PathState)| (e.0@, e.1@))
    }
}

impl ValidationResult {
    /// A result for a project in which nothing was found missing yet.
    pub fn new(project_path: String) -> (result: ValidationResult)
        ensures
            result@ == (ResultView {
                project_path: project_path@,
                passed: true,
                missing_directories: Seq::empty(),
                missing_files: Seq::empty(),
                failed_content_checks: Seq::empty(),
            }),
    {
        let result = ValidationResult {
            project_path,
            passed: true,
            missing_directories: Vec::new(),
            missing_files: Vec::new(),
            failed_content_checks: Vec::new(),
        };
        assert(result@.missing_directories =~= Seq::<Seq<char>>::empty());
        assert(result@.missing_files =~= Seq::<Seq<char>>::empty());
        assert(result@.failed_content_checks =~= Seq::<(Seq<char>, Seq<char>)>::empty());
        result
    }
}

/// Rules made of the three lists.
pub fn create_custom_validation(
    required_dirs: Vec<String>,
    required_files: Vec<String>,
    content_checks: Vec<FileContentCheck>,
) -> (rules: ValidationRules)
    ensures
        rules.required_directories == required_dirs,
        rules.required_files == required_files,
        rules.file_content_checks == content_checks,
{
    ValidationRules {
        required_directories: required_dirs,
        required_files: required_files,
        file_content_checks: content_checks,
    }
}

/// Checks the tree of a project against rules.
pub struct ValidationSystem {
    rules: ValidationRules,
}

impl View for ValidationSystem {
    type V = RulesView;

    closed spec fn view(&self) -> RulesView {
        self.rules@
    }
}

/// The paths of the entries of a snapshot, in order.
pub open spec fn snapshot_paths(entries: Seq<(Seq<char>, StateView)>) -> Seq<Seq<char>> {
    entries.map_values(|e: (Seq<char>, StateView)| e.0)
}

/// What the snapshot found at a path.
pub open spec fn state_at(entries: Seq<(Seq<char>, StateView)>, path: Seq<char>) -> StateView {
    match last_index_of_text(snapshot_paths(entries), path) {
        Some(i) => entries[i].1,
        None => StateView::Missing,
    }
}

/// Of the directories (`want_files` unset) or files (`want_files` set) that the rules
/// require, those that the snapshot did not find, each as a path under the project,
/// in order.
pub open spec fn missing_paths(
    project_path: Seq<char>,
    required: Seq<Seq<char>>,
    entries: Seq<(Seq<char>, StateView)>,
    want_files: bool,
) -> Seq<Seq<char>>
    decreases required.len(),
{
    if required.len() == 0 {
        Seq::empty()
    } else {
        let rest = missing_paths(project_path, required.drop_last(), entries, want_files);
        let found = match state_at(entries, required.last()) {
            StateView::Missing => false,
            StateView::Directory => !want_files,
            StateView::File(_) => want_files,
        };
        if found {
            rest
        } else {
            rest.push(joined_path(project_path, required.last()))
        }
    }
}

/// The first of the expected texts that `content` does not hold.
pub open spec fn first_missing_text(content: Seq<char>, expected: Seq<Seq<char>>) -> Option<
    Seq<char>,
>
    decreases expected.len(),
{
    if expected.len() == 0 {
        None
    } else {
        match first_missing_text(content, expected.drop_last()) {
            Some(e) => Some(e),
            None => if contains_text(content, expected.last()) {
                None
            } else {
                Some(expected.last())
            },
        }
    }
}

/// Why a file fails its check, if it does: it is there but cannot be read, or it
/// lacks one of the expected texts. A file that is not there fails no check.
pub open spec fn check_failure(
    project_path: Seq<char>,
    check: CheckView,
    entries: Seq<(Seq<char>, StateView)>,
) -> Option<(Seq<char>, Seq<char>)> {
    let full_path = joined_path(project_path, check.file_path);
    match state_at(entries, check.file_path) {
        StateView::File(Some(content)) => match first_missing_text(
            content,
            check.expected_content,
        ) {
            Some(e) => Some((full_path, "Missing expected content: '"@ + e + "'"@)),
            None => None,
        },
        StateView::File(None) => Some((full_path, "Could not read file content"@)),
        _ => None,
    }
}

/// The checks that fail, each with its reason, in order.
pub open spec fn failed_checks(
    project_path: Seq<char>,
    checks: Seq<CheckView>,
    entries: Seq<(Seq<char>, StateView)>,
) -> Seq<(Seq<char>, Seq<char>)>
    decreases checks.len(),
{
    if checks.len() == 0 {
        Seq::empty()
    } else {
        let rest = failed_checks(project_path, checks.drop_last(), entries);
        match check_failure(project_path, checks.last(), entries) {
            Some(failure) => rest.push(failure),
            None => rest,
        }
    }
}

/// What the validation of a project finds: the required directories and files that
/// are missing, the content checks that fail, and that it passed exactly where there
/// is none of them.
pub open spec fn validation_of(
    rules: RulesView,
    project_path: Seq<char>,
    entries: Seq<(Seq<char>, StateView)>,
) -> ResultView {
    let missing_directories = missing_paths(
        project_path,
        rules.required_directories,
        entries,
        false,
    );
    let missing_files = missing_paths(project_path, rules.required_files, entries, true);
    let failed = failed_checks(project_path, rules.file_content_checks, entries);
    ResultView {
        project_path,
        passed: missing_directories.len() == 0 && missing_files.len() == 0 && failed.len() == 0,
        missing_directories,
        missing_files,
        failed_content_checks: failed,
    }
}

/// The lines of an item list: a head line, then one line for each item.
pub open spec fn listing_lines(head: Seq<char>, items: Seq<Seq<char>>) -> Seq<Seq<char>> {
    if items.len() == 0 {
        Seq::empty()
    } else {
        seq![head] + items.map_values(|item: Seq<char>| "  - "@ + item)
    }
}

/// The lines of the summary of a result.
pub open spec fn summary_of(result: ResultView) -> Seq<Seq<char>> {
    let head = seq![Seq::<char>::empty(), "Validation Summary"@];
    if result.passed {
        head.push("\u{2705} All validations passed!"@)
    } else {
        head + listing_lines("\u{274c} Missing directories:"@, result.missing_directories)
            + listing_lines("\u{274c} Missing files:"@, result.missing_files) + listing_lines(
            "\u{274c} Failed content checks:"@,
            result.failed_content_checks.map_values(|f: (Seq<char>, Seq<char>)| f.0 + ": "@ + f.1),
        )
    }
}

impl ProjectSnapshot {
    /// What the snapshot found at a path.
    pub fn state(&self, path: &str) -> (r: &PathState)
        ensures
            r@ == state_at(self@, path@),
    {
        let ghost paths = snapshot_paths(self@);
        let mut i: usize = self.entries.len();
        assert(paths.take(i as int) =~= paths);
        while i > 0
            invariant
                i <= self.entries.len(),
                paths == snapshot_paths(self@),
                last_index_of_text(paths, path@) == last_index_of_text(
                    paths.take(i as int),
                    path@,
                ),
            decreases i,
        {
            i -= 1;
            assert(paths.take(i + 1).drop_last() =~= paths.take(i as int));
            assert(paths.take(i + 1).last() == self.entries@[i as int].0@);
            if text_eq(self.entries[i].0.as_str(), path) {
                return &self.entries[i].1;
            }
        }
        &PathState::Missing
    }
}

/// Adds the lines of an item list.
fn push_listing(lines: &mut Vec<String>, head: &str, items: &Vec<String>)
    ensures
        texts(final(lines)@) == texts(old(lines)@) + listing_lines(head@, texts(items@)),
{
    let ghost before = texts(lines@);
    if items.len() == 0 {
        assert(texts(lines@) =~= before + Seq::<Seq<char>>::empty());
        return ;
    }
    lines.push(head.to_owned());
    let ghost expected = listing_lines(head@, texts(items@));
    let mut i: usize = 0;
    assert(texts(lines@) =~= before + expected.take(1));
    while i < items.len()
        invariant
            i <= items.len(),
            items.len() > 0,
            expected == listing_lines(head@, texts(items@)),
            texts(lines@) == before + expected.take(i + 1),
        decreases items.len() - i,
    {
        let mut line = "  - ".to_owned();
        line.append(items[i].as_str());
        let ghost so_far = texts(lines@);
        lines.push(line);
        proof {
            assert(expected.len() == items.len() + 1);
            assert(expected[i + 1] == "  - "@ + texts(items@)[i as int]);
            assert(texts(lines@) =~= so_far.push(line@));
            assert(expected.take(i + 2) =~= expected.take(i + 1).push(expected[i + 1]));
            assert(texts(lines@) =~= before + expected.take(i + 2));
        }
        i += 1;
    }
    assert(expected.take(items.len() + 1) =~= expected);
}

impl ValidationResult {
    /// The lines of the summary: that all validations passed, or what is missing and
    /// what failed.
    pub fn print_summary(&self) -> (lines: Vec<String>)
        ensures
            texts(lines@) == summary_of(self@),
    {
        let mut lines: Vec<String> = Vec::new();
        lines.push(String::new());
        lines.push("Validation Summary".to_owned());
        let ghost head = seq![Seq::<char>::empty(), "Validation Summary"@];
        assert(texts(lines@) =~= head);
        if self.passed {
            lines.push("\u{2705} All validations passed!".to_owned());
            assert(texts(lines@) =~= summary_of(self@));
            return lines;
        }
        push_listing(&mut lines, "\u{274c} Missing directories:", &self.missing_directories);
        push_listing(&mut lines, "\u{274c} Missing files:", &self.missing_files);
        let mut failures: Vec<String> = Vec::new();
        let mut i: usize = 0;
        while i < self.failed_content_checks.len()
            invariant
                i <= self.failed_content_checks.len(),
                failures.len() == i,
                forall|j: int|
                    0 <= j < i ==> failures@[j]@ == self.failed_content_checks@[j].0@ + ": "@
                        + self.failed_content_checks@[j].1@,
            decreases self.failed_content_checks.len() - i,
        {
            let mut line = self.failed_content_checks[i].0.clone();
            line.append(": ");
            line.append(self.failed_content_checks[i].1.as_str());
            failures.push(line);
            i += 1;
        }
        assert(texts(failures@) =~= self@.failed_content_checks.map_values(
            |f: (Seq<char>, Seq<char>)| f.0 + ": "@ + f.1,
        ));
        push_listing(&mut lines, "\u{274c} Failed content checks:", &failures);
        lines
    }
}

/// Of the required directories or files, those that the snapshot did not find.
fn collect_missing(
    project_path: &str,
    required: &Vec<String>,
    snapshot: &ProjectSnapshot,
    want_files: bool,
) -> (missing: Vec<String>)
    ensures
        texts(missing@) == missing_paths(project_path@, texts(required@), snapshot@, want_files),
{
    let ghost all = texts(required@);
    let mut missing: Vec<String> = Vec::new();
    let mut i: usize = 0;
    assert(all.take(0) =~= Seq::<Seq<char>>::empty());
    assert(texts(missing@) =~= Seq::<Seq<char>>::empty());
    while i < required.len()
        invariant
            i <= required.len(),
            all == texts(required@),
            texts(missing@) == missing_paths(
                project_path@,
                all.take(i as int),
                snapshot@,
                want_files,
            ),
        decreases required.len() - i,
    {
        let ghost before = texts(missing@);
        proof {
            let next = all.take(i + 1);
            assert(next.drop_last() =~= all.take(i as int));
            assert(next.last() == required@[i as int]@);
        }
        let found = match snapshot.state(required[i].as_str()) {
            PathState::Missing => false,
            PathState::Directory => !want_files,
            PathState::File(_) => want_files,
        };
        if !found {
            let full_path = join_path(project_path, required[i].as_str());
            missing.push(full_path);
            assert(texts(missing@) =~= before.push(
                joined_path(project_path@, required@[i as int]@),
            ));
        }
        i += 1;
    }
    assert(all.take(required.len() as int) =~= all);
    missing
}

/// The first of the expected texts that `content` does not hold.
fn first_missing<'a>(content: &str, expected: &'a Vec<String>) -> (r: Option<&'a String>)
    ensures
        crate::text::opt_text(
            match r {
                Some(e) => Some(*e),
                None => None,
            },
        ) == first_missing_text(content@, texts(expected@)),
{
    let ghost all = texts(expected@);
    let mut i: usize = 0;
    assert(all.take(0) =~= Seq::<Seq<char>>::empty());
    while i < expected.len()
        invariant
            i <= expected.len(),
            all == texts(expected@),
            first_missing_text(content@, all.take(i as int)) is None,
        decreases expected.len() - i,
    {
        proof {
            let next = all.take(i + 1);
            assert(next.drop_last() =~= all.take(i as int));
            assert(next.last() == expected@[i as int]@);
        }
        if !text_contains(content, expected[i].as_str()) {
            proof {
                first_missing_extends(content@, all, i + 1);
            }
            return Some(&expected[i]);
        }
        i += 1;
    }
    assert(all.take(expected.len() as int) =~= all);
    None
}

/// A text that is the first one missing among the first `n` expected texts is the
/// first one missing among all of them.
proof fn first_missing_extends(content: Seq<char>, expected: Seq<Seq<char>>, n: int)
    requires
        0 <= n <= expected.len(),
        first_missing_text(content, expected.take(n)) is Some,
    ensures
        first_missing_text(content, expected) == first_missing_text(content, expected.take(n)),
    decreases expected.len() - n,
{
    if n == expected.len() {
        assert(expected.take(n) =~= expected);
    } else {
        assert(expected.take(n + 1).drop_last() =~= expected.take(n));
        first_missing_extends(content, expected, n + 1);
    }
}

impl ValidationSystem {
    /// A system that checks against `rules`.
    pub fn new(rules: ValidationRules) -> (system: ValidationSystem)
        ensures
            system@ == rules@,
    {
        ValidationSystem { rules }
    }

    /// Validates a project against the rules, on what `snapshot` found on disk.
    pub fn validate_project(&self, project_path: &str, snapshot: &ProjectSnapshot) -> (result:
        ValidationResult)
        ensures
            result@ == validation_of(self@, project_path@, snapshot@),
    {
        let missing_directories = collect_missing(
            project_path,
            &self.rules.required_directories,
            snapshot,
            false,
        );
        let missing_files = collect_missing(
            project_path,
            &self.rules.required_files,
            snapshot,
            true,
        );
        let ghost all = self@.file_content_checks;
        let mut failed: Vec<(String, String)> = Vec::new();
        let mut i: usize = 0;
        assert(all.take(0) =~= Seq::<CheckView>::empty());
        assert(text_pairs(failed@) =~= Seq::<(Seq<char>, Seq<char>)>::empty());
        while i < self.rules.file_content_checks.len()
            invariant
                i <= self.rules.file_content_checks.len(),
                all == self@.file_content_checks,
                all == views(self.rules.file_content_checks@),
                text_pairs(failed@) == failed_checks(project_path@, all.take(i as int), snapshot@),
            decreases self.rules.file_content_checks.len() - i,
        {
            let check = &self.rules.file_content_checks[i];
            let ghost before = text_pairs(failed@);
            proof {
                let next = all.take(i + 1);
                assert(next.drop_last() =~= all.take(i as int));
                assert(next.last() == check@);
            }
            match snapshot.state(check.file_path.as_str()) {
                PathState::File(Some(content)) => {
                    match first_missing(content.as_str(), &check.expected_content) {
                        Some(expected) => {
                            let full_path = join_path(project_path, check.file_path.as_str());
                            let mut reason = "Missing expected content: '".to_owned();
                            reason.append(expected.as_str());
                            reason.append("'");
                            failed.push((full_path, reason));
                            assert(text_pairs(failed@) =~= before.push(
                                check_failure(project_path@, check@, snapshot@).unwrap(),
                            ));
                        },
                        None => {},
                    }
                },
                PathState::File(None) => {
                    let full_path = join_path(project_path, check.file_path.as_str());
                    failed.push((full_path, "Could not read file content".to_owned()));
                    assert(text_pairs(failed@) =~= before.push(
                        check_failure(project_path@, check@, snapshot@).unwrap(),
                    ));
                },
                _ => {},
            }
            i += 1;
        }
        assert(all.take(self.rules.file_content_checks.len() as int) =~= all);
        let passed = missing_directories.len() == 0 && missing_files.len() == 0 && failed.len()
            == 0;
        ValidationResult {
            project_path: project_path.to_owned(),
            passed,
            missing_directories,
            missing_files,
            failed_content_checks: failed,
        }
    }

    /// Validates one feature of a project: the rules say what the feature needs, so
    /// this is the validation of the project against them.
    pub fn validate_feature(
        &self,
        project_path: &str,
        _feature_name: &str,
        snapshot: &ProjectSnapshot,
    ) -> (result: ValidationResult)
        ensures
            result@ == validation_of(self@, project_path@, snapshot@),
    {
        self.validate_project(project_path, snapshot)
    }

    /// Validates a project and gives whether it passed, with the lines of the
    /// summary.
    pub fn run_validation(&self, project_path: &str, snapshot: &ProjectSnapshot) -> (r: (
        bool,
        Vec<String>,
    ))
        ensures
            r.0 == validation_of(self@, project_path@, snapshot@).passed,
            texts(r.1@) == summary_of(validation_of(self@, project_path@, snapshot@)),
    {
        let result = self.validate_project(project_path, snapshot);
        let lines = result.print_summary();
        (result.passed, lines)
    }

    /// The rules that the system checks against.
    pub fn rules(&self) -> (r: &ValidationRules)
        ensures
            r@ == self@,
    {
        &self.rules
    }
}

/// The rules for a new project that are built in.
pub open spec fn project_rules() -> RulesView {
    RulesView {
        required_directories: seq![
            "lib/config"@,
            "lib/core/entities"@,
            "lib/core/failures"@,
            "lib/core/utils"@,
            "lib/features"@,
            "lib/modules/bloc"@,
            "lib/modules/rest_module"@,
            "lib/widgets/buttons"@,
            "assets/images"@,
            "assets/i18n"@,
        ],
        required_files: seq![
            "lib/main.dart"@,
            "lib/flavors.dart"@,
            "lib/core/failures/failure.dart"@,
            "lib/core/utils/logger.dart"@,
            "pubspec.yaml"@,
        ],
        file_content_checks: seq![
            CheckView {
                file_path: "pubspec.yaml"@,
                expected_content: seq!["flutter_bloc:"@, "get_it:"@, "dio:"@, "assets:"@],
            },
            CheckView { file_path: "lib/flavors.dart"@, expected_content: seq!["enum Flavor"@] },
        ],
    }
}

/// A path under the directory of a feature: `lib/features/`, the feature, and `rest`.
pub open spec fn feature_path(feature_name: Seq<char>, rest: Seq<char>) -> Seq<char> {
    "lib/features/"@ + feature_name + rest
}

/// The rules for a feature that are built in.
pub open spec fn feature_rules(feature_name: Seq<char>) -> RulesView {
    RulesView {
        required_directories: seq![
            feature_path(feature_name, "/presentation"@),
            feature_path(feature_name, "/data"@),
            feature_path(feature_name, "/domain"@),
        ],
        required_files: seq![
            feature_path(feature_name, "/presentation/pages/"@ + feature_name + "_page.dart"@),
            feature_path(
                feature_name,
                "/domain/repositories/"@ + feature_name + "_repository.dart"@,
            ),
        ],
        file_content_checks: Seq::empty(),
    }
}

/// The rules for a feature generated from an API document that are built in.
pub open spec fn api_feature_rules(feature_name: Seq<char>) -> RulesView {
    RulesView {
        required_directories: seq![
            feature_path(feature_name, "/data/models"@),
            feature_path(feature_name, "/data/datasources"@),
            feature_path(feature_name, "/data/repository"@),
            "lib/core/entities/"@ + feature_name,
        ],
        required_files: seq![
            feature_path(
                feature_name,
                "/data/datasources/"@ + feature_name + "_remote_datasource.dart"@,
            ),
            feature_path(
                feature_name,
                "/data/datasources/"@ + feature_name + "_local_datasource.dart"@,
            ),
            feature_path(feature_name, "/data/repository/"@ + feature_name + "_repository.dart"@),
        ],
        file_content_checks: Seq::empty(),
    }
}

/// Adds a text to a list.
fn push_text(list: &mut Vec<String>, text: &str)
    ensures
        texts(final(list)@) == texts(old(list)@).push(text@),
{
    let ghost before = texts(list@);
    list.push(text.to_owned());
    assert(texts(list@) =~= before.push(text@));
}

/// Adds to a list a path under the directory of a feature: `lib/features/`, the
/// feature, `middle`, and, where `tail` is given, the feature again and `tail`.
fn push_feature_path(list: &mut Vec<String>, feature_name: &str, middle: &str, tail: Option<&str>)
    ensures
        texts(final(list)@) == texts(old(list)@).push(
            feature_path(
                feature_name@,
                match tail {
                    Some(t) => middle@ + feature_name@ + t@,
                    None => middle@,
                },
            ),
        ),
{
    let ghost before = texts(list@);
    let mut path = "lib/features/".to_owned();
    path.append(feature_name);
    path.append(middle);
    match tail {
        Some(t) => {
            path.append(feature_name);
            path.append(t);
            assert(path@ =~= feature_path(feature_name@, middle@ + feature_name@ + t@));
        },
        None => {},
    }
    list.push(path);
    assert(texts(list@) =~= before.push(path@));
}

/// A check that a file holds the given texts.
fn content_check(file_path: &str, expected: Vec<String>) -> (check: FileContentCheck)
    ensures
        check@ == (CheckView { file_path: file_path@, expected_content: texts(expected@) }),
{
    FileContentCheck { file_path: file_path.to_owned(), expected_content: expected }
}

impl ValidationSystem {
    /// The rules for a new project that are built in: the directories of the
    /// architecture, the entry files, and what the manifest and the flavours file must
    /// hold.
    pub fn default_new_project_rules() -> (rules: ValidationRules)
        ensures
            rules@ == project_rules(),
    {
        let mut dirs: Vec<String> = Vec::new();
        assert(texts(dirs@) =~= Seq::<Seq<char>>::empty());
        push_text(&mut dirs, "lib/config");
        push_text(&mut dirs, "lib/core/entities");
        push_text(&mut dirs, "lib/core/failures");
        push_text(&mut dirs, "lib/core/utils");
        push_text(&mut dirs, "lib/features");
        push_text(&mut dirs, "lib/modules/bloc");
        push_text(&mut dirs, "lib/modules/rest_module");
        push_text(&mut dirs, "lib/widgets/buttons");
        push_text(&mut dirs, "assets/images");
        push_text(&mut dirs, "assets/i18n");
        let mut files: Vec<String> = Vec::new();
        assert(texts(files@) =~= Seq::<Seq<char>>::empty());
        push_text(&mut files, "lib/main.dart");
        push_text(&mut files, "lib/flavors.dart");
        push_text(&mut files, "lib/core/failures/failure.dart");
        push_text(&mut files, "lib/core/utils/logger.dart");
        push_text(&mut files, "pubspec.yaml");
        let mut manifest: Vec<String> = Vec::new();
        assert(texts(manifest@) =~= Seq::<Seq<char>>::empty());
        push_text(&mut manifest, "flutter_bloc:");
        push_text(&mut manifest, "get_it:");
        push_text(&mut manifest, "dio:");
        push_text(&mut manifest, "assets:");
        let mut flavors: Vec<String> = Vec::new();
        assert(texts(flavors@) =~= Seq::<Seq<char>>::empty());
        push_text(&mut flavors, "enum Flavor");
        let mut checks: Vec<FileContentCheck> = Vec::new();
        checks.push(content_check("pubspec.yaml", manifest));
        checks.push(content_check("lib/flavors.dart", flavors));
        let rules = ValidationRules {
            required_directories: dirs,
            required_files: files,
            file_content_checks: checks,
        };
        proof {
            let expected = project_rules();
            assert(rules@.required_directories =~= expected.required_directories);
            assert(rules@.required_files =~= expected.required_files);
            assert(rules@.file_content_checks[0].expected_content
                =~= expected.file_content_checks[0].expected_content);
            assert(rules@.file_content_checks[1].expected_content
                =~= expected.file_content_checks[1].expected_content);
            assert(rules@.file_content_checks =~= expected.file_content_checks);
        }
        rules
    }

    /// The rules for a feature that are built in: its three layers, its page and the
    /// contract of its repository.
    pub fn default_feature_rules(feature_name: &str) -> (rules: ValidationRules)
        ensures
            rules@ == feature_rules(feature_name@),
    {
        let mut dirs: Vec<String> = Vec::new();
        assert(texts(dirs@) =~= Seq::<Seq<char>>::empty());
        push_feature_path(&mut dirs, feature_name, "/presentation", None);
        push_feature_path(&mut dirs, feature_name, "/data", None);
        push_feature_path(&mut dirs, feature_name, "/domain", None);
        let mut files: Vec<String> = Vec::new();
        assert(texts(files@) =~= Seq::<Seq<char>>::empty());
        push_feature_path(&mut files, feature_name, "/presentation/pages/", Some("_page.dart"));
        push_feature_path(
            &mut files,
            feature_name,
            "/domain/repositories/",
            Some("_repository.dart"),
        );
        let rules = ValidationRules {
            required_directories: dirs,
            required_files: files,
            file_content_checks: Vec::new(),
        };
        proof {
            let expected = feature_rules(feature_name@);
            assert(rules@.required_directories =~= expected.required_directories);
            assert(rules@.required_files =~= expected.required_files);
            assert(rules@.file_content_checks =~= expected.file_content_checks);
        }
        rules
    }
}

/// The rules for a feature generated from an API document that are built in: the
/// directories of its data layer and of its entities, and the three files of its
/// data-access layer.
pub fn create_api_feature_validation(feature_name: &str) -> (rules: ValidationRules)
    ensures
        rules@ == api_feature_rules(feature_name@),
{
    let mut dirs: Vec<String> = Vec::new();
    assert(texts(dirs@) =~= Seq::<Seq<char>>::empty());
    push_feature_path(&mut dirs, feature_name, "/data/models", None);
    push_feature_path(&mut dirs, feature_name, "/data/datasources", None);
    push_feature_path(&mut dirs, feature_name, "/data/repository", None);
    let mut entities = "lib/core/entities/".to_owned();
    entities.append(feature_name);
    let ghost three = texts(dirs@);
    dirs.push(entities);
    assert(texts(dirs@) =~= three.push(entities@));
    let mut files: Vec<String> = Vec::new();
    assert(texts(files@) =~= Seq::<Seq<char>>::empty());
    push_feature_path(
        &mut files,
        feature_name,
        "/data/datasources/",
        Some("_remote_datasource.dart"),
    );
    push_feature_path(
        &mut files,
        feature_name,
        "/data/datasources/",
        Some("_local_datasource.dart"),
    );
    push_feature_path(&mut files, feature_name, "/data/repository/", Some("_repository.dart"));
    let rules = ValidationRules {
        required_directories: dirs,
        required_files: files,
        file_content_checks: Vec::new(),
    };
    proof {
        let expected = api_feature_rules(feature_name@);
        assert(rules@.required_directories =~= expected.required_directories);
        assert(rules@.required_files =~= expected.required_files);
        assert(rules@.file_content_checks =~= expected.file_content_checks);
    }
    rules
}

} // verus!
