use crate::edit::{
    capitalize, capitalized, insert_at, inserted, replace_all, replaced, rfind_in, rfind_text,
    split, split_text,
};
use crate::text::{
    chars_of, concat, concat_map, contains_text, find_from, find_in, find_text, push_each,
    text_contains, texts, views,
};
use vstd::prelude::*;
use vstd::string::*;

verus! {

/// The line that imports the file `file` of a feature.
pub open spec fn import_line(feature_name: Seq<char>, file: Seq<char>) -> Seq<char> {
    "import 'features/"@ + feature_name + "/"@ + file + "';"@
}

/// `content` with the import line added behind the last import, on a line of its own.
/// Nothing changes where the line is there already, or where `content` has no import
/// that ends with a `;`.
pub open spec fn with_import(content: Seq<char>, line: Seq<char>) -> Seq<char> {
    if contains_text(content, line) {
        content
    } else {
        match rfind_text(content, "import "@) {
            Some(pos) => match find_from(content, ";"@, pos) {
                Some(end) => inserted(content, end + 1, "\n"@ + line),
                None => content,
            },
            None => content,
        }
    }
}

/// The entry of a feature's routes in the list of routes.
pub open spec fn route_entry(feature_name: Seq<char>, pascal_name: Seq<char>) -> Seq<char> {
    "\n      // "@ + pascal_name + " Routes\n      ..."@ + feature_name + "Routes,"@
}

/// The router of a project with the routes of a feature: the import of the feature's
/// router, and its routes at the head of the list of routes, where there is one.
pub open spec fn router_with_feature(
    content: Seq<char>,
    feature_name: Seq<char>,
    pascal_name: Seq<char>,
) -> Seq<char> {
    let imported = with_import(content, import_line(feature_name, "router.dart"@));
    match find_text(imported, "routes: ["@) {
        Some(pos) => inserted(
            imported,
            pos + "routes: ["@.len(),
            route_entry(feature_name, pascal_name),
        ),
        None => imported,
    }
}

/// The name of the function that registers the dependencies of a feature: `register`,
/// the words of the feature's name, each with its first character in upper case,
/// and `Dependencies`.
pub open spec fn capitalized_words(feature_name: Seq<char>) -> Seq<char> {
    concat_map(split_text(feature_name, '_'), |word: Seq<char>| capitalized(word))
}

/// The call that registers the dependencies of a feature.
pub open spec fn di_entry(feature_name: Seq<char>) -> Seq<char> {
    "\n  // Register "@ + replaced(feature_name, "_"@, " "@) + " dependencies\n  register"@
        + capitalized_words(feature_name) + "Dependencies();"@
}

/// The injection file of a project with the dependencies of a feature: the import of
/// the feature's injection file, and the call that registers its dependencies at the
/// head of the body of the set-up function, where there is one.
pub open spec fn di_with_feature(content: Seq<char>, feature_name: Seq<char>) -> Seq<char> {
    let imported = with_import(content, import_line(feature_name, "di.dart"@));
    match find_text(imported, "void setupDependencyInjection()"@) {
        Some(setup) => match find_from(imported, "{"@, setup) {
            Some(brace) => inserted(imported, brace + 1, di_entry(feature_name)),
            None => imported,
        },
        None => imported,
    }
}

/// The line that imports the file `file` of a feature.
fn import_line_of(feature_name: &str, file: &str) -> (r: String)
    ensures
        r@ == import_line(feature_name@, file@),
{
    let mut r = "import 'features/".to_owned();
    r.append(feature_name);
    r.append("/");
    r.append(file);
    r.append("';");
    r
}

/// `content` with the import line added behind the last import.
fn add_import(content: &str, line: &str) -> (r: String)
    ensures
        r@ == with_import(content@, line@),
{
    if text_contains(content, line) {
        return content.to_owned();
    }
    let chars = chars_of(content);
    let import = chars_of("import ");
    let semicolon = chars_of(";");
    match rfind_in(&chars, &import) {
        Some(pos) => match find_in(&chars, &semicolon, pos) {
            Some(end) => {
                proof {
                    reveal_strlit(";");
                }
                insert_at(&chars, end + 1, concat("\n", line).as_str())
            },
            None => content.to_owned(),
        },
        None => content.to_owned(),
    }
}

/// The router of a project with the routes of a feature, and whether the list of
/// routes was found. Where it was not, the routes are left to be added by hand.
pub fn update_main_router(content: &str, feature_name: &str, pascal_name: &str) -> (r: (
    String,
    bool,
))
    ensures
        r.0@ == router_with_feature(content@, feature_name@, pascal_name@),
        r.1 == find_text(
            with_import(content@, import_line(feature_name@, "router.dart"@)),
            "routes: ["@,
        ) is Some,
{
    let line = import_line_of(feature_name, "router.dart");
    let imported = add_import(content, line.as_str());
    let chars = chars_of(imported.as_str());
    let routes = chars_of("routes: [");
    match find_in(&chars, &routes, 0) {
        Some(pos) => {
            let mut entry = "\n      // ".to_owned();
            entry.append(pascal_name);
            entry.append(" Routes\n      ...");
            entry.append(feature_name);
            entry.append("Routes,");
            (insert_at(&chars, pos + routes.len(), entry.as_str()), true)
        },
        None => (imported, false),
    }
}

/// The name of a feature with the first character of each of its words in upper case.
fn capitalized_words_of(feature_name: &str) -> (r: String)
    ensures
        r@ == capitalized_words(feature_name@),
{
    let words = split(feature_name, '_');
    let mut r = String::new();
    assert(views(words@) =~= texts(words@));
    push_each(&mut r, &words, capitalize_word, Ghost(|word: Seq<char>| capitalized(word)));
    assert(r@ =~= capitalized_words(feature_name@));
    r
}

/// A word with its first character in upper case.
fn capitalize_word(word: &String) -> (r: String)
    ensures
        r@ == capitalized(word@),
{
    capitalize(word.as_str())
}

/// The injection file of a project with the dependencies of a feature, and whether
/// the set-up function was found. Where it was not, the call is left to be added by
/// hand.
pub fn update_main_di(content: &str, feature_name: &str) -> (r: (String, bool))
    ensures
        r.0@ == di_with_feature(content@, feature_name@),
        r.1 == find_text(
            with_import(content@, import_line(feature_name@, "di.dart"@)),
            "void setupDependencyInjection()"@,
        ) is Some,
{
    let line = import_line_of(feature_name, "di.dart");
    let imported = add_import(content, line.as_str());
    let chars = chars_of(imported.as_str());
    let setup_pattern = chars_of("void setupDependencyInjection()");
    let brace_pattern = chars_of("{");
    match find_in(&chars, &setup_pattern, 0) {
        Some(setup) => match find_in(&chars, &brace_pattern, setup) {
            Some(brace) => {
                proof {
                    reveal_strlit("{");
                }
                let spaced = replace_all(feature_name, "_", " ");
                let words = capitalized_words_of(feature_name);
                let mut entry = "\n  // Register ".to_owned();
                entry.append(spaced.as_str());
                entry.append(" dependencies\n  register");
                entry.append(words.as_str());
                entry.append("Dependencies();");
                (insert_at(&chars, brace + 1, entry.as_str()), true)
            },
            None => (imported, true),
        },
        None => (imported, false),
    }
}

} // verus!
