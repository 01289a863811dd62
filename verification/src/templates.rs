use crate::edit::{replace_all, replaced};
use crate::plan::pair_views;
use crate::text::{join_path, joined_path, texts};
use vstd::prelude::*;
use vstd::string::*;

verus! {

/// How a template writes the placeholder called `name`.
pub open spec fn placeholder_tag(name: Seq<char>) -> Seq<char> {
    "{{ "@ + name + " }}"@
}

/// The text of a template with the value of each placeholder in the place of every
/// occurrence of the placeholder; the placeholders are filled in one after the
/// other, in the order of the list.
pub open spec fn filled(content: Seq<char>, replacements: Seq<(Seq<char>, Seq<char>)>) -> Seq<char>
    decreases replacements.len(),
{
    if replacements.len() == 0 {
        content
    } else {
        replaced(
            filled(content, replacements.drop_last()),
            placeholder_tag(replacements.last().0),
            replacements.last().1,
        )
    }
}

/// Where the templates are looked for when they are not beside the program, in the
/// order in which the places are tried.
pub open spec fn template_places() -> Seq<Seq<char>> {
    seq!["templates"@, "flutter_lazy/templates"@, "./templates"@, "../templates"@]
}

/// The paths at which the template `template_path` is looked for, in order.
pub open spec fn candidate_paths(template_path: Seq<char>) -> Seq<Seq<char>> {
    template_places().map_values(|place: Seq<char>| joined_path(place, template_path))
}

/// The text of a template with the value of each placeholder in its place. A
/// placeholder stands in a template between `{{ ` and ` }}`.
pub fn copy_template_file(template_content: &str, replacements: &Vec<(String, String)>) -> (r:
    String)
    ensures
        r@ == filled(template_content@, pair_views(replacements@)),
{
    let ghost all = pair_views(replacements@);
    let mut r = template_content.to_owned();
    let mut i: usize = 0;
    assert(all.take(0) =~= Seq::<(Seq<char>, Seq<char>)>::empty());
    while i < replacements.len()
        invariant
            i <= replacements.len(),
            all == pair_views(replacements@),
            r@ == filled(template_content@, all.take(i as int)),
        decreases replacements.len() - i,
    {
        let mut tag = "{{ ".to_owned();
        tag.append(replacements[i].0.as_str());
        tag.append(" }}");
        proof {
            let next = all.take(i + 1);
            assert(next.drop_last() =~= all.take(i as int));
            assert(next.last() == (replacements@[i as int].0@, replacements@[i as int].1@));
        }
        r = replace_all(r.as_str(), tag.as_str(), replacements[i].1.as_str());
        i += 1;
    }
    assert(all.take(replacements.len() as int) =~= all);
    r
}

/// The paths at which a template is looked for when it is not beside the program, in
/// the order in which they are tried.
pub fn template_candidates(template_path: &str) -> (paths: Vec<String>)
    ensures
        texts(paths@) == candidate_paths(template_path@),
{
    let mut paths: Vec<String> = Vec::new();
    paths.push(join_path("templates", template_path));
    paths.push(join_path("flutter_lazy/templates", template_path));
    paths.push(join_path("./templates", template_path));
    paths.push(join_path("../templates", template_path));
    assert(texts(paths@) =~= candidate_paths(template_path@));
    paths
}

/// Where a directory of templates is looked for when it is not beside the program.
pub fn copy_template_dir(template_subpath: &str) -> (path: String)
    ensures
        path@ == joined_path("flutter_lazy/templates"@, template_subpath@),
{
    join_path("flutter_lazy/templates", template_subpath)
}

} // verus!
