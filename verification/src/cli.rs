use crate::features::{FeatureParams, FeatureParamsView};
use crate::text::{chars_of, contains_text, text_contains, text_eq};
use vstd::prelude::*;
use vstd::string::*;

verus! {

/// Whether `char::is_whitespace` holds of a character.
pub uninterp spec fn is_white_space(c: char) -> bool;

/// `char::is_whitespace` says whether the character has the Unicode property
/// `White_Space`; it reads nothing but its argument, so its result is named
/// `is_white_space(c)`.
pub assume_specification[ char::is_whitespace ](c: char) -> (r: bool)
    ensures
        r == is_white_space(c),
;

/// Some character of the text is white space.
pub open spec fn has_white_space(s: Seq<char>) -> bool {
    exists|i: int| 0 <= i < s.len() && is_white_space(s[i])
}

/// Why a text cannot be the name of a project, if it cannot: it is empty, or it
/// holds white space.
pub open spec fn project_name_error(input: Seq<char>) -> Option<Seq<char>> {
    if input.len() == 0 {
        Some("Project name cannot be empty"@)
    } else if has_white_space(input) {
        Some("Project name cannot contain spaces"@)
    } else {
        None
    }
}

/// The feature generators with a plan of their own.
#[derive(Clone, Copy, Debug, PartialEq, Eq)]
pub enum FeatureKind {
    Auth,
    Notifications,
    MainPage,
    /// Any other feature, which is made from the general templates.
    General,
}

/// The generator that makes the feature called `name`.
pub open spec fn kind_of_feature(name: Seq<char>) -> FeatureKind {
    if name == "authentication"@ || name == "auth"@ {
        FeatureKind::Auth
    } else if name == "notifications"@ || name == "notification"@ {
        FeatureKind::Notifications
    } else if name == "main_page"@ || name == "home"@ {
        FeatureKind::MainPage
    } else {
        FeatureKind::General
    }
}

/// The switches that turn parts of a feature off.
pub struct FeatureSwitches {
    pub no_state: bool,
    pub no_repository: bool,
    pub no_models: bool,
    pub no_pages: bool,
    pub no_services: bool,
    pub no_utils: bool,
    pub no_routing: bool,
    pub no_di: bool,
}

/// `index` is one of the chosen positions.
pub open spec fn is_chosen(selections: Seq<usize>, index: usize) -> bool {
    exists|i: int| 0 <= i < selections.len() && selections[i] == index
}

/// The parameters of a feature with every part: a part stays where it was chosen
/// from the list of parts, by its position there, and no switch turns it off.
pub open spec fn chosen_params(
    name: Seq<char>,
    selections: Seq<usize>,
    off: FeatureSwitches,
) -> FeatureParamsView {
    FeatureParamsView {
        name,
        has_state_management: is_chosen(selections, 0) && !off.no_state,
        has_repository: is_chosen(selections, 1) && !off.no_repository,
        has_models: is_chosen(selections, 2) && !off.no_models,
        has_pages: is_chosen(selections, 3) && !off.no_pages,
        has_services: is_chosen(selections, 4) && !off.no_services,
        has_utils: is_chosen(selections, 5) && !off.no_utils,
        needs_routing: is_chosen(selections, 6) && !off.no_routing,
        needs_di: is_chosen(selections, 7) && !off.no_di,
    }
}

/// The parameters of a minimal feature: a part stays where the minimal feature has it
/// and no switch turns it off.
pub open spec fn minimal_params(name: Seq<char>, off: FeatureSwitches) -> FeatureParamsView {
    FeatureParamsView {
        name,
        has_state_management: false,
        has_repository: false,
        has_models: false,
        has_pages: !off.no_pages,
        has_services: false,
        has_utils: false,
        needs_routing: !off.no_routing,
        needs_di: false,
    }
}

/// Whether a text can be the name of a project; the error says why it cannot.
pub fn validate_project_name(input: &str) -> (r: Result<(), String>)
    ensures
        match r {
            Ok(_) => project_name_error(input@) is None,
            Err(e) => project_name_error(input@) == Some(e@),
        },
{
    let chars = chars_of(input);
    if chars.len() == 0 {
        return Err("Project name cannot be empty".to_owned());
    }
    let mut i: usize = 0;
    while i < chars.len()
        invariant
            i <= chars.len(),
            chars@ == input@,
            forall|j: int| 0 <= j < i ==> !is_white_space(chars@[j]),
        decreases chars.len() - i,
    {
        if chars[i].is_whitespace() {
            return Err("Project name cannot contain spaces".to_owned());
        }
        i += 1;
    }
    Ok(())
}

/// Whether a text can be the name of a package: it must hold a dot.
pub fn validate_package_name(input: &str) -> (r: Result<(), String>)
    ensures
        r is Ok <==> contains_text(input@, "."@),
        r is Err ==> r->Err_0@ == "Package name should follow format: com.example.app"@,
{
    if text_contains(input, ".") {
        Ok(())
    } else {
        Err("Package name should follow format: com.example.app".to_owned())
    }
}

/// Whether a text can be the name of a feature: it must not be empty.
pub fn validate_feature_name(input: &str) -> (r: Result<(), String>)
    ensures
        r is Ok <==> input@.len() > 0,
        r is Err ==> r->Err_0@ == "Feature name cannot be empty"@,
{
    if input.unicode_len() > 0 {
        Ok(())
    } else {
        Err("Feature name cannot be empty".to_owned())
    }
}

/// The generator that makes the feature called `name`.
pub fn feature_kind(name: &str) -> (kind: FeatureKind)
    ensures
        kind == kind_of_feature(name@),
{
    if text_eq(name, "authentication") || text_eq(name, "auth") {
        FeatureKind::Auth
    } else if text_eq(name, "notifications") || text_eq(name, "notification") {
        FeatureKind::Notifications
    } else if text_eq(name, "main_page") || text_eq(name, "home") {
        FeatureKind::MainPage
    } else {
        FeatureKind::General
    }
}

/// `index` is one of the chosen positions.
fn chosen(selections: &Vec<usize>, index: usize) -> (r: bool)
    ensures
        r == is_chosen(selections@, index),
{
    let mut i: usize = 0;
    while i < selections.len()
        invariant
            i <= selections.len(),
            forall|j: int| 0 <= j < i ==> selections@[j] != index,
        decreases selections.len() - i,
    {
        if selections[i] == index {
            return true;
        }
        i += 1;
    }
    false
}

/// The parameters of a feature with every part, after the parts were chosen from the
/// list of parts and the switches were applied.
pub fn select_components(name: &str, selections: &Vec<usize>, off: &FeatureSwitches) -> (params:
    FeatureParams)
    ensures
        params@ == chosen_params(name@, selections@, *off),
{
    let mut params = FeatureParams::new(name);
    params.has_state_management = chosen(selections, 0) && !off.no_state;
    params.has_repository = chosen(selections, 1) && !off.no_repository;
    params.has_models = chosen(selections, 2) && !off.no_models;
    params.has_pages = chosen(selections, 3) && !off.no_pages;
    params.has_services = chosen(selections, 4) && !off.no_services;
    params.has_utils = chosen(selections, 5) && !off.no_utils;
    params.needs_routing = chosen(selections, 6) && !off.no_routing;
    params.needs_di = chosen(selections, 7) && !off.no_di;
    params
}

/// The parameters of a minimal feature, after the switches were applied.
pub fn minimal_components(name: &str, off: &FeatureSwitches) -> (params: FeatureParams)
    ensures
        params@ == minimal_params(name@, *off),
{
    let mut params = FeatureParams::minimal(name);
    if off.no_state {
        params.has_state_management = false;
    }
    if off.no_repository {
        params.has_repository = false;
    }
    if off.no_models {
        params.has_models = false;
    }
    if off.no_pages {
        params.has_pages = false;
    }
    if off.no_services {
        params.has_services = false;
    }
    if off.no_utils {
        params.has_utils = false;
    }
    if off.no_routing {
        params.needs_routing = false;
    }
    if off.no_di {
        params.needs_di = false;
    }
    params
}

} // verus!
