pub mod auth;
pub mod integration;
pub mod main_page;
pub mod notifications;
pub mod scaffold;

pub use integration::{update_main_di, update_main_router};
pub use scaffold::{create_feature, generate_feature_files};

use crate::text::text_eq;
use vstd::prelude::*;

verus! {


/// The switches that decide which parts of a feature are scaffolded.
pub struct FeatureParams {
    pub name: String,
    pub has_state_management: bool,
    pub has_repository: bool,
    pub has_models: bool,
    pub has_pages: bool,
    pub has_services: bool,
    pub has_utils: bool,
    pub needs_routing: bool,
    pub needs_di: bool,
}

/// The switches of a feature, with its name as a text.
pub ghost struct FeatureParamsView {
    pub name: Seq<char>,
    pub has_state_management: bool,
    pub has_repository: bool,
    pub has_models: bool,
    pub has_pages: bool,
    pub has_services: bool,
    pub has_utils: bool,
    pub needs_routing: bool,
    pub needs_di: bool,
}

impl View for FeatureParams {
    type V = FeatureParamsView;

    open spec fn view(&self) -> FeatureParamsView {
        FeatureParamsView {
            name: self.name@,
            has_state_management: self.has_state_management,
            has_repository: self.has_repository,
            has_models: self.has_models,
            has_pages: self.has_pages,
            has_services: self.has_services,
            has_utils: self.has_utils,
            needs_routing: self.needs_routing,
            needs_di: self.needs_di,
        }
    }
}

/// A feature with every part.
pub open spec fn full_feature(name: Seq<char>) -> FeatureParamsView {
    FeatureParamsView {
        name,
        has_state_management: true,
        has_repository: true,
        has_models: true,
        has_pages: true,
        has_services: true,
        has_utils: true,
        needs_routing: true,
        needs_di: true,
    }
}

/// A feature of pages and routing alone, with or without dependency injection.
pub open spec fn page_feature(name: Seq<char>, needs_di: bool) -> FeatureParamsView {
    FeatureParamsView {
        name,
        has_state_management: false,
        has_repository: false,
        has_models: false,
        has_pages: true,
        has_services: false,
        has_utils: false,
        needs_routing: true,
        needs_di,
    }
}

impl FeatureParams {
    /// A feature with every part.
    pub fn new(name: &str) -> (params: FeatureParams)
        ensures
            params@ == full_feature(name@),
    {
        FeatureParams {
            name: name.to_owned(),
            has_state_management: true,
            has_repository: true,
            has_models: true,
            has_pages: true,
            has_services: true,
            has_utils: true,
            needs_routing: true,
            needs_di: true,
        }
    }

    /// A feature of pages and routing alone.
    pub fn minimal(name: &str) -> (params: FeatureParams)
        ensures
            params@ == page_feature(name@, false),
    {
        FeatureParams {
            name: name.to_owned(),
            has_state_management: false,
            has_repository: false,
            has_models: false,
            has_pages: true,
            has_services: false,
            has_utils: false,
            needs_routing: true,
            needs_di: false,
        }
    }

    /// A feature of pages, routing and dependency injection.
    pub fn ui_only(name: &str) -> (params: FeatureParams)
        ensures
            params@ == page_feature(name@, true),
    {
        FeatureParams {
            name: name.to_owned(),
            has_state_management: false,
            has_repository: false,
            has_models: false,
            has_pages: true,
            has_services: false,
            has_utils: false,
            needs_routing: true,
            needs_di: true,
        }
    }

    /// A feature with every part, but without the generic state management where the
    /// state type is `bloc`, which is set up apart.
    pub fn with_state_type(name: &str, state_type: &str) -> (params: FeatureParams)
        ensures
            params@ == (FeatureParamsView {
                has_state_management: state_type@ != "bloc"@,
                ..full_feature(name@)
            }),
    {
        let mut params = FeatureParams::new(name);
        if text_eq(state_type, "bloc") {
            params.has_state_management = false;
        }
        params
    }
}

} // verus!
