//! A scaffolding generator for mobile applications. Its core compiles an API document
//! into source models: it groups the operations of the document into domains, resolves
//! the schemas, and emits for each domain the models, the entities and the data-access
//! layer as text. Around the core it plans the scaffolding of projects and features and
//! checks a project tree against rules. Every function here computes on plain values:
//! what touches the disk, the network or the screen is planned here and done elsewhere.

pub mod casing;
pub mod cli;
pub mod datasources;
pub mod document;
pub mod domains;
pub mod edit;
pub mod features;
pub mod generator;
pub mod models;
pub mod plan;
pub mod schemas;
pub mod swagger;
pub mod templates;
pub mod text;
pub mod validation;
