use crate::casing::{case_text, to_case, CaseStyle};
use crate::datasources::{
    generate_local_datasource, generate_remote_datasource, generate_repository,
    local_datasource_text, remote_datasource_text, repository_text,
};
use crate::document::SwaggerSpec;
use crate::domains::{domains_of, extract_domains, Domain, DomainView, Endpoint, EndpointView};
use crate::features::{full_feature, FeatureParams, FeatureParamsView};
use crate::models::{
    entity_class_text, entity_name_of, generate_entity_class, generate_model_class,
    model_class_text,
};
use crate::schemas::{extract_schemas, merged_schemas, SchemaInfoView, SchemaTable};
use crate::text::{concat, has_text, join_path, joined_path, list_has, strip_suffix, texts, views};
use vstd::prelude::*;
use vstd::string::*;

verus! {

/// Where an API document comes from.
pub enum SwaggerSource {
    /// The address to fetch it from.
    Url(String),
    /// The path of a local file.
    File(String),
}

impl Clone for SwaggerSource {
    fn clone(&self) -> (r: Self)
        ensures
            r == *self,
    {
        match self {
            SwaggerSource::Url(url) => SwaggerSource::Url(url.clone()),
            SwaggerSource::File(path) => SwaggerSource::File(path.clone()),
        }
    }
}

/// Why an API document could not be loaded.
pub enum LoadError {
    /// The transport failed before a response came.
    Network(String),
    /// The server answered with a status that is no success.
    Http(u16),
    /// The text is no JSON document of the expected shape.
    Json(String),
}

/// What the loader makes of the status of a response: a status from 200 to 299 is a
/// success, any other the error `Http` with that status.
pub fn check_status(status: u16) -> (r: Result<(), LoadError>)
    ensures
        200 <= status < 300 ==> r is Ok,
        !(200 <= status < 300) ==> r == Err::<(), LoadError>(LoadError::Http(status)),
{
    if 200 <= status && status < 300 {
        Ok(())
    } else {
        Err(LoadError::Http(status))
    }
}

/// A file to write: where, and what.
pub struct GeneratedFile {
    pub path: String,
    pub content: String,
}

/// A file to write, as texts.
pub ghost struct FileView {
    pub path: Seq<char>,
    pub content: Seq<char>,
}

impl View for GeneratedFile {
    type V = FileView;

    open spec fn view(&self) -> FileView {
        FileView { path: self.path@, content: self.content@ }
    }
}

/// What one step of the generation leaves to do on disk: the directories to make, the
/// files to write, and the response types that were passed over because the schema
/// table holds no schema of their name.
pub struct DomainArtifacts {
    pub directories: Vec<String>,
    pub files: Vec<GeneratedFile>,
    pub skipped: Vec<String>,
}

/// The directories, files and skipped types of one step, as texts.
pub ghost struct ArtifactsView {
    pub directories: Seq<Seq<char>>,
    pub files: Seq<FileView>,
    pub skipped: Seq<Seq<char>>,
}

impl View for DomainArtifacts {
    type V = ArtifactsView;

    open spec fn view(&self) -> ArtifactsView {
        ArtifactsView {
            directories: texts(self.directories@),
            files: views(self.files@),
            skipped: texts(self.skipped@),
        }
    }
}

/// The response types that the endpoints name, each once, in the order of their
/// first mention.
pub open spec fn response_types(endpoints: Seq<EndpointView>) -> Seq<Seq<char>>
    decreases endpoints.len(),
{
    if endpoints.len() == 0 {
        Seq::empty()
    } else {
        let rest = response_types(endpoints.drop_last());
        match endpoints.last().response_type {
            Some(t) => if has_text(rest, t) {
                rest
            } else {
                rest.push(t)
            },
            None => rest,
        }
    }
}

/// The directory of a feature.
pub open spec fn feature_dir(project_dir: Seq<char>, feature_name: Seq<char>) -> Seq<char> {
    joined_path(joined_path(project_dir, "lib/features"@), feature_name)
}

/// The directory of the models of a feature.
pub open spec fn models_dir(project_dir: Seq<char>, feature_name: Seq<char>) -> Seq<char> {
    joined_path(feature_dir(project_dir, feature_name), "data/models"@)
}

/// The directory of the entities of a feature, which lies apart from the feature's
/// data layer.
pub open spec fn entities_dir(project_dir: Seq<char>, feature_name: Seq<char>) -> Seq<char> {
    joined_path(joined_path(project_dir, "lib/core/entities"@), feature_name)
}

/// The file of the model of the schema that stands in the table under `model_name`.
pub open spec fn model_file(
    project_dir: Seq<char>,
    feature_name: Seq<char>,
    model_name: Seq<char>,
    schema: SchemaInfoView,
) -> FileView {
    let path = joined_path(
        models_dir(project_dir, feature_name),
        case_text(model_name, CaseStyle::Snake) + "_model.dart"@,
    );
    FileView { path, content: model_class_text(path, schema) }
}

/// The file of the entity of the schema that stands in the table under `model_name`.
pub open spec fn entity_file(
    project_dir: Seq<char>,
    feature_name: Seq<char>,
    model_name: Seq<char>,
    schema: SchemaInfoView,
) -> FileView {
    let entity_name = entity_name_of(model_name);
    FileView {
        path: joined_path(
            entities_dir(project_dir, feature_name),
            case_text(entity_name, CaseStyle::Snake) + ".dart"@,
        ),
        content: entity_class_text(schema, entity_name),
    }
}

/// The files for a list of response types: for each that the table holds, the model
/// and then the entity; for one that it does not hold, nothing.
pub open spec fn model_files(
    project_dir: Seq<char>,
    feature_name: Seq<char>,
    names: Seq<Seq<char>>,
    table: Map<Seq<char>, SchemaInfoView>,
) -> Seq<FileView>
    decreases names.len(),
{
    if names.len() == 0 {
        Seq::empty()
    } else {
        let rest = model_files(project_dir, feature_name, names.drop_last(), table);
        let name = names.last();
        if table.contains_key(name) {
            rest.push(model_file(project_dir, feature_name, name, table[name])).push(
                entity_file(project_dir, feature_name, name, table[name]),
            )
        } else {
            rest
        }
    }
}

/// The response types that the table holds no schema for, in order.
pub open spec fn missing_types(names: Seq<Seq<char>>, table: Map<Seq<char>, SchemaInfoView>) -> Seq<
    Seq<char>,
>
    decreases names.len(),
{
    if names.len() == 0 {
        Seq::empty()
    } else {
        let rest = missing_types(names.drop_last(), table);
        if table.contains_key(names.last()) {
            rest
        } else {
            rest.push(names.last())
        }
    }
}

/// The models and entities of a domain.
pub open spec fn domain_models(
    project_dir: Seq<char>,
    feature_name: Seq<char>,
    domain: DomainView,
    table: Map<Seq<char>, SchemaInfoView>,
) -> ArtifactsView {
    let names = response_types(domain.endpoints);
    ArtifactsView {
        directories: seq![
            models_dir(project_dir, feature_name),
            entities_dir(project_dir, feature_name),
        ],
        files: model_files(project_dir, feature_name, names, table),
        skipped: missing_types(names, table),
    }
}

/// The directory of the repository of a feature.
pub open spec fn repository_dir(project_dir: Seq<char>, feature_name: Seq<char>) -> Seq<char> {
    joined_path(feature_dir(project_dir, feature_name), "data/repository"@)
}

/// The directory of the datasources of a feature.
pub open spec fn datasources_dir(project_dir: Seq<char>, feature_name: Seq<char>) -> Seq<char> {
    joined_path(feature_dir(project_dir, feature_name), "data/datasources"@)
}

/// The remote datasource, the local datasource and the repository of a domain.
pub open spec fn domain_datasources(
    project_dir: Seq<char>,
    feature_name: Seq<char>,
    domain: DomainView,
) -> ArtifactsView {
    let sources = datasources_dir(project_dir, feature_name);
    ArtifactsView {
        directories: seq![repository_dir(project_dir, feature_name), sources],
        files: seq![
            FileView {
                path: joined_path(sources, feature_name + "_remote_datasource.dart"@),
                content: remote_datasource_text(feature_name, domain.endpoints),
            },
            FileView {
                path: joined_path(sources, feature_name + "_local_datasource.dart"@),
                content: local_datasource_text(feature_name),
            },
            FileView {
                path: joined_path(
                    repository_dir(project_dir, feature_name),
                    feature_name + "_repository.dart"@,
                ),
                content: repository_text(feature_name, domain.endpoints),
            },
        ],
        skipped: Seq::empty(),
    }
}

/// The response types that the endpoints of a domain name, each once.
fn response_types_of(endpoints: &Vec<Endpoint>) -> (names: Vec<String>)
    ensures
        texts(names@) == response_types(views(endpoints@)),
{
    let ghost all = views(endpoints@);
    let mut names: Vec<String> = Vec::new();
    let mut i: usize = 0;
    assert(all.take(0) =~= Seq::<EndpointView>::empty());
    assert(texts(names@) =~= Seq::<Seq<char>>::empty());
    while i < endpoints.len()
        invariant
            i <= endpoints.len(),
            all == views(endpoints@),
            texts(names@) == response_types(all.take(i as int)),
        decreases endpoints.len() - i,
    {
        let ghost before = texts(names@);
        proof {
            let next = all.take(i + 1);
            assert(next.drop_last() =~= all.take(i as int));
            assert(next.last() == endpoints@[i as int]@);
        }
        match &endpoints[i].response_type {
            Some(t) => {
                if !list_has(&names, t.as_str()) {
                    names.push(t.clone());
                    assert(texts(names@) =~= before.push(t@));
                }
            },
            None => {},
        }
        i += 1;
    }
    assert(all.take(endpoints.len() as int) =~= all);
    names
}

/// The directory of a feature.
fn feature_dir_of(project_dir: &str, feature_name: &str) -> (r: String)
    ensures
        r@ == feature_dir(project_dir@, feature_name@),
{
    let features = join_path(project_dir, "lib/features");
    join_path(features.as_str(), feature_name)
}

/// The models and entities of a domain: for every response type of its endpoints that
/// the schema table holds, the file of the model and the file of the entity. A
/// response type that the table does not hold is passed over and listed as skipped;
/// the other types are not touched by it.
pub fn generate_domain_models(
    project_dir: &str,
    feature_name: &str,
    domain: &Domain,
    schemas: &SchemaTable,
) -> (artifacts: DomainArtifacts)
    ensures
        artifacts@ == domain_models(project_dir@, feature_name@, domain@, schemas@),
{
    let feature = feature_dir_of(project_dir, feature_name);
    let models = join_path(feature.as_str(), "data/models");
    let core = join_path(project_dir, "lib/core/entities");
    let entities = join_path(core.as_str(), feature_name);
    let names = response_types_of(&domain.endpoints);
    let ghost all = texts(names@);
    let mut files: Vec<GeneratedFile> = Vec::new();
    let mut skipped: Vec<String> = Vec::new();
    let mut i: usize = 0;
    assert(all.take(0) =~= Seq::<Seq<char>>::empty());
    assert(views(files@) =~= Seq::<FileView>::empty());
    assert(texts(skipped@) =~= Seq::<Seq<char>>::empty());
    while i < names.len()
        invariant
            i <= names.len(),
            all == texts(names@),
            models@ == models_dir(project_dir@, feature_name@),
            entities@ == entities_dir(project_dir@, feature_name@),
            views(files@) == model_files(
                project_dir@,
                feature_name@,
                all.take(i as int),
                schemas@,
            ),
            texts(skipped@) == missing_types(all.take(i as int), schemas@),
        decreases names.len() - i,
    {
        let model_name = &names[i];
        let ghost files_before = views(files@);
        let ghost skipped_before = texts(skipped@);
        proof {
            let next = all.take(i + 1);
            assert(next.drop_last() =~= all.take(i as int));
            assert(next.last() == model_name@);
        }
        match schemas.get(model_name.as_str()) {
            Some(schema) => {
                let model_stem = to_case(model_name.as_str(), CaseStyle::Snake);
                let model_path = join_path(
                    models.as_str(),
                    concat(model_stem.as_str(), "_model.dart").as_str(),
                );
                let model_content = generate_model_class(model_path.as_str(), schema);
                let entity_name = strip_suffix(model_name.as_str(), "Model");
                let entity_stem = to_case(entity_name.as_str(), CaseStyle::Snake);
                let entity_path = join_path(
                    entities.as_str(),
                    concat(entity_stem.as_str(), ".dart").as_str(),
                );
                let entity_content = generate_entity_class(schema, entity_name.as_str());
                let model = GeneratedFile { path: model_path, content: model_content };
                let entity = GeneratedFile { path: entity_path, content: entity_content };
                assert(model@ == model_file(
                    project_dir@,
                    feature_name@,
                    model_name@,
                    schemas@[model_name@],
                ));
                assert(entity@ == entity_file(
                    project_dir@,
                    feature_name@,
                    model_name@,
                    schemas@[model_name@],
                ));
                files.push(model);
                files.push(entity);
                assert(views(files@) =~= files_before.push(model@).push(entity@));
            },
            None => {
                skipped.push(model_name.clone());
                assert(texts(skipped@) =~= skipped_before.push(model_name@));
            },
        }
        i += 1;
    }
    assert(all.take(names.len() as int) =~= all);
    let mut directories: Vec<String> = Vec::new();
    directories.push(models);
    directories.push(entities);
    let artifacts = DomainArtifacts { directories, files, skipped };
    assert(artifacts@.directories =~= domain_models(
        project_dir@,
        feature_name@,
        domain@,
        schemas@,
    ).directories);
    artifacts
}

/// The data-access layer of a domain: the files of the remote datasource, of the
/// local datasource and of the repository, in this order.
pub fn generate_domain_datasources(project_dir: &str, feature_name: &str, domain: &Domain) -> (artifacts:
    DomainArtifacts)
    ensures
        artifacts@ == domain_datasources(project_dir@, feature_name@, domain@),
{
    let feature = feature_dir_of(project_dir, feature_name);
    let repo_dir = join_path(feature.as_str(), "data/repository");
    let datasource_dir = join_path(feature.as_str(), "data/datasources");
    let remote = GeneratedFile {
        path: join_path(
            datasource_dir.as_str(),
            concat(feature_name, "_remote_datasource.dart").as_str(),
        ),
        content: generate_remote_datasource(feature_name, domain),
    };
    let local = GeneratedFile {
        path: join_path(
            datasource_dir.as_str(),
            concat(feature_name, "_local_datasource.dart").as_str(),
        ),
        content: generate_local_datasource(feature_name, domain),
    };
    let repository = GeneratedFile {
        path: join_path(repo_dir.as_str(), concat(feature_name, "_repository.dart").as_str()),
        content: generate_repository(feature_name, domain),
    };
    let mut files: Vec<GeneratedFile> = Vec::new();
    files.push(remote);
    files.push(local);
    files.push(repository);
    let mut directories: Vec<String> = Vec::new();
    directories.push(repo_dir);
    directories.push(datasource_dir);
    let artifacts = DomainArtifacts { directories, files, skipped: Vec::new() };
    proof {
        let expected = domain_datasources(project_dir@, feature_name@, domain@);
        assert(artifacts@.directories =~= expected.directories);
        assert(artifacts@.files =~= expected.files);
        assert(artifacts@.skipped =~= expected.skipped);
    }
    artifacts
}

/// What is to be generated for one domain: the feature to scaffold, then the models
/// and entities, then the data-access layer.
pub struct FeaturePlan {
    /// The name of the domain, as the document writes it.
    pub domain: String,
    /// The name of the feature: the domain's name in snake case.
    pub feature_name: String,
    pub params: FeatureParams,
    pub models: DomainArtifacts,
    pub datasources: DomainArtifacts,
}

/// The plan for one domain, as plain values.
pub ghost struct FeaturePlanView {
    pub domain: Seq<char>,
    pub feature_name: Seq<char>,
    pub params: FeatureParamsView,
    pub models: ArtifactsView,
    pub datasources: ArtifactsView,
}

impl View for FeaturePlan {
    type V = FeaturePlanView;

    open spec fn view(&self) -> FeaturePlanView {
        FeaturePlanView {
            domain: self.domain@,
            feature_name: self.feature_name@,
            params: self.params@,
            models: self.models@,
            datasources: self.datasources@,
        }
    }
}

/// The domain is to be generated: there is no filter, or the filter holds its name.
pub open spec fn is_selected(name: Seq<char>, filter: Option<Seq<Seq<char>>>) -> bool {
    match filter {
        Some(names) => has_text(names, name),
        None => true,
    }
}

/// The plan for one domain.
pub open spec fn api_feature_plan(
    project_dir: Seq<char>,
    domain: DomainView,
    table: Map<Seq<char>, SchemaInfoView>,
    data_only: bool,
) -> FeaturePlanView {
    let feature_name = case_text(domain.name, CaseStyle::Snake);
    FeaturePlanView {
        domain: domain.name,
        feature_name,
        params: FeatureParamsView { has_state_management: !data_only, ..full_feature(feature_name) },
        models: domain_models(project_dir, feature_name, domain, table),
        datasources: domain_datasources(project_dir, feature_name, domain),
    }
}

/// The plans for the selected domains among `domains`, in order.
pub open spec fn api_feature_plans(
    project_dir: Seq<char>,
    domains: Seq<DomainView>,
    table: Map<Seq<char>, SchemaInfoView>,
    filter: Option<Seq<Seq<char>>>,
    data_only: bool,
) -> Seq<FeaturePlanView>
    decreases domains.len(),
{
    if domains.len() == 0 {
        Seq::empty()
    } else {
        let rest = api_feature_plans(project_dir, domains.drop_last(), table, filter, data_only);
        if is_selected(domains.last().name, filter) {
            rest.push(api_feature_plan(project_dir, domains.last(), table, data_only))
        } else {
            rest
        }
    }
}

/// The view of an optional list of names.
pub open spec fn opt_texts(o: Option<Vec<String>>) -> Option<Seq<Seq<char>>> {
    match o {
        Some(v) => Some(texts(v@)),
        None => None,
    }
}

/// The domain is to be generated.
fn selected(name: &str, filter: &Option<Vec<String>>) -> (r: bool)
    ensures
        r == is_selected(name@, opt_texts(*filter)),
{
    match filter {
        Some(names) => list_has(names, name),
        None => true,
    }
}

/// What is to be generated from an API document under `project_dir`: one plan for each
/// domain of the document that the filter selects, made of the feature to scaffold
/// (without state management where `data_only` is set), the models and entities of
/// the domain's response types, and its data-access layer. Each plan depends on its
/// own domain and on the schema table alone.
pub fn generate_api_features(
    project_dir: &str,
    spec: &SwaggerSpec,
    domain_filter: Option<Vec<String>>,
    data_only: bool,
) -> (plans: Vec<FeaturePlan>)
    ensures
        views(plans@) == api_feature_plans(
            project_dir@,
            domains_of(spec@),
            merged_schemas(spec@),
            opt_texts(domain_filter),
            data_only,
        ),
{
    let domains = extract_domains(spec);
    let schemas = extract_schemas(spec);
    let ghost all = views(domains@);
    let ghost filter = opt_texts(domain_filter);
    let mut plans: Vec<FeaturePlan> = Vec::new();
    let mut i: usize = 0;
    assert(all =~= domains_of(spec@));
    assert(all.take(0) =~= Seq::<DomainView>::empty());
    assert(views(plans@) =~= Seq::<FeaturePlanView>::empty());
    while i < domains.len()
        invariant
            i <= domains.len(),
            all == views(domains@),
            filter == opt_texts(domain_filter),
            views(plans@) == api_feature_plans(
                project_dir@,
                all.take(i as int),
                schemas@,
                filter,
                data_only,
            ),
        decreases domains.len() - i,
    {
        let domain = &domains[i];
        let ghost before = views(plans@);
        proof {
            let next = all.take(i + 1);
            assert(next.drop_last() =~= all.take(i as int));
            assert(next.last() == domain@);
        }
        if selected(domain.name.as_str(), &domain_filter) {
            let feature_name = to_case(domain.name.as_str(), CaseStyle::Snake);
            let mut params = FeatureParams::new(feature_name.as_str());
            if data_only {
                params.has_state_management = false;
            }
            let models = generate_domain_models(
                project_dir,
                feature_name.as_str(),
                domain,
                &schemas,
            );
            let datasources = generate_domain_datasources(
                project_dir,
                feature_name.as_str(),
                domain,
            );
            let plan = FeaturePlan {
                domain: domain.name.clone(),
                feature_name,
                params,
                models,
                datasources,
            };
            assert(plan@ == api_feature_plan(project_dir@, domain@, schemas@, data_only));
            plans.push(plan);
            assert(views(plans@) =~= before.push(plan@));
        }
        i += 1;
    }
    assert(all.take(domains.len() as int) =~= all);
    plans
}

/// A response type without a schema in the table gives no file, and takes nothing
/// from the files of the other response types: with the type written at any place of
/// the list, the files are those of the list without it.
pub proof fn unresolved_type_emits_nothing(
    project_dir: Seq<char>,
    feature_name: Seq<char>,
    names: Seq<Seq<char>>,
    at: int,
    table: Map<Seq<char>, SchemaInfoView>,
)
    requires
        0 <= at < names.len(),
        !table.contains_key(names[at]),
    ensures
        model_files(project_dir, feature_name, names, table) == model_files(
            project_dir,
            feature_name,
            names.remove(at),
            table,
        ),
    decreases names.len(),
{
    let front = names.drop_last();
    if at == names.len() - 1 {
        assert(names.remove(at) =~= front);
    } else {
        unresolved_type_emits_nothing(project_dir, feature_name, front, at, table);
        assert(names.remove(at).drop_last() =~= front.remove(at));
        assert(names.remove(at).last() == names.last());
    }
}

/// Every response type that the table holds gives exactly two files, the model and
/// the entity; the files are as many as twice the types that it holds, and the
/// skipped types are the others.
pub proof fn resolved_types_emit_model_and_entity(
    project_dir: Seq<char>,
    feature_name: Seq<char>,
    names: Seq<Seq<char>>,
    table: Map<Seq<char>, SchemaInfoView>,
)
    ensures
        model_files(project_dir, feature_name, names, table).len() + 2 * missing_types(
            names,
            table,
        ).len() == 2 * names.len(),
        forall|k: int|
            0 <= k < missing_types(names, table).len() ==> !table.contains_key(
                #[trigger] missing_types(names, table)[k],
            ),
    decreases names.len(),
{
    if names.len() > 0 {
        resolved_types_emit_model_and_entity(project_dir, feature_name, names.drop_last(), table);
    }
}

} // verus!
