use crate::casing::{case_text, lowercase_text, to_case, CaseStyle};
use crate::document::{parameter_views, ParameterView, SwaggerParameter};
use crate::domains::{Domain, Endpoint, EndpointView};
use crate::models::entity_name_of;
use crate::text::{
    concat_map, index_of_text, index_of_text_is_first, join, join_texts, push_each, strip_suffix,
    text_eq, texts,
};
use vstd::prelude::*;
use vstd::string::*;

verus! {

/// The parameter is handed to the generated method: it stands in the path, in the
/// query or in the body.
pub open spec fn is_call_parameter(p: ParameterView) -> bool {
    p.location == "path"@ || p.location == "query"@ || p.location == "body"@
}

/// The parameter stands in the query.
pub open spec fn is_query_parameter(p: ParameterView) -> bool {
    p.location == "query"@
}

/// A parameter as a method declares it.
pub open spec fn parameter_declaration(p: ParameterView) -> Seq<char> {
    (if p.required {
        "required "@
    } else {
        Seq::empty()
    }) + "dynamic "@ + p.name
}

/// The name of a parameter.
pub open spec fn parameter_name(p: ParameterView) -> Seq<char> {
    p.name
}

/// A parameter as an entry of the map of query parameters.
pub open spec fn query_entry(p: ParameterView) -> Seq<char> {
    "'"@ + p.name + "': "@ + p.name
}

/// The texts that `text` gives for the parameters that `keep` holds of, in order.
pub open spec fn select_texts(
    params: Seq<ParameterView>,
    keep: spec_fn(ParameterView) -> bool,
    text: spec_fn(ParameterView) -> Seq<char>,
) -> Seq<Seq<char>>
    decreases params.len(),
{
    if params.len() == 0 {
        Seq::empty()
    } else {
        let rest = select_texts(params.drop_last(), keep, text);
        if keep(params.last()) {
            rest.push(text(params.last()))
        } else {
            rest
        }
    }
}

/// The parameter list of a generated method.
pub open spec fn declared_parameters(params: Seq<ParameterView>) -> Seq<char> {
    join_texts(
        select_texts(
            params,
            |p: ParameterView| is_call_parameter(p),
            |p: ParameterView| parameter_declaration(p),
        ),
        ", "@,
    )
}

/// The arguments that a generated method hands on, by name.
pub open spec fn passed_parameters(params: Seq<ParameterView>) -> Seq<char> {
    join_texts(
        select_texts(
            params,
            |p: ParameterView| is_call_parameter(p),
            |p: ParameterView| parameter_name(p),
        ),
        ", "@,
    )
}

/// The locations of a list of parameters, in order.
pub open spec fn locations(params: Seq<ParameterView>) -> Seq<Seq<char>> {
    params.map_values(|p: ParameterView| p.location)
}

/// The name of the generated method of an endpoint.
pub open spec fn method_name(e: EndpointView) -> Seq<char> {
    case_text(e.operation_id, CaseStyle::Camel)
}

/// What the remote method of an endpoint returns: its model, or nothing.
pub open spec fn future_type(e: EndpointView) -> Seq<char> {
    match e.response_type {
        Some(t) => "Future<"@ + t + ">"@,
        None => "Future<void>"@,
    }
}

/// The declaration of the remote method of an endpoint.
pub open spec fn remote_signature_text(e: EndpointView) -> Seq<char> {
    "  /// "@ + e.summary + "\n"@ + "  "@ + future_type(e) + " "@ + method_name(e) + "("@
        + declared_parameters(e.parameters) + ");\n"@
}

/// The query parameters of a call, as a map from name to value; nothing where the
/// endpoint has none.
pub open spec fn query_argument(e: EndpointView) -> Seq<char> {
    let entries = select_texts(
        e.parameters,
        |p: ParameterView| is_query_parameter(p),
        |p: ParameterView| query_entry(p),
    );
    if entries.len() == 0 {
        Seq::empty()
    } else {
        "queryParameters: {"@ + join_texts(entries, ", "@) + "}, "@
    }
}

/// The payload of a call: the first parameter that stands in the body; nothing where
/// the endpoint has none.
pub open spec fn body_argument(e: EndpointView) -> Seq<char> {
    match index_of_text(locations(e.parameters), "body"@) {
        Some(i) => "data: "@ + e.parameters[i].name,
        None => Seq::empty(),
    }
}

/// What the remote method does with the response: it decodes it through the model's
/// deserialiser, or returns nothing.
pub open spec fn remote_return_text(e: EndpointView) -> Seq<char> {
    match e.response_type {
        Some(t) => "    return "@ + t + "Model.fromJson(response.data);\n"@,
        None => "    return;\n"@,
    }
}

/// The HTTP call of the remote method: the endpoint's verb and literal path, the
/// query parameters and the payload.
pub open spec fn remote_call_text(e: EndpointView) -> Seq<char> {
    "    final response = await _apiClient."@ + lowercase_text(e.method) + "('"@ + e.path
        + "', "@ + query_argument(e) + body_argument(e) + ");\n"@
}

/// The implementation of the remote method of an endpoint.
pub open spec fn remote_method_text(e: EndpointView) -> Seq<char> {
    "  @override\n"@ + "  "@ + future_type(e) + " "@ + method_name(e) + "("@
        + declared_parameters(e.parameters) + ") async {\n"@ + remote_call_text(e)
        + remote_return_text(e) + "  }\n\n"@
}

/// The head of the remote datasource file, up to the opening of the contract.
pub open spec fn remote_header_text(feature_name: Seq<char>, pascal_name: Seq<char>) -> Seq<char> {
    "import 'package:dio/dio.dart';\nimport 'package:injectable/injectable.dart';\n\nimport '../../../../core/api/api_client.dart';\nimport '../models/"@
        + feature_name + "_model.dart';\n\nabstract class "@ + pascal_name
        + "_RemoteDatasource {\n"@
}

/// The end of the contract and the head of the implementation class.
pub open spec fn remote_impl_header_text(pascal_name: Seq<char>) -> Seq<char> {
    "}\n\n@Injectable(as: "@ + pascal_name + "_RemoteDatasource)\nclass "@ + pascal_name
        + "_RemoteDatasourceImpl implements "@ + pascal_name
        + "_RemoteDatasource {\n  final ApiClient _apiClient;\n\n  "@ + pascal_name
        + "_RemoteDatasourceImpl(this._apiClient);\n\n"@
}

/// The text of the remote datasource of a domain: a contract with one method for each
/// endpoint, and an implementation that makes one HTTP call in each method.
pub open spec fn remote_datasource_text(feature_name: Seq<char>, endpoints: Seq<EndpointView>) -> Seq<
    char,
> {
    let pascal_name = case_text(feature_name, CaseStyle::Pascal);
    remote_header_text(feature_name, pascal_name) + concat_map(
        endpoints,
        |e: EndpointView| remote_signature_text(e),
    ) + remote_impl_header_text(pascal_name) + concat_map(
        endpoints,
        |e: EndpointView| remote_method_text(e),
    ) + "}"@
}

/// The parameter is handed to the generated method.
fn call_parameter(p: &SwaggerParameter) -> (r: bool)
    ensures
        r == is_call_parameter(p@),
{
    text_eq(p.location.as_str(), "path") || text_eq(p.location.as_str(), "query") || text_eq(
        p.location.as_str(),
        "body",
    )
}

/// The parameter stands in the query.
fn query_parameter(p: &SwaggerParameter) -> (r: bool)
    ensures
        r == is_query_parameter(p@),
{
    text_eq(p.location.as_str(), "query")
}

/// A parameter as a method declares it.
fn declaration_of(p: &SwaggerParameter) -> (r: String)
    ensures
        r@ == parameter_declaration(p@),
{
    let mut r = String::new();
    if p.required {
        r.append("required ");
    }
    r.append("dynamic ");
    r.append(p.name.as_str());
    assert(r@ =~= parameter_declaration(p@));
    r
}

/// The name of a parameter.
fn name_of(p: &SwaggerParameter) -> (r: String)
    ensures
        r@ == parameter_name(p@),
{
    p.name.clone()
}

/// A parameter as an entry of the map of query parameters.
fn query_entry_of(p: &SwaggerParameter) -> (r: String)
    ensures
        r@ == query_entry(p@),
{
    let mut r = "'".to_owned();
    r.append(p.name.as_str());
    r.append("': ");
    r.append(p.name.as_str());
    r
}

/// The texts that `text` gives for the parameters that `keep` holds of, in order.
fn select<K: Fn(&SwaggerParameter) -> bool, F: Fn(&SwaggerParameter) -> String>(
    params: &Vec<SwaggerParameter>,
    keep: K,
    text: F,
    Ghost(k): Ghost<spec_fn(ParameterView) -> bool>,
    Ghost(f): Ghost<spec_fn(ParameterView) -> Seq<char>>,
) -> (r: Vec<String>)
    requires
        forall|p: &SwaggerParameter| keep.requires((p,)),
        forall|p: &SwaggerParameter, b: bool| keep.ensures((p,), b) ==> b == k(p@),
        forall|p: &SwaggerParameter| text.requires((p,)),
        forall|p: &SwaggerParameter, s: String| text.ensures((p,), s) ==> s@ == f(p@),
    ensures
        texts(r@) == select_texts(parameter_views(params@), k, f),
{
    let ghost all = parameter_views(params@);
    let mut r: Vec<String> = Vec::new();
    let mut i: usize = 0;
    assert(all.take(0) =~= Seq::<ParameterView>::empty());
    assert(texts(r@) =~= Seq::<Seq<char>>::empty());
    while i < params.len()
        invariant
            i <= params.len(),
            all == parameter_views(params@),
            forall|p: &SwaggerParameter| keep.requires((p,)),
            forall|p: &SwaggerParameter, b: bool| keep.ensures((p,), b) ==> b == k(p@),
            forall|p: &SwaggerParameter| text.requires((p,)),
            forall|p: &SwaggerParameter, s: String| text.ensures((p,), s) ==> s@ == f(p@),
            texts(r@) == select_texts(all.take(i as int), k, f),
        decreases params.len() - i,
    {
        let ghost before = texts(r@);
        proof {
            let next = all.take(i + 1);
            assert(next.drop_last() =~= all.take(i as int));
            assert(next.last() == params@[i as int]@);
        }
        if keep(&params[i]) {
            let s = text(&params[i]);
            r.push(s);
            assert(texts(r@) =~= before.push(s@));
        }
        i += 1;
    }
    assert(all.take(params.len() as int) =~= all);
    r
}

/// The parameter list of a generated method.
fn declared_parameters_of(params: &Vec<SwaggerParameter>) -> (r: String)
    ensures
        r@ == declared_parameters(parameter_views(params@)),
{
    let parts = select(
        params,
        call_parameter,
        declaration_of,
        Ghost(|p: ParameterView| is_call_parameter(p)),
        Ghost(|p: ParameterView| parameter_declaration(p)),
    );
    join(&parts, ", ")
}

/// The arguments that a generated method hands on, by name.
fn passed_parameters_of(params: &Vec<SwaggerParameter>) -> (r: String)
    ensures
        r@ == passed_parameters(parameter_views(params@)),
{
    let parts = select(
        params,
        call_parameter,
        name_of,
        Ghost(|p: ParameterView| is_call_parameter(p)),
        Ghost(|p: ParameterView| parameter_name(p)),
    );
    join(&parts, ", ")
}

/// The name of the generated method of an endpoint.
fn method_name_of(e: &Endpoint) -> (r: String)
    ensures
        r@ == method_name(e@),
{
    to_case(e.operation_id.as_str(), CaseStyle::Camel)
}

/// What the remote method of an endpoint returns.
fn future_type_of(e: &Endpoint) -> (r: String)
    ensures
        r@ == future_type(e@),
{
    match &e.response_type {
        Some(t) => {
            let mut r = "Future<".to_owned();
            r.append(t.as_str());
            r.append(">");
            r
        },
        None => "Future<void>".to_owned(),
    }
}

/// The declaration of the remote method of an endpoint.
fn remote_signature(e: &Endpoint) -> (r: String)
    ensures
        r@ == remote_signature_text(e@),
{
    let result_type = future_type_of(e);
    let name = method_name_of(e);
    let params = declared_parameters_of(&e.parameters);
    let mut r = "  /// ".to_owned();
    r.append(e.summary.as_str());
    r.append("\n");
    r.append("  ");
    r.append(result_type.as_str());
    r.append(" ");
    r.append(name.as_str());
    r.append("(");
    r.append(params.as_str());
    r.append(");\n");
    assert(r@ =~= remote_signature_text(e@));
    r
}

/// Appends the query parameters of a call.
fn push_query_argument(content: &mut String, e: &Endpoint)
    ensures
        final(content)@ == old(content)@ + query_argument(e@),
{
    let ghost before = content@;
    let entries = select(
        &e.parameters,
        query_parameter,
        query_entry_of,
        Ghost(|p: ParameterView| is_query_parameter(p)),
        Ghost(|p: ParameterView| query_entry(p)),
    );
    if entries.len() > 0 {
        let joined = join(&entries, ", ");
        content.append("queryParameters: {");
        content.append(joined.as_str());
        content.append("}, ");
        assert(content@ =~= before + query_argument(e@));
    } else {
        assert(content@ =~= before + query_argument(e@));
    }
}

/// Appends the payload of a call.
fn push_body_argument(content: &mut String, e: &Endpoint)
    ensures
        final(content)@ == old(content)@ + body_argument(e@),
{
    let ghost before = content@;
    let ghost places = locations(e@.parameters);
    let mut i: usize = 0;
    while i < e.parameters.len()
        invariant
            i <= e.parameters.len(),
            places == locations(e@.parameters),
            content@ == before,
            before == old(content)@,
            forall|j: int| 0 <= j < i ==> places[j] != "body"@,
        decreases e.parameters.len() - i,
    {
        if text_eq(e.parameters[i].location.as_str(), "body") {
            proof {
                assert(places[i as int] == e.parameters@[i as int]@.location);
                index_of_text_is_first(places, "body"@);
            }
            content.append("data: ");
            content.append(e.parameters[i].name.as_str());
            assert(content@ =~= before + body_argument(e@));
            return ;
        }
        i += 1;
    }
    proof {
        index_of_text_is_first(places, "body"@);
        assert(content@ =~= before + body_argument(e@));
    }
}

/// Appends the HTTP call of the remote method.
fn push_remote_call(content: &mut String, e: &Endpoint)
    ensures
        final(content)@ == old(content)@ + remote_call_text(e@),
{
    let ghost before = content@;
    let verb = e.method.as_str().to_lowercase();
    content.append("    final response = await _apiClient.");
    content.append(verb.as_str());
    content.append("('");
    content.append(e.path.as_str());
    content.append("', ");
    push_query_argument(content, e);
    push_body_argument(content, e);
    content.append(");\n");
    assert(content@ =~= before + remote_call_text(e@));
}

/// The implementation of the remote method of an endpoint.
fn remote_method(e: &Endpoint) -> (r: String)
    ensures
        r@ == remote_method_text(e@),
{
    let result_type = future_type_of(e);
    let name = method_name_of(e);
    let params = declared_parameters_of(&e.parameters);
    let mut r = "  @override\n".to_owned();
    r.append("  ");
    r.append(result_type.as_str());
    r.append(" ");
    r.append(name.as_str());
    r.append("(");
    r.append(params.as_str());
    r.append(") async {\n");
    push_remote_call(&mut r, e);
    match &e.response_type {
        Some(t) => {
            r.append("    return ");
            r.append(t.as_str());
            r.append("Model.fromJson(response.data);\n");
        },
        None => {
            r.append("    return;\n");
        },
    }
    r.append("  }\n\n");
    assert(r@ =~= remote_method_text(e@));
    r
}

/// Appends the head of the remote datasource file.
fn push_remote_header(content: &mut String, feature_name: &str, pascal_name: &str)
    ensures
        final(content)@ == old(content)@ + remote_header_text(feature_name@, pascal_name@),
{
    let ghost before = content@;
    content.append(
        "import 'package:dio/dio.dart';\nimport 'package:injectable/injectable.dart';\n\nimport '../../../../core/api/api_client.dart';\nimport '../models/",
    );
    content.append(feature_name);
    content.append("_model.dart';\n\nabstract class ");
    content.append(pascal_name);
    content.append("_RemoteDatasource {\n");
    assert(content@ =~= before + remote_header_text(feature_name@, pascal_name@));
}

/// Appends the end of the contract and the head of the implementation class.
fn push_remote_impl_header(content: &mut String, pascal_name: &str)
    ensures
        final(content)@ == old(content)@ + remote_impl_header_text(pascal_name@),
{
    let ghost before = content@;
    content.append("}\n\n@Injectable(as: ");
    content.append(pascal_name);
    content.append("_RemoteDatasource)\nclass ");
    content.append(pascal_name);
    content.append("_RemoteDatasourceImpl implements ");
    content.append(pascal_name);
    content.append("_RemoteDatasource {\n  final ApiClient _apiClient;\n\n  ");
    content.append(pascal_name);
    content.append("_RemoteDatasourceImpl(this._apiClient);\n\n");
    assert(content@ =~= before + remote_impl_header_text(pascal_name@));
}

/// The text of the remote datasource of a domain: a contract with one method for each
/// endpoint, named by the operation and taking every parameter of the path, the query
/// and the body, and an implementation that makes one HTTP call in each method.
pub fn generate_remote_datasource(feature_name: &str, domain: &Domain) -> (content: String)
    ensures
        content@ == remote_datasource_text(feature_name@, domain@.endpoints),
{
    let pascal_name = to_case(feature_name, CaseStyle::Pascal);
    let mut content = String::new();
    push_remote_header(&mut content, feature_name, pascal_name.as_str());
    push_each(
        &mut content,
        &domain.endpoints,
        remote_signature,
        Ghost(|e: EndpointView| remote_signature_text(e)),
    );
    push_remote_impl_header(&mut content, pascal_name.as_str());
    push_each(
        &mut content,
        &domain.endpoints,
        remote_method,
        Ghost(|e: EndpointView| remote_method_text(e)),
    );
    content.append("}");
    assert(content@ =~= remote_datasource_text(feature_name@, domain@.endpoints));
    content
}

/// The imports and the contract of the local datasource: one operation that stores
/// and one that fetches.
pub open spec fn local_contract_text(feature_name: Seq<char>, pascal_name: Seq<char>) -> Seq<char> {
    "import 'package:injectable/injectable.dart';\nimport 'package:shared_preferences/shared_preferences.dart';\n\nimport '../models/"@
        + feature_name + "_model.dart';\n\nabstract class "@ + pascal_name
        + "_LocalDatasource {\n  Future<void> cache"@ + pascal_name
        + "Data(dynamic data);\n  Future<dynamic> get"@ + pascal_name + "Data();\n}\n\n"@
}

/// The head of the implementation of the local datasource, with the key of the
/// store, which is made of the feature's name.
pub open spec fn local_impl_header_text(feature_name: Seq<char>, pascal_name: Seq<char>) -> Seq<
    char,
> {
    "@Injectable(as: "@ + pascal_name + "_LocalDatasource)\nclass "@ + pascal_name
        + "_LocalDatasourceImpl implements "@ + pascal_name
        + "_LocalDatasource {\n  final SharedPreferences _preferences;\n  static const String "@
        + feature_name + "DataKey = '"@ + feature_name + "_data';\n\n  "@ + pascal_name
        + "_LocalDatasourceImpl(this._preferences);\n\n"@
}

/// The operation that stores a value under the key.
pub open spec fn local_cache_text(feature_name: Seq<char>, pascal_name: Seq<char>) -> Seq<char> {
    "  @override\n  Future<void> cache"@ + pascal_name
        + "Data(dynamic data) async {\n    // Implementation depends on the data type - this is a basic example\n    if (data is String) {\n      await _preferences.setString("@
        + feature_name
        + "DataKey, data);\n    }\n    // Add more type handling as needed\n  }\n\n"@
}

/// The operation that fetches the value under the key.
pub open spec fn local_get_text(feature_name: Seq<char>, pascal_name: Seq<char>) -> Seq<char> {
    "  @override\n  Future<dynamic> get"@ + pascal_name
        + "Data() async {\n    // Basic implementation - enhance as needed\n    final data = _preferences.getString("@
        + feature_name
        + "DataKey);\n    if (data != null) {\n      // Parse the data based on your needs\n      return data;\n    }\n    return [];\n  }\n}\n"@
}

/// The text of the local datasource of a feature: a cache with a store and a fetch
/// operation over one key of a string-keyed store.
pub open spec fn local_datasource_text(feature_name: Seq<char>) -> Seq<char> {
    let pascal_name = case_text(feature_name, CaseStyle::Pascal);
    local_contract_text(feature_name, pascal_name) + local_impl_header_text(
        feature_name,
        pascal_name,
    ) + local_cache_text(feature_name, pascal_name) + local_get_text(feature_name, pascal_name)
}

/// Appends the imports and the contract of the local datasource.
fn push_local_contract(content: &mut String, feature_name: &str, pascal_name: &str)
    ensures
        final(content)@ == old(content)@ + local_contract_text(feature_name@, pascal_name@),
{
    let ghost before = content@;
    content.append(
        "import 'package:injectable/injectable.dart';\nimport 'package:shared_preferences/shared_preferences.dart';\n\nimport '../models/",
    );
    content.append(feature_name);
    content.append("_model.dart';\n\nabstract class ");
    content.append(pascal_name);
    content.append("_LocalDatasource {\n  Future<void> cache");
    content.append(pascal_name);
    content.append("Data(dynamic data);\n  Future<dynamic> get");
    content.append(pascal_name);
    content.append("Data();\n}\n\n");
    assert(content@ =~= before + local_contract_text(feature_name@, pascal_name@));
}

/// Appends the head of the implementation of the local datasource.
fn push_local_impl_header(content: &mut String, feature_name: &str, pascal_name: &str)
    ensures
        final(content)@ == old(content)@ + local_impl_header_text(feature_name@, pascal_name@),
{
    let ghost before = content@;
    content.append("@Injectable(as: ");
    content.append(pascal_name);
    content.append("_LocalDatasource)\nclass ");
    content.append(pascal_name);
    content.append("_LocalDatasourceImpl implements ");
    content.append(pascal_name);
    content.append(
        "_LocalDatasource {\n  final SharedPreferences _preferences;\n  static const String ",
    );
    content.append(feature_name);
    content.append("DataKey = '");
    content.append(feature_name);
    content.append("_data';\n\n  ");
    content.append(pascal_name);
    content.append("_LocalDatasourceImpl(this._preferences);\n\n");
    assert(content@ =~= before + local_impl_header_text(feature_name@, pascal_name@));
}

/// Appends the two operations of the local datasource.
fn push_local_methods(content: &mut String, feature_name: &str, pascal_name: &str)
    ensures
        final(content)@ == old(content)@ + local_cache_text(feature_name@, pascal_name@)
            + local_get_text(feature_name@, pascal_name@),
{
    let ghost before = content@;
    content.append("  @override\n  Future<void> cache");
    content.append(pascal_name);
    content.append(
        "Data(dynamic data) async {\n    // Implementation depends on the data type - this is a basic example\n    if (data is String) {\n      await _preferences.setString(",
    );
    content.append(feature_name);
    content.append(
        "DataKey, data);\n    }\n    // Add more type handling as needed\n  }\n\n",
    );
    content.append("  @override\n  Future<dynamic> get");
    content.append(pascal_name);
    content.append(
        "Data() async {\n    // Basic implementation - enhance as needed\n    final data = _preferences.getString(",
    );
    content.append(feature_name);
    content.append(
        "DataKey);\n    if (data != null) {\n      // Parse the data based on your needs\n      return data;\n    }\n    return [];\n  }\n}\n",
    );
    assert(content@ =~= before + local_cache_text(feature_name@, pascal_name@) + local_get_text(
        feature_name@,
        pascal_name@,
    ));
}

/// The text of the local datasource of a feature. It does not depend on the domain's
/// endpoints: the cache holds values of any type under one key.
pub fn generate_local_datasource(feature_name: &str, _domain: &Domain) -> (content: String)
    ensures
        content@ == local_datasource_text(feature_name@),
{
    let pascal_name = to_case(feature_name, CaseStyle::Pascal);
    let mut content = String::new();
    push_local_contract(&mut content, feature_name, pascal_name.as_str());
    push_local_impl_header(&mut content, feature_name, pascal_name.as_str());
    push_local_methods(&mut content, feature_name, pascal_name.as_str());
    assert(content@ =~= local_datasource_text(feature_name@));
    content
}

/// The head of the repository file, up to the opening of the contract.
pub open spec fn repository_header_text(feature_name: Seq<char>, pascal_name: Seq<char>) -> Seq<
    char,
> {
    "import 'package:dartz/dartz.dart';\nimport 'package:dio/dio.dart';\nimport 'package:injectable/injectable.dart';\n\nimport '../../../../core/failures/failure.dart';\nimport '../../../../core/entities/"@
        + feature_name + "/"@ + feature_name + ".dart';\nimport '../datasources/"@
        + feature_name + "_remote_datasource.dart';\nimport '../datasources/"@ + feature_name
        + "_local_datasource.dart';\nimport '../models/"@ + feature_name
        + "_model.dart';\n\nabstract class "@ + pascal_name + "_Repository {\n"@
}

/// What a repository method returns: a failure, or the entity of the endpoint's
/// response type, or nothing for a void operation.
pub open spec fn either_type(e: EndpointView) -> Seq<char> {
    match e.response_type {
        Some(t) => "Future<Either<Failure, "@ + entity_name_of(t) + ">>"@,
        None => "Future<Either<Failure, void>>"@,
    }
}

/// The declaration of the repository method of an endpoint.
pub open spec fn repository_signature_text(e: EndpointView) -> Seq<char> {
    "  /// "@ + e.summary + "\n"@ + "  "@ + either_type(e) + " "@ + method_name(e) + "("@
        + declared_parameters(e.parameters) + ");\n"@
}

/// The end of the contract and the head of the implementation class.
pub open spec fn repository_impl_header_text(pascal_name: Seq<char>) -> Seq<char> {
    "}\n\n@Injectable(as: "@ + pascal_name + "_Repository)\nclass "@ + pascal_name
        + "_RepositoryImpl implements "@ + pascal_name + "_Repository {\n  final "@ + pascal_name
        + "_RemoteDatasource _remoteDatasource;\n  final "@ + pascal_name
        + "_LocalDatasource _localDatasource;\n\n  "@ + pascal_name
        + "_RepositoryImpl(this._remoteDatasource, this._localDatasource);\n\n"@
}

/// What a repository method does after the remote call came back: it converts the
/// model to its entity, writes it to the local cache where the endpoint is a `GET`,
/// and returns the entity as success; a void operation returns an empty success.
pub open spec fn repository_success_text(e: EndpointView) -> Seq<char> {
    match e.response_type {
        Some(t) => "      final entity = modelResult.toEntity();\n"@ + (if e.method == "GET"@ {
            "      await _localDatasource.cacheData(modelResult);\n"@
        } else {
            Seq::empty()
        }) + "      return Right(entity);\n"@,
        None => "      return const Right(null);\n"@,
    }
}

/// The two failures that a repository method can return: a network failure for an
/// error of the transport, an unexpected failure for any other.
pub open spec fn repository_failure_text() -> Seq<char> {
    "    } on DioException catch (e) {\n"@
        + "      return Left(NetworkFailure(message: e.message ?? 'Network error'));\n"@
        + "    } catch (e) {\n"@
        + "      return Left(UnexpectedFailure(message: e.toString()));\n"@ + "    }\n"@
}

/// The implementation of the repository method of an endpoint.
pub open spec fn repository_method_text(e: EndpointView) -> Seq<char> {
    "  @override\n"@ + "  "@ + either_type(e) + " "@ + method_name(e) + "("@
        + declared_parameters(e.parameters) + ") async {\n"@ + "    try {\n"@
        + "      final modelResult = await _remoteDatasource."@ + method_name(e) + "("@
        + passed_parameters(e.parameters) + ");\n"@ + repository_success_text(e)
        + repository_failure_text() + "  }\n\n"@
}

/// The text of the repository of a domain: a contract with the methods of the remote
/// datasource, each returning a failure or an entity, and an implementation that
/// calls the remote datasource and turns what comes back into that result.
pub open spec fn repository_text(feature_name: Seq<char>, endpoints: Seq<EndpointView>) -> Seq<
    char,
> {
    let pascal_name = case_text(feature_name, CaseStyle::Pascal);
    repository_header_text(feature_name, pascal_name) + concat_map(
        endpoints,
        |e: EndpointView| repository_signature_text(e),
    ) + repository_impl_header_text(pascal_name) + concat_map(
        endpoints,
        |e: EndpointView| repository_method_text(e),
    ) + "}"@
}

/// The head of the repository file: its imports and the opening of the contract.
pub fn generate_repository_formatted_content(feature_name: &str, pascal_name: &str) -> (r: String)
    ensures
        r@ == repository_header_text(feature_name@, pascal_name@),
{
    let mut r = String::new();
    r.append(
        "import 'package:dartz/dartz.dart';\nimport 'package:dio/dio.dart';\nimport 'package:injectable/injectable.dart';\n\nimport '../../../../core/failures/failure.dart';\nimport '../../../../core/entities/",
    );
    r.append(feature_name);
    r.append("/");
    r.append(feature_name);
    r.append(".dart';\nimport '../datasources/");
    r.append(feature_name);
    r.append("_remote_datasource.dart';\nimport '../datasources/");
    r.append(feature_name);
    r.append("_local_datasource.dart';\nimport '../models/");
    r.append(feature_name);
    r.append("_model.dart';\n\nabstract class ");
    r.append(pascal_name);
    r.append("_Repository {\n");
    assert(r@ =~= repository_header_text(feature_name@, pascal_name@));
    r
}

/// What a repository method returns.
fn either_type_of(e: &Endpoint) -> (r: String)
    ensures
        r@ == either_type(e@),
{
    match &e.response_type {
        Some(t) => {
            let entity = strip_suffix(t.as_str(), "Model");
            let mut r = "Future<Either<Failure, ".to_owned();
            r.append(entity.as_str());
            r.append(">>");
            r
        },
        None => "Future<Either<Failure, void>>".to_owned(),
    }
}

/// The declaration of the repository method of an endpoint.
fn repository_signature(e: &Endpoint) -> (r: String)
    ensures
        r@ == repository_signature_text(e@),
{
    let result_type = either_type_of(e);
    let name = method_name_of(e);
    let params = declared_parameters_of(&e.parameters);
    let mut r = "  /// ".to_owned();
    r.append(e.summary.as_str());
    r.append("\n");
    r.append("  ");
    r.append(result_type.as_str());
    r.append(" ");
    r.append(name.as_str());
    r.append("(");
    r.append(params.as_str());
    r.append(");\n");
    assert(r@ =~= repository_signature_text(e@));
    r
}

/// Appends the end of the contract and the head of the implementation class.
fn push_repository_impl_header(content: &mut String, pascal_name: &str)
    ensures
        final(content)@ == old(content)@ + repository_impl_header_text(pascal_name@),
{
    let ghost before = content@;
    content.append("}\n\n@Injectable(as: ");
    content.append(pascal_name);
    content.append("_Repository)\nclass ");
    content.append(pascal_name);
    content.append("_RepositoryImpl implements ");
    content.append(pascal_name);
    content.append("_Repository {\n  final ");
    content.append(pascal_name);
    content.append("_RemoteDatasource _remoteDatasource;\n  final ");
    content.append(pascal_name);
    content.append("_LocalDatasource _localDatasource;\n\n  ");
    content.append(pascal_name);
    content.append("_RepositoryImpl(this._remoteDatasource, this._localDatasource);\n\n");
    assert(content@ =~= before + repository_impl_header_text(pascal_name@));
}

/// Appends what a repository method does after the remote call came back.
fn push_repository_success(content: &mut String, e: &Endpoint)
    ensures
        final(content)@ == old(content)@ + repository_success_text(e@),
{
    let ghost before = content@;
    match &e.response_type {
        Some(_t) => {
            content.append("      final entity = modelResult.toEntity();\n");
            if text_eq(e.method.as_str(), "GET") {
                content.append("      await _localDatasource.cacheData(modelResult);\n");
            }
            content.append("      return Right(entity);\n");
        },
        None => {
            content.append("      return const Right(null);\n");
        },
    }
    assert(content@ =~= before + repository_success_text(e@));
}

/// Appends the two failures that a repository method can return.
fn push_repository_failure(content: &mut String)
    ensures
        final(content)@ == old(content)@ + repository_failure_text(),
{
    let ghost before = content@;
    content.append("    } on DioException catch (e) {\n");
    content.append("      return Left(NetworkFailure(message: e.message ?? 'Network error'));\n");
    content.append("    } catch (e) {\n");
    content.append("      return Left(UnexpectedFailure(message: e.toString()));\n");
    content.append("    }\n");
    assert(content@ =~= before + repository_failure_text());
}

/// The implementation of the repository method of an endpoint.
fn repository_method(e: &Endpoint) -> (r: String)
    ensures
        r@ == repository_method_text(e@),
{
    let result_type = either_type_of(e);
    let name = method_name_of(e);
    let params = declared_parameters_of(&e.parameters);
    let arguments = passed_parameters_of(&e.parameters);
    let mut r = "  @override\n".to_owned();
    r.append("  ");
    r.append(result_type.as_str());
    r.append(" ");
    r.append(name.as_str());
    r.append("(");
    r.append(params.as_str());
    r.append(") async {\n");
    r.append("    try {\n");
    r.append("      final modelResult = await _remoteDatasource.");
    r.append(name.as_str());
    r.append("(");
    r.append(arguments.as_str());
    r.append(");\n");
    push_repository_success(&mut r, e);
    push_repository_failure(&mut r);
    r.append("  }\n\n");
    assert(r@ =~= repository_method_text(e@));
    r
}

/// The text of the repository of a domain: a contract with one method for each
/// endpoint, which returns a failure or the endpoint's entity, and an implementation
/// that calls the remote datasource, converts the model to its entity, writes it to
/// the local cache where the endpoint is a `GET`, and returns a network failure for
/// an error of the transport and an unexpected failure for any other.
pub fn generate_repository(feature_name: &str, domain: &Domain) -> (content: String)
    ensures
        content@ == repository_text(feature_name@, domain@.endpoints),
{
    let pascal_name = to_case(feature_name, CaseStyle::Pascal);
    let mut content = generate_repository_formatted_content(feature_name, pascal_name.as_str());
    push_each(
        &mut content,
        &domain.endpoints,
        repository_signature,
        Ghost(|e: EndpointView| repository_signature_text(e)),
    );
    push_repository_impl_header(&mut content, pascal_name.as_str());
    push_each(
        &mut content,
        &domain.endpoints,
        repository_method,
        Ghost(|e: EndpointView| repository_method_text(e)),
    );
    content.append("}");
    assert(content@ =~= repository_text(feature_name@, domain@.endpoints));
    content
}

} // verus!
