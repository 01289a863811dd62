use flutter_lazy::datasources::{
    generate_local_datasource, generate_remote_datasource, generate_repository,
    generate_repository_formatted_content,
};
use flutter_lazy::document::{
    SwaggerComponents, SwaggerInfo, SwaggerOperation, SwaggerParameter, SwaggerProperty,
    SwaggerResponse, SwaggerSchema, SwaggerSpec, SwaggerTag,
};
use flutter_lazy::domains::{extract_domains, extract_response_type, Domain, Endpoint};
use flutter_lazy::models::{
    generate_entity_class, generate_model_class, get_feature_name_from_file_path,
    update_model_class_with_entity_conversion,
};
use flutter_lazy::schemas::{
    determine_property_type, extract_schema_info, extract_schemas, map_type, SchemaInfo,
    SchemaTable,
};
use flutter_lazy::swagger::{
    check_status, generate_api_features, generate_domain_datasources, generate_domain_models,
    LoadError,
};

fn schema(data_type: &str) -> SwaggerSchema {
    SwaggerSchema {
        data_type: data_type.to_string(),
        reference: None,
        properties: Vec::new(),
        required: Vec::new(),
        description: String::new(),
    }
}

fn reference(target: &str) -> SwaggerSchema {
    SwaggerSchema { reference: Some(target.to_string()), ..schema("") }
}

fn property(data_type: &str) -> SwaggerProperty {
    SwaggerProperty {
        data_type: data_type.to_string(),
        format: None,
        reference: None,
        items: None,
        description: String::new(),
    }
}

fn array_of(items: SwaggerSchema) -> SwaggerProperty {
    SwaggerProperty { items: Some(Box::new(items)), ..property("array") }
}

fn parameter(name: &str, location: &str, required: bool) -> SwaggerParameter {
    SwaggerParameter {
        name: name.to_string(),
        location: location.to_string(),
        required,
        schema: None,
    }
}

fn response(schema: Option<SwaggerSchema>) -> SwaggerResponse {
    SwaggerResponse { description: String::new(), schema }
}

fn operation(id: &str, tags: &[&str]) -> SwaggerOperation {
    SwaggerOperation {
        tags: tags.iter().map(|t| t.to_string()).collect(),
        summary: String::new(),
        description: String::new(),
        operation_id: id.to_string(),
        parameters: Vec::new(),
        responses: Vec::new(),
    }
}

fn document() -> SwaggerSpec {
    SwaggerSpec {
        info: SwaggerInfo { title: String::new(), version: String::new() },
        tags: Vec::new(),
        paths: Vec::new(),
        schemas: Vec::new(),
        components: None,
    }
}

fn pet_schema() -> SwaggerSchema {
    SwaggerSchema {
        properties: vec![
            ("id".to_string(), property("integer")),
            ("name".to_string(), property("string")),
        ],
        required: vec!["id".to_string()],
        ..schema("object")
    }
}

fn pet_document() -> SwaggerSpec {
    let mut get = operation("getPetById", &["Pets"]);
    get.summary = "Find pet by ID".to_string();
    get.parameters = vec![parameter("id", "path", true)];
    get.responses = vec![("200".to_string(), response(Some(reference("#/definitions/Pet"))))];
    SwaggerSpec {
        tags: vec![SwaggerTag { name: "Pets".to_string(), description: "All pets".to_string() }],
        paths: vec![("/pets/{id}".to_string(), vec![("get".to_string(), get)])],
        schemas: vec![("Pet".to_string(), pet_schema())],
        ..document()
    }
}

fn endpoint(id: &str, method: &str, path: &str, response_type: Option<&str>) -> Endpoint {
    Endpoint {
        path: path.to_string(),
        method: method.to_string(),
        operation_id: id.to_string(),
        summary: String::new(),
        parameters: Vec::new(),
        response_type: response_type.map(|t| t.to_string()),
    }
}

fn names(domains: &[Domain]) -> Vec<String> {
    domains.iter().map(|d| d.name.clone()).collect()
}

const PET_MODEL: &str = "import 'package:json_annotation/json_annotation.dart';
@JsonSerializable()
class PetModel {
  final int id;

  final String? name;

  PetModel({
    required this.id,
    this.name,
  });

  factory PetModel.fromJson(Map<String, dynamic> json) => _$PetModelFromJson(json);

  Map<String, dynamic> toJson() => _$PetModelToJson(this);
import 'package:{package_name}/core/entities/pets/pet.dart';


  // Convert to Entity
  Pet toEntity() {
    return Pet(
      id: id,
      name: name,
    );
  }

  // Create from Entity
  factory PetModel.fromEntity(Pet entity) {
    return PetModel(
      id: entity.id,
      name: entity.name,
    );
  }
}
";

const PET_ENTITY: &str = "
class Pet {
  final int id;

  final String? name;

  const Pet({
    required this.id,
    this.name,
  });

  Pet copyWith({
    int? id,
    String?? name,
  }) {
    return Pet(
      id: id ?? this.id,
      name: name ?? this.name,
    );
  }
}
";

const PETS_REMOTE: &str = "import 'package:dio/dio.dart';
import 'package:injectable/injectable.dart';

import '../../../../core/api/api_client.dart';
import '../models/pets_model.dart';

abstract class Pets_RemoteDatasource {
  /// Find pet by ID
  Future<Pet> getPetById(required dynamic id);
}

@Injectable(as: Pets_RemoteDatasource)
class Pets_RemoteDatasourceImpl implements Pets_RemoteDatasource {
  final ApiClient _apiClient;

  Pets_RemoteDatasourceImpl(this._apiClient);

  @override
  Future<Pet> getPetById(required dynamic id) async {
    final response = await _apiClient.get('/pets/{id}', );
    return PetModel.fromJson(response.data);
  }

}";

const PETS_LOCAL: &str = "import 'package:injectable/injectable.dart';
import 'package:shared_preferences/shared_preferences.dart';

import '../models/pets_model.dart';

abstract class Pets_LocalDatasource {
  Future<void> cachePetsData(dynamic data);
  Future<dynamic> getPetsData();
}

@Injectable(as: Pets_LocalDatasource)
class Pets_LocalDatasourceImpl implements Pets_LocalDatasource {
  final SharedPreferences _preferences;
  static const String petsDataKey = 'pets_data';

  Pets_LocalDatasourceImpl(this._preferences);

  @override
  Future<void> cachePetsData(dynamic data) async {
    // Implementation depends on the data type - this is a basic example
    if (data is String) {
      await _preferences.setString(petsDataKey, data);
    }
    // Add more type handling as needed
  }

  @override
  Future<dynamic> getPetsData() async {
    // Basic implementation - enhance as needed
    final data = _preferences.getString(petsDataKey);
    if (data != null) {
      // Parse the data based on your needs
      return data;
    }
    return [];
  }
}
";

const PETS_REPOSITORY_HEAD: &str = "import 'package:dartz/dartz.dart';
import 'package:dio/dio.dart';
import 'package:injectable/injectable.dart';

import '../../../../core/failures/failure.dart';
import '../../../../core/entities/pets/pets.dart';
import '../datasources/pets_remote_datasource.dart';
import '../datasources/pets_local_datasource.dart';
import '../models/pets_model.dart';

abstract class Pets_Repository {
";

const PETS_REPOSITORY_REST: &str = "  /// Find pet by ID
  Future<Either<Failure, Pet>> getPetById(required dynamic id);
}

@Injectable(as: Pets_Repository)
class Pets_RepositoryImpl implements Pets_Repository {
  final Pets_RemoteDatasource _remoteDatasource;
  final Pets_LocalDatasource _localDatasource;

  Pets_RepositoryImpl(this._remoteDatasource, this._localDatasource);

  @override
  Future<Either<Failure, Pet>> getPetById(required dynamic id) async {
    try {
      final modelResult = await _remoteDatasource.getPetById(id);
      final entity = modelResult.toEntity();
      await _localDatasource.cacheData(modelResult);
      return Right(entity);
    } on DioException catch (e) {
      return Left(NetworkFailure(message: e.message ?? 'Network error'));
    } catch (e) {
      return Left(UnexpectedFailure(message: e.toString()));
    }
  }

}";

#[test]
fn map_type_maps_the_primitive_types() {
    assert_eq!(map_type("integer"), "int");
    assert_eq!(map_type("number"), "double");
    assert_eq!(map_type("boolean"), "bool");
    assert_eq!(map_type("string"), "String");
    assert_eq!(map_type("object"), "Map<String,dynamic>");
    assert_eq!(map_type(""), "dynamic");
    assert_eq!(map_type("unknown-vendor-type"), "dynamic");
}

#[test]
fn array_types_are_inferred_from_the_items() {
    assert_eq!(determine_property_type(&array_of(reference("#/definitions/Pet"))), "List<Pet>");
    assert_eq!(determine_property_type(&array_of(schema("integer"))), "List<int>");
    assert_eq!(determine_property_type(&property("array")), "List<dynamic>");
}

#[test]
fn a_reference_gives_its_last_segment() {
    let mut p = property("array");
    p.reference = Some("#/components/schemas/Owner".to_string());
    assert_eq!(determine_property_type(&p), "Owner");
    p.reference = Some("Owner".to_string());
    assert_eq!(determine_property_type(&p), "Owner");
    p.reference = Some("#/definitions/".to_string());
    assert_eq!(determine_property_type(&p), "");
    assert_eq!(determine_property_type(&property("boolean")), "bool");
}

#[test]
fn nullability_follows_the_required_list() {
    let info = extract_schema_info("Pet", &pet_schema());
    assert_eq!(info.name, "Pet");
    assert_eq!(info.required, vec!["id".to_string()]);
    assert_eq!(info.properties.len(), 2);
    assert_eq!(info.properties[0].name, "id");
    assert_eq!(info.properties[0].dart_type, "int");
    assert!(!info.properties[0].is_nullable);
    assert!(!info.properties[0].is_list);
    assert_eq!(info.properties[1].name, "name");
    assert_eq!(info.properties[1].dart_type, "String");
    assert!(info.properties[1].is_nullable);
    assert_eq!(info.properties[1].reference, None);
}

#[test]
fn a_property_written_twice_keeps_its_place_and_takes_the_later_entry() {
    let mut tags = array_of(reference("#/definitions/Tag"));
    tags.description = "the tags".to_string();
    let s = SwaggerSchema {
        properties: vec![
            ("tags".to_string(), property("string")),
            ("owner".to_string(), SwaggerProperty {
                reference: Some("#/definitions/Owner".to_string()),
                ..property("array")
            }),
            ("tags".to_string(), tags),
        ],
        ..schema("object")
    };
    let info = extract_schema_info("Pet", &s);
    assert_eq!(info.properties.len(), 2);
    assert_eq!(info.properties[0].name, "tags");
    assert_eq!(info.properties[0].dart_type, "List<Tag>");
    assert!(info.properties[0].is_list);
    assert_eq!(info.properties[0].description, "the tags");
    assert_eq!(info.properties[0].reference, Some("Tag".to_string()));
    assert_eq!(info.properties[1].name, "owner");
    assert_eq!(info.properties[1].dart_type, "Owner");
    assert!(!info.properties[1].is_list);
    assert_eq!(info.properties[1].reference, Some("Owner".to_string()));
    assert!(info.has_list_field());
    assert!(!info.has_date_time_field());
}

#[test]
fn a_reference_to_date_time_is_a_date_time_field() {
    let s = SwaggerSchema {
        properties: vec![("at".to_string(), SwaggerProperty {
            reference: Some("#/definitions/dateTime".to_string()),
            ..property("")
        })],
        ..schema("object")
    };
    let info = extract_schema_info("Event", &s);
    assert!(info.has_date_time_field());
    assert!(!info.has_list_field());
}

#[test]
fn the_modern_schema_overrides_the_legacy_schema_of_its_name() {
    let mut legacy = pet_schema();
    legacy.description = "legacy".to_string();
    let mut modern = schema("object");
    modern.description = "modern".to_string();
    modern.properties = vec![("tag".to_string(), property("string"))];
    let mut only_legacy = schema("object");
    only_legacy.description = "order".to_string();
    let spec = SwaggerSpec {
        schemas: vec![("Pet".to_string(), legacy), ("Order".to_string(), only_legacy)],
        components: Some(SwaggerComponents { schemas: vec![("Pet".to_string(), modern)] }),
        ..document()
    };
    let table = extract_schemas(&spec);
    let pet = table.get("Pet").unwrap();
    assert_eq!(pet.description, "modern");
    assert_eq!(pet.properties.len(), 1);
    assert_eq!(pet.properties[0].name, "tag");
    assert!(pet.required.is_empty());
    assert_eq!(table.get("Order").unwrap().description, "order");
    assert!(table.get("Widget").is_none());
}

#[test]
fn a_table_holds_the_schema_that_was_put_last() {
    let mut table = SchemaTable::new();
    assert!(table.get("Pet").is_none());
    table.insert(extract_schema_info("Pet", &pet_schema()));
    table.insert(extract_schema_info("Pet", &schema("object")));
    assert!(table.get("Pet").unwrap().properties.is_empty());
    assert!(table.get("pet").is_none());
}

#[test]
fn the_response_type_is_taken_from_200_then_201() {
    let created = vec![
        ("404".to_string(), response(Some(reference("#/definitions/Error")))),
        ("201".to_string(), response(Some(reference("#/definitions/Order")))),
    ];
    assert_eq!(extract_response_type(&created), Some("Order".to_string()));
    let both = vec![
        ("201".to_string(), response(Some(reference("#/definitions/Order")))),
        ("200".to_string(), response(Some(reference("#/components/schemas/Pet")))),
    ];
    assert_eq!(extract_response_type(&both), Some("Pet".to_string()));
    let inline = vec![
        ("200".to_string(), response(Some(schema("object")))),
        ("201".to_string(), response(Some(reference("#/definitions/Order")))),
    ];
    assert_eq!(extract_response_type(&inline), Some("Order".to_string()));
    let void = vec![("200".to_string(), response(None))];
    assert_eq!(extract_response_type(&void), None);
    assert_eq!(extract_response_type(&Vec::new()), None);
}

#[test]
fn an_operation_without_tags_is_in_no_domain() {
    let spec = SwaggerSpec {
        tags: vec![SwaggerTag { name: "Pets".to_string(), description: String::new() }],
        paths: vec![("/health".to_string(), vec![("get".to_string(), operation("health", &[]))])],
        ..document()
    };
    let domains = extract_domains(&spec);
    assert_eq!(names(&domains), vec!["Pets".to_string()]);
    assert!(domains[0].endpoints.is_empty());
}

#[test]
fn an_operation_with_tags_is_in_the_domain_of_each() {
    let mut op = operation("findThings", &["Pets", "Store", "Users"]);
    op.summary = "Find things".to_string();
    op.parameters = vec![parameter("q", "query", false)];
    op.responses = vec![("200".to_string(), response(Some(reference("#/definitions/Thing"))))];
    let spec = SwaggerSpec {
        tags: vec![
            SwaggerTag { name: "Store".to_string(), description: "The store".to_string() },
            SwaggerTag { name: "Empty".to_string(), description: String::new() },
        ],
        paths: vec![
            ("/things".to_string(), vec![
                ("post".to_string(), op),
                ("delete".to_string(), operation("dropThings", &["Pets"])),
            ]),
        ],
        ..document()
    };
    let domains = extract_domains(&spec);
    assert_eq!(
        names(&domains),
        vec!["Store".to_string(), "Empty".to_string(), "Pets".to_string(), "Users".to_string()]
    );
    assert_eq!(domains[0].description, "The store");
    assert_eq!(domains[2].description, "");
    let counts: Vec<usize> = domains.iter().map(|d| d.endpoints.len()).collect();
    assert_eq!(counts, vec![1, 0, 2, 1]);
    for d in [&domains[0], &domains[2], &domains[3]] {
        let e = &d.endpoints[0];
        assert_eq!(e.path, "/things");
        assert_eq!(e.method, "POST");
        assert_eq!(e.operation_id, "findThings");
        assert_eq!(e.summary, "Find things");
        assert_eq!(e.parameters.len(), 1);
        assert_eq!(e.parameters[0].name, "q");
        assert_eq!(e.parameters[0].location, "query");
        assert_eq!(e.response_type, Some("Thing".to_string()));
    }
    assert_eq!(domains[2].endpoints[1].operation_id, "dropThings");
    assert_eq!(domains[2].endpoints[1].method, "DELETE");
    assert_eq!(domains[2].endpoints[1].response_type, None);
}

#[test]
fn a_tag_written_twice_on_an_operation_gives_two_endpoints() {
    let spec = SwaggerSpec {
        paths: vec![("/a".to_string(), vec![("get".to_string(), operation("a", &["X", "X"]))])],
        ..document()
    };
    let domains = extract_domains(&spec);
    assert_eq!(names(&domains), vec!["X".to_string()]);
    assert_eq!(domains[0].endpoints.len(), 2);
}

#[test]
fn a_tag_declared_twice_keeps_the_later_description() {
    let spec = SwaggerSpec {
        tags: vec![
            SwaggerTag { name: "Pets".to_string(), description: "first".to_string() },
            SwaggerTag { name: "Pets".to_string(), description: "second".to_string() },
        ],
        ..document()
    };
    let domains = extract_domains(&spec);
    assert_eq!(names(&domains), vec!["Pets".to_string()]);
    assert_eq!(domains[0].description, "second");
}

#[test]
fn the_feature_name_stands_between_features_and_data() {
    assert_eq!(
        get_feature_name_from_file_path("/p/lib/features/pets/data/models/pet_model.dart"),
        "pets"
    );
    assert_eq!(get_feature_name_from_file_path("lib/features/a/b/data/x"), "a/b");
    assert_eq!(get_feature_name_from_file_path("lib/features//data/x"), "");
    assert_eq!(get_feature_name_from_file_path("/data/lib/features/pets/models"), "unknown");
    assert_eq!(get_feature_name_from_file_path("lib/feature/pets/data/x"), "unknown");
    assert_eq!(get_feature_name_from_file_path(""), "unknown");
}

#[test]
fn the_model_class_of_the_pet_schema() {
    let info = extract_schema_info("Pet", &pet_schema());
    assert_eq!(
        generate_model_class("/proj/lib/features/pets/data/models/pet_model.dart", &info),
        PET_MODEL
    );
}

#[test]
fn the_entity_class_of_the_pet_schema() {
    let info = extract_schema_info("Pet", &pet_schema());
    assert_eq!(generate_entity_class(&info, "Pet"), PET_ENTITY);
}

#[test]
fn descriptions_json_keys_and_lists_show_in_the_classes() {
    let mut first = property("string");
    first.description = "Given name".to_string();
    let s = SwaggerSchema {
        description: "A user".to_string(),
        properties: vec![
            ("first-name".to_string(), first),
            ("tags".to_string(), array_of(schema("string"))),
        ],
        required: vec!["tags".to_string()],
        ..schema("object")
    };
    let info = extract_schema_info("UserModel", &s);
    let model = generate_model_class("models/user.dart", &info);
    assert!(model.starts_with(
        "import 'package:json_annotation/json_annotation.dart';\n/// A user\n@JsonSerializable()\nclass UserModelModel {\n  /// Given name\n  @JsonKey(name: 'first-name')\n  final String? firstName;\n\n  final List<String> tags;\n\n  UserModelModel({\n    this.firstName,\n    required this.tags,\n  });\n\n"
    ));
    assert!(model.contains("import 'package:{package_name}/core/entities/unknown/user.dart';\n\n"));
    assert!(model.contains("\n  // Convert to Entity\n  User toEntity() {\n    return User(\n"));
    assert!(model.contains("  factory UserModelModel.fromEntity(User entity) {\n"));
    let entity = generate_entity_class(&info, "User");
    assert!(entity.starts_with(
        "import 'package:intl/intl.dart';\n\n/// A user\nclass User {\n  /// Given name\n  final String? firstName;\n\n  final List<String> tags;\n\n  const User({\n"
    ));
    assert!(entity.ends_with(
        "  User copyWith({\n    String?? firstName,\n    List<String>? tags,\n  }) {\n    return User(\n      firstName: firstName ?? this.firstName,\n      tags: tags ?? this.tags,\n    );\n  }\n}\n"
    ));
}

#[test]
fn the_conversion_hands_each_field_to_the_field_of_its_name() {
    let info = extract_schema_info("Pet", &pet_schema());
    let mut content = String::from("// head\n");
    update_model_class_with_entity_conversion(&mut content, &info, "PetModel", "Pet", "pets");
    assert_eq!(
        content,
        "// head\nimport 'package:{package_name}/core/entities/pets/pet.dart';\n\n\n  // Convert to Entity\n  Pet toEntity() {\n    return Pet(\n      id: id,\n      name: name,\n    );\n  }\n\n  // Create from Entity\n  factory PetModel.fromEntity(Pet entity) {\n    return PetModel(\n      id: entity.id,\n      name: entity.name,\n    );\n  }\n"
    );
}

#[test]
fn end_to_end_pet_document() {
    let spec = pet_document();
    let domains = extract_domains(&spec);
    assert_eq!(domains.len(), 1);
    assert_eq!(domains[0].name, "Pets");
    assert_eq!(domains[0].description, "All pets");
    assert_eq!(domains[0].endpoints.len(), 1);
    let e = &domains[0].endpoints[0];
    assert_eq!(e.method, "GET");
    assert_eq!(e.path, "/pets/{id}");
    assert_eq!(e.operation_id, "getPetById");
    assert_eq!(e.response_type, Some("Pet".to_string()));

    let plans = generate_api_features("/proj", &spec, None, true);
    assert_eq!(plans.len(), 1);
    let plan = &plans[0];
    assert_eq!(plan.domain, "Pets");
    assert_eq!(plan.feature_name, "pets");
    assert_eq!(plan.params.name, "pets");
    assert!(!plan.params.has_state_management);
    assert!(plan.params.has_repository && plan.params.has_models && plan.params.needs_di);
    assert_eq!(
        plan.models.directories,
        vec![
            "/proj/lib/features/pets/data/models".to_string(),
            "/proj/lib/core/entities/pets".to_string(),
        ]
    );
    assert!(plan.models.skipped.is_empty());
    assert_eq!(plan.models.files.len(), 2);
    assert_eq!(plan.models.files[0].path, "/proj/lib/features/pets/data/models/pet_model.dart");
    assert_eq!(plan.models.files[0].content, PET_MODEL);
    assert_eq!(plan.models.files[1].path, "/proj/lib/core/entities/pets/pet.dart");
    assert_eq!(plan.models.files[1].content, PET_ENTITY);
    assert_eq!(
        plan.datasources.directories,
        vec![
            "/proj/lib/features/pets/data/repository".to_string(),
            "/proj/lib/features/pets/data/datasources".to_string(),
        ]
    );
    assert_eq!(plan.datasources.files.len(), 3);
    assert_eq!(
        plan.datasources.files[0].path,
        "/proj/lib/features/pets/data/datasources/pets_remote_datasource.dart"
    );
    assert_eq!(plan.datasources.files[0].content, PETS_REMOTE);
    assert_eq!(
        plan.datasources.files[1].path,
        "/proj/lib/features/pets/data/datasources/pets_local_datasource.dart"
    );
    assert_eq!(plan.datasources.files[1].content, PETS_LOCAL);
    assert_eq!(
        plan.datasources.files[2].path,
        "/proj/lib/features/pets/data/repository/pets_repository.dart"
    );
    assert_eq!(
        plan.datasources.files[2].content,
        format!("{}{}", PETS_REPOSITORY_HEAD, PETS_REPOSITORY_REST)
    );
}

#[test]
fn a_response_type_without_schema_is_skipped() {
    let mut spec = pet_document();
    let mut widget = operation("getWidget", &["Pets"]);
    widget.responses =
        vec![("200".to_string(), response(Some(reference("#/definitions/Widget"))))];
    let mut again = operation("listPets", &["Pets"]);
    again.responses = vec![("201".to_string(), response(Some(reference("#/definitions/Pet"))))];
    spec.paths.insert(0, ("/widget".to_string(), vec![("get".to_string(), widget)]));
    spec.paths.push(("/pets".to_string(), vec![("get".to_string(), again)]));
    let domains = extract_domains(&spec);
    let table = extract_schemas(&spec);
    let models = generate_domain_models("out", "pets", &domains[0], &table);
    assert_eq!(models.skipped, vec!["Widget".to_string()]);
    assert_eq!(models.files.len(), 2);
    assert_eq!(models.files[0].path, "out/lib/features/pets/data/models/pet_model.dart");
    assert_eq!(models.files[0].content, PET_MODEL);
    assert_eq!(models.files[1].path, "out/lib/core/entities/pets/pet.dart");
    assert_eq!(models.files[1].content, PET_ENTITY);
    let sources = generate_domain_datasources("out", "pets", &domains[0]);
    assert_eq!(sources.files.len(), 3);
    assert!(sources.skipped.is_empty());
    assert!(sources.files[0].content.contains("  Future<Widget> getWidget();\n"));
    assert!(sources.files[0].content.contains("    return WidgetModel.fromJson(response.data);\n"));
    assert!(sources.files[2].content.contains("  Future<Either<Failure, Widget>> getWidget();\n"));
}

#[test]
fn the_filter_selects_domains_by_name() {
    let mut spec = pet_document();
    spec.tags.push(SwaggerTag { name: "Store Orders".to_string(), description: String::new() });
    let all = generate_api_features("", &spec, None, false);
    assert_eq!(all.len(), 2);
    assert!(all[0].params.has_state_management);
    assert_eq!(all[1].domain, "Store Orders");
    assert_eq!(all[1].feature_name, "store_orders");
    assert_eq!(all[1].models.directories[0], "lib/features/store_orders/data/models");
    assert!(all[1].models.files.is_empty());
    assert!(all[1].datasources.files[0].content.contains("class StoreOrders_RemoteDatasourceImpl"));
    let some = generate_api_features(
        "",
        &spec,
        Some(vec!["Store Orders".to_string(), "Nothing".to_string()]),
        true,
    );
    assert_eq!(some.len(), 1);
    assert_eq!(some[0].domain, "Store Orders");
    let none = generate_api_features("", &spec, Some(Vec::new()), true);
    assert!(none.is_empty());
}

#[test]
fn the_remote_datasource_of_a_domain() {
    let spec = pet_document();
    let domains = extract_domains(&spec);
    assert_eq!(generate_remote_datasource("pets", &domains[0]), PETS_REMOTE);
}

#[test]
fn the_remote_call_hands_on_query_and_body() {
    let mut e = endpoint("update_pet", "PUT", "/pets", None);
    e.summary = "Update".to_string();
    e.parameters = vec![
        parameter("X-Token", "header", true),
        parameter("limit", "query", false),
        parameter("pet", "body", true),
        parameter("offset", "query", true),
        parameter("other", "body", false),
        parameter("form", "formData", false),
    ];
    let domain = Domain {
        name: "Pets".to_string(),
        description: String::new(),
        endpoints: vec![e],
    };
    let text = generate_remote_datasource("pets", &domain);
    assert!(text.contains(
        "  /// Update\n  Future<void> updatePet(dynamic limit, required dynamic pet, required dynamic offset, dynamic other);\n"
    ));
    assert!(text.contains(
        "  @override\n  Future<void> updatePet(dynamic limit, required dynamic pet, required dynamic offset, dynamic other) async {\n    final response = await _apiClient.put('/pets', queryParameters: {'limit': limit, 'offset': offset}, data: pet);\n    return;\n  }\n\n"
    ));
    let repo = generate_repository("pets", &domain);
    assert!(repo.contains(
        "  @override\n  Future<Either<Failure, void>> updatePet(dynamic limit, required dynamic pet, required dynamic offset, dynamic other) async {\n    try {\n      final modelResult = await _remoteDatasource.updatePet(limit, pet, offset, other);\n      return const Right(null);\n    } on DioException catch (e) {\n"
    ));
}

#[test]
fn the_local_datasource_of_a_feature() {
    let domain = Domain { name: "Pets".to_string(), description: String::new(), endpoints: Vec::new() };
    assert_eq!(generate_local_datasource("pets", &domain), PETS_LOCAL);
}

#[test]
fn the_repository_of_a_domain() {
    let spec = pet_document();
    let domains = extract_domains(&spec);
    assert_eq!(generate_repository_formatted_content("pets", "Pets"), PETS_REPOSITORY_HEAD);
    assert_eq!(
        generate_repository("pets", &domains[0]),
        format!("{}{}", PETS_REPOSITORY_HEAD, PETS_REPOSITORY_REST)
    );
}

#[test]
fn the_repository_returns_the_entity_and_caches_reads_only() {
    let domain = Domain {
        name: "Users".to_string(),
        description: String::new(),
        endpoints: vec![endpoint("createUser", "POST", "/users", Some("UserModel"))],
    };
    let repo = generate_repository("users", &domain);
    assert!(repo.contains("  Future<Either<Failure, User>> createUser();\n"));
    assert!(repo.contains(
        "  @override\n  Future<Either<Failure, User>> createUser() async {\n    try {\n      final modelResult = await _remoteDatasource.createUser();\n      final entity = modelResult.toEntity();\n      return Right(entity);\n    } on DioException catch (e) {\n      return Left(NetworkFailure(message: e.message ?? 'Network error'));\n    } catch (e) {\n      return Left(UnexpectedFailure(message: e.toString()));\n    }\n  }\n\n}"
    ));
    assert!(!repo.contains("cacheData"));
}

#[test]
fn a_status_from_200_to_299_is_a_success() {
    assert!(check_status(200).is_ok());
    assert!(check_status(299).is_ok());
    assert!(matches!(check_status(199), Err(LoadError::Http(199))));
    assert!(matches!(check_status(300), Err(LoadError::Http(300))));
    assert!(matches!(check_status(404), Err(LoadError::Http(404))));
}

#[test]
fn a_schema_info_can_be_written_by_hand() {
    let info = SchemaInfo {
        name: "Empty".to_string(),
        properties: Vec::new(),
        required: Vec::new(),
        description: String::new(),
    };
    assert_eq!(generate_entity_class(&info, "Empty"), "\nclass Empty {\n  const Empty({\n  });\n\n  Empty copyWith({\n  }) {\n    return Empty(\n    );\n  }\n}\n");
}
