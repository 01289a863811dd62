use crate::casing::{case_text, to_case, CaseStyle};
use crate::schemas::{PropertyInfo, PropertyInfoView, SchemaInfo, SchemaInfoView};
use crate::text::{
    chars_of, concat_map, concat_map_step, contains_text, find_from, find_in, find_text, has_text,
    list_has, push_each, strip_suffix, substring, text_contains, texts, without_suffix,
};
use vstd::prelude::*;
use vstd::string::*;

verus! {

/// The name of a property in the generated code.
pub open spec fn dart_name(name: Seq<char>) -> Seq<char> {
    case_text(name, CaseStyle::Camel)
}

/// The type of a property as it is declared: with a `?` where it may be missing.
pub open spec fn declared_type(p: PropertyInfoView) -> Seq<char> {
    if p.is_nullable {
        p.dart_type + "?"@
    } else {
        p.dart_type
    }
}

/// A documentation line behind `indent`; nothing for an empty description.
pub open spec fn doc_line(indent: Seq<char>, description: Seq<char>) -> Seq<char> {
    if description.len() == 0 {
        Seq::empty()
    } else {
        indent + "/// "@ + description + "\n"@
    }
}

/// The name cannot be written as an identifier, so the field names its JSON key.
pub open spec fn needs_json_key(name: Seq<char>) -> bool {
    contains_text(name, "-"@) || contains_text(name, "."@) || contains_text(name, " "@)
}

/// The annotation that names the JSON key of a field, where it needs one.
pub open spec fn json_key_line(name: Seq<char>) -> Seq<char> {
    if needs_json_key(name) {
        "  @JsonKey(name: '"@ + name + "')\n"@
    } else {
        Seq::empty()
    }
}

/// The declaration of one field.
pub open spec fn field_line(p: PropertyInfoView) -> Seq<char> {
    "  final "@ + declared_type(p) + " "@ + dart_name(p.name) + ";\n\n"@
}

/// One field of a model: documentation, JSON key, declaration.
pub open spec fn model_field_text(p: PropertyInfoView) -> Seq<char> {
    doc_line("  "@, p.description) + json_key_line(p.name) + field_line(p)
}

/// One field of an entity: documentation and declaration.
pub open spec fn entity_field_text(p: PropertyInfoView) -> Seq<char> {
    doc_line("  "@, p.description) + field_line(p)
}

/// One parameter of a constructor: required exactly where the schema requires the
/// property.
pub open spec fn constructor_line(p: PropertyInfoView, required: Seq<Seq<char>>) -> Seq<char> {
    if has_text(required, p.name) {
        "    required this."@ + dart_name(p.name) + ",\n"@
    } else {
        "    this."@ + dart_name(p.name) + ",\n"@
    }
}

/// A constructor that takes every property by name.
pub open spec fn constructor_text(head: Seq<char>, schema: SchemaInfoView) -> Seq<char> {
    head + "({\n"@ + concat_map(
        schema.properties,
        |p: PropertyInfoView| constructor_line(p, schema.required),
    ) + "  });\n\n"@
}

/// The two serialisation methods of a model, which hand the work to generated code.
pub open spec fn json_methods_text(class_name: Seq<char>) -> Seq<char> {
    "  factory "@ + class_name + ".fromJson(Map<String, dynamic> json) => _$"@ + class_name
        + "FromJson(json);\n\n"@ + "  Map<String, dynamic> toJson() => _$"@ + class_name
        + "ToJson(this);\n"@
}

/// How a conversion fills one field: the field that is written, and the field of the
/// other side that is read. Both conversions hand each field to the field of the same
/// name.
pub open spec fn field_assignment(p: PropertyInfoView) -> (Seq<char>, Seq<char>) {
    (dart_name(p.name), dart_name(p.name))
}

/// One field handed from a model to its entity.
pub open spec fn to_entity_line(p: PropertyInfoView) -> Seq<char> {
    "      "@ + field_assignment(p).0 + ": "@ + field_assignment(p).1 + ",\n"@
}

/// One field handed from an entity to its model.
pub open spec fn from_entity_line(p: PropertyInfoView) -> Seq<char> {
    "      "@ + field_assignment(p).0 + ": entity."@ + field_assignment(p).1 + ",\n"@
}

/// The record has a field called `field` after a conversion: some property's
/// assignment writes it.
pub open spec fn is_converted_field(schema: SchemaInfoView, field: Seq<char>) -> bool {
    exists|i: int|
        0 <= i < schema.properties.len() && field_assignment(
            #[trigger] schema.properties[i],
        ).0 == field
}

/// What a conversion makes of a record, given as a map from field names to values:
/// a record with the fields that the assignments write, each holding what the field
/// that its assignment reads held before.
pub open spec fn converted_record<V>(schema: SchemaInfoView, record: Map<Seq<char>, V>) -> Map<
    Seq<char>,
    V,
> {
    Map::new(
        |field: Seq<char>| is_converted_field(schema, field),
        |field: Seq<char>|
            {
                let i = choose|i: int|
                    0 <= i < schema.properties.len() && field_assignment(
                        #[trigger] schema.properties[i],
                    ).0 == field;
                record[field_assignment(schema.properties[i]).1]
            },
    )
}

/// A record that holds the fields of a schema's model, converted to the entity and
/// back to the model, is the record it was: every field has the value it had.
pub proof fn entity_round_trip<V>(schema: SchemaInfoView, model: Map<Seq<char>, V>)
    requires
        forall|field: Seq<char>| model.contains_key(field) <==> is_converted_field(schema, field),
    ensures
        converted_record(schema, converted_record(schema, model)) == model,
{
    let entity = converted_record(schema, model);
    let back = converted_record(schema, entity);
    assert forall|field: Seq<char>| back.contains_key(field) implies back[field]
        == model[field] by {
        let i = choose|i: int|
            0 <= i < schema.properties.len() && field_assignment(
                #[trigger] schema.properties[i],
            ).0 == field;
        assert(field_assignment(schema.properties[i]).1 == field);
        assert(entity.contains_key(field));
    }
    assert(back =~= model);
}

/// The import of the file that holds the entity of a feature.
pub open spec fn entity_import_text(entity_name: Seq<char>, feature_name: Seq<char>) -> Seq<char> {
    "import 'package:{package_name}/core/entities/"@ + feature_name + "/"@ + case_text(
        entity_name,
        CaseStyle::Snake,
    ) + ".dart';\n\n"@
}

/// The method of a model that gives its entity: each field goes to the field of the
/// same name.
pub open spec fn to_entity_text(schema: SchemaInfoView, entity_name: Seq<char>) -> Seq<char> {
    "\n  // Convert to Entity\n  "@ + entity_name + " toEntity() {\n"@ + "    return "@
        + entity_name + "(\n"@ + concat_map(
        schema.properties,
        |p: PropertyInfoView| to_entity_line(p),
    ) + "    );\n"@ + "  }\n\n"@
}

/// The factory of a model that takes its entity: each field comes from the field of
/// the same name.
pub open spec fn from_entity_text(
    schema: SchemaInfoView,
    model_name: Seq<char>,
    entity_name: Seq<char>,
) -> Seq<char> {
    "  // Create from Entity\n  factory "@ + model_name + ".fromEntity("@ + entity_name
        + " entity) {\n"@ + "    return "@ + model_name + "(\n"@ + concat_map(
        schema.properties,
        |p: PropertyInfoView| from_entity_line(p),
    ) + "    );\n"@ + "  }\n"@
}

/// The import of the entity and the two conversions between a model and its entity.
pub open spec fn entity_conversion_text(
    schema: SchemaInfoView,
    model_name: Seq<char>,
    entity_name: Seq<char>,
    feature_name: Seq<char>,
) -> Seq<char> {
    entity_import_text(entity_name, feature_name) + to_entity_text(schema, entity_name)
        + from_entity_text(schema, model_name, entity_name)
}

/// The name of the entity of a schema: the schema's name without `Model` at its end.
pub open spec fn entity_name_of(schema_name: Seq<char>) -> Seq<char> {
    without_suffix(schema_name, "Model"@)
}

/// The feature that a path lies in: what stands between the first `lib/features/` and
/// the next `/data/`; `unknown` where the path has no such part.
pub open spec fn feature_name_in_path(path: Seq<char>) -> Seq<char> {
    match find_text(path, "lib/features/"@) {
        Some(start) => {
            let from = start + "lib/features/"@.len();
            match find_from(path, "/data/"@, from) {
                Some(end) => path.subrange(from, end),
                None => "unknown"@,
            }
        },
        None => "unknown"@,
    }
}

/// The text of the model class of a schema, written to a file at `file_path`.
pub open spec fn model_class_text(file_path: Seq<char>, schema: SchemaInfoView) -> Seq<char> {
    let class_name = schema.name + "Model"@;
    "import 'package:json_annotation/json_annotation.dart';\n"@ + doc_line(
        Seq::empty(),
        schema.description,
    ) + "@JsonSerializable()\n"@ + "class "@ + class_name + " {\n"@ + concat_map(
        schema.properties,
        |p: PropertyInfoView| model_field_text(p),
    ) + constructor_text("  "@ + class_name, schema) + json_methods_text(class_name)
        + entity_conversion_text(
        schema,
        class_name,
        entity_name_of(schema.name),
        feature_name_in_path(file_path),
    ) + "}\n"@
}

/// One parameter of `copyWith`: an optional new value for a field.
pub open spec fn copy_with_parameter(p: PropertyInfoView) -> Seq<char> {
    "    "@ + declared_type(p) + "? "@ + dart_name(p.name) + ",\n"@
}

/// One field of the copy: the new value, or the present one where none was given.
pub open spec fn copy_with_field(p: PropertyInfoView) -> Seq<char> {
    "      "@ + dart_name(p.name) + ": "@ + dart_name(p.name) + " ?? this."@ + dart_name(p.name)
        + ",\n"@
}

/// The `copyWith` method of an entity.
pub open spec fn copy_with_text(schema: SchemaInfoView, entity_name: Seq<char>) -> Seq<char> {
    "  "@ + entity_name + " copyWith({\n"@ + concat_map(
        schema.properties,
        |p: PropertyInfoView| copy_with_parameter(p),
    ) + "  }) {\n"@ + "    return "@ + entity_name + "(\n"@ + concat_map(
        schema.properties,
        |p: PropertyInfoView| copy_with_field(p),
    ) + "    );\n"@ + "  }\n"@
}

/// Some property of the schema has the type `dateTime` or is a list.
pub open spec fn needs_intl(schema: SchemaInfoView) -> bool {
    (exists|i: int| 0 <= i < schema.properties.len() && schema.properties[i].dart_type
        == "dateTime"@) || (exists|i: int|
        0 <= i < schema.properties.len() && schema.properties[i].is_list)
}

/// The text of the entity class of a schema.
pub open spec fn entity_class_text(schema: SchemaInfoView, entity_name: Seq<char>) -> Seq<char> {
    (if needs_intl(schema) {
        "import 'package:intl/intl.dart';\n"@
    } else {
        Seq::empty()
    }) + "\n"@ + doc_line(Seq::empty(), schema.description) + "class "@ + entity_name + " {\n"@
        + concat_map(schema.properties, |p: PropertyInfoView| entity_field_text(p))
        + constructor_text("  const "@ + entity_name, schema) + copy_with_text(schema, entity_name)
        + "}\n"@
}

/// The name of a property in the generated code.
fn dart_name_of(name: &str) -> (r: String)
    ensures
        r@ == dart_name(name@),
{
    to_case(name, CaseStyle::Camel)
}

/// Appends a documentation line behind `indent`, unless the description is empty.
fn push_doc_line(content: &mut String, indent: &str, description: &str)
    ensures
        final(content)@ == old(content)@ + doc_line(indent@, description@),
{
    if description.unicode_len() > 0 {
        let ghost before = content@;
        content.append(indent);
        content.append("/// ");
        content.append(description);
        content.append("\n");
        assert(content@ =~= before + (indent@ + "/// "@ + description@ + "\n"@));
    } else {
        assert(content@ =~= content@ + Seq::<char>::empty());
    }
}

/// Appends the declaration of one field.
fn push_field_line(content: &mut String, p: &PropertyInfo)
    ensures
        final(content)@ == old(content)@ + field_line(p@),
{
    let ghost before = content@;
    let name = dart_name_of(p.name.as_str());
    content.append("  final ");
    content.append(p.dart_type.as_str());
    if p.is_nullable {
        content.append("?");
    }
    content.append(" ");
    content.append(name.as_str());
    content.append(";\n\n");
    assert(content@ =~= before + field_line(p@));
}

/// The name cannot be written as an identifier.
fn name_needs_json_key(name: &str) -> (r: bool)
    ensures
        r == needs_json_key(name@),
{
    text_contains(name, "-") || text_contains(name, ".") || text_contains(name, " ")
}

/// One field of a model.
fn model_field(p: &PropertyInfo) -> (r: String)
    ensures
        r@ == model_field_text(p@),
{
    let mut r = String::new();
    push_doc_line(&mut r, "  ", p.description.as_str());
    if name_needs_json_key(p.name.as_str()) {
        r.append("  @JsonKey(name: '");
        r.append(p.name.as_str());
        r.append("')\n");
    }
    push_field_line(&mut r, p);
    assert(r@ =~= model_field_text(p@));
    r
}

/// One parameter of a constructor.
fn constructor_parameter(p: &PropertyInfo, required: &Vec<String>) -> (r: String)
    ensures
        r@ == constructor_line(p@, texts(required@)),
{
    let name = dart_name_of(p.name.as_str());
    let mut r = String::new();
    if list_has(required, p.name.as_str()) {
        r.append("    required this.");
    } else {
        r.append("    this.");
    }
    r.append(name.as_str());
    r.append(",\n");
    assert(r@ =~= constructor_line(p@, texts(required@)));
    r
}

/// Appends the fields of a model.
fn push_model_fields(content: &mut String, schema: &SchemaInfo)
    ensures
        final(content)@ == old(content)@ + concat_map(
            schema@.properties,
            |p: PropertyInfoView| model_field_text(p),
        ),
{
    push_each(
        content,
        &schema.properties,
        model_field,
        Ghost(|p: PropertyInfoView| model_field_text(p)),
    );
}

/// Appends a constructor that takes every property by name.
fn push_constructor(content: &mut String, head: &str, schema: &SchemaInfo)
    ensures
        final(content)@ == old(content)@ + constructor_text(head@, schema@),
{
    let ghost before = content@;
    content.append(head);
    content.append("({\n");
    let ghost start = content@;
    let ghost props = schema@.properties;
    let ghost f = |p: PropertyInfoView| constructor_line(p, schema@.required);
    let mut i: usize = 0;
    assert(props.take(0) =~= Seq::<PropertyInfoView>::empty());
    assert(content@ =~= start + Seq::<char>::empty());
    while i < schema.properties.len()
        invariant
            i <= schema.properties.len(),
            props == schema@.properties,
            f == |p: PropertyInfoView| constructor_line(p, schema@.required),
            content@ == start + concat_map(props.take(i as int), f),
        decreases schema.properties.len() - i,
    {
        proof {
            concat_map_step(props, f, i as int);
        }
        let line = constructor_parameter(&schema.properties[i], &schema.required);
        content.append(line.as_str());
        assert(content@ =~= start + (concat_map(props.take(i as int), f) + f(props[i as int])));
        i += 1;
    }
    assert(props.take(props.len() as int) =~= props);
    content.append("  });\n\n");
    assert(content@ =~= before + constructor_text(head@, schema@));
}

/// Appends the two serialisation methods of a model.
fn push_json_methods(content: &mut String, class_name: &str)
    ensures
        final(content)@ == old(content)@ + json_methods_text(class_name@),
{
    let ghost before = content@;
    content.append("  factory ");
    content.append(class_name);
    content.append(".fromJson(Map<String, dynamic> json) => _$");
    content.append(class_name);
    content.append("FromJson(json);\n\n");
    content.append("  Map<String, dynamic> toJson() => _$");
    content.append(class_name);
    content.append("ToJson(this);\n");
    assert(content@ =~= before + json_methods_text(class_name@));
}

/// One field handed from a model to its entity.
fn to_entity_field(p: &PropertyInfo) -> (r: String)
    ensures
        r@ == to_entity_line(p@),
{
    let name = dart_name_of(p.name.as_str());
    let mut r = "      ".to_owned();
    r.append(name.as_str());
    r.append(": ");
    r.append(name.as_str());
    r.append(",\n");
    r
}

/// One field handed from an entity to its model.
fn from_entity_field(p: &PropertyInfo) -> (r: String)
    ensures
        r@ == from_entity_line(p@),
{
    let name = dart_name_of(p.name.as_str());
    let mut r = "      ".to_owned();
    r.append(name.as_str());
    r.append(": entity.");
    r.append(name.as_str());
    r.append(",\n");
    r
}

/// Appends the import of the file that holds the entity.
fn push_entity_import(content: &mut String, entity_name: &str, feature_name: &str)
    ensures
        final(content)@ == old(content)@ + entity_import_text(entity_name@, feature_name@),
{
    let ghost before = content@;
    let entity_file = to_case(entity_name, CaseStyle::Snake);
    content.append("import 'package:{package_name}/core/entities/");
    content.append(feature_name);
    content.append("/");
    content.append(entity_file.as_str());
    content.append(".dart';\n\n");
    assert(content@ =~= before + entity_import_text(entity_name@, feature_name@));
}

/// Appends the method of a model that gives its entity.
fn push_to_entity(content: &mut String, schema: &SchemaInfo, entity_name: &str)
    ensures
        final(content)@ == old(content)@ + to_entity_text(schema@, entity_name@),
{
    let ghost before = content@;
    content.append("\n  // Convert to Entity\n  ");
    content.append(entity_name);
    content.append(" toEntity() {\n");
    content.append("    return ");
    content.append(entity_name);
    content.append("(\n");
    push_each(
        content,
        &schema.properties,
        to_entity_field,
        Ghost(|p: PropertyInfoView| to_entity_line(p)),
    );
    content.append("    );\n");
    content.append("  }\n\n");
    assert(content@ =~= before + to_entity_text(schema@, entity_name@));
}

/// Appends the factory of a model that takes its entity.
fn push_from_entity(
    content: &mut String,
    schema: &SchemaInfo,
    model_name: &str,
    entity_name: &str,
)
    ensures
        final(content)@ == old(content)@ + from_entity_text(schema@, model_name@, entity_name@),
{
    let ghost before = content@;
    content.append("  // Create from Entity\n  factory ");
    content.append(model_name);
    content.append(".fromEntity(");
    content.append(entity_name);
    content.append(" entity) {\n");
    content.append("    return ");
    content.append(model_name);
    content.append("(\n");
    push_each(
        content,
        &schema.properties,
        from_entity_field,
        Ghost(|p: PropertyInfoView| from_entity_line(p)),
    );
    content.append("    );\n");
    content.append("  }\n");
    assert(content@ =~= before + from_entity_text(schema@, model_name@, entity_name@));
}

/// Appends to a model class the import of its entity and the two conversions between
/// the model and the entity, which hand each field to the field of the same name.
pub fn update_model_class_with_entity_conversion(
    content: &mut String,
    schema: &SchemaInfo,
    model_name: &str,
    entity_name: &str,
    feature_name: &str,
)
    ensures
        final(content)@ == old(content)@ + entity_conversion_text(
            schema@,
            model_name@,
            entity_name@,
            feature_name@,
        ),
{
    let ghost before = content@;
    push_entity_import(content, entity_name, feature_name);
    push_to_entity(content, schema, entity_name);
    push_from_entity(content, schema, model_name, entity_name);
    assert(content@ =~= before + entity_conversion_text(
        schema@,
        model_name@,
        entity_name@,
        feature_name@,
    ));
}

/// The feature that a path lies in: what stands between the first `lib/features/` and
/// the next `/data/`; `unknown` where the path has no such part.
pub fn get_feature_name_from_file_path(file_path: &str) -> (r: String)
    ensures
        r@ == feature_name_in_path(file_path@),
{
    let path = chars_of(file_path);
    let features_pattern = chars_of("lib/features/");
    let data_pattern = chars_of("/data/");
    match find_in(&path, &features_pattern, 0) {
        Some(start) => {
            let from: usize = start + features_pattern.len();
            match find_in(&path, &data_pattern, from) {
                Some(end) => {
                    substring(&path, from, end)
                },
                None => "unknown".to_owned(),
            }
        },
        None => "unknown".to_owned(),
    }
}

/// The text of the model class of a schema: its fields, a constructor that requires
/// the schema's required properties, the two serialisation methods, and the
/// conversions to and from the entity. `file_path` is where the text will be
/// written; the import of the entity names the feature that the path lies in.
pub fn generate_model_class(file_path: &str, schema: &SchemaInfo) -> (content: String)
    ensures
        content@ == model_class_text(file_path@, schema@),
{
    let mut class_name = schema.name.clone();
    class_name.append("Model");
    let entity_name = strip_suffix(schema.name.as_str(), "Model");
    let feature_name = get_feature_name_from_file_path(file_path);
    let mut head = "  ".to_owned();
    head.append(class_name.as_str());
    let mut content = String::new();
    content.append("import 'package:json_annotation/json_annotation.dart';\n");
    push_doc_line(&mut content, "", schema.description.as_str());
    content.append("@JsonSerializable()\n");
    content.append("class ");
    content.append(class_name.as_str());
    content.append(" {\n");
    push_model_fields(&mut content, schema);
    push_constructor(&mut content, head.as_str(), schema);
    push_json_methods(&mut content, class_name.as_str());
    update_model_class_with_entity_conversion(
        &mut content,
        schema,
        class_name.as_str(),
        entity_name.as_str(),
        feature_name.as_str(),
    );
    content.append("}\n");
    proof {
        assert(""@ =~= Seq::<char>::empty()) by {
            reveal_strlit("");
        }
        assert(content@ =~= model_class_text(file_path@, schema@));
    }
    content
}

/// One field of an entity.
fn entity_field(p: &PropertyInfo) -> (r: String)
    ensures
        r@ == entity_field_text(p@),
{
    let mut r = String::new();
    push_doc_line(&mut r, "  ", p.description.as_str());
    push_field_line(&mut r, p);
    assert(r@ =~= entity_field_text(p@));
    r
}

/// One parameter of `copyWith`.
fn copy_with_parameter_of(p: &PropertyInfo) -> (r: String)
    ensures
        r@ == copy_with_parameter(p@),
{
    let name = dart_name_of(p.name.as_str());
    let mut r = "    ".to_owned();
    r.append(p.dart_type.as_str());
    if p.is_nullable {
        r.append("?");
    }
    r.append("? ");
    r.append(name.as_str());
    r.append(",\n");
    assert(r@ =~= copy_with_parameter(p@));
    r
}

/// One field of the copy that `copyWith` returns.
fn copy_with_field_of(p: &PropertyInfo) -> (r: String)
    ensures
        r@ == copy_with_field(p@),
{
    let name = dart_name_of(p.name.as_str());
    let mut r = "      ".to_owned();
    r.append(name.as_str());
    r.append(": ");
    r.append(name.as_str());
    r.append(" ?? this.");
    r.append(name.as_str());
    r.append(",\n");
    r
}

/// Appends the `copyWith` method of an entity.
fn push_copy_with(content: &mut String, schema: &SchemaInfo, entity_name: &str)
    ensures
        final(content)@ == old(content)@ + copy_with_text(schema@, entity_name@),
{
    let ghost before = content@;
    content.append("  ");
    content.append(entity_name);
    content.append(" copyWith({\n");
    push_each(
        content,
        &schema.properties,
        copy_with_parameter_of,
        Ghost(|p: PropertyInfoView| copy_with_parameter(p)),
    );
    content.append("  }) {\n");
    content.append("    return ");
    content.append(entity_name);
    content.append("(\n");
    push_each(
        content,
        &schema.properties,
        copy_with_field_of,
        Ghost(|p: PropertyInfoView| copy_with_field(p)),
    );
    content.append("    );\n");
    content.append("  }\n");
    assert(content@ =~= before + copy_with_text(schema@, entity_name@));
}

/// The text of the entity class of a schema: the same fields as the model, a constant
/// constructor, and a `copyWith` that takes an optional new value for every field and
/// keeps the present value where none is given.
pub fn generate_entity_class(schema: &SchemaInfo, entity_name: &str) -> (content: String)
    ensures
        content@ == entity_class_text(schema@, entity_name@),
{
    let mut head = "  const ".to_owned();
    head.append(entity_name);
    let mut content = String::new();
    let with_intl = schema.has_date_time_field() || schema.has_list_field();
    if with_intl {
        content.append("import 'package:intl/intl.dart';\n");
    }
    content.append("\n");
    push_doc_line(&mut content, "", schema.description.as_str());
    content.append("class ");
    content.append(entity_name);
    content.append(" {\n");
    push_each(
        &mut content,
        &schema.properties,
        entity_field,
        Ghost(|p: PropertyInfoView| entity_field_text(p)),
    );
    push_constructor(&mut content, head.as_str(), schema);
    push_copy_with(&mut content, schema, entity_name);
    content.append("}\n");
    proof {
        assert(""@ =~= Seq::<char>::empty()) by {
            reveal_strlit("");
        }
        assert(with_intl == needs_intl(schema@));
        assert(content@ =~= entity_class_text(schema@, entity_name@));
    }
    content
}

} // verus!
