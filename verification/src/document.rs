use crate::text::{opt_text, texts, views};
use vstd::prelude::*;

verus! {

/// Title and version of an API document.
pub struct SwaggerInfo {
    pub title: String,
    pub version: String,
}

/// A declared tag: the name of a domain and what it is about.
pub struct SwaggerTag {
    pub name: String,
    pub description: String,
}

/// A schema definition. `properties` is a map written as a list of entries: where a
/// name occurs twice, the later entry counts.
pub struct SwaggerSchema {
    pub data_type: String,
    pub reference: Option<String>,
    pub properties: Vec<(String, SwaggerProperty)>,
    pub required: Vec<String>,
    pub description: String,
}

/// One property of a schema.
pub struct SwaggerProperty {
    pub data_type: String,
    pub format: Option<String>,
    pub reference: Option<String>,
    pub items: Option<Box<SwaggerSchema>>,
    pub description: String,
}

/// A parameter of an operation; `location` is one of `path`, `query`, `header`, `body`.
pub struct SwaggerParameter {
    pub name: String,
    pub location: String,
    pub required: bool,
    pub schema: Option<SwaggerSchema>,
}

/// One response of an operation.
pub struct SwaggerResponse {
    pub description: String,
    pub schema: Option<SwaggerSchema>,
}

/// One operation. `responses` maps a status code to a response, written as a list
/// of entries: where a status occurs twice, the later entry counts.
pub struct SwaggerOperation {
    pub tags: Vec<String>,
    pub summary: String,
    pub description: String,
    pub operation_id: String,
    pub parameters: Vec<SwaggerParameter>,
    pub responses: Vec<(String, SwaggerResponse)>,
}

/// The schemas of a document in the modern place, `components.schemas`.
pub struct SwaggerComponents {
    pub schemas: Vec<(String, SwaggerSchema)>,
}

/// An API document. `paths` lists each path with its operations by HTTP method;
/// `schemas` holds the legacy `definitions`, `components` the modern schemas.
pub struct SwaggerSpec {
    pub info: SwaggerInfo,
    pub tags: Vec<SwaggerTag>,
    pub paths: Vec<(String, Vec<(String, SwaggerOperation)>)>,
    pub schemas: Vec<(String, SwaggerSchema)>,
    pub components: Option<SwaggerComponents>,
}

/// Title and version of an API document, as texts.
pub ghost struct InfoView {
    pub title: Seq<char>,
    pub version: Seq<char>,
}

/// A declared tag, as texts.
pub ghost struct TagView {
    pub name: Seq<char>,
    pub description: Seq<char>,
}

/// A schema definition, as plain values.
pub ghost struct SchemaView {
    pub data_type: Seq<char>,
    pub reference: Option<Seq<char>>,
    pub properties: Seq<(Seq<char>, PropertyView)>,
    pub required: Seq<Seq<char>>,
    pub description: Seq<char>,
}

/// A property of a schema, as plain values.
pub ghost struct PropertyView {
    pub data_type: Seq<char>,
    pub format: Option<Seq<char>>,
    pub reference: Option<Seq<char>>,
    pub items: Option<SchemaView>,
    pub description: Seq<char>,
}

/// A parameter of an operation, as plain values.
pub ghost struct ParameterView {
    pub name: Seq<char>,
    pub location: Seq<char>,
    pub required: bool,
    pub schema: Option<SchemaView>,
}

/// A response of an operation, as plain values.
pub ghost struct ResponseView {
    pub description: Seq<char>,
    pub schema: Option<SchemaView>,
}

/// An operation, as plain values.
pub ghost struct OperationView {
    pub tags: Seq<Seq<char>>,
    pub summary: Seq<char>,
    pub description: Seq<char>,
    pub operation_id: Seq<char>,
    pub parameters: Seq<ParameterView>,
    pub responses: Seq<(Seq<char>, ResponseView)>,
}

/// An API document, as plain values: the legacy and the modern schemas side by side.
pub ghost struct SpecView {
    pub info: InfoView,
    pub tags: Seq<TagView>,
    pub paths: Seq<(Seq<char>, Seq<(Seq<char>, OperationView)>)>,
    pub legacy_schemas: Seq<(Seq<char>, SchemaView)>,
    pub modern_schemas: Seq<(Seq<char>, SchemaView)>,
}

impl View for SwaggerInfo {
    type V = InfoView;

    open spec fn view(&self) -> InfoView {
        InfoView { title: self.title@, version: self.version@ }
    }
}

impl View for SwaggerTag {
    type V = TagView;

    open spec fn view(&self) -> TagView {
        TagView { name: self.name@, description: self.description@ }
    }
}

/// What a schema holds, as plain values.
pub open spec fn schema_view(s: SwaggerSchema) -> SchemaView
    decreases s,
{
    SchemaView {
        data_type: s.data_type@,
        reference: opt_text(s.reference),
        properties: Seq::new(
            s.properties@.len(),
            |i: int|
                if 0 <= i < s.properties@.len() {
                    (s.properties@[i].0@, property_view(s.properties@[i].1))
                } else {
                    arbitrary()
                },
        ),
        required: texts(s.required@),
        description: s.description@,
    }
}

/// What a property holds, as plain values.
pub open spec fn property_view(p: SwaggerProperty) -> PropertyView
    decreases p,
{
    PropertyView {
        data_type: p.data_type@,
        format: opt_text(p.format),
        reference: opt_text(p.reference),
        items: match p.items {
            Some(b) => Some(schema_view(*b)),
            None => None,
        },
        description: p.description@,
    }
}

impl View for SwaggerSchema {
    type V = SchemaView;

    open spec fn view(&self) -> SchemaView {
        schema_view(*self)
    }
}

impl View for SwaggerProperty {
    type V = PropertyView;

    open spec fn view(&self) -> PropertyView {
        property_view(*self)
    }
}

/// The view of an optional schema.
pub open spec fn opt_schema(o: Option<SwaggerSchema>) -> Option<SchemaView> {
    match o {
        Some(s) => Some(s@),
        None => None,
    }
}

/// The views of a list of named schemas, in order.
pub open spec fn schema_entries(v: Seq<(String, SwaggerSchema)>) -> Seq<(Seq<char>, SchemaView)> {
    v.map_values(|e: (String, SwaggerSchema)| (e.0@, e.1@))
}

impl View for SwaggerParameter {
    type V = ParameterView;

    open spec fn view(&self) -> ParameterView {
        ParameterView {
            name: self.name@,
            location: self.location@,
            required: self.required,
            schema: opt_schema(self.schema),
        }
    }
}

impl View for SwaggerResponse {
    type V = ResponseView;

    open spec fn view(&self) -> ResponseView {
        ResponseView { description: self.description@, schema: opt_schema(self.schema) }
    }
}

/// The views of a list of parameters, in order.
pub open spec fn parameter_views(v: Seq<SwaggerParameter>) -> Seq<ParameterView> {
    views(v)
}

/// The views of a list of responses by status, in order.
pub open spec fn response_entries(v: Seq<(String, SwaggerResponse)>) -> Seq<
    (Seq<char>, ResponseView),
> {
    v.map_values(|e: (String, SwaggerResponse)| (e.0@, e.1@))
}

impl View for SwaggerOperation {
    type V = OperationView;

    open spec fn view(&self) -> OperationView {
        OperationView {
            tags: texts(self.tags@),
            summary: self.summary@,
            description: self.description@,
            operation_id: self.operation_id@,
            parameters: parameter_views(self.parameters@),
            responses: response_entries(self.responses@),
        }
    }
}

/// The views of the operations of one path by method, in order.
pub open spec fn method_entries(v: Seq<(String, SwaggerOperation)>) -> Seq<
    (Seq<char>, OperationView),
> {
    v.map_values(|e: (String, SwaggerOperation)| (e.0@, e.1@))
}

/// The views of the paths of a document, in order.
pub open spec fn path_entries(v: Seq<(String, Vec<(String, SwaggerOperation)>)>) -> Seq<
    (Seq<char>, Seq<(Seq<char>, OperationView)>),
> {
    v.map_values(|e: (String, Vec<(String, SwaggerOperation)>)| (e.0@, method_entries(e.1@)))
}

/// The views of a list of tags, in order.
pub open spec fn tag_views(v: Seq<SwaggerTag>) -> Seq<TagView> {
    v.map_values(|t: SwaggerTag| t@)
}

impl View for SwaggerSpec {
    type V = SpecView;

    open spec fn view(&self) -> SpecView {
        SpecView {
            info: self.info@,
            tags: tag_views(self.tags@),
            paths: path_entries(self.paths@),
            legacy_schemas: schema_entries(self.schemas@),
            modern_schemas: match self.components {
                Some(c) => schema_entries(c.schemas@),
                None => Seq::empty(),
            },
        }
    }
}

/// A copy of an optional string.
pub fn clone_opt_text(o: &Option<String>) -> (r: Option<String>)
    ensures
        opt_text(r) == opt_text(*o),
{
    match o {
        Some(s) => Some(s.clone()),
        None => None,
    }
}

/// A copy of a list of strings.
pub fn clone_texts(v: &Vec<String>) -> (r: Vec<String>)
    ensures
        texts(r@) == texts(v@),
{
    let mut r: Vec<String> = Vec::new();
    let mut i: usize = 0;
    while i < v.len()
        invariant
            i <= v.len(),
            r.len() == i,
            forall|j: int| 0 <= j < i ==> r@[j]@ == v@[j]@,
        decreases v.len() - i,
    {
        r.push(v[i].clone());
        i += 1;
    }
    assert(texts(r@) =~= texts(v@));
    r
}

/// A deep copy of a schema.
pub fn clone_schema(s: &SwaggerSchema) -> (r: SwaggerSchema)
    ensures
        r@ == s@,
    decreases s,
{
    let mut properties: Vec<(String, SwaggerProperty)> = Vec::new();
    let mut i: usize = 0;
    while i < s.properties.len()
        invariant
            i <= s.properties.len(),
            properties.len() == i,
            forall|j: int|
                0 <= j < i ==> properties@[j].0@ == s.properties@[j].0@ && properties@[j].1@
                    == s.properties@[j].1@,
        decreases s.properties.len() - i,
    {
        let name = s.properties[i].0.clone();
        let property = clone_property(&s.properties[i].1);
        properties.push((name, property));
        i += 1;
    }
    let r = SwaggerSchema {
        data_type: s.data_type.clone(),
        reference: clone_opt_text(&s.reference),
        properties,
        required: clone_texts(&s.required),
        description: s.description.clone(),
    };
    assert(r@.properties.len() == s@.properties.len());
    assert forall|j: int| 0 <= j < r@.properties.len() implies r@.properties[j]
        == s@.properties[j] by {
        assert(r.properties@[j].0@ == s.properties@[j].0@);
        assert(r.properties@[j].1@ == s.properties@[j].1@);
    }
    assert(r@.properties =~= s@.properties);
    r
}

/// A deep copy of a property.
pub fn clone_property(p: &SwaggerProperty) -> (r: SwaggerProperty)
    ensures
        r@ == p@,
    decreases p,
{
    let items = match &p.items {
        Some(b) => Some(Box::new(clone_schema(b))),
        None => None,
    };
    SwaggerProperty {
        data_type: p.data_type.clone(),
        format: clone_opt_text(&p.format),
        reference: clone_opt_text(&p.reference),
        items,
        description: p.description.clone(),
    }
}

impl Clone for SwaggerSchema {
    fn clone(&self) -> (r: Self)
        ensures
            r@ == self@,
    {
        clone_schema(self)
    }
}

impl Clone for SwaggerProperty {
    fn clone(&self) -> (r: Self)
        ensures
            r@ == self@,
    {
        clone_property(self)
    }
}

impl Clone for SwaggerParameter {
    fn clone(&self) -> (r: Self)
        ensures
            r@ == self@,
    {
        let schema = match &self.schema {
            Some(s) => Some(clone_schema(s)),
            None => None,
        };
        SwaggerParameter {
            name: self.name.clone(),
            location: self.location.clone(),
            required: self.required,
            schema,
        }
    }
}

/// A deep copy of a list of parameters.
pub fn clone_parameters(v: &Vec<SwaggerParameter>) -> (r: Vec<SwaggerParameter>)
    ensures
        parameter_views(r@) == parameter_views(v@),
{
    let mut r: Vec<SwaggerParameter> = Vec::new();
    let mut i: usize = 0;
    while i < v.len()
        invariant
            i <= v.len(),
            r.len() == i,
            forall|j: int| 0 <= j < i ==> r@[j]@ == v@[j]@,
        decreases v.len() - i,
    {
        r.push(v[i].clone());
        i += 1;
    }
    assert(parameter_views(r@) =~= parameter_views(v@));
    r
}

} // verus!
