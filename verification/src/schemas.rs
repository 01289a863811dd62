use crate::document::{
    clone_texts, PropertyView, SchemaView, SpecView, SwaggerProperty, SwaggerSchema, SwaggerSpec,
};
use crate::text::{
    distinct_texts, has_text, index_of_text, index_of_text_is_first, last_index_of_text,
    last_path_segment, last_segment, list_has, opt_text, text_eq, texts, views,
};
use vstd::prelude::*;
use vstd::string::*;

verus! {

/// One resolved property of a schema.
pub struct PropertyInfo {
    pub name: String,
    /// The name of the property's type in the generated code.
    pub dart_type: String,
    pub is_list: bool,
    pub is_nullable: bool,
    pub description: String,
    /// The schema that the property, or the items of its array, refers to.
    pub reference: Option<String>,
}

/// A resolved schema: its properties in the order of their first mention, no name twice.
pub struct SchemaInfo {
    pub name: String,
    pub properties: Vec<PropertyInfo>,
    pub required: Vec<String>,
    pub description: String,
}

/// A resolved property, as plain values.
pub ghost struct PropertyInfoView {
    pub name: Seq<char>,
    pub dart_type: Seq<char>,
    pub is_list: bool,
    pub is_nullable: bool,
    pub description: Seq<char>,
    pub reference: Option<Seq<char>>,
}

/// A resolved schema, as plain values.
pub ghost struct SchemaInfoView {
    pub name: Seq<char>,
    pub properties: Seq<PropertyInfoView>,
    pub required: Seq<Seq<char>>,
    pub description: Seq<char>,
}

impl View for PropertyInfo {
    type V = PropertyInfoView;

    open spec fn view(&self) -> PropertyInfoView {
        PropertyInfoView {
            name: self.name@,
            dart_type: self.dart_type@,
            is_list: self.is_list,
            is_nullable: self.is_nullable,
            description: self.description@,
            reference: opt_text(self.reference),
        }
    }
}

/// The views of a list of resolved properties, in order.
pub open spec fn property_infos(v: Seq<PropertyInfo>) -> Seq<PropertyInfoView> {
    views(v)
}

/// The names of a list of resolved properties, in order.
pub open spec fn property_names(v: Seq<PropertyInfoView>) -> Seq<Seq<char>> {
    v.map_values(|p: PropertyInfoView| p.name)
}

impl View for SchemaInfo {
    type V = SchemaInfoView;

    open spec fn view(&self) -> SchemaInfoView {
        SchemaInfoView {
            name: self.name@,
            properties: property_infos(self.properties@),
            required: texts(self.required@),
            description: self.description@,
        }
    }
}

/// The type that stands for a primitive type of the document in the generated code.
pub open spec fn mapped_type(t: Seq<char>) -> Seq<char> {
    if t == "integer"@ {
        "int"@
    } else if t == "number"@ {
        "double"@
    } else if t == "boolean"@ {
        "bool"@
    } else if t == "string"@ {
        "String"@
    } else if t == "object"@ {
        "Map<String,dynamic>"@
    } else {
        "dynamic"@
    }
}

/// The type name of a property: the schema it refers to; for an array, a list of what
/// its items are; else the mapped primitive type.
pub open spec fn resolved_type(p: PropertyView) -> Seq<char> {
    match p.reference {
        Some(r) => last_segment(r),
        None => if p.data_type == "array"@ {
            match p.items {
                Some(items) => match items.reference {
                    Some(r) => "List<"@ + last_segment(r) + ">"@,
                    None => "List<"@ + mapped_type(items.data_type) + ">"@,
                },
                None => "List<dynamic>"@,
            }
        } else {
            mapped_type(p.data_type)
        },
    }
}

/// The schema that a property, or the items of its array, refers to.
pub open spec fn resolved_reference(p: PropertyView) -> Option<Seq<char>> {
    match p.reference {
        Some(r) => Some(last_segment(r)),
        None => match p.items {
            Some(items) => match items.reference {
                Some(r) => Some(last_segment(r)),
                None => None,
            },
            None => None,
        },
    }
}

/// A property of a schema, resolved against the schema's list of required names.
pub open spec fn resolved_property(
    name: Seq<char>,
    p: PropertyView,
    required: Seq<Seq<char>>,
) -> PropertyInfoView {
    PropertyInfoView {
        name,
        dart_type: resolved_type(p),
        is_list: p.reference is None && p.data_type == "array"@,
        is_nullable: !has_text(required, name),
        description: p.description,
        reference: resolved_reference(p),
    }
}

/// `props` with `p` in the place of the property of its name, or at the end where no
/// property has its name.
pub open spec fn put_property(props: Seq<PropertyInfoView>, p: PropertyInfoView) -> Seq<
    PropertyInfoView,
> {
    match index_of_text(property_names(props), p.name) {
        Some(i) => props.update(i, p),
        None => props.push(p),
    }
}

/// The properties of a schema, resolved: where a name occurs twice among the entries,
/// the later entry counts.
pub open spec fn resolved_properties(
    entries: Seq<(Seq<char>, PropertyView)>,
    required: Seq<Seq<char>>,
) -> Seq<PropertyInfoView>
    decreases entries.len(),
{
    if entries.len() == 0 {
        Seq::empty()
    } else {
        put_property(
            resolved_properties(entries.drop_last(), required),
            resolved_property(entries.last().0, entries.last().1, required),
        )
    }
}

/// A schema of the document under `name`, resolved.
pub open spec fn resolved_schema(name: Seq<char>, s: SchemaView) -> SchemaInfoView {
    SchemaInfoView {
        name,
        properties: resolved_properties(s.properties, s.required),
        required: s.required,
        description: s.description,
    }
}

/// The type that stands for a primitive type of the document in the generated code.
pub fn map_type(swagger_type: &str) -> (r: String)
    ensures
        r@ == mapped_type(swagger_type@),
{
    if text_eq(swagger_type, "integer") {
        "int".to_owned()
    } else if text_eq(swagger_type, "number") {
        "double".to_owned()
    } else if text_eq(swagger_type, "boolean") {
        "bool".to_owned()
    } else if text_eq(swagger_type, "string") {
        "String".to_owned()
    } else if text_eq(swagger_type, "object") {
        "Map<String,dynamic>".to_owned()
    } else {
        "dynamic".to_owned()
    }
}

/// `List<` inner `>`.
fn list_of(inner: &str) -> (r: String)
    ensures
        r@ == "List<"@ + inner@ + ">"@,
{
    let mut r = "List<".to_owned();
    r.append(inner);
    r.append(">");
    r
}

/// The type name of a property in the generated code.
pub fn determine_property_type(prop: &SwaggerProperty) -> (r: String)
    ensures
        r@ == resolved_type(prop@),
{
    match &prop.reference {
        Some(ref_path) => last_path_segment(ref_path.as_str()),
        None => {
            if text_eq(prop.data_type.as_str(), "array") {
                match &prop.items {
                    Some(items) => match &items.reference {
                        Some(ref_path) => {
                            let model_name = last_path_segment(ref_path.as_str());
                            list_of(model_name.as_str())
                        },
                        None => {
                            let inner = map_type(items.data_type.as_str());
                            list_of(inner.as_str())
                        },
                    },
                    None => "List<dynamic>".to_owned(),
                }
            } else {
                map_type(prop.data_type.as_str())
            }
        },
    }
}

/// The schema that a property, or the items of its array, refers to.
fn property_reference(prop: &SwaggerProperty) -> (r: Option<String>)
    ensures
        opt_text(r) == resolved_reference(prop@),
{
    match &prop.reference {
        Some(ref_path) => Some(last_path_segment(ref_path.as_str())),
        None => match &prop.items {
            Some(items) => match &items.reference {
                Some(ref_path) => Some(last_path_segment(ref_path.as_str())),
                None => None,
            },
            None => None,
        },
    }
}

/// The position of the property called `name`.
fn property_position(props: &Vec<PropertyInfo>, name: &str) -> (r: Option<usize>)
    ensures
        match r {
            Some(i) => index_of_text(property_names(property_infos(props@)), name@) == Some(
                i as int,
            ) && i < props.len(),
            None => index_of_text(property_names(property_infos(props@)), name@) is None,
        },
{
    let ghost names = property_names(property_infos(props@));
    proof {
        index_of_text_is_first(names, name@);
    }
    let mut i: usize = 0;
    while i < props.len()
        invariant
            i <= props.len(),
            names == property_names(property_infos(props@)),
            forall|j: int| 0 <= j < i ==> names[j] != name@,
        decreases props.len() - i,
    {
        if text_eq(props[i].name.as_str(), name) {
            proof {
                assert(names[i as int] == props@[i as int]@.name);
                index_of_text_is_first(names, name@);
            }
            return Some(i);
        }
        i += 1;
    }
    None
}

/// A schema of the document under `name`, resolved.
pub fn extract_schema_info(name: &str, schema: &SwaggerSchema) -> (info: SchemaInfo)
    ensures
        info@ == resolved_schema(name@, schema@),
{
    let mut properties: Vec<PropertyInfo> = Vec::new();
    let mut i: usize = 0;
    while i < schema.properties.len()
        invariant
            i <= schema.properties.len(),
            property_infos(properties@) == resolved_properties(
                schema@.properties.take(i as int),
                schema@.required,
            ),
        decreases schema.properties.len() - i,
    {
        let prop_name = &schema.properties[i].0;
        let prop = &schema.properties[i].1;
        let info = PropertyInfo {
            name: prop_name.clone(),
            dart_type: determine_property_type(prop),
            is_list: prop.reference.is_none() && text_eq(prop.data_type.as_str(), "array"),
            is_nullable: !list_has(&schema.required, prop_name.as_str()),
            description: prop.description.clone(),
            reference: property_reference(prop),
        };
        let ghost before = property_infos(properties@);
        let ghost entry = schema@.properties[i as int];
        assert(info@ == resolved_property(entry.0, entry.1, schema@.required));
        match property_position(&properties, prop_name.as_str()) {
            Some(at) => {
                properties.set(at, info);
                assert(property_infos(properties@) =~= before.update(at as int, info@));
            },
            None => {
                properties.push(info);
                assert(property_infos(properties@) =~= before.push(info@));
            },
        }
        proof {
            let next = schema@.properties.take(i + 1);
            assert(next.drop_last() =~= schema@.properties.take(i as int));
            assert(next.last() == entry);
        }
        i += 1;
    }
    assert(schema@.properties.take(schema.properties.len() as int) =~= schema@.properties);
    SchemaInfo {
        name: name.to_owned(),
        properties,
        required: clone_texts(&schema.required),
        description: schema.description.clone(),
    }
}

impl SchemaInfo {
    /// Some property has the type `dateTime`.
    pub fn has_date_time_field(&self) -> (r: bool)
        ensures
            r == exists|i: int|
                0 <= i < self@.properties.len() && self@.properties[i].dart_type == "dateTime"@,
    {
        let mut i: usize = 0;
        while i < self.properties.len()
            invariant
                i <= self.properties.len(),
                forall|j: int| 0 <= j < i ==> self@.properties[j].dart_type != "dateTime"@,
            decreases self.properties.len() - i,
        {
            if text_eq(self.properties[i].dart_type.as_str(), "dateTime") {
                assert(self@.properties[i as int].dart_type == "dateTime"@);
                return true;
            }
            i += 1;
        }
        false
    }

    /// Some property is a list.
    pub fn has_list_field(&self) -> (r: bool)
        ensures
            r == exists|i: int| 0 <= i < self@.properties.len() && self@.properties[i].is_list,
    {
        let mut i: usize = 0;
        while i < self.properties.len()
            invariant
                i <= self.properties.len(),
                forall|j: int| 0 <= j < i ==> !self@.properties[j].is_list,
            decreases self.properties.len() - i,
        {
            if self.properties[i].is_list {
                assert(self@.properties[i as int].is_list);
                return true;
            }
            i += 1;
        }
        false
    }
}

/// The views of a list of resolved schemas, in order.
pub open spec fn schema_infos(v: Seq<SchemaInfo>) -> Seq<SchemaInfoView> {
    v.map_values(|s: SchemaInfo| s@)
}

/// The names of a list of resolved schemas, in order.
pub open spec fn schema_names(v: Seq<SchemaInfoView>) -> Seq<Seq<char>> {
    v.map_values(|s: SchemaInfoView| s.name)
}

/// The table that a list of resolved schemas stands for: each under its name, a later
/// one in the place of an earlier one of the same name.
pub open spec fn table_of(entries: Seq<SchemaInfoView>) -> Map<Seq<char>, SchemaInfoView>
    decreases entries.len(),
{
    if entries.len() == 0 {
        Map::empty()
    } else {
        table_of(entries.drop_last()).insert(entries.last().name, entries.last())
    }
}

/// The names of a list of schema entries of the document, in order.
pub open spec fn entry_names(entries: Seq<(Seq<char>, SchemaView)>) -> Seq<Seq<char>> {
    entries.map_values(|e: (Seq<char>, SchemaView)| e.0)
}

/// The resolved schemas of one place of the document, by name: where a name occurs
/// twice, the later entry counts.
pub open spec fn schema_map(entries: Seq<(Seq<char>, SchemaView)>) -> Map<
    Seq<char>,
    SchemaInfoView,
>
    decreases entries.len(),
{
    if entries.len() == 0 {
        Map::empty()
    } else {
        schema_map(entries.drop_last()).insert(
            entries.last().0,
            resolved_schema(entries.last().0, entries.last().1),
        )
    }
}

/// The schema table of a document: the legacy schemas, with each modern schema in the
/// place of a legacy one of its name.
pub open spec fn merged_schemas(doc: SpecView) -> Map<Seq<char>, SchemaInfoView> {
    schema_map(doc.legacy_schemas).union_prefer_right(schema_map(doc.modern_schemas))
}

/// The resolved schemas of a document, found by name.
pub struct SchemaTable {
    entries: Vec<SchemaInfo>,
}

impl View for SchemaTable {
    type V = Map<Seq<char>, SchemaInfoView>;

    closed spec fn view(&self) -> Map<Seq<char>, SchemaInfoView> {
        table_of(schema_infos(self.entries@))
    }
}

/// The table holds under `name` the last entry of that name, and nothing where there
/// is no such entry.
proof fn table_of_holds_last(entries: Seq<SchemaInfoView>, name: Seq<char>)
    ensures
        match last_index_of_text(schema_names(entries), name) {
            Some(i) => 0 <= i < entries.len() && table_of(entries).contains_key(name)
                && table_of(entries)[name] == entries[i],
            None => !table_of(entries).contains_key(name),
        },
    decreases entries.len(),
{
    if entries.len() > 0 {
        let front = entries.drop_last();
        assert(schema_names(entries).drop_last() =~= schema_names(front));
        assert(schema_names(entries).last() == entries.last().name);
        table_of_holds_last(front, name);
        if entries.last().name != name {
            match last_index_of_text(schema_names(front), name) {
                Some(i) => {
                    assert(front[i] == entries[i]);
                },
                None => {},
            }
        }
    }
}

/// Every schema of a table stands under its own name.
proof fn table_of_keys_are_names(entries: Seq<SchemaInfoView>)
    ensures
        forall|name: Seq<char>| #[trigger]
            table_of(entries).contains_key(name) ==> table_of(entries)[name].name == name,
    decreases entries.len(),
{
    if entries.len() > 0 {
        let front = entries.drop_last();
        table_of_keys_are_names(front);
        assert forall|name: Seq<char>| #[trigger]
            table_of(entries).contains_key(name) implies table_of(entries)[name].name
            == name by {
            if name != entries.last().name {
                assert(table_of(front).contains_key(name));
            }
        }
    }
}

impl SchemaTable {
    /// Every schema of the table stands under its own name.
    pub proof fn keys_are_names(&self)
        ensures
            forall|name: Seq<char>| #[trigger]
                self@.contains_key(name) ==> self@[name].name == name,
    {
        table_of_keys_are_names(schema_infos(self.entries@));
    }

    /// A table without schemas.
    pub fn new() -> (table: SchemaTable)
        ensures
            table@ == Map::<Seq<char>, SchemaInfoView>::empty(),
    {
        SchemaTable { entries: Vec::new() }
    }

    /// Puts `info` under its name, in the place of what stood there.
    pub fn insert(&mut self, info: SchemaInfo)
        ensures
            final(self)@ == old(self)@.insert(info.name@, info@),
    {
        let ghost before = schema_infos(self.entries@);
        self.entries.push(info);
        proof {
            let after = schema_infos(self.entries@);
            assert(after.drop_last() =~= before);
            assert(after.last() == info@);
        }
    }

    /// The schema called `name`.
    pub fn get(&self, name: &str) -> (r: Option<&SchemaInfo>)
        ensures
            match r {
                Some(info) => self@.contains_key(name@) && info@ == self@[name@],
                None => !self@.contains_key(name@),
            },
    {
        let ghost infos = schema_infos(self.entries@);
        let ghost names = schema_names(infos);
        let mut i: usize = self.entries.len();
        assert(names.take(i as int) =~= names);
        while i > 0
            invariant
                i <= self.entries.len(),
                infos == schema_infos(self.entries@),
                names == schema_names(infos),
                last_index_of_text(names, name@) == last_index_of_text(
                    names.take(i as int),
                    name@,
                ),
            decreases i,
        {
            i -= 1;
            assert(names.take(i + 1).drop_last() =~= names.take(i as int));
            assert(names.take(i + 1).last() == self.entries@[i as int]@.name);
            if text_eq(self.entries[i].name.as_str(), name) {
                proof {
                    table_of_holds_last(infos, name@);
                }
                return Some(&self.entries[i]);
            }
        }
        proof {
            table_of_holds_last(infos, name@);
        }
        None
    }
}

/// Puts the resolved form of every entry into the table, in order.
fn insert_schemas(table: &mut SchemaTable, entries: &Vec<(String, SwaggerSchema)>)
    ensures
        final(table)@ == old(table)@.union_prefer_right(
            schema_map(crate::document::schema_entries(entries@)),
        ),
{
    let ghost start = table@;
    let ghost all = crate::document::schema_entries(entries@);
    let mut i: usize = 0;
    assert(start.union_prefer_right(schema_map(all.take(0))) =~= start);
    while i < entries.len()
        invariant
            i <= entries.len(),
            all == crate::document::schema_entries(entries@),
            table@ == start.union_prefer_right(schema_map(all.take(i as int))),
        decreases entries.len() - i,
    {
        let info = extract_schema_info(entries[i].0.as_str(), &entries[i].1);
        proof {
            let next = all.take(i + 1);
            assert(next.drop_last() =~= all.take(i as int));
            assert(next.last() == all[i as int]);
            assert(start.union_prefer_right(schema_map(next)) =~= start.union_prefer_right(
                schema_map(all.take(i as int)),
            ).insert(info.name@, info@));
        }
        table.insert(info);
        i += 1;
    }
    assert(all.take(entries.len() as int) =~= all);
}

/// The schema table of a document: every schema of the legacy place and of the modern
/// place, resolved; where both hold a name, the modern schema stands in the table.
pub fn extract_schemas(spec: &SwaggerSpec) -> (table: SchemaTable)
    ensures
        table@ == merged_schemas(spec@),
{
    let mut table = SchemaTable::new();
    insert_schemas(&mut table, &spec.schemas);
    assert(table@ =~= schema_map(spec@.legacy_schemas));
    match &spec.components {
        Some(components) => {
            insert_schemas(&mut table, &components.schemas);
        },
        None => {
            assert(table@ =~= merged_schemas(spec@));
        },
    }
    table
}

/// Under `name` the schemas of one place hold the resolved form of the last entry of
/// that name, and nothing where no entry has that name.
pub proof fn schema_map_holds_last_entry(entries: Seq<(Seq<char>, SchemaView)>, name: Seq<char>)
    ensures
        match last_index_of_text(entry_names(entries), name) {
            Some(i) => 0 <= i < entries.len() && entries[i].0 == name && schema_map(
                entries,
            ).contains_key(name) && schema_map(entries)[name] == resolved_schema(
                name,
                entries[i].1,
            ),
            None => !schema_map(entries).contains_key(name),
        },
    decreases entries.len(),
{
    if entries.len() > 0 {
        let front = entries.drop_last();
        assert(entry_names(entries).drop_last() =~= entry_names(front));
        assert(entry_names(entries).last() == entries.last().0);
        schema_map_holds_last_entry(front, name);
        if entries.last().0 != name {
            match last_index_of_text(entry_names(front), name) {
                Some(i) => {
                    assert(front[i] == entries[i]);
                },
                None => {},
            }
        }
    }
}

/// A name that the modern place of a document holds stands in the schema table with
/// the modern schema, whatever the legacy place holds under it; a name that only the
/// legacy place holds stands there with the legacy schema.
pub proof fn modern_schema_overrides_legacy(doc: SpecView, name: Seq<char>)
    ensures
        schema_map(doc.modern_schemas).contains_key(name) ==> merged_schemas(doc).contains_key(
            name,
        ) && merged_schemas(doc)[name] == schema_map(doc.modern_schemas)[name],
        !schema_map(doc.modern_schemas).contains_key(name) && schema_map(
            doc.legacy_schemas,
        ).contains_key(name) ==> merged_schemas(doc).contains_key(name) && merged_schemas(
            doc,
        )[name] == schema_map(doc.legacy_schemas)[name],
        merged_schemas(doc).contains_key(name) <==> schema_map(doc.modern_schemas).contains_key(
            name,
        ) || schema_map(doc.legacy_schemas).contains_key(name),
{
}

/// What `put_property` leaves: the names of before, with the name of `p` added where
/// it was missing; `p` under its name; every other property as it was.
pub proof fn put_property_keeps_others(props: Seq<PropertyInfoView>, p: PropertyInfoView)
    requires
        distinct_texts(property_names(props)),
    ensures
        distinct_texts(property_names(put_property(props, p))),
        props.len() <= put_property(props, p).len() <= props.len() + 1,
        forall|k: int|
            0 <= k < put_property(props, p).len() ==> #[trigger] put_property(props, p)[k] == (
            if k < props.len() && props[k].name != p.name {
                props[k]
            } else {
                p
            }),
{
    let names = property_names(props);
    let after = put_property(props, p);
    index_of_text_is_first(names, p.name);
    match index_of_text(names, p.name) {
        Some(i) => {
            assert forall|k: int| 0 <= k < after.len() implies #[trigger] after[k] == (if k
                < props.len() && props[k].name != p.name {
                props[k]
            } else {
                p
            }) by {
                if k != i {
                    assert(names[k] == props[k].name);
                    assert(names[i] == p.name);
                    if k < i {
                        assert(names[k] != names[i]);
                    } else {
                        assert(names[i] != names[k]);
                    }
                }
            }
            assert(property_names(after) =~= names);
        },
        None => {
            assert forall|k: int| 0 <= k < after.len() implies #[trigger] after[k] == (if k
                < props.len() && props[k].name != p.name {
                props[k]
            } else {
                p
            }) by {
                if k < props.len() {
                    assert(names[k] == props[k].name);
                }
            }
            assert(property_names(after) =~= names.push(p.name));
        },
    }
}

/// No two resolved properties of a schema have the same name, and each is the
/// resolved form of an entry of the schema.
pub proof fn resolved_properties_are_distinct(
    entries: Seq<(Seq<char>, PropertyView)>,
    required: Seq<Seq<char>>,
)
    ensures
        distinct_texts(property_names(resolved_properties(entries, required))),
        forall|k: int|
            0 <= k < resolved_properties(entries, required).len() ==> exists|j: int|
                0 <= j < entries.len() && #[trigger] resolved_properties(entries, required)[k]
                    == resolved_property(entries[j].0, entries[j].1, required),
    decreases entries.len(),
{
    if entries.len() > 0 {
        let front = entries.drop_last();
        let before = resolved_properties(front, required);
        let p = resolved_property(entries.last().0, entries.last().1, required);
        resolved_properties_are_distinct(front, required);
        put_property_keeps_others(before, p);
        let after = resolved_properties(entries, required);
        assert forall|k: int| 0 <= k < after.len() implies exists|j: int|
            0 <= j < entries.len() && #[trigger] after[k] == resolved_property(
                entries[j].0,
                entries[j].1,
                required,
            ) by {
            if k < before.len() && before[k].name != p.name {
                let j = choose|j: int|
                    0 <= j < front.len() && before[k] == resolved_property(
                        front[j].0,
                        front[j].1,
                        required,
                    );
                assert(front[j] == entries[j]);
            } else {
                assert(after[k] == resolved_property(
                    entries[entries.len() - 1].0,
                    entries[entries.len() - 1].1,
                    required,
                ));
            }
        }
    }
}

/// A resolved property is nullable exactly where the schema's list of required names
/// does not hold its name.
pub proof fn nullable_iff_not_required(name: Seq<char>, schema: SchemaView, k: int)
    requires
        0 <= k < resolved_schema(name, schema).properties.len(),
    ensures
        resolved_schema(name, schema).properties[k].is_nullable == !has_text(
            schema.required,
            resolved_schema(name, schema).properties[k].name,
        ),
{
    resolved_properties_are_distinct(schema.properties, schema.required);
}

/// Where no two entries of a schema have the same name, its properties are resolved
/// one by one, in the order of the entries.
pub proof fn distinct_entries_resolve_in_order(
    entries: Seq<(Seq<char>, PropertyView)>,
    required: Seq<Seq<char>>,
)
    requires
        distinct_texts(entries.map_values(|e: (Seq<char>, PropertyView)| e.0)),
    ensures
        resolved_properties(entries, required) == entries.map_values(
            |e: (Seq<char>, PropertyView)| resolved_property(e.0, e.1, required),
        ),
    decreases entries.len(),
{
    let names = entries.map_values(|e: (Seq<char>, PropertyView)| e.0);
    let expected = entries.map_values(
        |e: (Seq<char>, PropertyView)| resolved_property(e.0, e.1, required),
    );
    if entries.len() == 0 {
        assert(resolved_properties(entries, required) =~= expected);
    } else {
        let front = entries.drop_last();
        let front_names = front.map_values(|e: (Seq<char>, PropertyView)| e.0);
        assert forall|i: int, j: int| 0 <= i < j < front_names.len() implies front_names[i]
            != front_names[j] by {
            assert(names[i] != names[j]);
        }
        distinct_entries_resolve_in_order(front, required);
        let before = resolved_properties(front, required);
        let p = resolved_property(entries.last().0, entries.last().1, required);
        index_of_text_is_first(property_names(before), p.name);
        if index_of_text(property_names(before), p.name) is Some {
            let i = index_of_text(property_names(before), p.name).unwrap();
            assert(property_names(before)[i] == before[i].name);
            assert(before[i].name == names[i]);
            assert(names[i] != names[entries.len() - 1]);
        }
        assert(resolved_properties(entries, required) =~= expected);
    }
}

} // verus!
