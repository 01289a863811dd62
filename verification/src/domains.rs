use crate::casing::uppercase_text;
use crate::document::{
    clone_parameters, parameter_views, OperationView, ParameterView, ResponseView, SpecView,
    SwaggerOperation, SwaggerParameter, SwaggerResponse, SwaggerSpec, TagView,
};
use crate::text::{
    distinct_texts, has_text, index_of_text, index_of_text_is_first, last_index_of_text, last_path_segment,
    last_segment, opt_text, text_eq, views,
};
use vstd::prelude::*;

verus! {

/// One HTTP operation of a domain.
pub struct Endpoint {
    pub path: String,
    /// The HTTP method, in upper case.
    pub method: String,
    pub operation_id: String,
    pub summary: String,
    pub parameters: Vec<SwaggerParameter>,
    /// The schema that a successful response refers to; `None` for a void operation.
    pub response_type: Option<String>,
}

/// The operations that share one tag.
pub struct Domain {
    pub name: String,
    pub description: String,
    pub endpoints: Vec<Endpoint>,
}

/// An endpoint, as plain values.
pub ghost struct EndpointView {
    pub path: Seq<char>,
    pub method: Seq<char>,
    pub operation_id: Seq<char>,
    pub summary: Seq<char>,
    pub parameters: Seq<ParameterView>,
    pub response_type: Option<Seq<char>>,
}

/// A domain, as plain values.
pub ghost struct DomainView {
    pub name: Seq<char>,
    pub description: Seq<char>,
    pub endpoints: Seq<EndpointView>,
}

impl View for Endpoint {
    type V = EndpointView;

    open spec fn view(&self) -> EndpointView {
        EndpointView {
            path: self.path@,
            method: self.method@,
            operation_id: self.operation_id@,
            summary: self.summary@,
            parameters: parameter_views(self.parameters@),
            response_type: opt_text(self.response_type),
        }
    }
}

/// The views of a list of endpoints, in order.
pub open spec fn endpoint_views(v: Seq<Endpoint>) -> Seq<EndpointView> {
    views(v)
}

impl View for Domain {
    type V = DomainView;

    open spec fn view(&self) -> DomainView {
        DomainView {
            name: self.name@,
            description: self.description@,
            endpoints: endpoint_views(self.endpoints@),
        }
    }
}

/// The views of a list of domains, in order.
pub open spec fn domain_views(v: Seq<Domain>) -> Seq<DomainView> {
    v.map_values(|d: Domain| d@)
}

/// The names of a list of domains, in order.
pub open spec fn domain_names(v: Seq<DomainView>) -> Seq<Seq<char>> {
    v.map_values(|d: DomainView| d.name)
}

/// The status codes of a list of responses, in order.
pub open spec fn statuses(responses: Seq<(Seq<char>, ResponseView)>) -> Seq<Seq<char>> {
    responses.map_values(|e: (Seq<char>, ResponseView)| e.0)
}

/// The schema that the response under `status` refers to.
pub open spec fn response_reference(
    responses: Seq<(Seq<char>, ResponseView)>,
    status: Seq<char>,
) -> Option<Seq<char>> {
    match last_index_of_text(statuses(responses), status) {
        Some(i) => match responses[i].1.schema {
            Some(schema) => match schema.reference {
                Some(r) => Some(last_segment(r)),
                None => None,
            },
            None => None,
        },
        None => None,
    }
}

/// The response type of an operation: what its response 200 refers to, else what its
/// response 201 refers to.
pub open spec fn response_type_of(responses: Seq<(Seq<char>, ResponseView)>) -> Option<
    Seq<char>,
> {
    match response_reference(responses, "200"@) {
        Some(t) => Some(t),
        None => response_reference(responses, "201"@),
    }
}

/// The endpoint that an operation under a path and a method gives.
pub open spec fn endpoint_of(path: Seq<char>, method: Seq<char>, op: OperationView) -> EndpointView {
    EndpointView {
        path,
        method: uppercase_text(method),
        operation_id: op.operation_id,
        summary: op.summary,
        parameters: op.parameters,
        response_type: response_type_of(op.responses),
    }
}

impl Clone for Endpoint {
    fn clone(&self) -> (r: Self)
        ensures
            r@ == self@,
    {
        let response_type = match &self.response_type {
            Some(t) => Some(t.clone()),
            None => None,
        };
        Endpoint {
            path: self.path.clone(),
            method: self.method.clone(),
            operation_id: self.operation_id.clone(),
            summary: self.summary.clone(),
            parameters: clone_parameters(&self.parameters),
            response_type,
        }
    }
}

/// The schema that the response under `status` refers to.
fn response_reference_of(responses: &Vec<(String, SwaggerResponse)>, status: &str) -> (r: Option<
    String,
>)
    ensures
        opt_text(r) == response_reference(crate::document::response_entries(responses@), status@),
{
    let ghost entries = crate::document::response_entries(responses@);
    let ghost names = statuses(entries);
    let mut i: usize = responses.len();
    assert(names.take(i as int) =~= names);
    while i > 0
        invariant
            i <= responses.len(),
            entries == crate::document::response_entries(responses@),
            names == statuses(entries),
            last_index_of_text(names, status@) == last_index_of_text(names.take(i as int), status@),
        decreases i,
    {
        i -= 1;
        assert(names.take(i + 1).drop_last() =~= names.take(i as int));
        assert(names.take(i + 1).last() == responses@[i as int].0@);
        if text_eq(responses[i].0.as_str(), status) {
            assert(last_index_of_text(names, status@) == Some(i as int));
            return match &responses[i].1.schema {
                Some(schema) => match &schema.reference {
                    Some(ref_str) => Some(last_path_segment(ref_str.as_str())),
                    None => None,
                },
                None => None,
            };
        }
    }
    None
}

/// The response type of an operation: the schema that its response 200 refers to, else
/// the one that its response 201 refers to.
pub fn extract_response_type(responses: &Vec<(String, SwaggerResponse)>) -> (r: Option<String>)
    ensures
        opt_text(r) == response_type_of(crate::document::response_entries(responses@)),
{
    match response_reference_of(responses, "200") {
        Some(t) => Some(t),
        None => response_reference_of(responses, "201"),
    }
}

/// An empty domain for a declared tag.
pub open spec fn declared_domain(tag: TagView) -> DomainView {
    DomainView { name: tag.name, description: tag.description, endpoints: Seq::empty() }
}

/// The domains with one more declared tag: a new empty domain, which takes the place
/// of a domain of the same name.
pub open spec fn declare_tag(ds: Seq<DomainView>, tag: TagView) -> Seq<DomainView> {
    match index_of_text(domain_names(ds), tag.name) {
        Some(i) => ds.update(i, declared_domain(tag)),
        None => ds.push(declared_domain(tag)),
    }
}

/// One empty domain for each declared tag.
pub open spec fn declared_domains(tags: Seq<TagView>) -> Seq<DomainView>
    decreases tags.len(),
{
    if tags.len() == 0 {
        Seq::empty()
    } else {
        declare_tag(declared_domains(tags.drop_last()), tags.last())
    }
}

/// The domain `d` with one more endpoint at its end.
pub open spec fn with_endpoint(d: DomainView, e: EndpointView) -> DomainView {
    DomainView { name: d.name, description: d.description, endpoints: d.endpoints.push(e) }
}

/// The domains with `e` added to the domain called `tag`; where there is none, a new
/// domain without description is made for it.
pub open spec fn add_endpoint(ds: Seq<DomainView>, tag: Seq<char>, e: EndpointView) -> Seq<
    DomainView,
> {
    match index_of_text(domain_names(ds), tag) {
        Some(i) => ds.update(i, with_endpoint(ds[i], e)),
        None => ds.push(DomainView { name: tag, description: Seq::empty(), endpoints: seq![e] }),
    }
}

/// The domains with `e` added once for each of `tags`.
pub open spec fn add_to_tags(ds: Seq<DomainView>, tags: Seq<Seq<char>>, e: EndpointView) -> Seq<
    DomainView,
>
    decreases tags.len(),
{
    if tags.len() == 0 {
        ds
    } else {
        add_endpoint(add_to_tags(ds, tags.drop_last(), e), tags.last(), e)
    }
}

/// The domains with the endpoint of one operation added under each of its tags.
pub open spec fn add_operation(
    ds: Seq<DomainView>,
    path: Seq<char>,
    method: Seq<char>,
    op: OperationView,
) -> Seq<DomainView> {
    add_to_tags(ds, op.tags, endpoint_of(path, method, op))
}

/// The domains with the operations of one path added, in order.
pub open spec fn add_path(
    ds: Seq<DomainView>,
    path: Seq<char>,
    methods: Seq<(Seq<char>, OperationView)>,
) -> Seq<DomainView>
    decreases methods.len(),
{
    if methods.len() == 0 {
        ds
    } else {
        add_operation(
            add_path(ds, path, methods.drop_last()),
            path,
            methods.last().0,
            methods.last().1,
        )
    }
}

/// The domains with the operations of all paths added, in order.
pub open spec fn add_paths(
    ds: Seq<DomainView>,
    paths: Seq<(Seq<char>, Seq<(Seq<char>, OperationView)>)>,
) -> Seq<DomainView>
    decreases paths.len(),
{
    if paths.len() == 0 {
        ds
    } else {
        add_path(add_paths(ds, paths.drop_last()), paths.last().0, paths.last().1)
    }
}

/// The domains of a document: one for each declared tag, then one for each tag that
/// only operations name, each holding the endpoints of the operations that carry its
/// name, in the order of the document.
pub open spec fn domains_of(doc: SpecView) -> Seq<DomainView> {
    add_paths(declared_domains(doc.tags), doc.paths)
}

/// The number of endpoints in all domains together.
pub open spec fn total_endpoints(ds: Seq<DomainView>) -> nat
    decreases ds.len(),
{
    if ds.len() == 0 {
        0
    } else {
        total_endpoints(ds.drop_last()) + ds.last().endpoints.len()
    }
}

/// The position of the domain called `name`.
fn domain_position(domains: &Vec<Domain>, name: &str) -> (r: Option<usize>)
    ensures
        match r {
            Some(i) => index_of_text(domain_names(domain_views(domains@)), name@) == Some(i as int)
                && i < domains.len(),
            None => index_of_text(domain_names(domain_views(domains@)), name@) is None,
        },
{
    let ghost names = domain_names(domain_views(domains@));
    proof {
        index_of_text_is_first(names, name@);
    }
    let mut i: usize = 0;
    while i < domains.len()
        invariant
            i <= domains.len(),
            names == domain_names(domain_views(domains@)),
            forall|j: int| 0 <= j < i ==> names[j] != name@,
        decreases domains.len() - i,
    {
        if text_eq(domains[i].name.as_str(), name) {
            proof {
                assert(names[i as int] == domains@[i as int]@.name);
                index_of_text_is_first(names, name@);
            }
            return Some(i);
        }
        i += 1;
    }
    None
}

/// Adds `endpoint` to the domain called `tag`, which is made where it is missing.
fn push_endpoint(domains: &mut Vec<Domain>, tag: &str, endpoint: Endpoint)
    ensures
        domain_views(final(domains)@) == add_endpoint(
            domain_views(old(domains)@),
            tag@,
            endpoint@,
        ),
{
    let ghost before = domain_views(domains@);
    match domain_position(domains, tag) {
        Some(at) => {
            domains[at].endpoints.push(endpoint);
            assert(domain_views(domains@) =~= before.update(
                at as int,
                with_endpoint(before[at as int], endpoint@),
            )) by {
                assert(domains@[at as int]@.endpoints =~= before[at as int].endpoints.push(
                    endpoint@,
                ));
            }
        },
        None => {
            let mut endpoints: Vec<Endpoint> = Vec::new();
            endpoints.push(endpoint);
            let domain = Domain { name: tag.to_owned(), description: String::new(), endpoints };
            assert(domain@.endpoints =~= seq![endpoint@]);
            domains.push(domain);
            assert(domain_views(domains@) =~= before.push(domain@));
        },
    }
}

/// Adds the endpoint of one operation under each of its tags.
fn push_operation(domains: &mut Vec<Domain>, path: &str, method: &str, operation: &SwaggerOperation)
    ensures
        domain_views(final(domains)@) == add_operation(
            domain_views(old(domains)@),
            path@,
            method@,
            operation@,
        ),
{
    if operation.tags.len() == 0 {
        return ;
    }
    let endpoint = Endpoint {
        path: path.to_owned(),
        method: method.to_uppercase(),
        operation_id: operation.operation_id.clone(),
        summary: operation.summary.clone(),
        parameters: clone_parameters(&operation.parameters),
        response_type: extract_response_type(&operation.responses),
    };
    let ghost start = domain_views(domains@);
    let ghost e = endpoint_of(path@, method@, operation@);
    assert(endpoint@ == e);
    let mut i: usize = 0;
    while i < operation.tags.len()
        invariant
            i <= operation.tags.len(),
            endpoint@ == e,
            domain_views(domains@) == add_to_tags(start, operation@.tags.take(i as int), e),
        decreases operation.tags.len() - i,
    {
        proof {
            let next = operation@.tags.take(i + 1);
            assert(next.drop_last() =~= operation@.tags.take(i as int));
            assert(next.last() == operation.tags@[i as int]@);
        }
        push_endpoint(domains, operation.tags[i].as_str(), endpoint.clone());
        i += 1;
    }
    assert(operation@.tags.take(operation.tags.len() as int) =~= operation@.tags);
}

/// The domains of a document: one for each declared tag, and one for each tag that
/// only operations name; every operation stands, as an endpoint, in the domain of each
/// of its tags, and an operation without tags in none.
pub fn extract_domains(spec: &SwaggerSpec) -> (domains: Vec<Domain>)
    ensures
        domain_views(domains@) == domains_of(spec@),
{
    let mut domains: Vec<Domain> = Vec::new();
    let mut t: usize = 0;
    assert(domain_views(domains@) =~= declared_domains(spec@.tags.take(0)));
    while t < spec.tags.len()
        invariant
            t <= spec.tags.len(),
            domain_views(domains@) == declared_domains(spec@.tags.take(t as int)),
        decreases spec.tags.len() - t,
    {
        let tag = &spec.tags[t];
        let domain = Domain {
            name: tag.name.clone(),
            description: tag.description.clone(),
            endpoints: Vec::new(),
        };
        let ghost before = domain_views(domains@);
        proof {
            let next = spec@.tags.take(t + 1);
            assert(next.drop_last() =~= spec@.tags.take(t as int));
            assert(next.last() == tag@);
            assert(domain@.endpoints =~= Seq::<EndpointView>::empty());
            assert(domain@ == declared_domain(tag@));
        }
        match domain_position(&domains, tag.name.as_str()) {
            Some(at) => {
                domains.set(at, domain);
                assert(domain_views(domains@) =~= before.update(at as int, domain@));
            },
            None => {
                domains.push(domain);
                assert(domain_views(domains@) =~= before.push(domain@));
            },
        }
        t += 1;
    }
    assert(spec@.tags.take(spec.tags.len() as int) =~= spec@.tags);
    let ghost declared = declared_domains(spec@.tags);
    let mut p: usize = 0;
    while p < spec.paths.len()
        invariant
            p <= spec.paths.len(),
            domain_views(domains@) == add_paths(declared, spec@.paths.take(p as int)),
        decreases spec.paths.len() - p,
    {
        let path = &spec.paths[p].0;
        let methods = &spec.paths[p].1;
        let ghost start = domain_views(domains@);
        let ghost entries = crate::document::method_entries(methods@);
        let mut m: usize = 0;
        while m < methods.len()
            invariant
                m <= methods.len(),
                entries == crate::document::method_entries(methods@),
                domain_views(domains@) == add_path(start, path@, entries.take(m as int)),
            decreases methods.len() - m,
        {
            proof {
                let next = entries.take(m + 1);
                assert(next.drop_last() =~= entries.take(m as int));
                assert(next.last() == (methods@[m as int].0@, methods@[m as int].1@));
            }
            push_operation(&mut domains, path.as_str(), methods[m].0.as_str(), &methods[m].1);
            m += 1;
        }
        proof {
            assert(entries.take(methods.len() as int) =~= entries);
            let next = spec@.paths.take(p + 1);
            assert(next.drop_last() =~= spec@.paths.take(p as int));
            assert(next.last() == (path@, entries));
        }
        p += 1;
    }
    assert(spec@.paths.take(spec.paths.len() as int) =~= spec@.paths);
    domains
}

/// How often `name` stands in `tags`.
pub open spec fn occurrences(tags: Seq<Seq<char>>, name: Seq<char>) -> nat
    decreases tags.len(),
{
    if tags.len() == 0 {
        0
    } else {
        occurrences(tags.drop_last(), name) + if tags.last() == name {
            1nat
        } else {
            0nat
        }
    }
}

/// `n` times the endpoint `e`.
pub open spec fn copies(e: EndpointView, n: nat) -> Seq<EndpointView> {
    Seq::new(n, |i: int| e)
}

/// Replacing one domain changes the number of endpoints by the difference of the two.
proof fn total_endpoints_update(ds: Seq<DomainView>, i: int, d: DomainView)
    requires
        0 <= i < ds.len(),
    ensures
        total_endpoints(ds.update(i, d)) + ds[i].endpoints.len() == total_endpoints(ds)
            + d.endpoints.len(),
    decreases ds.len(),
{
    let after = ds.update(i, d);
    if i == ds.len() - 1 {
        assert(after.drop_last() =~= ds.drop_last());
    } else {
        assert(after.drop_last() =~= ds.drop_last().update(i, d));
        total_endpoints_update(ds.drop_last(), i, d);
    }
}

/// What adding one endpoint under one tag does to the domains.
proof fn add_endpoint_step(ds: Seq<DomainView>, tag: Seq<char>, e: EndpointView)
    requires
        distinct_texts(domain_names(ds)),
    ensures
        distinct_texts(domain_names(add_endpoint(ds, tag, e))),
        total_endpoints(add_endpoint(ds, tag, e)) == total_endpoints(ds) + 1,
        ds.len() <= add_endpoint(ds, tag, e).len() <= ds.len() + 1,
        forall|k: int|
            0 <= k < ds.len() ==> {
                let d = #[trigger] add_endpoint(ds, tag, e)[k];
                &&& d.name == ds[k].name
                &&& d.description == ds[k].description
                &&& d.endpoints == if ds[k].name == tag {
                    ds[k].endpoints.push(e)
                } else {
                    ds[k].endpoints
                }
            },
        add_endpoint(ds, tag, e).len() == ds.len() + 1 ==> {
            let d = add_endpoint(ds, tag, e)[ds.len() as int];
            &&& d.name == tag
            &&& d.description == Seq::<char>::empty()
            &&& d.endpoints == seq![e]
            &&& forall|k: int| 0 <= k < ds.len() ==> ds[k].name != tag
        },
        add_endpoint(ds, tag, e).len() == ds.len() ==> exists|k: int|
            0 <= k < ds.len() && ds[k].name == tag,
{
    let names = domain_names(ds);
    let after = add_endpoint(ds, tag, e);
    index_of_text_is_first(names, tag);
    assert forall|k: int| 0 <= k < ds.len() implies names[k] == ds[k].name by {}
    match index_of_text(names, tag) {
        Some(i) => {
            total_endpoints_update(ds, i, with_endpoint(ds[i], e));
            assert(domain_names(after) =~= names);
            assert forall|k: int| 0 <= k < ds.len() implies {
                let d = #[trigger] after[k];
                &&& d.name == ds[k].name
                &&& d.description == ds[k].description
                &&& d.endpoints == if ds[k].name == tag {
                    ds[k].endpoints.push(e)
                } else {
                    ds[k].endpoints
                }
            } by {
                if k != i {
                    assert(names[k] == ds[k].name);
                    assert(names[i] == tag);
                    if k < i {
                        assert(names[k] != names[i]);
                    } else {
                        assert(names[i] != names[k]);
                    }
                }
            }
            assert(ds[i].name == tag);
        },
        None => {
            assert(after.drop_last() =~= ds);
            assert(domain_names(after) =~= names.push(tag));
            assert forall|k: int| 0 <= k < ds.len() implies ds[k].name != tag by {
                assert(names[k] == ds[k].name);
            }
        },
    }
}

/// What adding one endpoint under each of a list of tags does to the domains.
proof fn add_to_tags_fans_out(ds: Seq<DomainView>, tags: Seq<Seq<char>>, e: EndpointView)
    requires
        distinct_texts(domain_names(ds)),
    ensures
        distinct_texts(domain_names(add_to_tags(ds, tags, e))),
        total_endpoints(add_to_tags(ds, tags, e)) == total_endpoints(ds) + tags.len(),
        ds.len() <= add_to_tags(ds, tags, e).len(),
        forall|k: int|
            0 <= k < ds.len() ==> {
                let d = #[trigger] add_to_tags(ds, tags, e)[k];
                &&& d.name == ds[k].name
                &&& d.description == ds[k].description
                &&& d.endpoints == ds[k].endpoints + copies(e, occurrences(tags, ds[k].name))
            },
        forall|k: int|
            ds.len() <= k < add_to_tags(ds, tags, e).len() ==> {
                let d = #[trigger] add_to_tags(ds, tags, e)[k];
                &&& d.description == Seq::<char>::empty()
                &&& d.endpoints == copies(e, occurrences(tags, d.name))
                &&& occurrences(tags, d.name) > 0
            },
        forall|j: int|
            0 <= j < tags.len() ==> has_text(
                domain_names(add_to_tags(ds, tags, e)),
                #[trigger] tags[j],
            ),
    decreases tags.len(),
{
    let after = add_to_tags(ds, tags, e);
    if tags.len() == 0 {
        assert forall|k: int| 0 <= k < ds.len() implies {
            let d = #[trigger] after[k];
            d.endpoints == ds[k].endpoints + copies(e, occurrences(tags, ds[k].name))
        } by {
            assert(ds[k].endpoints + copies(e, 0) =~= ds[k].endpoints);
        }
    } else {
        let front = tags.drop_last();
        let tag = tags.last();
        let mid = add_to_tags(ds, front, e);
        add_to_tags_fans_out(ds, front, e);
        add_endpoint_step(mid, tag, e);
        assert forall|k: int| 0 <= k < ds.len() implies {
            let d = #[trigger] after[k];
            &&& d.name == ds[k].name
            &&& d.description == ds[k].description
            &&& d.endpoints == ds[k].endpoints + copies(e, occurrences(tags, ds[k].name))
        } by {
            let m = mid[k];
            let n = occurrences(front, ds[k].name);
            if ds[k].name == tag {
                assert((ds[k].endpoints + copies(e, n)).push(e) =~= ds[k].endpoints + copies(
                    e,
                    n + 1,
                ));
            }
        }
        assert forall|k: int| ds.len() <= k < after.len() implies {
            let d = #[trigger] after[k];
            &&& d.description == Seq::<char>::empty()
            &&& d.endpoints == copies(e, occurrences(tags, d.name))
            &&& occurrences(tags, d.name) > 0
        } by {
            if k < mid.len() {
                let m = mid[k];
                let n = occurrences(front, m.name);
                if m.name == tag {
                    assert(copies(e, n).push(e) =~= copies(e, n + 1));
                }
            } else {
                assert(after[k].name == tag);
                assert forall|x: int| 0 <= x < mid.len() implies mid[x].name != tag by {}
                assert(occurrences(front, tag) == 0) by {
                    if occurrences(front, tag) > 0 {
                        occurrences_positive(front, tag);
                        let j = choose|j: int| 0 <= j < front.len() && front[j] == tag;
                        assert(has_text(domain_names(mid), front[j]));
                        let x = choose|x: int|
                            0 <= x < domain_names(mid).len() && domain_names(mid)[x] == front[j];
                        assert(mid[x].name != tag);
                    }
                }
                assert(seq![e] =~= copies(e, 1));
            }
        }
        assert forall|j: int| 0 <= j < tags.len() implies has_text(
            domain_names(after),
            #[trigger] tags[j],
        ) by {
            if j < front.len() {
                assert(front[j] == tags[j]);
                let x = choose|x: int|
                    0 <= x < domain_names(mid).len() && domain_names(mid)[x] == front[j];
                assert(after[x].name == mid[x].name);
                assert(domain_names(after)[x] == tags[j]);
            } else {
                if after.len() == mid.len() {
                    let x = choose|x: int| 0 <= x < mid.len() && mid[x].name == tag;
                    assert(after[x].name == tag);
                    assert(domain_names(after)[x] == tags[j]);
                } else {
                    assert(after[mid.len() as int].name == tag);
                    assert(domain_names(after)[mid.len() as int] == tags[j]);
                }
            }
        }
    }
}

/// A name that occurs a positive number of times stands at some position.
proof fn occurrences_positive(tags: Seq<Seq<char>>, name: Seq<char>)
    requires
        occurrences(tags, name) > 0,
    ensures
        exists|j: int| 0 <= j < tags.len() && tags[j] == name,
    decreases tags.len(),
{
    if tags.last() == name {
        assert(tags[tags.len() - 1] == name);
    } else {
        occurrences_positive(tags.drop_last(), name);
        let j = choose|j: int| 0 <= j < tags.drop_last().len() && tags.drop_last()[j] == name;
        assert(tags[j] == name);
    }
}

/// An operation without tags is dropped: it adds no endpoint to any domain and makes
/// no domain.
pub proof fn untagged_operation_is_dropped(
    ds: Seq<DomainView>,
    path: Seq<char>,
    method: Seq<char>,
    op: OperationView,
)
    requires
        op.tags.len() == 0,
    ensures
        add_operation(ds, path, method, op) == ds,
{
}

/// An operation with N tags adds exactly N endpoints. Each is the operation's own
/// endpoint, and it is added at the end of the domain of each tag, once for each time
/// the tag is written; a tag without a domain gets a new one, and nothing else
/// changes.
pub proof fn operation_fans_out(
    ds: Seq<DomainView>,
    path: Seq<char>,
    method: Seq<char>,
    op: OperationView,
)
    requires
        distinct_texts(domain_names(ds)),
    ensures
        distinct_texts(domain_names(add_operation(ds, path, method, op))),
        total_endpoints(add_operation(ds, path, method, op)) == total_endpoints(ds)
            + op.tags.len(),
        ds.len() <= add_operation(ds, path, method, op).len(),
        forall|k: int|
            0 <= k < ds.len() ==> {
                let d = #[trigger] add_operation(ds, path, method, op)[k];
                &&& d.name == ds[k].name
                &&& d.description == ds[k].description
                &&& d.endpoints == ds[k].endpoints + copies(
                    endpoint_of(path, method, op),
                    occurrences(op.tags, ds[k].name),
                )
            },
        forall|k: int|
            ds.len() <= k < add_operation(ds, path, method, op).len() ==> {
                let d = #[trigger] add_operation(ds, path, method, op)[k];
                &&& d.description == Seq::<char>::empty()
                &&& d.endpoints == copies(
                    endpoint_of(path, method, op),
                    occurrences(op.tags, d.name),
                )
                &&& occurrences(op.tags, d.name) > 0
            },
        forall|j: int|
            0 <= j < op.tags.len() ==> has_text(
                domain_names(add_operation(ds, path, method, op)),
                #[trigger] op.tags[j],
            ),
{
    add_to_tags_fans_out(ds, op.tags, endpoint_of(path, method, op));
}

/// No two domains of the declared tags have the same name.
proof fn declared_domains_are_distinct(tags: Seq<TagView>)
    ensures
        distinct_texts(domain_names(declared_domains(tags))),
    decreases tags.len(),
{
    if tags.len() > 0 {
        let before = declared_domains(tags.drop_last());
        let tag = tags.last();
        declared_domains_are_distinct(tags.drop_last());
        index_of_text_is_first(domain_names(before), tag.name);
        match index_of_text(domain_names(before), tag.name) {
            Some(i) => {
                assert(domain_names(declared_domains(tags)) =~= domain_names(before));
            },
            None => {
                assert(domain_names(declared_domains(tags)) =~= domain_names(before).push(
                    tag.name,
                ));
            },
        }
    }
}

/// Adding the operations of a path keeps the names of the domains distinct.
proof fn add_path_keeps_distinct(
    ds: Seq<DomainView>,
    path: Seq<char>,
    methods: Seq<(Seq<char>, OperationView)>,
)
    requires
        distinct_texts(domain_names(ds)),
    ensures
        distinct_texts(domain_names(add_path(ds, path, methods))),
    decreases methods.len(),
{
    if methods.len() > 0 {
        add_path_keeps_distinct(ds, path, methods.drop_last());
        operation_fans_out(
            add_path(ds, path, methods.drop_last()),
            path,
            methods.last().0,
            methods.last().1,
        );
    }
}

/// Adding the operations of all paths keeps the names of the domains distinct.
proof fn add_paths_keeps_distinct(
    ds: Seq<DomainView>,
    paths: Seq<(Seq<char>, Seq<(Seq<char>, OperationView)>)>,
)
    requires
        distinct_texts(domain_names(ds)),
    ensures
        distinct_texts(domain_names(add_paths(ds, paths))),
    decreases paths.len(),
{
    if paths.len() > 0 {
        add_paths_keeps_distinct(ds, paths.drop_last());
        add_path_keeps_distinct(add_paths(ds, paths.drop_last()), paths.last().0, paths.last().1);
    }
}

/// No two domains of a document have the same name.
pub proof fn domains_have_distinct_names(doc: SpecView)
    ensures
        distinct_texts(domain_names(domains_of(doc))),
{
    declared_domains_are_distinct(doc.tags);
    add_paths_keeps_distinct(declared_domains(doc.tags), doc.paths);
}

/// Every declared tag has a domain, whether or not an operation carries its name.
pub proof fn declared_tags_have_domains(doc: SpecView, t: int)
    requires
        0 <= t < doc.tags.len(),
    ensures
        has_text(domain_names(domains_of(doc)), doc.tags[t].name),
{
    declared_tag_is_present(doc.tags, t);
    declared_domains_are_distinct(doc.tags);
    add_paths_keeps_names(declared_domains(doc.tags), doc.paths, doc.tags[t].name);
}

/// Each declared tag is the name of one of the declared domains.
proof fn declared_tag_is_present(tags: Seq<TagView>, t: int)
    requires
        0 <= t < tags.len(),
    ensures
        has_text(domain_names(declared_domains(tags)), tags[t].name),
    decreases tags.len(),
{
    let before = declared_domains(tags.drop_last());
    let after = declared_domains(tags);
    let tag = tags.last();
    index_of_text_is_first(domain_names(before), tag.name);
    if t < tags.len() - 1 {
        declared_tag_is_present(tags.drop_last(), t);
        let x = choose|x: int|
            0 <= x < domain_names(before).len() && domain_names(before)[x] == tags.drop_last()[t].name;
        assert(domain_names(after)[x] == tags[t].name);
    } else {
        match index_of_text(domain_names(before), tag.name) {
            Some(i) => {
                assert(domain_names(after)[i] == tag.name);
            },
            None => {
                assert(domain_names(after)[before.len() as int] == tag.name);
            },
        }
    }
}

/// Adding the operations of a path takes no domain away.
proof fn add_path_keeps_names(
    ds: Seq<DomainView>,
    path: Seq<char>,
    methods: Seq<(Seq<char>, OperationView)>,
    name: Seq<char>,
)
    requires
        distinct_texts(domain_names(ds)),
        has_text(domain_names(ds), name),
    ensures
        has_text(domain_names(add_path(ds, path, methods)), name),
    decreases methods.len(),
{
    if methods.len() > 0 {
        let mid = add_path(ds, path, methods.drop_last());
        add_path_keeps_names(ds, path, methods.drop_last(), name);
        add_path_keeps_distinct(ds, path, methods.drop_last());
        operation_fans_out(mid, path, methods.last().0, methods.last().1);
        let after = add_path(ds, path, methods);
        let x = choose|x: int| 0 <= x < domain_names(mid).len() && domain_names(mid)[x] == name;
        assert(after[x].name == mid[x].name);
        assert(domain_names(after)[x] == name);
    }
}

/// Adding the operations of all paths takes no domain away.
proof fn add_paths_keeps_names(
    ds: Seq<DomainView>,
    paths: Seq<(Seq<char>, Seq<(Seq<char>, OperationView)>)>,
    name: Seq<char>,
)
    requires
        distinct_texts(domain_names(ds)),
        has_text(domain_names(ds), name),
    ensures
        has_text(domain_names(add_paths(ds, paths)), name),
    decreases paths.len(),
{
    if paths.len() > 0 {
        add_paths_keeps_names(ds, paths.drop_last(), name);
        add_paths_keeps_distinct(ds, paths.drop_last());
        add_path_keeps_names(
            add_paths(ds, paths.drop_last()),
            paths.last().0,
            paths.last().1,
            name,
        );
    }
}

/// The endpoints that the operations of one path give under `tag`: for each operation
/// in order, its endpoint once for each time it carries the tag.
pub open spec fn tagged_endpoints_of_path(
    path: Seq<char>,
    methods: Seq<(Seq<char>, OperationView)>,
    tag: Seq<char>,
) -> Seq<EndpointView>
    decreases methods.len(),
{
    if methods.len() == 0 {
        Seq::empty()
    } else {
        tagged_endpoints_of_path(path, methods.drop_last(), tag) + copies(
            endpoint_of(path, methods.last().0, methods.last().1),
            occurrences(methods.last().1.tags, tag),
        )
    }
}

/// The endpoints that the operations of a document give under `tag`, in the order of
/// the document.
pub open spec fn tagged_endpoints(
    paths: Seq<(Seq<char>, Seq<(Seq<char>, OperationView)>)>,
    tag: Seq<char>,
) -> Seq<EndpointView>
    decreases paths.len(),
{
    if paths.len() == 0 {
        Seq::empty()
    } else {
        tagged_endpoints(paths.drop_last(), tag) + tagged_endpoints_of_path(
            paths.last().0,
            paths.last().1,
            tag,
        )
    }
}

/// What adding the operations of one path does to the endpoints of the domains.
proof fn add_path_collects(
    ds: Seq<DomainView>,
    path: Seq<char>,
    methods: Seq<(Seq<char>, OperationView)>,
)
    requires
        distinct_texts(domain_names(ds)),
    ensures
        distinct_texts(domain_names(add_path(ds, path, methods))),
        ds.len() <= add_path(ds, path, methods).len(),
        forall|k: int|
            0 <= k < ds.len() ==> {
                let d = #[trigger] add_path(ds, path, methods)[k];
                &&& d.name == ds[k].name
                &&& d.endpoints == ds[k].endpoints + tagged_endpoints_of_path(
                    path,
                    methods,
                    ds[k].name,
                )
            },
        forall|k: int|
            ds.len() <= k < add_path(ds, path, methods).len() ==> {
                let d = #[trigger] add_path(ds, path, methods)[k];
                d.endpoints == tagged_endpoints_of_path(path, methods, d.name)
            },
        forall|name: Seq<char>|
            (#[trigger] tagged_endpoints_of_path(path, methods, name)).len() > 0 ==> has_text(
                domain_names(add_path(ds, path, methods)),
                name,
            ),
    decreases methods.len(),
{
    let after = add_path(ds, path, methods);
    if methods.len() == 0 {
        assert forall|k: int| 0 <= k < ds.len() implies {
            let d = #[trigger] after[k];
            d.endpoints == ds[k].endpoints + tagged_endpoints_of_path(path, methods, ds[k].name)
        } by {
            assert(ds[k].endpoints + Seq::<EndpointView>::empty() =~= ds[k].endpoints);
        }
    } else {
        let front = methods.drop_last();
        let op = methods.last().1;
        let e = endpoint_of(path, methods.last().0, op);
        let mid = add_path(ds, path, front);
        add_path_collects(ds, path, front);
        operation_fans_out(mid, path, methods.last().0, op);
        assert forall|name: Seq<char>|
            (#[trigger] tagged_endpoints_of_path(path, methods, name)).len()
                > 0 implies has_text(domain_names(after), name) by {
            if tagged_endpoints_of_path(path, front, name).len() > 0 {
                let x = choose|x: int|
                    0 <= x < domain_names(mid).len() && domain_names(mid)[x] == name;
                assert(after[x].name == mid[x].name);
                assert(domain_names(after)[x] == name);
            } else {
                assert(occurrences(op.tags, name) > 0);
                occurrences_positive(op.tags, name);
                let j = choose|j: int| 0 <= j < op.tags.len() && op.tags[j] == name;
                assert(has_text(domain_names(after), op.tags[j]));
            }
        }
        assert forall|k: int| 0 <= k < ds.len() implies {
            let d = #[trigger] after[k];
            &&& d.name == ds[k].name
            &&& d.endpoints == ds[k].endpoints + tagged_endpoints_of_path(
                path,
                methods,
                ds[k].name,
            )
        } by {
            let m = mid[k];
            crate::text::concat_assoc(
                ds[k].endpoints,
                tagged_endpoints_of_path(path, front, ds[k].name),
                copies(e, occurrences(op.tags, ds[k].name)),
            );
        }
        assert forall|k: int| ds.len() <= k < after.len() implies {
            let d = #[trigger] after[k];
            d.endpoints == tagged_endpoints_of_path(path, methods, d.name)
        } by {
            if k < mid.len() {
                let m = mid[k];
            } else {
                let name = after[k].name;
                assert(domain_names(after)[k] == name);
                if tagged_endpoints_of_path(path, front, name).len() > 0 {
                    let x = choose|x: int|
                        0 <= x < domain_names(mid).len() && domain_names(mid)[x] == name;
                    assert(after[x].name == mid[x].name);
                    assert(domain_names(after)[x] == name);
                    assert(domain_names(after)[x] != domain_names(after)[k]);
                }
                assert(tagged_endpoints_of_path(path, front, name) =~= Seq::<
                    EndpointView,
                >::empty());
                assert(Seq::<EndpointView>::empty() + copies(e, occurrences(op.tags, name))
                    =~= copies(e, occurrences(op.tags, name)));
            }
        }
    }
}

/// What adding the operations of all paths does to the endpoints of the domains.
proof fn add_paths_collects(
    ds: Seq<DomainView>,
    paths: Seq<(Seq<char>, Seq<(Seq<char>, OperationView)>)>,
)
    requires
        distinct_texts(domain_names(ds)),
    ensures
        distinct_texts(domain_names(add_paths(ds, paths))),
        ds.len() <= add_paths(ds, paths).len(),
        forall|k: int|
            0 <= k < ds.len() ==> {
                let d = #[trigger] add_paths(ds, paths)[k];
                &&& d.name == ds[k].name
                &&& d.endpoints == ds[k].endpoints + tagged_endpoints(paths, ds[k].name)
            },
        forall|k: int|
            ds.len() <= k < add_paths(ds, paths).len() ==> {
                let d = #[trigger] add_paths(ds, paths)[k];
                d.endpoints == tagged_endpoints(paths, d.name)
            },
        forall|name: Seq<char>|
            (#[trigger] tagged_endpoints(paths, name)).len() > 0 ==> has_text(
                domain_names(add_paths(ds, paths)),
                name,
            ),
    decreases paths.len(),
{
    let after = add_paths(ds, paths);
    if paths.len() == 0 {
        assert forall|k: int| 0 <= k < ds.len() implies {
            let d = #[trigger] after[k];
            d.endpoints == ds[k].endpoints + tagged_endpoints(paths, ds[k].name)
        } by {
            assert(ds[k].endpoints + Seq::<EndpointView>::empty() =~= ds[k].endpoints);
        }
    } else {
        let front = paths.drop_last();
        let path = paths.last().0;
        let methods = paths.last().1;
        let mid = add_paths(ds, front);
        add_paths_collects(ds, front);
        add_path_collects(mid, path, methods);
        assert forall|name: Seq<char>|
            (#[trigger] tagged_endpoints(paths, name)).len() > 0 implies has_text(
            domain_names(after),
            name,
        ) by {
            if tagged_endpoints(front, name).len() > 0 {
                let x = choose|x: int|
                    0 <= x < domain_names(mid).len() && domain_names(mid)[x] == name;
                assert(after[x].name == mid[x].name);
                assert(domain_names(after)[x] == name);
            } else {
                assert(tagged_endpoints_of_path(path, methods, name).len() > 0);
            }
        }
        assert forall|k: int| 0 <= k < ds.len() implies {
            let d = #[trigger] after[k];
            &&& d.name == ds[k].name
            &&& d.endpoints == ds[k].endpoints + tagged_endpoints(paths, ds[k].name)
        } by {
            let m = mid[k];
            crate::text::concat_assoc(
                ds[k].endpoints,
                tagged_endpoints(front, ds[k].name),
                tagged_endpoints_of_path(path, methods, ds[k].name),
            );
        }
        assert forall|k: int| ds.len() <= k < after.len() implies {
            let d = #[trigger] after[k];
            d.endpoints == tagged_endpoints(paths, d.name)
        } by {
            if k < mid.len() {
                let m = mid[k];
            } else {
                let name = after[k].name;
                assert(domain_names(after)[k] == name);
                if tagged_endpoints(front, name).len() > 0 {
                    let x = choose|x: int|
                        0 <= x < domain_names(mid).len() && domain_names(mid)[x] == name;
                    assert(after[x].name == mid[x].name);
                    assert(domain_names(after)[x] == name);
                    assert(domain_names(after)[x] != domain_names(after)[k]);
                }
                assert(tagged_endpoints(front, name) =~= Seq::<EndpointView>::empty());
                assert(Seq::<EndpointView>::empty() + tagged_endpoints_of_path(
                    path,
                    methods,
                    name,
                ) =~= tagged_endpoints_of_path(path, methods, name));
            }
        }
    }
}

/// The domains of the declared tags hold no endpoint.
proof fn declared_domains_are_empty(tags: Seq<TagView>)
    ensures
        forall|k: int|
            0 <= k < declared_domains(tags).len() ==> (#[trigger] declared_domains(
                tags,
            )[k]).endpoints == Seq::<EndpointView>::empty(),
    decreases tags.len(),
{
    if tags.len() > 0 {
        declared_domains_are_empty(tags.drop_last());
        index_of_text_is_first(domain_names(declared_domains(tags.drop_last())), tags.last().name);
    }
}

/// Every domain of a document holds the endpoints of exactly the operations that
/// carry its name, in the order of the document: one endpoint for each time an
/// operation carries the name, and none of an operation that does not carry it.
pub proof fn domain_holds_tagged_endpoints(doc: SpecView, k: int)
    requires
        0 <= k < domains_of(doc).len(),
    ensures
        domains_of(doc)[k].endpoints == tagged_endpoints(doc.paths, domains_of(doc)[k].name),
{
    let declared = declared_domains(doc.tags);
    declared_domains_are_distinct(doc.tags);
    declared_domains_are_empty(doc.tags);
    add_paths_collects(declared, doc.paths);
    if k < declared.len() {
        assert(declared[k].endpoints + tagged_endpoints(doc.paths, declared[k].name)
            =~= tagged_endpoints(doc.paths, declared[k].name));
    }
}

} // verus!
