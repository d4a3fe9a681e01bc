//! The structured query model, the fluent builders with their finalize-time
//! validation, and the serializer that renders a query as an OData URL path.

use vstd::prelude::*;
use crate::error::ResoError;
use crate::text::decimal;
use crate::text::join_all;
use crate::text::joined;
use crate::text::u32_string;
use crate::urlenc::percent_encode;
use crate::urlenc::url_encoded;

verus! {

/// The mathematical content of a `Query`: every parameter as a sequence of
/// characters (field lists as sequences of field names, in caller order).
pub ghost struct QueryView {
    pub resource: Seq<char>,
    pub key: Option<Seq<char>>,
    pub filter: Option<Seq<char>>,
    pub select_fields: Option<Seq<Seq<char>>>,
    pub order_by: Option<Seq<char>>,
    pub top: Option<u32>,
    pub skip: Option<u32>,
    pub count: bool,
    pub count_only: bool,
    pub apply: Option<Seq<char>>,
    pub expand: Option<Seq<Seq<char>>>,
}

/// A structured RESO/OData query, immutable once built.
#[derive(Debug, Clone)]
pub struct Query {
    resource: String,
    key: Option<String>,
    filter: Option<String>,
    select_fields: Option<Vec<String>>,
    order_by: Option<String>,
    top: Option<u32>,
    skip: Option<u32>,
    count: bool,
    count_only: bool,
    apply: Option<String>,
    expand: Option<Vec<String>>,
}

impl View for Query {
    type V = QueryView;

    closed spec fn view(&self) -> QueryView {
        QueryView {
            resource: self.resource@,
            key: self.key.deep_view(),
            filter: self.filter.deep_view(),
            select_fields: self.select_fields.deep_view(),
            order_by: self.order_by.deep_view(),
            top: self.top,
            skip: self.skip,
            count: self.count,
            count_only: self.count_only,
            apply: self.apply.deep_view(),
            expand: self.expand.deep_view(),
        }
    }
}

/// The mathematical content of a `ReplicationQuery`.
pub ghost struct ReplicationQueryView {
    pub resource: Seq<char>,
    pub filter: Option<Seq<char>>,
    pub select_fields: Option<Seq<Seq<char>>>,
    pub top: Option<u32>,
}

/// A structured query against the bulk replication endpoint. It supports
/// only filter, select and top; key access, skip, ordering, aggregation and
/// count options do not exist for this endpoint.
#[derive(Debug, Clone)]
pub struct ReplicationQuery {
    resource: String,
    filter: Option<String>,
    select_fields: Option<Vec<String>>,
    top: Option<u32>,
}

impl View for ReplicationQuery {
    type V = ReplicationQueryView;

    closed spec fn view(&self) -> ReplicationQueryView {
        ReplicationQueryView {
            resource: self.resource@,
            filter: self.filter.deep_view(),
            select_fields: self.select_fields.deep_view(),
            top: self.top,
        }
    }
}

/// The `$apply` entry of the parameter list: empty when unset.
pub open spec fn apply_part(apply: Option<Seq<char>>) -> Seq<Seq<char>> {
    match apply {
        Some(a) => seq!["$apply="@ + url_encoded(a)],
        None => seq![],
    }
}

/// The `$filter` entry of the parameter list: empty when unset.
pub open spec fn filter_part(filter: Option<Seq<char>>) -> Seq<Seq<char>> {
    match filter {
        Some(f) => seq!["$filter="@ + url_encoded(f)],
        None => seq![],
    }
}

/// The `$select` entry of the parameter list: field names joined by literal
/// commas, in caller order, not percent-encoded.
pub open spec fn select_part(fields: Option<Seq<Seq<char>>>) -> Seq<Seq<char>> {
    match fields {
        Some(fs) => seq!["$select="@ + joined(fs, ","@)],
        None => seq![],
    }
}

/// The `$expand` entry of the parameter list: field names joined by literal
/// commas, in caller order, not percent-encoded.
pub open spec fn expand_part(fields: Option<Seq<Seq<char>>>) -> Seq<Seq<char>> {
    match fields {
        Some(fs) => seq!["$expand="@ + joined(fs, ","@)],
        None => seq![],
    }
}

/// The `$orderby` entry of the parameter list: empty when unset.
pub open spec fn orderby_part(order_by: Option<Seq<char>>) -> Seq<Seq<char>> {
    match order_by {
        Some(o) => seq!["$orderby="@ + url_encoded(o)],
        None => seq![],
    }
}

/// The `$top` entry of the parameter list: empty when unset.
pub open spec fn top_part(top: Option<u32>) -> Seq<Seq<char>> {
    match top {
        Some(n) => seq!["$top="@ + decimal(n as nat)],
        None => seq![],
    }
}

/// The `$skip` entry of the parameter list: empty when unset.
pub open spec fn skip_part(skip: Option<u32>) -> Seq<Seq<char>> {
    match skip {
        Some(n) => seq!["$skip="@ + decimal(n as nat)],
        None => seq![],
    }
}

/// The `$count=true` entry of the parameter list: present exactly when the
/// embedded count was requested.
pub open spec fn count_part(count: bool) -> Seq<Seq<char>> {
    if count {
        seq!["$count=true"@]
    } else {
        seq![]
    }
}

/// The parameter list of a standard (no key, not count-only) query, in the
/// fixed order apply, filter, select, expand, orderby, top, skip, count.
pub open spec fn standard_params(v: QueryView) -> Seq<Seq<char>> {
    apply_part(v.apply) + filter_part(v.filter) + select_part(v.select_fields) + expand_part(
        v.expand,
    ) + orderby_part(v.order_by) + top_part(v.top) + skip_part(v.skip) + count_part(v.count)
}

/// The parameter list of a key-access query: only select and expand, in that
/// order.
pub open spec fn key_params(v: QueryView) -> Seq<Seq<char>> {
    select_part(v.select_fields) + expand_part(v.expand)
}

/// The parameter list of a replication query, in the fixed order filter,
/// select, top.
pub open spec fn replication_params(v: ReplicationQueryView) -> Seq<Seq<char>> {
    filter_part(v.filter) + select_part(v.select_fields) + top_part(v.top)
}

/// The query-string suffix for a parameter list: nothing for an empty list,
/// otherwise `?` followed by the parameters joined by `&`.
pub open spec fn query_suffix(params: Seq<Seq<char>>) -> Seq<char> {
    if params.len() == 0 {
        seq![]
    } else {
        "?"@ + joined(params, "&"@)
    }
}

/// The serialized form of a query: the key-access branch renders
/// `resource('key')` with at most select and expand; the count-only branch
/// renders `resource/$count` with at most a filter; the standard branch
/// renders the resource followed by the full parameter list.
pub open spec fn spec_odata_string(v: QueryView) -> Seq<char> {
    match v.key {
        Some(k) => v.resource + "('"@ + url_encoded(k) + "')"@ + query_suffix(key_params(v)),
        None => if v.count_only {
            v.resource + "/$count"@ + (match v.filter {
                Some(f) => "?$filter="@ + url_encoded(f),
                None => seq![],
            })
        } else {
            v.resource + query_suffix(standard_params(v))
        },
    }
}

/// The serialized form of a replication query: `resource/replication`
/// followed by the parameter list.
pub open spec fn spec_replication_string(v: ReplicationQueryView) -> Seq<char> {
    v.resource + "/replication"@ + query_suffix(replication_params(v))
}

/// The validation outcome of finalizing a query: with a key present, the
/// first set incompatible parameter (in the order filter, top, skip,
/// orderby, apply, count) yields an error message; otherwise none.
pub open spec fn key_conflict(v: QueryView) -> Option<Seq<char>> {
    if v.key is None {
        None
    } else if v.filter is Some {
        Some("Key access cannot be used with $filter"@)
    } else if v.top is Some {
        Some("Key access cannot be used with $top"@)
    } else if v.skip is Some {
        Some("Key access cannot be used with $skip"@)
    } else if v.order_by is Some {
        Some("Key access cannot be used with $orderby"@)
    } else if v.apply is Some {
        Some("Key access cannot be used with $apply"@)
    } else if v.count || v.count_only {
        Some("Key access cannot be used with $count"@)
    } else {
        None
    }
}

/// The validation outcome of finalizing a replication query: a `top` above
/// the hard ceiling of 2000 yields an error message; otherwise none.
pub open spec fn replication_top_conflict(v: ReplicationQueryView) -> Option<Seq<char>> {
    match v.top {
        Some(n) => if n > 2000 {
            Some("Replication queries support maximum $top of 2000, got "@ + decimal(n as nat))
        } else {
            None
        },
        None => None,
    }
}

/// Builds the `$select=` or `$expand=` parameter text for a field list.
fn fields_param(prefix: &str, fields: &Vec<String>) -> (r: String)
    ensures
        r@ == prefix@ + joined(fields.deep_view(), ","@),
{
    let mut r = prefix.to_owned();
    r.append(join_all(fields, ",").as_str());
    r
}

/// Builds an encoded parameter text such as `$filter=` plus the
/// percent-encoded value.
fn encoded_param(prefix: &str, value: &str) -> (r: String)
    ensures
        r@ == prefix@ + url_encoded(value@),
{
    let mut r = prefix.to_owned();
    r.append(percent_encode(value).as_str());
    r
}

/// Builds a numeric parameter text such as `$top=` plus the decimal value.
fn numeric_param(prefix: &str, value: u32) -> (r: String)
    ensures
        r@ == prefix@ + decimal(value as nat),
{
    let mut r = prefix.to_owned();
    r.append(u32_string(value).as_str());
    r
}

/// Appends `?` and the `&`-joined parameter list to `out` when the list is
/// not empty.
fn append_query_suffix(out: &mut String, params: &Vec<String>)
    ensures
        final(out)@ == old(out)@ + query_suffix(params.deep_view()),
{
    if params.len() > 0 {
        out.append("?");
        out.append(join_all(params, "&").as_str());
    } else {
        proof {
            assert(out@ =~= old(out)@ + query_suffix(params.deep_view()));
        }
    }
}

impl Query {
    /// Creates an empty query for a resource, with no key and no parameters.
    pub fn new(resource: &str) -> (r: Query)
        ensures
            r@ == (QueryView {
                resource: resource@,
                key: None,
                filter: None,
                select_fields: None,
                order_by: None,
                top: None,
                skip: None,
                count: false,
                count_only: false,
                apply: None,
                expand: None,
            }),
    {
        Query {
            resource: resource.to_owned(),
            key: None,
            filter: None,
            select_fields: None,
            order_by: None,
            top: None,
            skip: None,
            count: false,
            count_only: false,
            apply: None,
            expand: None,
        }
    }

    /// The first half of the standard parameter list: apply, filter,
    /// select, expand.
    #[verifier::rlimit(50)]
    fn expression_param_list(&self) -> (params: Vec<String>)
        ensures
            params.deep_view() == apply_part(self@.apply) + filter_part(self@.filter)
                + select_part(self@.select_fields) + expand_part(self@.expand),
    {
        let mut params: Vec<String> = Vec::new();
        if let Some(apply) = &self.apply {
            params.push(encoded_param("$apply=", apply.as_str()));
        }
        let ghost mut done = apply_part(self@.apply);
        proof {
            assert(params.deep_view() =~= done);
        }
        if let Some(filter) = &self.filter {
            params.push(encoded_param("$filter=", filter.as_str()));
        }
        proof {
            done = done + filter_part(self@.filter);
            assert(params.deep_view() =~= done);
        }
        if let Some(fields) = &self.select_fields {
            params.push(fields_param("$select=", fields));
        }
        proof {
            done = done + select_part(self@.select_fields);
            assert(params.deep_view() =~= done);
        }
        if let Some(fields) = &self.expand {
            params.push(fields_param("$expand=", fields));
        }
        proof {
            done = done + expand_part(self@.expand);
            assert(params.deep_view() =~= done);
        }
        params
    }

    /// The full parameter list of the standard branch, as parameter texts in
    /// the fixed order.
    #[verifier::rlimit(50)]
    fn standard_param_list(&self) -> (params: Vec<String>)
        ensures
            params.deep_view() == standard_params(self@),
    {
        let mut params = self.expression_param_list();
        let ghost mut done = params.deep_view();
        if let Some(order) = &self.order_by {
            params.push(encoded_param("$orderby=", order.as_str()));
        }
        proof {
            done = done + orderby_part(self@.order_by);
            assert(params.deep_view() =~= done);
        }
        if let Some(top) = self.top {
            params.push(numeric_param("$top=", top));
        }
        proof {
            done = done + top_part(self@.top);
            assert(params.deep_view() =~= done);
        }
        if let Some(skip) = self.skip {
            params.push(numeric_param("$skip=", skip));
        }
        proof {
            done = done + skip_part(self@.skip);
            assert(params.deep_view() =~= done);
        }
        if self.count {
            params.push("$count=true".to_owned());
        }
        proof {
            done = done + count_part(self@.count);
            assert(params.deep_view() =~= done);
            assert(done == standard_params(self@));
        }
        params
    }

    /// Renders this query as its OData URL path and query string.
    pub fn to_odata_string(&self) -> (r: String)
        ensures
            r@ == spec_odata_string(self@),
    {
        if let Some(key) = &self.key {
            let mut out = self.resource.clone();
            out.append("('");
            out.append(percent_encode(key.as_str()).as_str());
            out.append("')");

            let mut params: Vec<String> = Vec::new();
            if let Some(fields) = &self.select_fields {
                params.push(fields_param("$select=", fields));
            }
            proof {
                assert(params.deep_view() =~= select_part(self@.select_fields));
            }
            if let Some(fields) = &self.expand {
                params.push(fields_param("$expand=", fields));
            }
            proof {
                assert(params.deep_view() =~= key_params(self@));
            }
            append_query_suffix(&mut out, &params);
            out
        } else if self.count_only {
            let mut out = self.resource.clone();
            out.append("/$count");
            if let Some(filter) = &self.filter {
                out.append("?$filter=");
                out.append(percent_encode(filter.as_str()).as_str());
            }
            out
        } else {
            let mut out = self.resource.clone();
            let params = self.standard_param_list();
            append_query_suffix(&mut out, &params);
            out
        }
    }
}

impl ReplicationQuery {
    /// Creates an empty replication query for a resource.
    pub fn new(resource: &str) -> (r: ReplicationQuery)
        ensures
            r@ == (ReplicationQueryView {
                resource: resource@,
                filter: None,
                select_fields: None,
                top: None,
            }),
    {
        ReplicationQuery {
            resource: resource.to_owned(),
            filter: None,
            select_fields: None,
            top: None,
        }
    }

    /// Renders this query as its OData URL path and query string, always
    /// rooted at `resource/replication`.
    pub fn to_odata_string(&self) -> (r: String)
        ensures
            r@ == spec_replication_string(self@),
    {
        let mut out = self.resource.clone();
        out.append("/replication");

        let mut params: Vec<String> = Vec::new();
        if let Some(filter) = &self.filter {
            params.push(encoded_param("$filter=", filter.as_str()));
        }
        proof {
            assert(params.deep_view() =~= filter_part(self@.filter));
        }
        if let Some(fields) = &self.select_fields {
            params.push(fields_param("$select=", fields));
        }
        proof {
            assert(params.deep_view() =~= filter_part(self@.filter) + select_part(
                self@.select_fields,
            ));
        }
        if let Some(top) = self.top {
            params.push(numeric_param("$top=", top));
        }
        proof {
            assert(params.deep_view() =~= replication_params(self@));
        }
        append_query_suffix(&mut out, &params);
        out
    }

    /// The resource name this query addresses.
    pub fn resource(&self) -> (r: &str)
        ensures
            r@ == self@.resource,
    {
        self.resource.as_str()
    }
}

/// Fluent builder for standard queries. Each setter overwrites its one field
/// and hands the builder back; `build` validates once, at the end.
pub struct QueryBuilder {
    query: Query,
}

impl View for QueryBuilder {
    type V = QueryView;

    closed spec fn view(&self) -> QueryView {
        self.query@
    }
}

impl QueryBuilder {
    /// Starts a standard query for a resource.
    pub fn new(resource: &str) -> (r: QueryBuilder)
        ensures
            r@ == (QueryView {
                resource: resource@,
                key: None,
                filter: None,
                select_fields: None,
                order_by: None,
                top: None,
                skip: None,
                count: false,
                count_only: false,
                apply: None,
                expand: None,
            }),
    {
        QueryBuilder { query: Query::new(resource) }
    }

    /// Starts a singleton-access query: the key is recorded at once, so that
    /// finalization can detect conflicting parameters whatever the call
    /// order.
    pub fn by_key(resource: &str, key: &str) -> (r: QueryBuilder)
        ensures
            r@ == (QueryView {
                resource: resource@,
                key: Some(key@),
                filter: None,
                select_fields: None,
                order_by: None,
                top: None,
                skip: None,
                count: false,
                count_only: false,
                apply: None,
                expand: None,
            }),
    {
        let mut query = Query::new(resource);
        query.key = Some(key.to_owned());
        QueryBuilder { query }
    }

    /// Sets the opaque OData filter expression (overwriting any earlier one).
    pub fn filter(self, expression: &str) -> (r: QueryBuilder)
        ensures
            r@ == (QueryView { filter: Some(expression@), ..self@ }),
    {
        let mut query = self.query;
        query.filter = Some(expression.to_owned());
        QueryBuilder { query }
    }

    /// Sets the opaque OData aggregation expression.
    pub fn apply(self, expression: &str) -> (r: QueryBuilder)
        ensures
            r@ == (QueryView { apply: Some(expression@), ..self@ }),
    {
        let mut query = self.query;
        query.apply = Some(expression.to_owned());
        QueryBuilder { query }
    }

    /// Sets the field list for `$select`, keeping the caller's order.
    pub fn select(self, fields: &[&str]) -> (r: QueryBuilder)
        ensures
            r@ == (QueryView { select_fields: Some(fields.deep_view()), ..self@ }),
    {
        let mut query = self.query;
        query.select_fields = Some(copy_fields(fields));
        QueryBuilder { query }
    }

    /// Sets the field list for `$expand`, keeping the caller's order.
    pub fn expand(self, fields: &[&str]) -> (r: QueryBuilder)
        ensures
            r@ == (QueryView { expand: Some(fields.deep_view()), ..self@ }),
    {
        let mut query = self.query;
        query.expand = Some(copy_fields(fields));
        QueryBuilder { query }
    }

    /// Sets the ordering as the literal token `field direction`; the
    /// direction is stored as given, not validated.
    pub fn order_by(self, field: &str, direction: &str) -> (r: QueryBuilder)
        ensures
            r@ == (QueryView { order_by: Some(field@ + " "@ + direction@), ..self@ }),
    {
        let mut combined = field.to_owned();
        combined.append(" ");
        combined.append(direction);
        let mut query = self.query;
        query.order_by = Some(combined);
        QueryBuilder { query }
    }

    /// Limits the number of results.
    pub fn top(self, n: u32) -> (r: QueryBuilder)
        ensures
            r@ == (QueryView { top: Some(n), ..self@ }),
    {
        let mut query = self.query;
        query.top = Some(n);
        QueryBuilder { query }
    }

    /// Skips results, for offset pagination.
    pub fn skip(self, n: u32) -> (r: QueryBuilder)
        ensures
            r@ == (QueryView { skip: Some(n), ..self@ }),
    {
        let mut query = self.query;
        query.skip = Some(n);
        QueryBuilder { query }
    }

    /// Requests the total count embedded alongside the records.
    pub fn with_count(self) -> (r: QueryBuilder)
        ensures
            r@ == (QueryView { count: true, ..self@ }),
    {
        let mut query = self.query;
        query.count = true;
        QueryBuilder { query }
    }

    /// Switches the query to count-only mode: the count endpoint is
    /// addressed instead of the record list.
    pub fn count(self) -> (r: QueryBuilder)
        ensures
            r@ == (QueryView { count_only: true, ..self@ }),
    {
        let mut query = self.query;
        query.count_only = true;
        QueryBuilder { query }
    }

    /// Finalizes the query. With a key present, any set incompatible
    /// parameter fails the build with `InvalidQuery` and the message given
    /// by `key_conflict`; without a key the build always succeeds.
    pub fn build(self) -> (r: Result<Query, ResoError>)
        ensures
            match r {
                Ok(q) => key_conflict(self@) is None && q@ == self@,
                Err(e) => key_conflict(self@) matches Some(m) && (e matches ResoError::InvalidQuery(
                    em,
                ) && em@ == m),
            },
    {
        if self.query.key.is_some() {
            if self.query.filter.is_some() {
                return Err(
                    ResoError::InvalidQuery("Key access cannot be used with $filter".to_owned()),
                );
            }
            if self.query.top.is_some() {
                return Err(
                    ResoError::InvalidQuery("Key access cannot be used with $top".to_owned()),
                );
            }
            if self.query.skip.is_some() {
                return Err(
                    ResoError::InvalidQuery("Key access cannot be used with $skip".to_owned()),
                );
            }
            if self.query.order_by.is_some() {
                return Err(
                    ResoError::InvalidQuery("Key access cannot be used with $orderby".to_owned()),
                );
            }
            if self.query.apply.is_some() {
                return Err(
                    ResoError::InvalidQuery("Key access cannot be used with $apply".to_owned()),
                );
            }
            if self.query.count || self.query.count_only {
                return Err(
                    ResoError::InvalidQuery("Key access cannot be used with $count".to_owned()),
                );
            }
        }
        Ok(self.query)
    }
}

/// Fluent builder for replication queries: only filter, select and top
/// exist; `build` enforces the hard `top` ceiling of 2000.
pub struct ReplicationQueryBuilder {
    query: ReplicationQuery,
}

impl View for ReplicationQueryBuilder {
    type V = ReplicationQueryView;

    closed spec fn view(&self) -> ReplicationQueryView {
        self.query@
    }
}

impl ReplicationQueryBuilder {
    /// Starts a replication query for a resource.
    pub fn new(resource: &str) -> (r: ReplicationQueryBuilder)
        ensures
            r@ == (ReplicationQueryView {
                resource: resource@,
                filter: None,
                select_fields: None,
                top: None,
            }),
    {
        ReplicationQueryBuilder { query: ReplicationQuery::new(resource) }
    }

    /// Sets the opaque OData filter expression.
    pub fn filter(self, expression: &str) -> (r: ReplicationQueryBuilder)
        ensures
            r@ == (ReplicationQueryView { filter: Some(expression@), ..self@ }),
    {
        let mut query = self.query;
        query.filter = Some(expression.to_owned());
        ReplicationQueryBuilder { query }
    }

    /// Sets the field list for `$select`, keeping the caller's order.
    pub fn select(self, fields: &[&str]) -> (r: ReplicationQueryBuilder)
        ensures
            r@ == (ReplicationQueryView { select_fields: Some(fields.deep_view()), ..self@ }),
    {
        let mut query = self.query;
        query.select_fields = Some(copy_fields(fields));
        ReplicationQueryBuilder { query }
    }

    /// Limits the number of results; values above 2000 are rejected at
    /// build time.
    pub fn top(self, n: u32) -> (r: ReplicationQueryBuilder)
        ensures
            r@ == (ReplicationQueryView { top: Some(n), ..self@ }),
    {
        let mut query = self.query;
        query.top = Some(n);
        ReplicationQueryBuilder { query }
    }

    /// Finalizes the replication query: it succeeds unless `top` exceeds
    /// 2000, in which case `InvalidQuery` names the ceiling and the given
    /// value.
    pub fn build(self) -> (r: Result<ReplicationQuery, ResoError>)
        ensures
            match r {
                Ok(q) => replication_top_conflict(self@) is None && q@ == self@,
                Err(e) => replication_top_conflict(self@) matches Some(m) && (
                e matches ResoError::InvalidQuery(em) && em@ == m),
            },
    {
        if let Some(top) = self.query.top {
            if top > 2000 {
                let mut message = "Replication queries support maximum $top of 2000, got "
                    .to_owned();
                message.append(u32_string(top).as_str());
                return Err(ResoError::InvalidQuery(message));
            }
        }
        Ok(self.query)
    }
}

/// Copies a borrowed field list into owned strings, preserving order.
fn copy_fields(fields: &[&str]) -> (r: Vec<String>)
    ensures
        r.deep_view() == fields.deep_view(),
{
    let mut owned: Vec<String> = Vec::new();
    let mut i: usize = 0;
    while i < fields.len()
        invariant
            i <= fields@.len(),
            owned@.len() == i,
            forall|j: int| #![auto] 0 <= j < i ==> owned@[j]@ == fields@[j]@,
        decreases fields@.len() - i,
    {
        owned.push(fields[i].to_owned());
        i = i + 1;
    }
    proof {
        assert(owned.deep_view() =~= fields.deep_view());
    }
    owned
}

/// For a query without a key and not in count-only mode, the serialized
/// form starts with the resource name, appends `?` exactly when at least
/// one parameter is present, and lists the parameters joined by `&` in the
/// fixed order apply, filter, select, expand, orderby, top, skip, count.
pub proof fn lemma_standard_serialization_shape(v: QueryView)
    requires
        v.key is None,
        !v.count_only,
    ensures
        spec_odata_string(v).take(v.resource.len() as int) == v.resource,
        standard_params(v).len() == 0 ==> spec_odata_string(v) == v.resource,
        standard_params(v).len() > 0 ==> spec_odata_string(v) == v.resource + "?"@ + joined(
            standard_params(v),
            "&"@,
        ),
        standard_params(v).len() > 0 ==> spec_odata_string(v)[v.resource.len() as int] == '?',
        standard_params(v) == apply_part(v.apply) + filter_part(v.filter) + select_part(
            v.select_fields,
        ) + expand_part(v.expand) + orderby_part(v.order_by) + top_part(v.top) + skip_part(v.skip)
            + count_part(v.count),
{
    reveal_strlit("?");
    if standard_params(v).len() == 0 {
        assert(v.resource + query_suffix(standard_params(v)) =~= v.resource);
    } else {
        assert(v.resource + ("?"@ + joined(standard_params(v), "&"@)) =~= v.resource + "?"@
            + joined(standard_params(v), "&"@));
    }
    assert(spec_odata_string(v).take(v.resource.len() as int) =~= v.resource);
}

/// Every branch of the serializer emits the resource name first: the
/// serialized form of any query begins with it.
pub proof fn lemma_serialization_starts_with_resource(v: QueryView)
    ensures
        spec_odata_string(v).len() >= v.resource.len(),
        spec_odata_string(v).take(v.resource.len() as int) == v.resource,
{
    assert(spec_odata_string(v).take(v.resource.len() as int) =~= v.resource);
}

/// For a key-access builder state, finalization fails exactly when any of
/// filter, top, skip, order_by, apply, count or count-only is set,
/// whatever the order the setters were called in.
pub proof fn lemma_key_access_conflict(v: QueryView)
    requires
        v.key is Some,
    ensures
        key_conflict(v) is Some <==> (v.filter is Some || v.top is Some || v.skip is Some
            || v.order_by is Some || v.apply is Some || v.count || v.count_only),
{
}

/// Count-only serialization depends on the resource and the filter alone:
/// two count-only queries that agree on those serialize identically, however
/// their top, skip, select, expand, orderby, apply or count fields differ.
pub proof fn lemma_count_only_ignores_other_parameters(a: QueryView, b: QueryView)
    requires
        a.count_only,
        b.count_only,
        a.key is None,
        b.key is None,
        a.resource == b.resource,
        a.filter == b.filter,
    ensures
        spec_odata_string(a) == spec_odata_string(b),
{
}

} // verus!
