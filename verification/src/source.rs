use snowflake_connector_rs::{SnowflakeAuthMethod, SnowflakeClient, SnowflakeClientConfig};
use std::sync::Arc;
use std::time::Duration;
use tokio::runtime::Runtime;
use vstd::prelude::*;

use crate::conn::{parse_connection, settings_of, AuthMethod, ConnectionSettings, SettingsView};
use crate::decode::{integer_cell, Row, RowView};
use crate::errors::{outcome, ConnectorXError, ConnectorXErrorKind, DataOrder, SnowflakeSourceError, SourceErrorKind};
use crate::parser::SnowflakeSourceParser;
use crate::text::{copy_opt_text, opt_text};
use crate::typesystem::{name_type, SnowflakeTypeSystem};

verus! {

#[verifier::external_type_specification]
#[verifier::external_body]
pub struct ExRuntime(tokio::runtime::Runtime);

#[verifier::external_type_specification]
#[verifier::external_body]
pub struct ExSnowflakeClient(snowflake_connector_rs::SnowflakeClient);

/// A query of the connector: `Naked` as the user wrote it, `Wrapped` once
/// the connector has rewritten it.
#[derive(Clone, Debug)]
pub enum CXQuery<Q> {
    Naked(Q),
    Wrapped(Q),
}

impl<Q: View> View for CXQuery<Q> {
    type V = CXQuery<Q::V>;

    open spec fn view(&self) -> CXQuery<Q::V> {
        match self {
            CXQuery::Naked(q) => CXQuery::Naked(q@),
            CXQuery::Wrapped(q) => CXQuery::Wrapped(q@),
        }
    }
}

/// The text of a query.
pub open spec fn query_text(q: CXQuery<Seq<char>>) -> Seq<char> {
    match q {
        CXQuery::Naked(s) => s,
        CXQuery::Wrapped(s) => s,
    }
}

impl CXQuery<String> {
    /// The text of the query.
    pub fn as_str(&self) -> (res: &str)
        ensures
            res@ == query_text(self@),
    {
        match self {
            CXQuery::Naked(q) => q.as_str(),
            CXQuery::Wrapped(q) => q.as_str(),
        }
    }

    /// A copy of the query.
    pub fn copied(&self) -> (res: CXQuery<String>)
        ensures
            res@ == self@,
    {
        match self {
            CXQuery::Naked(q) => CXQuery::Naked(q.clone()),
            CXQuery::Wrapped(q) => CXQuery::Wrapped(q.clone()),
        }
    }
}

/// The queries of a list, by their characters.
pub open spec fn queries_text(qs: Seq<CXQuery<String>>) -> Seq<CXQuery<Seq<char>>> {
    qs.map_values(|q: CXQuery<String>| q@)
}

/// The strings of a list, by their characters.
pub open spec fn texts(v: Seq<String>) -> Seq<Seq<char>> {
    v.map_values(|s: String| s@)
}

/// Copies a list of strings.
pub fn copy_texts(v: &Vec<String>) -> (res: Vec<String>)
    ensures
        texts(res@) == texts(v@),
{
    let mut out: Vec<String> = Vec::new();
    let mut i: usize = 0;
    while i < v.len()
        invariant
            i <= v.len(),
            texts(out@) == texts(v@.take(i as int)),
        decreases v.len() - i,
    {
        proof {
            assert(texts(v@.take(i + 1)) =~= texts(v@.take(i as int)).push(v@[i as int]@));
        }
        out.push(v[i].clone());
        proof {
            assert(texts(out@) =~= texts(v@.take(i + 1)));
        }
        i = i + 1;
    }
    proof {
        assert(v@.take(v.len() as int) =~= v@);
    }
    out
}

/// Copies a list of types.
pub fn copy_types(v: &[SnowflakeTypeSystem]) -> (res: Vec<SnowflakeTypeSystem>)
    ensures
        res@ == v@,
{
    let mut out: Vec<SnowflakeTypeSystem> = Vec::new();
    let mut i: usize = 0;
    while i < v.len()
        invariant
            i <= v.len(),
            out@ == v@.take(i as int),
        decreases v.len() - i,
    {
        out.push(v[i]);
        proof {
            assert(out@ =~= v@.take(i + 1));
        }
        i = i + 1;
    }
    proof {
        assert(v@.take(v.len() as int) =~= v@);
    }
    out
}

/// A client of Snowflake, with the settings that it was made with.
pub struct Client {
    inner: SnowflakeClient,
    settings: Ghost<SettingsView>,
}

impl Client {
    /// The settings that the client was made with.
    pub closed spec fn settings(&self) -> SettingsView {
        self.settings@
    }

    /// A client made with the settings, where an HTTP client can be built.
    pub fn connect(settings: ConnectionSettings) -> (res: Result<Client, SnowflakeSourceError>)
        ensures
            res matches Ok(c) ==> c.settings() == settings@,
            res matches Err(e) ==> e@ == SourceErrorKind::SnowflakeConnector,
    {
        match new_client(settings) {
            Ok(c) => Ok(c),
            Err(e) => Err(SnowflakeSourceError::SnowflakeConnectorError(e)),
        }
    }

    /// The client of `snowflake_connector_rs`.
    pub fn inner(&self) -> &SnowflakeClient {
        &self.inner
    }
}

/// Calls `SnowflakeClient::new` of `snowflake_connector_rs` with the user
/// name, the way of signing in and the client configuration of the settings.
/// Trusted: a client that comes back keeps these settings, as the crate's
/// constructor stores them unchanged. The call builds an HTTP client, which
/// may fail on the machine; when it does is not stated.
#[verifier::external_body]
fn new_client(settings: ConnectionSettings) -> (res: Result<Client, snowflake_connector_rs::Error>)
    ensures
        res matches Ok(c) ==> c.settings() == settings@,
{
    let view = Ghost(settings@);
    let auth = match settings.auth {
        AuthMethod::Password(p) => SnowflakeAuthMethod::Password(p),
        AuthMethod::KeyPair { encrypted_pem, password } => SnowflakeAuthMethod::KeyPair { encrypted_pem, password },
    };
    let c = settings.config;
    let timeout = c.timeout_secs.map(Duration::from_secs);
    let (account, warehouse, database, schema, role) = (c.account, c.warehouse, c.database, c.schema, c.role);
    let config = SnowflakeClientConfig { account, warehouse, database, schema, role, timeout };
    let inner = SnowflakeClient::new(settings.username.as_str(), auth, config)?;
    Ok(Client { inner, settings: view })
}

/// The number of rows that a count query gave, read from the first cell of
/// its first row.
pub open spec fn count_of(first_row: Option<RowView>) -> Result<usize, SourceErrorKind> {
    match first_row {
        None => Err(SourceErrorKind::Other("cannot get count result"@)),
        Some(r) => match integer_cell(r.values[0], false, 0, u64::MAX as int, "u64"@) {
            Ok(n) => Ok((n as u64) as usize),
            Err(m) => Err(SourceErrorKind::Other(m)),
        },
    }
}

/// The view of an optional row.
pub open spec fn opt_row(r: Option<&Row>) -> Option<RowView> {
    match r {
        Some(r) => Some(r@),
        None => None,
    }
}

/// The number of rows that a count query gave, from the first row of its
/// result (`None` where it gave no row).
pub fn row_count(first_row: Option<&Row>) -> (res: Result<usize, SnowflakeSourceError>)
    requires
        first_row matches Some(r) ==> r@.has_cell(0),
    ensures
        outcome(res) == count_of(opt_row(first_row)),
{
    match first_row {
        None => Err(SnowflakeSourceError::Other(String::from_str("cannot get count result"))),
        Some(r) => {
            let cell = &r.values[0];
            let column = &r.columns[0];
            proof {
                assert(r@.values[0] == opt_text(*cell));
            }
            match crate::decode::decode_u64(cell, &column.column_type) {
                Ok(n) => Ok(n as usize),
                Err(m) => Err(SnowflakeSourceError::Other(m)),
            }
        },
    }
}

/// Whether every column of a row has a type name of Snowflake.
pub open spec fn columns_known(r: RowView) -> bool {
    forall|i: int| 0 <= i < r.types.len() ==> (#[trigger] name_type(r.types[i].snowflake_type)) is Some
}

/// The types of the columns of a row.
pub open spec fn column_types(r: RowView) -> Seq<SnowflakeTypeSystem> {
    r.types.map_values(|t: crate::decode::ColumnTypeView| name_type(t.snowflake_type).unwrap())
}

/// The queries that the last list set gave, or none where no list was set.
pub open spec fn last_queries_set(lists: Seq<Seq<CXQuery<Seq<char>>>>) -> Seq<CXQuery<Seq<char>>> {
    if lists.len() == 0 {
        Seq::empty()
    } else {
        lists.last()
    }
}

/// Setting a list of queries makes it the list run, whatever was set
/// before; before any list is set, no query is run.
pub proof fn lemma_last_list_set_wins(lists: Seq<Seq<CXQuery<Seq<char>>>>, queries: Seq<CXQuery<Seq<char>>>)
    ensures
        last_queries_set(Seq::empty()).len() == 0,
        last_queries_set(lists.push(queries)) == queries,
{
}

/// The queries that a source runs, and every list of queries set on it so
/// far, in order.
struct QueryList {
    queries: Vec<CXQuery<String>>,
    lists: Ghost<Seq<Seq<CXQuery<Seq<char>>>>>,
}

/// The names and types of the columns of a source's queries, set together.
struct Columns {
    names: Vec<String>,
    schema: Vec<SnowflakeTypeSystem>,
}

/// Each recorded column type is exactly the type that the column's type name
/// is read as: one type for each column of the row, in the columns' order.
pub proof fn lemma_recorded_types_are_read_from_names(r: RowView, i: int)
    requires
        columns_known(r),
        0 <= i < r.types.len(),
    ensures
        column_types(r).len() == r.types.len(),
        Some(column_types(r)[i]) == name_type(r.types[i].snowflake_type),
{
    assert(name_type(r.types[i].snowflake_type) is Some);
}

/// The source of a Snowflake query: where it connects, the queries it runs,
/// and the names and types of their columns.
pub struct SnowflakeSource {
    rt: Arc<Runtime>,
    client: Arc<Client>,
    origin_query: Option<String>,
    query_list: QueryList,
    columns: Columns,
}

impl SnowflakeSource {
    /// Every source has one type for each column name, and runs the
    /// queries of the last list set on it.
    #[verifier::type_invariant]
    spec fn well_formed(self) -> bool {
        &&& self.columns.names@.len() == self.columns.schema@.len()
        &&& queries_text(self.query_list.queries@) == last_queries_set(self.query_list.lists@)
    }

    pub closed spec fn spec_rt(&self) -> Arc<Runtime> {
        self.rt
    }

    pub closed spec fn spec_client(&self) -> Arc<Client> {
        self.client
    }

    pub closed spec fn spec_origin_query(&self) -> Option<Seq<char>> {
        opt_text(self.origin_query)
    }

    pub closed spec fn spec_queries(&self) -> Seq<CXQuery<Seq<char>>> {
        queries_text(self.query_list.queries@)
    }

    /// Every list of queries set on the source so far, in order.
    pub closed spec fn spec_query_lists(&self) -> Seq<Seq<CXQuery<Seq<char>>>> {
        self.query_list.lists@
    }

    pub closed spec fn spec_names(&self) -> Seq<Seq<char>> {
        texts(self.columns.names@)
    }

    pub closed spec fn spec_schema(&self) -> Seq<SnowflakeTypeSystem> {
        self.columns.schema@
    }

    /// There is one type for each column name. Every source has it: a new
    /// source has no column, setting the metadata from a row sets both from
    /// that row, and no other step changes either.
    pub open spec fn columns_consistent(&self) -> bool {
        self.spec_names().len() == self.spec_schema().len()
    }

    /// A source that connects as the connection string says, with no query
    /// yet. It fails where the string does not give settings, with the error
    /// that `settings_of` gives, or where no client can be made of them.
    pub fn new(rt: Arc<Runtime>, conn: &str) -> (res: Result<Self, SnowflakeSourceError>)
        ensures
            settings_of(conn@) matches Err(k) ==> res matches Err(e) && e@ == k,
            res matches Err(e) ==> settings_of(conn@) == Err::<crate::conn::SettingsView, SourceErrorKind>(e@)
                || (settings_of(conn@) is Ok && e@ == SourceErrorKind::SnowflakeConnector),
            res matches Ok(s) ==> {
                &&& settings_of(conn@) == Ok::<SettingsView, SourceErrorKind>(s.spec_client().settings())
                &&& s.spec_rt() == rt
                &&& s.spec_origin_query() is None
                &&& s.spec_queries().len() == 0
                &&& s.spec_query_lists().len() == 0
                &&& s.spec_names().len() == 0
                &&& s.spec_schema().len() == 0
                &&& s.columns_consistent()
            },
    {
        let settings = parse_connection(conn)?;
        let client = Client::connect(settings)?;
        let query_list = QueryList { queries: Vec::new(), lists: Ghost(Seq::empty()) };
        proof {
            assert(queries_text(query_list.queries@) =~= Seq::<CXQuery<Seq<char>>>::empty());
        }
        let res = SnowflakeSource {
            rt,
            client: Arc::new(client),
            origin_query: None,
            query_list,
            columns: Columns { names: Vec::new(), schema: Vec::new() },
        };
        proof {
            assert(res.spec_queries() =~= Seq::<CXQuery<Seq<char>>>::empty());
            assert(res.spec_names() =~= Seq::<Seq<char>>::empty());
        }
        Ok(res)
    }

    /// The orders in which the source can hand out its cells: row by row.
    pub fn data_orders() -> (res: Vec<DataOrder>)
        ensures
            res@ == seq![DataOrder::RowMajor],
    {
        let mut v: Vec<DataOrder> = Vec::new();
        v.push(DataOrder::RowMajor);
        v
    }

    /// The source hands out its cells row by row only: any other order fails.
    pub fn set_data_order(&mut self, data_order: DataOrder) -> (res: Result<(), SnowflakeSourceError>)
        ensures
            *final(self) == *old(self),
            final(self).columns_consistent(),
            data_order == DataOrder::RowMajor <==> res is Ok,
            res matches Err(e) ==> e@ == SourceErrorKind::ConnectorX(ConnectorXErrorKind::UnsupportedDataOrder(data_order)),
    {
        proof {
            use_type_invariant(&*self);
        }
        match data_order {
            DataOrder::RowMajor => Ok(()),
            _ => Err(SnowflakeSourceError::ConnectorXError(ConnectorXError::UnsupportedDataOrder(data_order))),
        }
    }

    /// Sets the queries that the source runs.
    pub fn set_queries(&mut self, queries: &[CXQuery<String>])
        ensures
            final(self).spec_queries() == queries_text(queries@),
            final(self).spec_query_lists() == old(self).spec_query_lists().push(queries_text(queries@)),
            final(self).columns_consistent(),
            final(self).spec_origin_query() == old(self).spec_origin_query(),
            final(self).spec_names() == old(self).spec_names(),
            final(self).spec_schema() == old(self).spec_schema(),
            final(self).spec_rt() == old(self).spec_rt(),
            final(self).spec_client() == old(self).spec_client(),
    {
        proof {
            use_type_invariant(&*self);
        }
        let mut out: Vec<CXQuery<String>> = Vec::new();
        let mut i: usize = 0;
        while i < queries.len()
            invariant
                i <= queries.len(),
                queries_text(out@) == queries_text(queries@.take(i as int)),
            decreases queries.len() - i,
        {
            proof {
                assert(queries_text(queries@.take(i + 1)) =~= queries_text(queries@.take(i as int)).push(queries@[i as int]@));
            }
            out.push(queries[i].copied());
            proof {
                assert(queries_text(out@) =~= queries_text(queries@.take(i + 1)));
            }
            i = i + 1;
        }
        proof {
            assert(queries@.take(queries.len() as int) =~= queries@);
        }
        let ghost lists = self.query_list.lists@.push(queries_text(queries@));
        self.query_list = QueryList { queries: out, lists: Ghost(lists) };
    }

    /// Sets the query that the queries of the source were made from.
    pub fn set_origin_query(&mut self, query: Option<String>)
        ensures
            final(self).spec_origin_query() == opt_text(query),
            final(self).columns_consistent(),
            final(self).spec_queries() == old(self).spec_queries(),
            final(self).spec_query_lists() == old(self).spec_query_lists(),
            final(self).spec_names() == old(self).spec_names(),
            final(self).spec_schema() == old(self).spec_schema(),
            final(self).spec_rt() == old(self).spec_rt(),
            final(self).spec_client() == old(self).spec_client(),
    {
        proof {
            use_type_invariant(&*self);
        }
        self.origin_query = query;
    }

    /// The query that the queries of the source were made from.
    pub fn origin_query(&self) -> (res: Option<String>)
        ensures
            opt_text(res) == self.spec_origin_query(),
    {
        copy_opt_text(&self.origin_query)
    }

    /// The queries that the source runs.
    pub fn queries(&self) -> (res: &Vec<CXQuery<String>>)
        ensures
            queries_text(res@) == self.spec_queries(),
            queries_text(res@) == last_queries_set(self.spec_query_lists()),
    {
        proof {
            use_type_invariant(self);
        }
        &self.query_list.queries
    }

    /// The runtime that the source runs its queries on.
    pub fn runtime(&self) -> (res: &Arc<Runtime>)
        ensures
            *res == self.spec_rt(),
    {
        &self.rt
    }

    /// The client that the source runs its queries with.
    pub fn client(&self) -> (res: &Arc<Client>)
        ensures
            *res == self.spec_client(),
    {
        &self.client
    }

    /// Records the names and types of the columns of a query, read from the
    /// first row of its result; a result with no row fails, and leaves the
    /// source as it was. Every column must have a type name of Snowflake.
    pub fn record_metadata(&mut self, first_row: Option<&Row>) -> (res: Result<(), SnowflakeSourceError>)
        requires
            first_row matches Some(r) ==> columns_known(r@),
        ensures
            final(self).columns_consistent(),
            first_row is None ==> {
                &&& outcome(res) == Err::<(), SourceErrorKind>(SourceErrorKind::Other("cannot get columns data due to empty query result"@))
                &&& *final(self) == *old(self)
            },
            first_row matches Some(r) ==> {
                &&& res is Ok
                &&& final(self).columns_consistent()
                &&& final(self).spec_names() == r@.names
                &&& final(self).spec_schema() == column_types(r@)
                &&& final(self).spec_schema().len() == r@.types.len()
                &&& forall|i: int| 0 <= i < r@.types.len() ==> Some(#[trigger] final(self).spec_schema()[i])
                    == name_type(r@.types[i].snowflake_type)
                &&& final(self).spec_queries() == old(self).spec_queries()
                &&& final(self).spec_query_lists() == old(self).spec_query_lists()
                &&& final(self).spec_origin_query() == old(self).spec_origin_query()
                &&& final(self).spec_rt() == old(self).spec_rt()
                &&& final(self).spec_client() == old(self).spec_client()
            },
    {
        proof {
            use_type_invariant(&*self);
        }
        match first_row {
            None => Err(SnowflakeSourceError::Other(String::from_str("cannot get columns data due to empty query result"))),
            Some(r) => {
                let mut names: Vec<String> = Vec::new();
                let mut types: Vec<SnowflakeTypeSystem> = Vec::new();
                let mut i: usize = 0;
                while i < r.columns.len()
                    invariant
                        i <= r.columns.len(),
                        columns_known(r@),
                        texts(names@) == r@.names.take(i as int),
                        types@ == column_types(r@).take(i as int),
                    decreases r.columns.len() - i,
                {
                    let column = &r.columns[i];
                    proof {
                        assert(r@.types[i as int] == column.column_type@);
                        assert(r@.names[i as int] == column.name@);
                        assert(name_type(r@.types[i as int].snowflake_type) is Some);
                        assert(r@.names.take(i + 1) =~= r@.names.take(i as int).push(column.name@));
                    }
                    let ghost prev = names@;
                    names.push(column.name.clone());
                    proof {
                        assert(texts(names@) =~= texts(prev).push(column.name@));
                    }
                    types.push(SnowflakeTypeSystem::from_type_name(column.column_type.snowflake_type.as_str()));
                    proof {
                        assert(texts(names@) =~= r@.names.take(i + 1));
                        assert(types@ =~= column_types(r@).take(i + 1));
                    }
                    i = i + 1;
                }
                proof {
                    assert(r@.names.take(r.columns.len() as int) =~= r@.names);
                    assert(column_types(r@).take(r.columns.len() as int) =~= column_types(r@));
                }
                self.columns = Columns { names, schema: types };
                Ok(())
            },
        }
    }

    /// As `record_metadata`, but gives `None`, and leaves the source as it
    /// was, where a column of the row has a type name that is not Snowflake's.
    pub fn try_record_metadata(&mut self, first_row: Option<&Row>) -> (res: Option<Result<(), SnowflakeSourceError>>)
        ensures
            res is None <==> (first_row matches Some(r) && !columns_known(r@)),
            res is None ==> *final(self) == *old(self),
            final(self).columns_consistent(),
            first_row is None ==> {
                &&& res matches Some(r) && outcome(r) == Err::<(), SourceErrorKind>(SourceErrorKind::Other("cannot get columns data due to empty query result"@))
                &&& *final(self) == *old(self)
            },
            first_row matches Some(r) ==> columns_known(r@) ==> {
                &&& res == Some(Ok::<(), SnowflakeSourceError>(()))
                &&& final(self).spec_names() == r@.names
                &&& final(self).spec_schema() == column_types(r@)
                &&& final(self).spec_schema().len() == r@.types.len()
                &&& forall|i: int| 0 <= i < r@.types.len() ==> Some(#[trigger] final(self).spec_schema()[i])
                    == name_type(r@.types[i].snowflake_type)
                &&& final(self).spec_queries() == old(self).spec_queries()
                &&& final(self).spec_query_lists() == old(self).spec_query_lists()
                &&& final(self).spec_origin_query() == old(self).spec_origin_query()
                &&& final(self).spec_rt() == old(self).spec_rt()
                &&& final(self).spec_client() == old(self).spec_client()
            },
    {
        proof {
            use_type_invariant(&*self);
        }
        if let Some(r) = first_row {
            let mut i: usize = 0;
            while i < r.columns.len()
                invariant
                    i <= r.columns.len(),
                    first_row == Some(r),
                    self.columns_consistent(),
                    forall|j: int| 0 <= j < i ==> (#[trigger] name_type(r@.types[j].snowflake_type)) is Some,
                decreases r.columns.len() - i,
            {
                proof {
                    assert(r@.types[i as int] == r.columns[i as int].column_type@);
                }
                if SnowflakeTypeSystem::parse_type_name(r.columns[i].column_type.snowflake_type.as_str()).is_none() {
                    proof {
                        assert(name_type(r@.types[i as int].snowflake_type) is None);
                    }
                    return None;
                }
                i = i + 1;
            }
        }
        Some(self.record_metadata(first_row))
    }

    /// The number of rows of the query that the queries were made from, from
    /// the first row of the result of its count query.
    pub fn origin_row_count(&self, first_row: Option<&Row>) -> (res: Result<Option<usize>, SnowflakeSourceError>)
        requires
            first_row matches Some(r) ==> r@.has_cell(0),
        ensures
            match (self.spec_origin_query(), res) {
                (None, Ok(n)) => n is None,
                (None, Err(_)) => false,
                (Some(_), Ok(n)) => n matches Some(k) && count_of(opt_row(first_row)) == Ok::<usize, SourceErrorKind>(k),
                (Some(_), Err(e)) => count_of(opt_row(first_row)) == Err::<usize, SourceErrorKind>(e@),
            },
    {
        match &self.origin_query {
            None => Ok(None),
            Some(_) => {
                let n = row_count(first_row)?;
                Ok(Some(n))
            },
        }
    }

    /// The names of the columns.
    pub fn names(&self) -> (res: Vec<String>)
        ensures
            texts(res@) == self.spec_names(),
            res.len() == self.spec_schema().len(),
    {
        proof {
            use_type_invariant(self);
        }
        let res = copy_texts(&self.columns.names);
        proof {
            assert(texts(res@).len() == res@.len());
            assert(texts(self.columns.names@).len() == self.columns.names@.len());
        }
        res
    }

    /// The types of the columns.
    pub fn schema(&self) -> (res: Vec<SnowflakeTypeSystem>)
        ensures
            res@ == self.spec_schema(),
            res.len() == self.spec_names().len(),
    {
        proof {
            use_type_invariant(self);
        }
        copy_types(self.columns.schema.as_slice())
    }

    /// One partition for each query, in their order, each with the types of
    /// the columns and the runtime and client of the source. The queries are
    /// those of the last list set on the source, none where no list was set.
    pub fn partition(self) -> (res: Result<Vec<SnowflakeSourcePartition>, SnowflakeSourceError>)
        ensures
            self.spec_queries() == last_queries_set(self.spec_query_lists()),
            res matches Ok(parts) && parts.len() == self.spec_queries().len() && forall|i: int|
                0 <= i < parts.len() ==> {
                    &&& (#[trigger] parts[i]).spec_query() == self.spec_queries()[i]
                    &&& parts[i].spec_schema() == self.spec_schema()
                    &&& parts[i].spec_nrows() == 0
                    &&& parts[i].spec_counts().len() == 0
                    &&& parts[i].spec_ncols() == self.spec_schema().len()
                    &&& parts[i].spec_rt() == self.spec_rt()
                    &&& parts[i].spec_client() == self.spec_client()
                },
    {
        proof {
            use_type_invariant(&self);
        }
        let mut ret: Vec<SnowflakeSourcePartition> = Vec::new();
        let mut i: usize = 0;
        while i < self.query_list.queries.len()
            invariant
                i <= self.query_list.queries.len(),
                ret.len() == i,
                forall|j: int|
                    0 <= j < i ==> {
                        &&& (#[trigger] ret@[j]).spec_query() == self.query_list.queries@[j]@
                        &&& ret@[j].spec_schema() == self.columns.schema@
                        &&& ret@[j].spec_nrows() == 0
                        &&& ret@[j].spec_counts().len() == 0
                        &&& ret@[j].spec_ncols() == self.columns.schema@.len()
                        &&& ret@[j].spec_rt() == self.rt
                        &&& ret@[j].spec_client() == self.client
                    },
            decreases self.query_list.queries.len() - i,
        {
            ret.push(
                SnowflakeSourcePartition::new(
                    self.rt.clone(),
                    self.client.clone(),
                    &self.query_list.queries[i],
                    self.columns.schema.as_slice(),
                ),
            );
            i = i + 1;
        }
        Ok(ret)
    }
}

/// The row count that the latest successful count among `counts` gave, or 0
/// where none of them succeeded.
pub open spec fn latest_count(counts: Seq<Result<usize, SourceErrorKind>>) -> usize
    decreases counts.len(),
{
    if counts.len() == 0 {
        0
    } else {
        match counts.last() {
            Ok(n) => n,
            Err(_) => latest_count(counts.drop_last()),
        }
    }
}

/// A successful count sets the row count, a failed one leaves it as it
/// was, and before any count it is 0.
pub proof fn lemma_latest_count_steps(counts: Seq<Result<usize, SourceErrorKind>>, n: usize, e: SourceErrorKind)
    ensures
        latest_count(Seq::empty()) == 0,
        latest_count(counts.push(Ok(n))) == n,
        latest_count(counts.push(Err(e))) == latest_count(counts),
{
    assert(counts.push(Err::<usize, SourceErrorKind>(e)).drop_last() =~= counts);
}

/// The rows counted for a partition: the latest count that succeeded, and
/// the outcome of every count made, in order.
struct RowCount {
    n: usize,
    outcomes: Ghost<Seq<Result<usize, SourceErrorKind>>>,
}

/// The part of a source's work that one query makes.
pub struct SnowflakeSourcePartition {
    rt: Arc<Runtime>,
    client: Arc<Client>,
    query: CXQuery<String>,
    schema: Vec<SnowflakeTypeSystem>,
    count: RowCount,
    ncols: usize,
}

impl SnowflakeSourcePartition {
    /// Every partition has as many columns as types, and its row count is
    /// the one that its latest successful count gave.
    #[verifier::type_invariant]
    spec fn counts_agree(self) -> bool {
        &&& self.ncols == self.schema@.len()
        &&& self.count.n == latest_count(self.count.outcomes@)
    }

    pub closed spec fn spec_rt(&self) -> Arc<Runtime> {
        self.rt
    }

    pub closed spec fn spec_client(&self) -> Arc<Client> {
        self.client
    }

    pub closed spec fn spec_query(&self) -> CXQuery<Seq<char>> {
        self.query@
    }

    pub closed spec fn spec_schema(&self) -> Seq<SnowflakeTypeSystem> {
        self.schema@
    }

    pub closed spec fn spec_nrows(&self) -> usize {
        self.count.n
    }

    /// The outcome of every count of the partition's rows so far, in order.
    pub closed spec fn spec_counts(&self) -> Seq<Result<usize, SourceErrorKind>> {
        self.count.outcomes@
    }

    pub closed spec fn spec_ncols(&self) -> usize {
        self.ncols
    }

    /// A partition of one query, with no row counted yet.
    pub fn new(
        handle: Arc<Runtime>,
        client: Arc<Client>,
        query: &CXQuery<String>,
        schema: &[SnowflakeTypeSystem],
    ) -> (res: Self)
        ensures
            res.spec_rt() == handle,
            res.spec_client() == client,
            res.spec_query() == query@,
            res.spec_schema() == schema@,
            res.spec_nrows() == 0,
            res.spec_counts().len() == 0,
            res.spec_ncols() == schema@.len(),
    {
        SnowflakeSourcePartition {
            rt: handle,
            client,
            query: query.copied(),
            schema: copy_types(schema),
            count: RowCount { n: 0, outcomes: Ghost(Seq::empty()) },
            ncols: schema.len(),
        }
    }

    /// Records the number of rows of the query, from the first row of the
    /// result of its count query; on an error the partition stays as it was.
    pub fn record_row_count(&mut self, first_row: Option<&Row>) -> (res: Result<(), SnowflakeSourceError>)
        requires
            first_row matches Some(r) ==> r@.has_cell(0),
        ensures
            match count_of(opt_row(first_row)) {
                Ok(n) => res is Ok && final(self).spec_nrows() == n,
                Err(k) => res matches Err(e) && e@ == k && final(self).spec_nrows() == old(self).spec_nrows(),
            },
            final(self).spec_counts() == old(self).spec_counts().push(count_of(opt_row(first_row))),
            final(self).spec_query() == old(self).spec_query(),
            final(self).spec_schema() == old(self).spec_schema(),
            final(self).spec_ncols() == old(self).spec_ncols(),
            final(self).spec_rt() == old(self).spec_rt(),
            final(self).spec_client() == old(self).spec_client(),
    {
        proof {
            use_type_invariant(&*self);
        }
        let got = row_count(first_row);
        let ghost outcomes = self.count.outcomes@.push(outcome(got));
        proof {
            assert(outcomes.drop_last() =~= self.count.outcomes@);
        }
        match got {
            Ok(n) => {
                self.count = RowCount { n, outcomes: Ghost(outcomes) };
                Ok(())
            },
            Err(e) => {
                self.count = RowCount { n: self.count.n, outcomes: Ghost(outcomes) };
                Err(e)
            },
        }
    }

    /// The parser of the rows of the query's result.
    pub fn parser_over(&self, rows: Vec<Row>) -> (res: SnowflakeSourceParser)
        ensures
            res.spec_rows() == rows@.map_values(|r: Row| r@),
            res.row_index() == 0,
            res.col_index() == 0,
            res.width() == self.spec_schema().len(),
            res.width() == self.spec_ncols(),
            res.spec_rt() == self.spec_rt(),
            res.spec_client() == self.spec_client(),
    {
        proof {
            use_type_invariant(self);
        }
        SnowflakeSourceParser::new(self.rt.clone(), self.client.clone(), rows, self.schema.as_slice())
    }

    /// The query of the partition.
    pub fn query(&self) -> (res: &CXQuery<String>)
        ensures
            res@ == self.spec_query(),
    {
        &self.query
    }

    /// The runtime that the partition runs its queries on.
    pub fn runtime(&self) -> (res: &Arc<Runtime>)
        ensures
            *res == self.spec_rt(),
    {
        &self.rt
    }

    /// The client that the partition runs its queries with.
    pub fn client(&self) -> (res: &Arc<Client>)
        ensures
            *res == self.spec_client(),
    {
        &self.client
    }

    /// The number of rows counted: that of the latest count that succeeded,
    /// or 0 where none has.
    pub fn nrows(&self) -> (res: usize)
        ensures
            res == self.spec_nrows(),
            res == latest_count(self.spec_counts()),
    {
        proof {
            use_type_invariant(self);
        }
        self.count.n
    }

    /// The number of columns: one for each type of the schema.
    pub fn ncols(&self) -> (res: usize)
        ensures
            res == self.spec_ncols(),
            res == self.spec_schema().len(),
    {
        proof {
            use_type_invariant(self);
        }
        self.ncols
    }
}

} // verus!
