use sqlparser::dialect::SnowflakeDialect;
use sqlparser::parser::Parser;
use vstd::prelude::*;

use crate::errors::{ConnectorXError, ConnectorXErrorKind, SnowflakeSourceError, SourceErrorKind};
use crate::source::{query_text, CXQuery};

verus! {

/// Whether `sqlparser` reads a text as SQL in Snowflake's dialect.
pub uninterp spec fn snowflake_sql_parses(text: Seq<char>) -> bool;

/// Calls `sqlparser::parser::Parser::parse_sql` with Snowflake's dialect.
/// Trusted: it succeeds exactly where `snowflake_sql_parses` holds; which
/// statements it reads, and which `ParserError` comes back, is not stated.
#[verifier::external_body]
fn parse_snowflake_sql(text: &str) -> (res: Result<(), sqlparser::parser::ParserError>)
    ensures
        res is Ok <==> snowflake_sql_parses(text@),
{
    match Parser::parse_sql(&SnowflakeDialect {}, text) {
        Ok(_) => Ok(()),
        Err(e) => Err(e),
    }
}

/// The query that counts the rows of a query's result.
pub open spec fn count_query_text(q: Seq<char>) -> Seq<char> {
    "SELECT COUNT(*) FROM ("@ + q + ") AS CXTMPTAB_COUNT"@
}

/// The query that gives the first row of a query's result.
pub open spec fn limit1_query_text(q: Seq<char>) -> Seq<char> {
    "SELECT * FROM ("@ + q + ") AS CXTMPTAB_LIMIT1 LIMIT 1"@
}

/// The count query holds the query verbatim between its parentheses:
/// `SELECT COUNT(*) FROM (`, then the query, then `) AS CXTMPTAB_COUNT`,
/// whatever the query's text, so it counts every row of the query.
pub proof fn lemma_count_query_holds_the_query(q: Seq<char>)
    ensures
        count_query_text(q).len() == "SELECT COUNT(*) FROM ("@.len() + q.len() + ") AS CXTMPTAB_COUNT"@.len(),
        count_query_text(q).take("SELECT COUNT(*) FROM ("@.len() as int) == "SELECT COUNT(*) FROM ("@,
        count_query_text(q).subrange(
            "SELECT COUNT(*) FROM ("@.len() as int,
            ("SELECT COUNT(*) FROM ("@.len() + q.len()) as int,
        ) == q,
        count_query_text(q).skip(("SELECT COUNT(*) FROM ("@.len() + q.len()) as int) == ") AS CXTMPTAB_COUNT"@,
{
    let p = "SELECT COUNT(*) FROM ("@;
    let t = count_query_text(q);
    assert(t.take(p.len() as int) =~= p);
    assert(t.subrange(p.len() as int, (p.len() + q.len()) as int) =~= q);
    assert(t.skip((p.len() + q.len()) as int) =~= ") AS CXTMPTAB_COUNT"@);
}

/// The first-row query holds the query verbatim between its parentheses:
/// `SELECT * FROM (`, then the query, then `) AS CXTMPTAB_LIMIT1 LIMIT 1`,
/// whatever the query's text.
pub proof fn lemma_limit1_query_holds_the_query(q: Seq<char>)
    ensures
        limit1_query_text(q).len() == "SELECT * FROM ("@.len() + q.len() + ") AS CXTMPTAB_LIMIT1 LIMIT 1"@.len(),
        limit1_query_text(q).take("SELECT * FROM ("@.len() as int) == "SELECT * FROM ("@,
        limit1_query_text(q).subrange("SELECT * FROM ("@.len() as int, ("SELECT * FROM ("@.len() + q.len()) as int) == q,
        limit1_query_text(q).skip(("SELECT * FROM ("@.len() + q.len()) as int) == ") AS CXTMPTAB_LIMIT1 LIMIT 1"@,
{
    let p = "SELECT * FROM ("@;
    let t = limit1_query_text(q);
    assert(t.take(p.len() as int) =~= p);
    assert(t.subrange(p.len() as int, (p.len() + q.len()) as int) =~= q);
    assert(t.skip((p.len() + q.len()) as int) =~= ") AS CXTMPTAB_LIMIT1 LIMIT 1"@);
}

/// The query, wrapped around `inner`, that `prefix` and `suffix` make.
fn wrap_query(prefix: &str, inner: &str, suffix: &str) -> (res: String)
    ensures
        res@ == prefix@ + inner@ + suffix@,
{
    let mut s = String::from_str(prefix);
    s.append(inner);
    s.append(suffix);
    s
}

/// The query that counts the rows of a query's result; a query that is not
/// SQL of Snowflake fails with the parser's error.
pub fn count_query(q: &CXQuery<String>) -> (res: Result<CXQuery<String>, SnowflakeSourceError>)
    ensures
        res is Ok <==> snowflake_sql_parses(query_text(q@)),
        res matches Ok(c) ==> c@ == CXQuery::Wrapped(count_query_text(query_text(q@))),
        res matches Err(e) ==> e@ == SourceErrorKind::ConnectorX(ConnectorXErrorKind::SqlParser),
{
    match parse_snowflake_sql(q.as_str()) {
        Ok(()) => Ok(CXQuery::Wrapped(wrap_query("SELECT COUNT(*) FROM (", q.as_str(), ") AS CXTMPTAB_COUNT"))),
        Err(e) => Err(SnowflakeSourceError::ConnectorXError(ConnectorXError::SqlParserError(e))),
    }
}

/// The query that gives the first row of a query's result; a query that is
/// not SQL of Snowflake fails with the parser's error.
pub fn limit1_query(q: &CXQuery<String>) -> (res: Result<CXQuery<String>, SnowflakeSourceError>)
    ensures
        res is Ok <==> snowflake_sql_parses(query_text(q@)),
        res matches Ok(c) ==> c@ == CXQuery::Wrapped(limit1_query_text(query_text(q@))),
        res matches Err(e) ==> e@ == SourceErrorKind::ConnectorX(ConnectorXErrorKind::SqlParser),
{
    match parse_snowflake_sql(q.as_str()) {
        Ok(()) => Ok(
            CXQuery::Wrapped(wrap_query("SELECT * FROM (", q.as_str(), ") AS CXTMPTAB_LIMIT1 LIMIT 1")),
        ),
        Err(e) => Err(SnowflakeSourceError::ConnectorXError(ConnectorXError::SqlParserError(e))),
    }
}

} // verus!
