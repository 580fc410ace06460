use vstd::prelude::*;

verus! {

#[verifier::external_type_specification]
#[verifier::external_body]
pub struct ExSnowflakeConnectorError(snowflake_connector_rs::Error);

#[verifier::external_type_specification]
#[verifier::external_body]
pub struct ExUrlParseError(url::ParseError);

#[verifier::external_type_specification]
#[verifier::external_body]
pub struct ExIoError(std::io::Error);

#[verifier::external_type_specification]
#[verifier::external_body]
pub struct ExJsonError(serde_json::Error);

#[verifier::external_type_specification]
#[verifier::external_body]
pub struct ExParseFloatError(std::num::ParseFloatError);

#[verifier::external_type_specification]
#[verifier::external_body]
pub struct ExParseIntError(std::num::ParseIntError);

/// The order in which a source hands out the cells of its result.
#[derive(Copy, Clone, Debug, PartialEq, Eq, Structural)]
pub enum DataOrder {
    RowMajor,
    ColumnMajor,
}

#[verifier::external_type_specification]
#[verifier::external_body]
pub struct ExParserError(sqlparser::parser::ParserError);

/// Errors of the connector that are not particular to one database.
#[derive(Debug)]
pub enum ConnectorXError {
    /// The source cannot hand out its cells in this order.
    UnsupportedDataOrder(DataOrder),
    /// A query could not be read as SQL.
    SqlParserError(sqlparser::parser::ParserError),
}

/// What an error of the connector is, leaving out the parser's error.
pub enum ConnectorXErrorKind {
    UnsupportedDataOrder(DataOrder),
    SqlParser,
}

impl View for ConnectorXError {
    type V = ConnectorXErrorKind;

    open spec fn view(&self) -> ConnectorXErrorKind {
        match self {
            ConnectorXError::UnsupportedDataOrder(d) => ConnectorXErrorKind::UnsupportedDataOrder(*d),
            ConnectorXError::SqlParserError(_) => ConnectorXErrorKind::SqlParser,
        }
    }
}

/// Errors of the Snowflake source.
#[derive(Debug)]
pub enum SnowflakeSourceError {
    ConnectorXError(ConnectorXError),
    SnowflakeConnectorError(snowflake_connector_rs::Error),
    SnowflakeUrlError(url::ParseError),
    SnowflakeStdError(std::io::Error),
    SnowflakeJsonError(serde_json::Error),
    SnowflakeParseFloatError(std::num::ParseFloatError),
    SnowflakeParseIntError(std::num::ParseIntError),
    /// Any other error, by its message.
    Other(String),
}

/// What an error of the source is, leaving out what outside values it carries.
pub enum SourceErrorKind {
    ConnectorX(ConnectorXErrorKind),
    SnowflakeConnector,
    Url,
    Std,
    Json,
    ParseFloat,
    ParseInt,
    Other(Seq<char>),
}

impl View for SnowflakeSourceError {
    type V = SourceErrorKind;

    open spec fn view(&self) -> SourceErrorKind {
        match self {
            SnowflakeSourceError::ConnectorXError(e) => SourceErrorKind::ConnectorX(e@),
            SnowflakeSourceError::SnowflakeConnectorError(_) => SourceErrorKind::SnowflakeConnector,
            SnowflakeSourceError::SnowflakeUrlError(_) => SourceErrorKind::Url,
            SnowflakeSourceError::SnowflakeStdError(_) => SourceErrorKind::Std,
            SnowflakeSourceError::SnowflakeJsonError(_) => SourceErrorKind::Json,
            SnowflakeSourceError::SnowflakeParseFloatError(_) => SourceErrorKind::ParseFloat,
            SnowflakeSourceError::SnowflakeParseIntError(_) => SourceErrorKind::ParseInt,
            SnowflakeSourceError::Other(m) => SourceErrorKind::Other(m@),
        }
    }
}

/// A result of the source with its error taken by what it is.
pub open spec fn outcome<T>(r: Result<T, SnowflakeSourceError>) -> Result<T, SourceErrorKind> {
    match r {
        Ok(v) => Ok(v),
        Err(e) => Err(e@),
    }
}

} // verus!
