use vstd::prelude::*;

use crate::errors::{ConnectorXError, SnowflakeSourceError};
use crate::typesystem::{is_nullable, with_nullability, SnowflakeTypeSystem};

verus! {

/// The Arrow types that Snowflake columns are written as; the flag tells
/// whether the column may hold nulls.
#[derive(Copy, Clone, Debug, PartialEq, Eq, Structural)]
pub enum ArrowTypeSystem {
    Boolean(bool),
    Int64(bool),
    Float64(bool),
    LargeUtf8(bool),
    Date32(bool),
    Time64(bool),
    Date64(bool),
    LargeBinary(bool),
}

/// Whether an Arrow column of this type may hold nulls.
pub open spec fn arrow_nullable(t: ArrowTypeSystem) -> bool {
    match t {
        ArrowTypeSystem::Boolean(n) => n,
        ArrowTypeSystem::Int64(n) => n,
        ArrowTypeSystem::Float64(n) => n,
        ArrowTypeSystem::LargeUtf8(n) => n,
        ArrowTypeSystem::Date32(n) => n,
        ArrowTypeSystem::Time64(n) => n,
        ArrowTypeSystem::Date64(n) => n,
        ArrowTypeSystem::LargeBinary(n) => n,
    }
}

/// The Arrow type that a Snowflake type is written as, with the same
/// nullability.
pub open spec fn arrow_type_of(t: SnowflakeTypeSystem) -> ArrowTypeSystem {
    match t {
        SnowflakeTypeSystem::Boolean(n) => ArrowTypeSystem::Boolean(n),
        SnowflakeTypeSystem::Number(n) => ArrowTypeSystem::Int64(n),
        SnowflakeTypeSystem::Float(n) => ArrowTypeSystem::Float64(n),
        SnowflakeTypeSystem::Varchar(n) => ArrowTypeSystem::LargeUtf8(n),
        SnowflakeTypeSystem::Date(n) => ArrowTypeSystem::Date32(n),
        SnowflakeTypeSystem::Time(n) => ArrowTypeSystem::Time64(n),
        SnowflakeTypeSystem::DateTime(n) => ArrowTypeSystem::Date64(n),
        SnowflakeTypeSystem::Binary(n) => ArrowTypeSystem::LargeBinary(n),
    }
}

/// Moves the cells of a Snowflake source to an Arrow destination.
pub struct SnowflakeArrowTransport;

impl SnowflakeArrowTransport {
    /// The Arrow type that a Snowflake type is written as.
    pub fn convert_typesystem(ts: SnowflakeTypeSystem) -> (res: ArrowTypeSystem)
        ensures
            res == arrow_type_of(ts),
    {
        match ts {
            SnowflakeTypeSystem::Boolean(n) => ArrowTypeSystem::Boolean(n),
            SnowflakeTypeSystem::Number(n) => ArrowTypeSystem::Int64(n),
            SnowflakeTypeSystem::Float(n) => ArrowTypeSystem::Float64(n),
            SnowflakeTypeSystem::Varchar(n) => ArrowTypeSystem::LargeUtf8(n),
            SnowflakeTypeSystem::Date(n) => ArrowTypeSystem::Date32(n),
            SnowflakeTypeSystem::Time(n) => ArrowTypeSystem::Time64(n),
            SnowflakeTypeSystem::DateTime(n) => ArrowTypeSystem::Date64(n),
            SnowflakeTypeSystem::Binary(n) => ArrowTypeSystem::LargeBinary(n),
        }
    }
}

/// Converting a type keeps whether its column may hold nulls, and no two
/// Snowflake types are written as the same Arrow type.
pub proof fn lemma_conversion_keeps_nullability_and_is_injective(a: SnowflakeTypeSystem, b: SnowflakeTypeSystem)
    ensures
        arrow_nullable(arrow_type_of(a)) == is_nullable(a),
        arrow_type_of(a) == arrow_type_of(b) ==> a == b,
{
}

/// The Arrow type of the same kind as `t` whose nullability flag is `n`.
pub open spec fn arrow_with_nullability(t: ArrowTypeSystem, n: bool) -> ArrowTypeSystem {
    match t {
        ArrowTypeSystem::Boolean(_) => ArrowTypeSystem::Boolean(n),
        ArrowTypeSystem::Int64(_) => ArrowTypeSystem::Int64(n),
        ArrowTypeSystem::Float64(_) => ArrowTypeSystem::Float64(n),
        ArrowTypeSystem::LargeUtf8(_) => ArrowTypeSystem::LargeUtf8(n),
        ArrowTypeSystem::Date32(_) => ArrowTypeSystem::Date32(n),
        ArrowTypeSystem::Time64(_) => ArrowTypeSystem::Time64(n),
        ArrowTypeSystem::Date64(_) => ArrowTypeSystem::Date64(n),
        ArrowTypeSystem::LargeBinary(_) => ArrowTypeSystem::LargeBinary(n),
    }
}

/// The Arrow kind of a type depends on its Snowflake kind alone: changing
/// the nullability of a Snowflake type changes only the nullability of its
/// Arrow type.
pub proof fn lemma_arrow_kind_ignores_nullability(t: SnowflakeTypeSystem, n: bool)
    ensures
        arrow_type_of(with_nullability(t, n)) == arrow_with_nullability(arrow_type_of(t), n),
{
}

/// Each Snowflake kind is written as its Arrow kind, whatever its
/// nullability, which is kept: booleans as `Boolean`, integers (`Number`) as
/// `Int64`, floats as `Float64`, text as `LargeUtf8`, dates as `Date32`,
/// times as `Time64`, timestamps as `Date64`, binary as `LargeBinary`.
pub proof fn lemma_arrow_type_of_each_kind(n: bool)
    ensures
        arrow_type_of(SnowflakeTypeSystem::Boolean(n)) == ArrowTypeSystem::Boolean(n),
        arrow_type_of(SnowflakeTypeSystem::Number(n)) == ArrowTypeSystem::Int64(n),
        arrow_type_of(SnowflakeTypeSystem::Float(n)) == ArrowTypeSystem::Float64(n),
        arrow_type_of(SnowflakeTypeSystem::Varchar(n)) == ArrowTypeSystem::LargeUtf8(n),
        arrow_type_of(SnowflakeTypeSystem::Date(n)) == ArrowTypeSystem::Date32(n),
        arrow_type_of(SnowflakeTypeSystem::Time(n)) == ArrowTypeSystem::Time64(n),
        arrow_type_of(SnowflakeTypeSystem::DateTime(n)) == ArrowTypeSystem::Date64(n),
        arrow_type_of(SnowflakeTypeSystem::Binary(n)) == ArrowTypeSystem::LargeBinary(n),
{
}

/// An error of the Arrow destination, by its message.
#[derive(Debug)]
pub struct ArrowDestinationError {
    pub message: String,
}

/// Errors of the transport from a Snowflake source.
#[derive(Debug)]
pub enum SnowflakeArrowTransportError {
    Source(SnowflakeSourceError),
    Destination(ArrowDestinationError),
    ConnectorX(ConnectorXError),
}

impl From<ArrowDestinationError> for SnowflakeArrowTransportError {
    fn from(e: ArrowDestinationError) -> (res: Self) {
        SnowflakeArrowTransportError::Destination(e)
    }
}

impl vstd::std_specs::convert::FromSpecImpl<ArrowDestinationError> for SnowflakeArrowTransportError {
    open spec fn obeys_from_spec() -> bool {
        true
    }

    open spec fn from_spec(e: ArrowDestinationError) -> Self {
        SnowflakeArrowTransportError::Destination(e)
    }
}

impl From<SnowflakeSourceError> for SnowflakeArrowTransportError {
    fn from(e: SnowflakeSourceError) -> (res: Self) {
        SnowflakeArrowTransportError::Source(e)
    }
}

impl vstd::std_specs::convert::FromSpecImpl<SnowflakeSourceError> for SnowflakeArrowTransportError {
    open spec fn obeys_from_spec() -> bool {
        true
    }

    open spec fn from_spec(e: SnowflakeSourceError) -> Self {
        SnowflakeArrowTransportError::Source(e)
    }
}

impl From<ConnectorXError> for SnowflakeArrowTransportError {
    fn from(e: ConnectorXError) -> (res: Self) {
        SnowflakeArrowTransportError::ConnectorX(e)
    }
}

impl vstd::std_specs::convert::FromSpecImpl<ConnectorXError> for SnowflakeArrowTransportError {
    open spec fn obeys_from_spec() -> bool {
        true
    }

    open spec fn from_spec(e: ConnectorXError) -> Self {
        SnowflakeArrowTransportError::ConnectorX(e)
    }
}

} // verus!
