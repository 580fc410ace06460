use vstd::prelude::*;

use crate::text::{ascii_lowercase, ascii_uppercase, lemma_ascii_uppercase_ignores_case, same_text};

verus! {

/// The column types of Snowflake that the source can read; the flag tells
/// whether the column may hold nulls.
#[derive(Copy, Clone, Debug, PartialEq, Eq, Structural)]
pub enum SnowflakeTypeSystem {
    Boolean(bool),
    Number(bool),
    Float(bool),
    Varchar(bool),
    Binary(bool),
    Date(bool),
    Time(bool),
    DateTime(bool),
}

/// What `str::to_uppercase` of std returns for a string: the Unicode uppercase
/// mapping of each of its characters, one after the other.
pub uninterp spec fn unicode_uppercase(s: Seq<char>) -> Seq<char>;

/// Calls `str::to_uppercase` of std. Trusted: the result is the uppercase
/// mapping of `s`, named `unicode_uppercase`; of an ASCII text it is the text
/// with `a` to `z` made `A` to `Z` and all else unchanged, as Unicode maps
/// ASCII letters.
#[verifier::external_body]
pub(crate) fn to_uppercase(s: &str) -> (res: String)
    ensures
        res@ == unicode_uppercase(s@),
        vstd::string::is_ascii(s) ==> res@ == ascii_uppercase(s@),
{
    s.to_uppercase()
}

/// The type that an uppercase Snowflake type name stands for. The whole
/// NUMBER / DECIMAL / NUMERIC / FIXED family is read as floating point, since
/// these columns may carry a scale; the integer names are read as integers.
/// Every type found may hold nulls. `None`: the name is not one of Snowflake's.
pub open spec fn upper_name_type(u: Seq<char>) -> Option<SnowflakeTypeSystem> {
    if u == "NUMBER"@ || u == "DECIMAL"@ || u == "NUMERIC"@ || u == "FIXED"@ {
        Some(SnowflakeTypeSystem::Float(true))
    } else if u == "INT"@ || u == "INTEGER"@ || u == "BIGINT"@ || u == "SMALLINT"@ || u == "TINYINT"@ || u == "BYTEINT"@ {
        Some(SnowflakeTypeSystem::Number(true))
    } else if u == "FLOAT"@ || u == "FLOAT4"@ || u == "FLOAT8"@ {
        Some(SnowflakeTypeSystem::Float(true))
    } else if u == "DOUBLE"@ || u == "DOUBLE PRECISION"@ || u == "REAL"@ {
        Some(SnowflakeTypeSystem::Float(true))
    } else if u == "VARCHAR"@ {
        Some(SnowflakeTypeSystem::Varchar(true))
    } else if u == "CHAR"@ || u == "CHARACTER"@ {
        Some(SnowflakeTypeSystem::Varchar(true))
    } else if u == "STRING"@ {
        Some(SnowflakeTypeSystem::Varchar(true))
    } else if u == "TEXT"@ {
        Some(SnowflakeTypeSystem::Varchar(true))
    } else if u == "BINARY"@ {
        Some(SnowflakeTypeSystem::Binary(true))
    } else if u == "VARBINARY"@ {
        Some(SnowflakeTypeSystem::Binary(true))
    } else if u == "BOOLEAN"@ {
        Some(SnowflakeTypeSystem::Boolean(true))
    } else if u == "DATE"@ {
        Some(SnowflakeTypeSystem::Date(true))
    } else if u == "DATETIME"@ {
        Some(SnowflakeTypeSystem::DateTime(true))
    } else if u == "TIME"@ {
        Some(SnowflakeTypeSystem::Time(true))
    } else if u == "TIMESTAMP"@ {
        Some(SnowflakeTypeSystem::DateTime(true))
    } else if u == "TIMESTAMP_NTZ"@ {
        Some(SnowflakeTypeSystem::DateTime(true))
    } else if u == "TIMESTAMP_TZ"@ {
        Some(SnowflakeTypeSystem::DateTime(true))
    } else if u == "TIMESTAMP_LTZ"@ {
        Some(SnowflakeTypeSystem::DateTime(true))
    } else {
        None
    }
}

/// The type that a Snowflake type name stands for, in any letter case.
pub open spec fn name_type(ty: Seq<char>) -> Option<SnowflakeTypeSystem> {
    upper_name_type(unicode_uppercase(ty))
}

/// The name under which a type is written back to Snowflake.
pub open spec fn name_of_type(t: SnowflakeTypeSystem) -> Seq<char> {
    match t {
        SnowflakeTypeSystem::Number(_) => "NUMBER"@,
        SnowflakeTypeSystem::Float(_) => "FLOAT"@,
        SnowflakeTypeSystem::Varchar(_) => "VARCHAR"@,
        SnowflakeTypeSystem::Binary(_) => "BINARY"@,
        SnowflakeTypeSystem::Boolean(_) => "BOOLEAN"@,
        SnowflakeTypeSystem::Date(_) => "DATE"@,
        SnowflakeTypeSystem::Time(_) => "TIME"@,
        SnowflakeTypeSystem::DateTime(_) => "TIMESTAMP_NTZ"@,
    }
}

/// The type of the same kind as `t` whose nullability flag is `n`.
pub open spec fn with_nullability(t: SnowflakeTypeSystem, n: bool) -> SnowflakeTypeSystem {
    match t {
        SnowflakeTypeSystem::Boolean(_) => SnowflakeTypeSystem::Boolean(n),
        SnowflakeTypeSystem::Number(_) => SnowflakeTypeSystem::Number(n),
        SnowflakeTypeSystem::Float(_) => SnowflakeTypeSystem::Float(n),
        SnowflakeTypeSystem::Varchar(_) => SnowflakeTypeSystem::Varchar(n),
        SnowflakeTypeSystem::Binary(_) => SnowflakeTypeSystem::Binary(n),
        SnowflakeTypeSystem::Date(_) => SnowflakeTypeSystem::Date(n),
        SnowflakeTypeSystem::Time(_) => SnowflakeTypeSystem::Time(n),
        SnowflakeTypeSystem::DateTime(_) => SnowflakeTypeSystem::DateTime(n),
    }
}

/// Whether a column of this type may hold nulls.
pub open spec fn is_nullable(t: SnowflakeTypeSystem) -> bool {
    match t {
        SnowflakeTypeSystem::Boolean(n) => n,
        SnowflakeTypeSystem::Number(n) => n,
        SnowflakeTypeSystem::Float(n) => n,
        SnowflakeTypeSystem::Varchar(n) => n,
        SnowflakeTypeSystem::Binary(n) => n,
        SnowflakeTypeSystem::Date(n) => n,
        SnowflakeTypeSystem::Time(n) => n,
        SnowflakeTypeSystem::DateTime(n) => n,
    }
}

impl SnowflakeTypeSystem {
    /// The type that an already uppercased type name stands for.
    pub fn from_upper_name(upper: &str) -> (res: Option<SnowflakeTypeSystem>)
        ensures
            res == upper_name_type(upper@),
    {
        if same_text(upper, "NUMBER") || same_text(upper, "DECIMAL") || same_text(upper, "NUMERIC") || same_text(upper, "FIXED") {
            Some(SnowflakeTypeSystem::Float(true))
        } else if same_text(upper, "INT") || same_text(upper, "INTEGER") || same_text(upper, "BIGINT") || same_text(upper, "SMALLINT") || same_text(upper, "TINYINT") || same_text(upper, "BYTEINT") {
            Some(SnowflakeTypeSystem::Number(true))
        } else if same_text(upper, "FLOAT") || same_text(upper, "FLOAT4") || same_text(upper, "FLOAT8") {
            Some(SnowflakeTypeSystem::Float(true))
        } else if same_text(upper, "DOUBLE") || same_text(upper, "DOUBLE PRECISION") || same_text(upper, "REAL") {
            Some(SnowflakeTypeSystem::Float(true))
        } else if same_text(upper, "VARCHAR") {
            Some(SnowflakeTypeSystem::Varchar(true))
        } else if same_text(upper, "CHAR") || same_text(upper, "CHARACTER") {
            Some(SnowflakeTypeSystem::Varchar(true))
        } else if same_text(upper, "STRING") {
            Some(SnowflakeTypeSystem::Varchar(true))
        } else if same_text(upper, "TEXT") {
            Some(SnowflakeTypeSystem::Varchar(true))
        } else if same_text(upper, "BINARY") {
            Some(SnowflakeTypeSystem::Binary(true))
        } else if same_text(upper, "VARBINARY") {
            Some(SnowflakeTypeSystem::Binary(true))
        } else if same_text(upper, "BOOLEAN") {
            Some(SnowflakeTypeSystem::Boolean(true))
        } else if same_text(upper, "DATE") {
            Some(SnowflakeTypeSystem::Date(true))
        } else if same_text(upper, "DATETIME") {
            Some(SnowflakeTypeSystem::DateTime(true))
        } else if same_text(upper, "TIME") {
            Some(SnowflakeTypeSystem::Time(true))
        } else if same_text(upper, "TIMESTAMP") {
            Some(SnowflakeTypeSystem::DateTime(true))
        } else if same_text(upper, "TIMESTAMP_NTZ") {
            Some(SnowflakeTypeSystem::DateTime(true))
        } else if same_text(upper, "TIMESTAMP_TZ") {
            Some(SnowflakeTypeSystem::DateTime(true))
        } else if same_text(upper, "TIMESTAMP_LTZ") {
            Some(SnowflakeTypeSystem::DateTime(true))
        } else {
            None
        }
    }

    /// The type that a Snowflake type name stands for, in any letter case;
    /// `None` for a name that is not one of Snowflake's types. An ASCII name
    /// is read by its ASCII uppercase form.
    pub fn parse_type_name(ty: &str) -> (res: Option<SnowflakeTypeSystem>)
        ensures
            res == name_type(ty@),
            vstd::string::is_ascii(ty) ==> res == upper_name_type(ascii_uppercase(ty@)),
    {
        let upper = to_uppercase(ty);
        Self::from_upper_name(upper.as_str())
    }

    /// The type that a Snowflake type name stands for, in any letter case.
    /// The name must be one of Snowflake's types.
    pub fn from_type_name(ty: &str) -> (res: SnowflakeTypeSystem)
        requires
            name_type(ty@) is Some,
        ensures
            Some(res) == name_type(ty@),
            vstd::string::is_ascii(ty) ==> Some(res) == upper_name_type(ascii_uppercase(ty@)),
    {
        let upper = to_uppercase(ty);
        match Self::from_upper_name(upper.as_str()) {
            Some(t) => t,
            None => {
                proof {
                    assert(false);
                }
                SnowflakeTypeSystem::Boolean(true)
            },
        }
    }

    /// The name under which this type is written back to Snowflake.
    pub fn snowflake_name(self) -> (res: &'static str)
        ensures
            res@ == name_of_type(self),
    {
        <&'static str as From<SnowflakeTypeSystem>>::from(self)
    }

    /// Whether a column of this type may hold nulls.
    pub fn nullable(self) -> (res: bool)
        ensures
            res == is_nullable(self),
    {
        match self {
            SnowflakeTypeSystem::Boolean(n) => n,
            SnowflakeTypeSystem::Number(n) => n,
            SnowflakeTypeSystem::Float(n) => n,
            SnowflakeTypeSystem::Varchar(n) => n,
            SnowflakeTypeSystem::Binary(n) => n,
            SnowflakeTypeSystem::Date(n) => n,
            SnowflakeTypeSystem::Time(n) => n,
            SnowflakeTypeSystem::DateTime(n) => n,
        }
    }
}

impl<'a> From<SnowflakeTypeSystem> for &'a str {
    /// The name under which a type is written back to Snowflake.
    fn from(ty: SnowflakeTypeSystem) -> (res: &'a str) {
        match ty {
            SnowflakeTypeSystem::Number(_) => "NUMBER",
            SnowflakeTypeSystem::Float(_) => "FLOAT",
            SnowflakeTypeSystem::Varchar(_) => "VARCHAR",
            SnowflakeTypeSystem::Binary(_) => "BINARY",
            SnowflakeTypeSystem::Boolean(_) => "BOOLEAN",
            SnowflakeTypeSystem::Date(_) => "DATE",
            SnowflakeTypeSystem::Time(_) => "TIME",
            SnowflakeTypeSystem::DateTime(_) => "TIMESTAMP_NTZ",
        }
    }
}

impl<'a> vstd::std_specs::convert::FromSpecImpl<SnowflakeTypeSystem> for &'a str {
    open spec fn obeys_from_spec() -> bool {
        true
    }

    open spec fn from_spec(ty: SnowflakeTypeSystem) -> &'a str {
        match ty {
            SnowflakeTypeSystem::Number(_) => "NUMBER",
            SnowflakeTypeSystem::Float(_) => "FLOAT",
            SnowflakeTypeSystem::Varchar(_) => "VARCHAR",
            SnowflakeTypeSystem::Binary(_) => "BINARY",
            SnowflakeTypeSystem::Boolean(_) => "BOOLEAN",
            SnowflakeTypeSystem::Date(_) => "DATE",
            SnowflakeTypeSystem::Time(_) => "TIME",
            SnowflakeTypeSystem::DateTime(_) => "TIMESTAMP_NTZ",
        }
    }
}

/// Letter case does not matter to an ASCII type name. `parse_type_name`
/// reads an ASCII name by its ASCII uppercase form; the name, its ASCII
/// uppercase form and its ASCII lowercase form are ASCII too and share that
/// uppercase form, so all three are read as the same type, or all three as no
/// type.
pub proof fn lemma_type_names_ignore_ascii_case(ty: Seq<char>)
    requires
        vstd::utf8::is_ascii_chars(ty),
    ensures
        vstd::utf8::is_ascii_chars(ascii_uppercase(ty)),
        vstd::utf8::is_ascii_chars(ascii_lowercase(ty)),
        upper_name_type(ascii_uppercase(ascii_uppercase(ty))) == upper_name_type(ascii_uppercase(ty)),
        upper_name_type(ascii_uppercase(ascii_lowercase(ty))) == upper_name_type(ascii_uppercase(ty)),
{
    lemma_ascii_uppercase_ignores_case(ty);
}

/// `From` writes a type back under the name that `snowflake_name` gives,
/// for every type and either nullability.
pub proof fn lemma_from_writes_the_type_name(t: SnowflakeTypeSystem)
    ensures
        <&'static str as vstd::std_specs::convert::FromSpec<SnowflakeTypeSystem>>::obeys_from_spec(),
        <&'static str as vstd::std_specs::convert::FromSpec<SnowflakeTypeSystem>>::from_spec(t)@ == name_of_type(t),
{
    match t {
        SnowflakeTypeSystem::Number(_) => {},
        SnowflakeTypeSystem::Float(_) => {},
        SnowflakeTypeSystem::Varchar(_) => {},
        SnowflakeTypeSystem::Binary(_) => {},
        SnowflakeTypeSystem::Boolean(_) => {},
        SnowflakeTypeSystem::Date(_) => {},
        SnowflakeTypeSystem::Time(_) => {},
        SnowflakeTypeSystem::DateTime(_) => {},
    }
}

/// The name a type is written under depends on its kind alone, not on its
/// nullability; types of different kinds are written under different names;
/// and the integer type is written as `NUMBER` whatever its nullability.
pub proof fn lemma_written_names_follow_the_kind(a: SnowflakeTypeSystem, b: SnowflakeTypeSystem, n: bool)
    ensures
        name_of_type(with_nullability(a, n)) == name_of_type(a),
        name_of_type(a) == name_of_type(b) <==> with_nullability(a, true) == with_nullability(b, true),
        name_of_type(SnowflakeTypeSystem::Number(n)) == "NUMBER"@,
{
    reveal_strlit("NUMBER");
    reveal_strlit("FLOAT");
    reveal_strlit("VARCHAR");
    reveal_strlit("BINARY");
    reveal_strlit("BOOLEAN");
    reveal_strlit("DATE");
    reveal_strlit("TIME");
    reveal_strlit("TIMESTAMP_NTZ");
    if name_of_type(a) == name_of_type(b) {
        let x = name_of_type(a);
        assert(x.len() == name_of_type(b).len());
        assert(x[0] == name_of_type(b)[0]);
    }
}

/// Every type read from a type name may hold nulls.
pub proof fn lemma_read_types_are_nullable(u: Seq<char>)
    ensures
        upper_name_type(u) matches Some(t) ==> is_nullable(t),
{
}

/// The name under which a type is written is ASCII and already in
/// uppercase: reading it in any letter case gives what
/// `lemma_written_name_read_back` says.
pub proof fn lemma_written_names_are_ascii_uppercase(t: SnowflakeTypeSystem)
    ensures
        vstd::utf8::is_ascii_chars(name_of_type(t)),
        ascii_uppercase(name_of_type(t)) == name_of_type(t),
{
    match t {
        SnowflakeTypeSystem::Boolean(_) => {
            reveal_strlit("BOOLEAN");
            assert(ascii_uppercase("BOOLEAN"@) =~= "BOOLEAN"@);
        },
        SnowflakeTypeSystem::Number(_) => {
            reveal_strlit("NUMBER");
            assert(ascii_uppercase("NUMBER"@) =~= "NUMBER"@);
        },
        SnowflakeTypeSystem::Float(_) => {
            reveal_strlit("FLOAT");
            assert(ascii_uppercase("FLOAT"@) =~= "FLOAT"@);
        },
        SnowflakeTypeSystem::Varchar(_) => {
            reveal_strlit("VARCHAR");
            assert(ascii_uppercase("VARCHAR"@) =~= "VARCHAR"@);
        },
        SnowflakeTypeSystem::Binary(_) => {
            reveal_strlit("BINARY");
            assert(ascii_uppercase("BINARY"@) =~= "BINARY"@);
        },
        SnowflakeTypeSystem::Date(_) => {
            reveal_strlit("DATE");
            assert(ascii_uppercase("DATE"@) =~= "DATE"@);
        },
        SnowflakeTypeSystem::Time(_) => {
            reveal_strlit("TIME");
            assert(ascii_uppercase("TIME"@) =~= "TIME"@);
        },
        SnowflakeTypeSystem::DateTime(_) => {
            reveal_strlit("TIMESTAMP_NTZ");
            assert(ascii_uppercase("TIMESTAMP_NTZ"@) =~= "TIMESTAMP_NTZ"@);
        },
    }
}

/// The name under which any type is written is read back as a type.
/// A nullable type other than `Number` is read back as itself; `Number` is
/// written as NUMBER, which is read as `Float`.
pub proof fn lemma_written_name_read_back(t: SnowflakeTypeSystem)
    ensures
        upper_name_type(name_of_type(t)) is Some,
        is_nullable(t) && !(t is Number) ==> upper_name_type(name_of_type(t)) == Some(t),
        t is Number ==> upper_name_type(name_of_type(t)) == Some(SnowflakeTypeSystem::Float(true)),
{
    match t {
        SnowflakeTypeSystem::Boolean(_) => lemma_reads_boolean(),
        SnowflakeTypeSystem::Number(_) => lemma_reads_number(),
        SnowflakeTypeSystem::Float(_) => lemma_reads_float(),
        SnowflakeTypeSystem::Varchar(_) => lemma_reads_varchar(),
        SnowflakeTypeSystem::Binary(_) => lemma_reads_binary(),
        SnowflakeTypeSystem::Date(_) => lemma_reads_date(),
        SnowflakeTypeSystem::Time(_) => lemma_reads_time(),
        SnowflakeTypeSystem::DateTime(_) => lemma_reads_timestamp_ntz(),
    }
}

proof fn lemma_reads_boolean()
    ensures
        upper_name_type("BOOLEAN"@) == Some(SnowflakeTypeSystem::Boolean(true)),
{
    reveal_strlit("BOOLEAN");
    reveal_strlit("NUMBER");
    assert("BOOLEAN"@.len() != "NUMBER"@.len());
    reveal_strlit("DECIMAL");
    assert("BOOLEAN"@[0] != "DECIMAL"@[0]);
    assert("BOOLEAN"@ != "DECIMAL"@);
    reveal_strlit("NUMERIC");
    assert("BOOLEAN"@[0] != "NUMERIC"@[0]);
    assert("BOOLEAN"@ != "NUMERIC"@);
    reveal_strlit("FIXED");
    assert("BOOLEAN"@.len() != "FIXED"@.len());
    reveal_strlit("INT");
    assert("BOOLEAN"@.len() != "INT"@.len());
    reveal_strlit("INTEGER");
    assert("BOOLEAN"@[0] != "INTEGER"@[0]);
    assert("BOOLEAN"@ != "INTEGER"@);
    reveal_strlit("BIGINT");
    assert("BOOLEAN"@.len() != "BIGINT"@.len());
    reveal_strlit("SMALLINT");
    assert("BOOLEAN"@.len() != "SMALLINT"@.len());
    reveal_strlit("TINYINT");
    assert("BOOLEAN"@[0] != "TINYINT"@[0]);
    assert("BOOLEAN"@ != "TINYINT"@);
    reveal_strlit("BYTEINT");
    assert("BOOLEAN"@[1] != "BYTEINT"@[1]);
    assert("BOOLEAN"@ != "BYTEINT"@);
    reveal_strlit("FLOAT");
    assert("BOOLEAN"@.len() != "FLOAT"@.len());
    reveal_strlit("FLOAT4");
    assert("BOOLEAN"@.len() != "FLOAT4"@.len());
    reveal_strlit("FLOAT8");
    assert("BOOLEAN"@.len() != "FLOAT8"@.len());
    reveal_strlit("DOUBLE");
    assert("BOOLEAN"@.len() != "DOUBLE"@.len());
    reveal_strlit("DOUBLE PRECISION");
    assert("BOOLEAN"@.len() != "DOUBLE PRECISION"@.len());
    reveal_strlit("REAL");
    assert("BOOLEAN"@.len() != "REAL"@.len());
    reveal_strlit("VARCHAR");
    assert("BOOLEAN"@[0] != "VARCHAR"@[0]);
    assert("BOOLEAN"@ != "VARCHAR"@);
    reveal_strlit("CHAR");
    assert("BOOLEAN"@.len() != "CHAR"@.len());
    reveal_strlit("CHARACTER");
    assert("BOOLEAN"@.len() != "CHARACTER"@.len());
    reveal_strlit("STRING");
    assert("BOOLEAN"@.len() != "STRING"@.len());
    reveal_strlit("TEXT");
    assert("BOOLEAN"@.len() != "TEXT"@.len());
    reveal_strlit("BINARY");
    assert("BOOLEAN"@.len() != "BINARY"@.len());
    reveal_strlit("VARBINARY");
    assert("BOOLEAN"@.len() != "VARBINARY"@.len());
}

proof fn lemma_reads_number()
    ensures
        upper_name_type("NUMBER"@) == Some(SnowflakeTypeSystem::Float(true)),
{
    reveal_strlit("NUMBER");
}

proof fn lemma_reads_float()
    ensures
        upper_name_type("FLOAT"@) == Some(SnowflakeTypeSystem::Float(true)),
{
    reveal_strlit("FLOAT");
    reveal_strlit("NUMBER");
    assert("FLOAT"@.len() != "NUMBER"@.len());
    reveal_strlit("DECIMAL");
    assert("FLOAT"@.len() != "DECIMAL"@.len());
    reveal_strlit("NUMERIC");
    assert("FLOAT"@.len() != "NUMERIC"@.len());
    reveal_strlit("FIXED");
    assert("FLOAT"@[1] != "FIXED"@[1]);
    assert("FLOAT"@ != "FIXED"@);
    reveal_strlit("INT");
    assert("FLOAT"@.len() != "INT"@.len());
    reveal_strlit("INTEGER");
    assert("FLOAT"@.len() != "INTEGER"@.len());
    reveal_strlit("BIGINT");
    assert("FLOAT"@.len() != "BIGINT"@.len());
    reveal_strlit("SMALLINT");
    assert("FLOAT"@.len() != "SMALLINT"@.len());
    reveal_strlit("TINYINT");
    assert("FLOAT"@.len() != "TINYINT"@.len());
    reveal_strlit("BYTEINT");
    assert("FLOAT"@.len() != "BYTEINT"@.len());
}

proof fn lemma_reads_varchar()
    ensures
        upper_name_type("VARCHAR"@) == Some(SnowflakeTypeSystem::Varchar(true)),
{
    reveal_strlit("VARCHAR");
    reveal_strlit("NUMBER");
    assert("VARCHAR"@.len() != "NUMBER"@.len());
    reveal_strlit("DECIMAL");
    assert("VARCHAR"@[0] != "DECIMAL"@[0]);
    assert("VARCHAR"@ != "DECIMAL"@);
    reveal_strlit("NUMERIC");
    assert("VARCHAR"@[0] != "NUMERIC"@[0]);
    assert("VARCHAR"@ != "NUMERIC"@);
    reveal_strlit("FIXED");
    assert("VARCHAR"@.len() != "FIXED"@.len());
    reveal_strlit("INT");
    assert("VARCHAR"@.len() != "INT"@.len());
    reveal_strlit("INTEGER");
    assert("VARCHAR"@[0] != "INTEGER"@[0]);
    assert("VARCHAR"@ != "INTEGER"@);
    reveal_strlit("BIGINT");
    assert("VARCHAR"@.len() != "BIGINT"@.len());
    reveal_strlit("SMALLINT");
    assert("VARCHAR"@.len() != "SMALLINT"@.len());
    reveal_strlit("TINYINT");
    assert("VARCHAR"@[0] != "TINYINT"@[0]);
    assert("VARCHAR"@ != "TINYINT"@);
    reveal_strlit("BYTEINT");
    assert("VARCHAR"@[0] != "BYTEINT"@[0]);
    assert("VARCHAR"@ != "BYTEINT"@);
    reveal_strlit("FLOAT");
    assert("VARCHAR"@.len() != "FLOAT"@.len());
    reveal_strlit("FLOAT4");
    assert("VARCHAR"@.len() != "FLOAT4"@.len());
    reveal_strlit("FLOAT8");
    assert("VARCHAR"@.len() != "FLOAT8"@.len());
    reveal_strlit("DOUBLE");
    assert("VARCHAR"@.len() != "DOUBLE"@.len());
    reveal_strlit("DOUBLE PRECISION");
    assert("VARCHAR"@.len() != "DOUBLE PRECISION"@.len());
    reveal_strlit("REAL");
    assert("VARCHAR"@.len() != "REAL"@.len());
}

proof fn lemma_reads_binary()
    ensures
        upper_name_type("BINARY"@) == Some(SnowflakeTypeSystem::Binary(true)),
{
    reveal_strlit("BINARY");
    reveal_strlit("NUMBER");
    assert("BINARY"@[0] != "NUMBER"@[0]);
    assert("BINARY"@ != "NUMBER"@);
    reveal_strlit("DECIMAL");
    assert("BINARY"@.len() != "DECIMAL"@.len());
    reveal_strlit("NUMERIC");
    assert("BINARY"@.len() != "NUMERIC"@.len());
    reveal_strlit("FIXED");
    assert("BINARY"@.len() != "FIXED"@.len());
    reveal_strlit("INT");
    assert("BINARY"@.len() != "INT"@.len());
    reveal_strlit("INTEGER");
    assert("BINARY"@.len() != "INTEGER"@.len());
    reveal_strlit("BIGINT");
    assert("BINARY"@[2] != "BIGINT"@[2]);
    assert("BINARY"@ != "BIGINT"@);
    reveal_strlit("SMALLINT");
    assert("BINARY"@.len() != "SMALLINT"@.len());
    reveal_strlit("TINYINT");
    assert("BINARY"@.len() != "TINYINT"@.len());
    reveal_strlit("BYTEINT");
    assert("BINARY"@.len() != "BYTEINT"@.len());
    reveal_strlit("FLOAT");
    assert("BINARY"@.len() != "FLOAT"@.len());
    reveal_strlit("FLOAT4");
    assert("BINARY"@[0] != "FLOAT4"@[0]);
    assert("BINARY"@ != "FLOAT4"@);
    reveal_strlit("FLOAT8");
    assert("BINARY"@[0] != "FLOAT8"@[0]);
    assert("BINARY"@ != "FLOAT8"@);
    reveal_strlit("DOUBLE");
    assert("BINARY"@[0] != "DOUBLE"@[0]);
    assert("BINARY"@ != "DOUBLE"@);
    reveal_strlit("DOUBLE PRECISION");
    assert("BINARY"@.len() != "DOUBLE PRECISION"@.len());
    reveal_strlit("REAL");
    assert("BINARY"@.len() != "REAL"@.len());
    reveal_strlit("VARCHAR");
    assert("BINARY"@.len() != "VARCHAR"@.len());
    reveal_strlit("CHAR");
    assert("BINARY"@.len() != "CHAR"@.len());
    reveal_strlit("CHARACTER");
    assert("BINARY"@.len() != "CHARACTER"@.len());
    reveal_strlit("STRING");
    assert("BINARY"@[0] != "STRING"@[0]);
    assert("BINARY"@ != "STRING"@);
    reveal_strlit("TEXT");
    assert("BINARY"@.len() != "TEXT"@.len());
}

proof fn lemma_reads_date()
    ensures
        upper_name_type("DATE"@) == Some(SnowflakeTypeSystem::Date(true)),
{
    reveal_strlit("DATE");
    reveal_strlit("NUMBER");
    assert("DATE"@.len() != "NUMBER"@.len());
    reveal_strlit("DECIMAL");
    assert("DATE"@.len() != "DECIMAL"@.len());
    reveal_strlit("NUMERIC");
    assert("DATE"@.len() != "NUMERIC"@.len());
    reveal_strlit("FIXED");
    assert("DATE"@.len() != "FIXED"@.len());
    reveal_strlit("INT");
    assert("DATE"@.len() != "INT"@.len());
    reveal_strlit("INTEGER");
    assert("DATE"@.len() != "INTEGER"@.len());
    reveal_strlit("BIGINT");
    assert("DATE"@.len() != "BIGINT"@.len());
    reveal_strlit("SMALLINT");
    assert("DATE"@.len() != "SMALLINT"@.len());
    reveal_strlit("TINYINT");
    assert("DATE"@.len() != "TINYINT"@.len());
    reveal_strlit("BYTEINT");
    assert("DATE"@.len() != "BYTEINT"@.len());
    reveal_strlit("FLOAT");
    assert("DATE"@.len() != "FLOAT"@.len());
    reveal_strlit("FLOAT4");
    assert("DATE"@.len() != "FLOAT4"@.len());
    reveal_strlit("FLOAT8");
    assert("DATE"@.len() != "FLOAT8"@.len());
    reveal_strlit("DOUBLE");
    assert("DATE"@.len() != "DOUBLE"@.len());
    reveal_strlit("DOUBLE PRECISION");
    assert("DATE"@.len() != "DOUBLE PRECISION"@.len());
    reveal_strlit("REAL");
    assert("DATE"@[0] != "REAL"@[0]);
    assert("DATE"@ != "REAL"@);
    reveal_strlit("VARCHAR");
    assert("DATE"@.len() != "VARCHAR"@.len());
    reveal_strlit("CHAR");
    assert("DATE"@[0] != "CHAR"@[0]);
    assert("DATE"@ != "CHAR"@);
    reveal_strlit("CHARACTER");
    assert("DATE"@.len() != "CHARACTER"@.len());
    reveal_strlit("STRING");
    assert("DATE"@.len() != "STRING"@.len());
    reveal_strlit("TEXT");
    assert("DATE"@[0] != "TEXT"@[0]);
    assert("DATE"@ != "TEXT"@);
    reveal_strlit("BINARY");
    assert("DATE"@.len() != "BINARY"@.len());
    reveal_strlit("VARBINARY");
    assert("DATE"@.len() != "VARBINARY"@.len());
    reveal_strlit("BOOLEAN");
    assert("DATE"@.len() != "BOOLEAN"@.len());
}

proof fn lemma_reads_time()
    ensures
        upper_name_type("TIME"@) == Some(SnowflakeTypeSystem::Time(true)),
{
    reveal_strlit("TIME");
    reveal_strlit("NUMBER");
    assert("TIME"@.len() != "NUMBER"@.len());
    reveal_strlit("DECIMAL");
    assert("TIME"@.len() != "DECIMAL"@.len());
    reveal_strlit("NUMERIC");
    assert("TIME"@.len() != "NUMERIC"@.len());
    reveal_strlit("FIXED");
    assert("TIME"@.len() != "FIXED"@.len());
    reveal_strlit("INT");
    assert("TIME"@.len() != "INT"@.len());
    reveal_strlit("INTEGER");
    assert("TIME"@.len() != "INTEGER"@.len());
    reveal_strlit("BIGINT");
    assert("TIME"@.len() != "BIGINT"@.len());
    reveal_strlit("SMALLINT");
    assert("TIME"@.len() != "SMALLINT"@.len());
    reveal_strlit("TINYINT");
    assert("TIME"@.len() != "TINYINT"@.len());
    reveal_strlit("BYTEINT");
    assert("TIME"@.len() != "BYTEINT"@.len());
    reveal_strlit("FLOAT");
    assert("TIME"@.len() != "FLOAT"@.len());
    reveal_strlit("FLOAT4");
    assert("TIME"@.len() != "FLOAT4"@.len());
    reveal_strlit("FLOAT8");
    assert("TIME"@.len() != "FLOAT8"@.len());
    reveal_strlit("DOUBLE");
    assert("TIME"@.len() != "DOUBLE"@.len());
    reveal_strlit("DOUBLE PRECISION");
    assert("TIME"@.len() != "DOUBLE PRECISION"@.len());
    reveal_strlit("REAL");
    assert("TIME"@[0] != "REAL"@[0]);
    assert("TIME"@ != "REAL"@);
    reveal_strlit("VARCHAR");
    assert("TIME"@.len() != "VARCHAR"@.len());
    reveal_strlit("CHAR");
    assert("TIME"@[0] != "CHAR"@[0]);
    assert("TIME"@ != "CHAR"@);
    reveal_strlit("CHARACTER");
    assert("TIME"@.len() != "CHARACTER"@.len());
    reveal_strlit("STRING");
    assert("TIME"@.len() != "STRING"@.len());
    reveal_strlit("TEXT");
    assert("TIME"@[1] != "TEXT"@[1]);
    assert("TIME"@ != "TEXT"@);
    reveal_strlit("BINARY");
    assert("TIME"@.len() != "BINARY"@.len());
    reveal_strlit("VARBINARY");
    assert("TIME"@.len() != "VARBINARY"@.len());
    reveal_strlit("BOOLEAN");
    assert("TIME"@.len() != "BOOLEAN"@.len());
    reveal_strlit("DATE");
    assert("TIME"@[0] != "DATE"@[0]);
    assert("TIME"@ != "DATE"@);
    reveal_strlit("DATETIME");
    assert("TIME"@.len() != "DATETIME"@.len());
}

proof fn lemma_reads_timestamp_ntz()
    ensures
        upper_name_type("TIMESTAMP_NTZ"@) == Some(SnowflakeTypeSystem::DateTime(true)),
{
    reveal_strlit("TIMESTAMP_NTZ");
    reveal_strlit("NUMBER");
    assert("TIMESTAMP_NTZ"@.len() != "NUMBER"@.len());
    reveal_strlit("DECIMAL");
    assert("TIMESTAMP_NTZ"@.len() != "DECIMAL"@.len());
    reveal_strlit("NUMERIC");
    assert("TIMESTAMP_NTZ"@.len() != "NUMERIC"@.len());
    reveal_strlit("FIXED");
    assert("TIMESTAMP_NTZ"@.len() != "FIXED"@.len());
    reveal_strlit("INT");
    assert("TIMESTAMP_NTZ"@.len() != "INT"@.len());
    reveal_strlit("INTEGER");
    assert("TIMESTAMP_NTZ"@.len() != "INTEGER"@.len());
    reveal_strlit("BIGINT");
    assert("TIMESTAMP_NTZ"@.len() != "BIGINT"@.len());
    reveal_strlit("SMALLINT");
    assert("TIMESTAMP_NTZ"@.len() != "SMALLINT"@.len());
    reveal_strlit("TINYINT");
    assert("TIMESTAMP_NTZ"@.len() != "TINYINT"@.len());
    reveal_strlit("BYTEINT");
    assert("TIMESTAMP_NTZ"@.len() != "BYTEINT"@.len());
    reveal_strlit("FLOAT");
    assert("TIMESTAMP_NTZ"@.len() != "FLOAT"@.len());
    reveal_strlit("FLOAT4");
    assert("TIMESTAMP_NTZ"@.len() != "FLOAT4"@.len());
    reveal_strlit("FLOAT8");
    assert("TIMESTAMP_NTZ"@.len() != "FLOAT8"@.len());
    reveal_strlit("DOUBLE");
    assert("TIMESTAMP_NTZ"@.len() != "DOUBLE"@.len());
    reveal_strlit("DOUBLE PRECISION");
    assert("TIMESTAMP_NTZ"@.len() != "DOUBLE PRECISION"@.len());
    reveal_strlit("REAL");
    assert("TIMESTAMP_NTZ"@.len() != "REAL"@.len());
    reveal_strlit("VARCHAR");
    assert("TIMESTAMP_NTZ"@.len() != "VARCHAR"@.len());
    reveal_strlit("CHAR");
    assert("TIMESTAMP_NTZ"@.len() != "CHAR"@.len());
    reveal_strlit("CHARACTER");
    assert("TIMESTAMP_NTZ"@.len() != "CHARACTER"@.len());
    reveal_strlit("STRING");
    assert("TIMESTAMP_NTZ"@.len() != "STRING"@.len());
    reveal_strlit("TEXT");
    assert("TIMESTAMP_NTZ"@.len() != "TEXT"@.len());
    reveal_strlit("BINARY");
    assert("TIMESTAMP_NTZ"@.len() != "BINARY"@.len());
    reveal_strlit("VARBINARY");
    assert("TIMESTAMP_NTZ"@.len() != "VARBINARY"@.len());
    reveal_strlit("BOOLEAN");
    assert("TIMESTAMP_NTZ"@.len() != "BOOLEAN"@.len());
    reveal_strlit("DATE");
    assert("TIMESTAMP_NTZ"@.len() != "DATE"@.len());
    reveal_strlit("DATETIME");
    assert("TIMESTAMP_NTZ"@.len() != "DATETIME"@.len());
    reveal_strlit("TIME");
    assert("TIMESTAMP_NTZ"@.len() != "TIME"@.len());
    reveal_strlit("TIMESTAMP");
    assert("TIMESTAMP_NTZ"@.len() != "TIMESTAMP"@.len());
}

} // verus!
