use vstd::prelude::*;
use vstd::string::StrSliceExecFns;

use crate::errors::{SnowflakeSourceError, SourceErrorKind};
use crate::text::{copy_opt_text, integer_in_range, opt_text, same_text};

verus! {

/// The parts of a connection URL that the source reads: the user name, the
/// password, and the key-value pairs of the query, in their order.
pub struct UrlParts {
    pub username: String,
    pub password: Option<String>,
    pub query_pairs: Vec<(String, String)>,
}

/// The key-value pairs of a query, by their characters.
pub open spec fn pairs_text(pairs: Seq<(String, String)>) -> Seq<(Seq<char>, Seq<char>)> {
    pairs.map_values(|p: (String, String)| (p.0@, p.1@))
}

impl View for UrlParts {
    type V = (Seq<char>, Option<Seq<char>>, Seq<(Seq<char>, Seq<char>)>);

    open spec fn view(&self) -> Self::V {
        (self.username@, opt_text(self.password), pairs_text(self.query_pairs@))
    }
}

/// What the `url` crate reads from a connection string: `None` where
/// `url::Url::parse` refuses it; else the user name and password of the URL
/// as `Url::username` and `Url::password` give them, and the pairs of its
/// query, decoded, as `Url::query_pairs` gives them.
pub uninterp spec fn url_parts(conn: Seq<char>) -> Option<(Seq<char>, Option<Seq<char>>, Seq<(Seq<char>, Seq<char>)>)>;

/// Calls `url::Url::parse`, then `Url::username`, `Url::password` and
/// `Url::query_pairs` on what it gave. Trusted: the parts are those named by
/// `url_parts`, and the call fails exactly where `url_parts` is `None`; which
/// `url::ParseError` comes back is not stated.
#[verifier::external_body]
fn parse_url(conn: &str) -> (res: Result<UrlParts, url::ParseError>)
    ensures
        match res {
            Ok(p) => url_parts(conn@) == Some(p@),
            Err(_) => url_parts(conn@) is None,
        },
{
    let url = url::Url::parse(conn)?;
    Ok(UrlParts {
        username: url.username().to_string(),
        password: url.password().map(String::from),
        query_pairs: url.query_pairs().into_owned().collect(),
    })
}

/// Calls `str::parse::<u64>` of std. Trusted: it reads an optional `+` and
/// one or more decimal digits that write a number that fits in `u64`, and
/// fails on any other text; which `ParseIntError` comes back is not stated.
#[verifier::external_body]
pub(crate) fn parse_u64_text(s: &str) -> (res: Result<u64, std::num::ParseIntError>)
    ensures
        match res {
            Ok(v) => integer_in_range(s@, false, 0, u64::MAX as int) == Some(v as int),
            Err(_) => integer_in_range(s@, false, 0, u64::MAX as int) is None,
        },
{
    s.parse::<u64>()
}

/// The value of the last pair with this key: a key given twice keeps the
/// value given last.
pub open spec fn last_value(pairs: Seq<(Seq<char>, Seq<char>)>, key: Seq<char>) -> Option<Seq<char>>
    decreases pairs.len(),
{
    if pairs.len() == 0 {
        None
    } else if pairs.last().0 == key {
        Some(pairs.last().1)
    } else {
        last_value(pairs.drop_last(), key)
    }
}

/// A key's value is the one its last pair gives: a pair added with the key
/// gives the value, a pair added with another key leaves the key's value as
/// it was, and no pair gives no value.
pub proof fn lemma_last_pair_wins(
    pairs: Seq<(Seq<char>, Seq<char>)>,
    key: Seq<char>,
    other: Seq<char>,
    value: Seq<char>,
)
    requires
        other != key,
    ensures
        last_value(Seq::empty(), key) is None,
        last_value(pairs.push((key, value)), key) == Some(value),
        last_value(pairs.push((other, value)), key) == last_value(pairs, key),
{
    assert(pairs.push((key, value)).drop_last() =~= pairs);
    assert(pairs.push((other, value)).drop_last() =~= pairs);
}

/// The value of the last pair with this key.
pub fn find_value(pairs: &Vec<(String, String)>, key: &str) -> (res: Option<String>)
    ensures
        opt_text(res) == last_value(pairs_text(pairs@), key@),
{
    let mut found: Option<String> = None;
    let mut i: usize = 0;
    while i < pairs.len()
        invariant
            i <= pairs.len(),
            opt_text(found) == last_value(pairs_text(pairs@.take(i as int)), key@),
        decreases pairs.len() - i,
    {
        proof {
            assert(pairs_text(pairs@.take(i + 1)).drop_last() =~= pairs_text(pairs@.take(i as int)));
        }
        let pair = &pairs[i];
        if same_text(pair.0.as_str(), key) {
            found = Some(pair.1.clone());
        }
        i = i + 1;
    }
    proof {
        assert(pairs@.take(pairs.len() as int) =~= pairs@);
    }
    found
}

/// How the source proves who it is to Snowflake.
pub enum AuthMethod {
    Password(String),
    KeyPair { encrypted_pem: String, password: Vec<u8> },
}

/// What a client of Snowflake is made with.
pub struct ClientConfig {
    pub account: String,
    pub warehouse: Option<String>,
    pub database: Option<String>,
    pub schema: Option<String>,
    pub role: Option<String>,
    /// The time a query may take, in seconds.
    pub timeout_secs: Option<u64>,
}

/// Everything that a connection string sets.
pub struct ConnectionSettings {
    pub username: String,
    pub auth: AuthMethod,
    pub config: ClientConfig,
}

pub enum AuthView {
    Password(Seq<char>),
    KeyPair { encrypted_pem: Seq<char>, password: Seq<u8> },
}

pub struct ClientConfigView {
    pub account: Seq<char>,
    pub warehouse: Option<Seq<char>>,
    pub database: Option<Seq<char>>,
    pub schema: Option<Seq<char>>,
    pub role: Option<Seq<char>>,
    pub timeout_secs: Option<u64>,
}

pub struct SettingsView {
    pub username: Seq<char>,
    pub auth: AuthView,
    pub config: ClientConfigView,
}

impl View for ConnectionSettings {
    type V = SettingsView;

    open spec fn view(&self) -> SettingsView {
        SettingsView {
            username: self.username@,
            auth: match self.auth {
                AuthMethod::Password(p) => AuthView::Password(p@),
                AuthMethod::KeyPair { encrypted_pem, password } => AuthView::KeyPair {
                    encrypted_pem: encrypted_pem@,
                    password: password@,
                },
            },
            config: ClientConfigView {
                account: self.config.account@,
                warehouse: opt_text(self.config.warehouse),
                database: opt_text(self.config.database),
                schema: opt_text(self.config.schema),
                role: opt_text(self.config.role),
                timeout_secs: self.config.timeout_secs,
            },
        }
    }
}

/// What a connection string sets, given the parts that its URL was read into:
/// the account must be given; a timeout, where given, must be a number of
/// seconds; the source signs in either with the password of the URL alone,
/// or with a private key and its passphrase and no password.
pub open spec fn settings_from_parts(
    parts: (Seq<char>, Option<Seq<char>>, Seq<(Seq<char>, Seq<char>)>),
) -> Result<SettingsView, SourceErrorKind> {
    let (username, password, pairs) = parts;
    let timeout = last_value(pairs, "timeout"@);
    let private_key = last_value(pairs, "private_key"@);
    let passphrase = last_value(pairs, "passphrase"@);
    match last_value(pairs, "account"@) {
        None => Err(SourceErrorKind::Other("account is not found in connection string"@)),
        Some(account) => if timeout is Some && integer_in_range(
            timeout.unwrap(),
            false,
            0,
            u64::MAX as int,
        ) is None {
            Err(SourceErrorKind::ParseInt)
        } else {
            let config = ClientConfigView {
                account,
                warehouse: last_value(pairs, "warehouse"@),
                database: last_value(pairs, "database"@),
                schema: last_value(pairs, "schema"@),
                role: last_value(pairs, "role"@),
                timeout_secs: match timeout {
                    Some(t) => Some(integer_in_range(t, false, 0, u64::MAX as int).unwrap() as u64),
                    None => None,
                },
            };
            match (password, private_key, passphrase) {
                (Some(p), None, None) => Ok(
                    SettingsView { username, auth: AuthView::Password(p), config },
                ),
                (None, Some(k), Some(ph)) => Ok(
                    SettingsView {
                        username,
                        auth: AuthView::KeyPair {
                            encrypted_pem: k,
                            password: vstd::utf8::encode_utf8(ph),
                        },
                        config,
                    },
                ),
                _ => Err(SourceErrorKind::Other("invalid auth parameters"@)),
            }
        },
    }
}

/// The client configuration of every successful result is read from the
/// query pairs alone, whatever way of signing in is chosen: the account,
/// warehouse, database, schema and role are the values given last for their
/// keys, and the timeout is the number given last for `timeout`. The user
/// name is the URL's; the source signs in with the URL's password where no
/// key is given, and with a key and its passphrase where no password is. A
/// result is a success exactly when the account is given, a given timeout is
/// a number, and one of those two ways of signing in is complete.
pub proof fn lemma_config_read_from_query_pairs(
    parts: (Seq<char>, Option<Seq<char>>, Seq<(Seq<char>, Seq<char>)>),
)
    ensures
        settings_from_parts(parts) matches Ok(s) ==> {
            &&& s.username == parts.0
            &&& Some(s.config.account) == last_value(parts.2, "account"@)
            &&& s.config.warehouse == last_value(parts.2, "warehouse"@)
            &&& s.config.database == last_value(parts.2, "database"@)
            &&& s.config.schema == last_value(parts.2, "schema"@)
            &&& s.config.role == last_value(parts.2, "role"@)
            &&& match last_value(parts.2, "timeout"@) {
                None => s.config.timeout_secs is None,
                Some(t) => s.config.timeout_secs matches Some(v) && integer_in_range(t, false, 0, u64::MAX as int)
                    == Some(v as int),
            }
            &&& match s.auth {
                AuthView::Password(p) => parts.1 == Some(p) && last_value(parts.2, "private_key"@) is None
                    && last_value(parts.2, "passphrase"@) is None,
                AuthView::KeyPair { encrypted_pem, password } => {
                    &&& parts.1 is None
                    &&& last_value(parts.2, "private_key"@) == Some(encrypted_pem)
                    &&& last_value(parts.2, "passphrase"@) matches Some(ph)
                    &&& password == vstd::utf8::encode_utf8(ph)
                },
            }
        },
        settings_from_parts(parts) is Ok <==> {
            &&& last_value(parts.2, "account"@) is Some
            &&& last_value(parts.2, "timeout"@) matches Some(t) ==> integer_in_range(
                t,
                false,
                0,
                u64::MAX as int,
            ) is Some
            &&& (parts.1 is Some && last_value(parts.2, "private_key"@) is None && last_value(
                parts.2,
                "passphrase"@,
            ) is None) || (parts.1 is None && last_value(parts.2, "private_key"@) is Some && last_value(
                parts.2,
                "passphrase"@,
            ) is Some)
        },
{
}

/// What a connection string sets: an error where the URL cannot be read.
pub open spec fn settings_of(conn: Seq<char>) -> Result<SettingsView, SourceErrorKind> {
    match url_parts(conn) {
        None => Err(SourceErrorKind::Url),
        Some(parts) => settings_from_parts(parts),
    }
}

/// The settings that the parts of a connection URL give.
pub fn settings_from_url_parts(parts: &UrlParts) -> (res: Result<ConnectionSettings, SnowflakeSourceError>)
    ensures
        match res {
            Ok(s) => settings_from_parts(parts@) == Ok::<SettingsView, SourceErrorKind>(s@),
            Err(e) => settings_from_parts(parts@) == Err::<SettingsView, SourceErrorKind>(e@),
        },
{
    let pairs = &parts.query_pairs;
    let account = match find_value(pairs, "account") {
        Some(a) => a,
        None => {
            return Err(SnowflakeSourceError::Other(String::from_str("account is not found in connection string")));
        },
    };
    let warehouse = find_value(pairs, "warehouse");
    let database = find_value(pairs, "database");
    let schema = find_value(pairs, "schema");
    let role = find_value(pairs, "role");
    let timeout_secs = match find_value(pairs, "timeout") {
        Some(t) => match parse_u64_text(t.as_str()) {
            Ok(v) => Some(v),
            Err(e) => {
                return Err(SnowflakeSourceError::SnowflakeParseIntError(e));
            },
        },
        None => None,
    };
    let config = ClientConfig { account, warehouse, database, schema, role, timeout_secs };
    let private_key = find_value(pairs, "private_key");
    let passphrase = find_value(pairs, "passphrase");
    let auth = match (copy_opt_text(&parts.password), private_key, passphrase) {
        (Some(password), None, None) => AuthMethod::Password(password),
        (None, Some(private_key), Some(passphrase)) => AuthMethod::KeyPair {
            encrypted_pem: private_key,
            password: passphrase.as_str().as_bytes_vec(),
        },
        _ => {
            return Err(SnowflakeSourceError::Other(String::from_str("invalid auth parameters")));
        },
    };
    Ok(ConnectionSettings { username: parts.username.clone(), auth, config })
}

/// The settings that a connection string gives.
pub fn parse_connection(conn: &str) -> (res: Result<ConnectionSettings, SnowflakeSourceError>)
    ensures
        match res {
            Ok(s) => settings_of(conn@) == Ok::<SettingsView, SourceErrorKind>(s@),
            Err(e) => settings_of(conn@) == Err::<SettingsView, SourceErrorKind>(e@),
        },
{
    match parse_url(conn) {
        Ok(parts) => settings_from_url_parts(&parts),
        Err(e) => Err(SnowflakeSourceError::SnowflakeUrlError(e)),
    }
}

} // verus!
