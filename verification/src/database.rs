//! The settings of a database connection: of the source database, and of the target
//! database.

use crate::binding::{bind, field_map, named_under, pairs_view, FromEnvLikeKeyValuePairs};
use crate::failure::{result_view, DecodeFailure, DecodeFailureView};
use crate::port::Port;
use crate::record::{
    declared_view, failure, first_missing, holds_port, lemma_walked_ports_are_ports,
    port_field, port_field_named, required, text_field, walk, Field, FieldKind,
};
use vstd::prelude::*;

verus! {

/// The connection to the database that is read from.
#[derive(Debug, PartialEq, Eq)]
pub struct SourceDatabaseConfig {
    pub host: String,
    pub port: Port,
    pub database_name: String,
    pub user: String,
    pub password: String,
}

/// The connection to the database that is written to.
#[derive(Debug, PartialEq, Eq)]
pub struct ConiferDatabaseConfig {
    pub host: String,
    pub port: Port,
    pub database_name: String,
    pub user: String,
    pub password: String,
}

/// The settings of a database connection as plain text.
pub struct DatabaseConfigView {
    pub host: Seq<char>,
    pub port: Port,
    pub database_name: Seq<char>,
    pub user: Seq<char>,
    pub password: Seq<char>,
}

impl View for SourceDatabaseConfig {
    type V = DatabaseConfigView;

    open spec fn view(&self) -> DatabaseConfigView {
        DatabaseConfigView {
            host: self.host@,
            port: self.port,
            database_name: self.database_name@,
            user: self.user@,
            password: self.password@,
        }
    }
}

impl View for ConiferDatabaseConfig {
    type V = DatabaseConfigView;

    open spec fn view(&self) -> DatabaseConfigView {
        DatabaseConfigView {
            host: self.host@,
            port: self.port,
            database_name: self.database_name@,
            user: self.user@,
            password: self.password@,
        }
    }
}

/// The fields of a database connection, in the order of their declaration.
pub open spec fn database_fields() -> Seq<Field> {
    seq![
        text_field("host"@),
        port_field_named("port"@),
        text_field("database_name"@),
        text_field("user"@),
        text_field("password"@),
    ]
}

/// The database connection that the named pairs `fields` describe, held under `prefix`:
/// the failure that they give rise to, or else every field with its value and the port
/// with its number.
pub open spec fn decode_database(prefix: Seq<char>, fields: Seq<(Seq<char>, Seq<char>)>) -> Result<
    DatabaseConfigView,
    DecodeFailureView,
> {
    match failure(prefix, database_fields(), fields) {
        Some(report) => Err(report),
        None => Ok(
            DatabaseConfigView {
                host: field_map(fields)["host"@],
                port: Port::parse_spec(field_map(fields)["port"@])->0,
                database_name: field_map(fields)["database_name"@],
                user: field_map(fields)["user"@],
                password: field_map(fields)["password"@],
            },
        ),
    }
}

/// The first field of a database connection without a value, told by the fields one
/// after the other; and the port is a declared field that holds a port.
proof fn lemma_database_fields(fields: Map<Seq<char>, Seq<char>>)
    ensures
        holds_port(database_fields(), "port"@),
        first_missing(database_fields(), fields) == if !fields.contains_key("host"@) {
            Some("host"@)
        } else if !fields.contains_key("port"@) {
            Some("port"@)
        } else if !fields.contains_key("database_name"@) {
            Some("database_name"@)
        } else if !fields.contains_key("user"@) {
            Some("user"@)
        } else if !fields.contains_key("password"@) {
            Some("password"@)
        } else {
            None::<Seq<char>>
        },
{
    reveal_with_fuel(first_missing, 6);
    let d0 = database_fields();
    let d1 = d0.drop_first();
    let d2 = d1.drop_first();
    let d3 = d2.drop_first();
    let d4 = d3.drop_first();
    assert(d4.drop_first().len() == 0);
    assert(d0[1].name == "port"@ && d0[1].kind is Port);
}

/// The fields of a database connection, for the walk through the pairs.
fn declared_database_fields() -> (declared: Vec<(String, FieldKind)>)
    ensures
        declared_view(declared@) == database_fields(),
{
    let mut declared: Vec<(String, FieldKind)> = Vec::new();
    declared.push(("host".to_owned(), FieldKind::Text));
    declared.push(("port".to_owned(), FieldKind::Port));
    declared.push(("database_name".to_owned(), FieldKind::Text));
    declared.push(("user".to_owned(), FieldKind::Text));
    declared.push(("password".to_owned(), FieldKind::Text));
    proof {
        assert(declared_view(declared@) =~= database_fields());
    }
    declared
}

/// The settings of a database connection before they are given to one of the two
/// databases.
struct DatabaseSettings {
    host: String,
    port: Port,
    database_name: String,
    user: String,
    password: String,
}

impl View for DatabaseSettings {
    type V = DatabaseConfigView;

    closed spec fn view(&self) -> DatabaseConfigView {
        DatabaseConfigView {
            host: self.host@,
            port: self.port,
            database_name: self.database_name@,
            user: self.user@,
            password: self.password@,
        }
    }
}

/// Decodes a database connection from the named pairs held under `prefix`.
fn database_from_fields(prefix: &str, fields: &Vec<(String, String)>) -> (decoded: Result<
    DatabaseSettings,
    DecodeFailure,
>)
    ensures
        result_view(decoded) == decode_database(prefix@, pairs_view(fields@)),
{
    let declared = declared_database_fields();
    match walk(prefix, &declared, fields) {
        Some(met) => {
            return Err(met);
        },
        None => {},
    }
    proof {
        lemma_database_fields(field_map(pairs_view(fields@)));
        lemma_walked_ports_are_ports(prefix@, database_fields(), pairs_view(fields@), "port"@);
    }
    let port = port_field(prefix, fields, "port")?;
    let host = required(prefix, fields, "host")?;
    let port = match port {
        Some(number) => number,
        None => {
            return Err(DecodeFailure::missing(prefix, "port"));
        },
    };
    let database_name = required(prefix, fields, "database_name")?;
    let user = required(prefix, fields, "user")?;
    let password = required(prefix, fields, "password")?;
    Ok(DatabaseSettings { host, port, database_name, user, password })
}

impl SourceDatabaseConfig {
    /// The prefix of the keys that describe the source database.
    pub const PREFIX: &'static str = "DB_";

    /// The prefix as plain text.
    pub open spec fn prefix() -> Seq<char> {
        Self::PREFIX@
    }

    /// The fields of the connection, in the order of their declaration.
    pub open spec fn declared() -> Seq<Field> {
        database_fields()
    }

    /// The pairs that `pairs` hold under the prefix, in their order, each under the name
    /// of its field.
    pub open spec fn named_of(pairs: Seq<(Seq<char>, Seq<char>)>) -> Seq<(Seq<char>, Seq<char>)> {
        named_under(Self::prefix(), pairs)
    }

    /// The fields that `pairs` bind under the prefix.
    pub open spec fn fields_of(pairs: Seq<(Seq<char>, Seq<char>)>) -> Map<Seq<char>, Seq<char>> {
        field_map(Self::named_of(pairs))
    }

    /// What the named pairs held under the prefix decode to.
    pub open spec fn decode_spec(fields: Seq<(Seq<char>, Seq<char>)>) -> Result<
        DatabaseConfigView,
        DecodeFailureView,
    > {
        decode_database(Self::prefix(), fields)
    }

    /// Decodes the connection from the named pairs held under its prefix.
    pub fn from_fields(fields: &Vec<(String, String)>) -> (decoded: Result<Self, DecodeFailure>)
        ensures
            result_view(decoded) == Self::decode_spec(pairs_view(fields@)),
    {
        let settings = database_from_fields(Self::PREFIX, fields)?;
        Ok(
            SourceDatabaseConfig {
                host: settings.host,
                port: settings.port,
                database_name: settings.database_name,
                user: settings.user,
                password: settings.password,
            },
        )
    }
}

impl FromEnvLikeKeyValuePairs for SourceDatabaseConfig {
    /// The record is decoded from the named pairs that the pairs hold under its prefix.
    open spec fn from_iter_spec(pairs: Seq<(Seq<char>, Seq<char>)>) -> Result<
        DatabaseConfigView,
        DecodeFailureView,
    > {
        Self::decode_spec(Self::named_of(pairs))
    }

    fn from_iter(pairs: &Vec<(String, String)>) -> (loaded: Result<Self, DecodeFailure>) {
        let fields = bind(Self::PREFIX, pairs);
        Self::from_fields(&fields)
    }
}

impl ConiferDatabaseConfig {
    /// The prefix of the keys that describe the target database.
    pub const PREFIX: &'static str = "CONIFER_DB_";

    /// The prefix as plain text.
    pub open spec fn prefix() -> Seq<char> {
        Self::PREFIX@
    }

    /// The fields of the connection, in the order of their declaration.
    pub open spec fn declared() -> Seq<Field> {
        database_fields()
    }

    /// The pairs that `pairs` hold under the prefix, in their order, each under the name
    /// of its field.
    pub open spec fn named_of(pairs: Seq<(Seq<char>, Seq<char>)>) -> Seq<(Seq<char>, Seq<char>)> {
        named_under(Self::prefix(), pairs)
    }

    /// The fields that `pairs` bind under the prefix.
    pub open spec fn fields_of(pairs: Seq<(Seq<char>, Seq<char>)>) -> Map<Seq<char>, Seq<char>> {
        field_map(Self::named_of(pairs))
    }

    /// What the named pairs held under the prefix decode to.
    pub open spec fn decode_spec(fields: Seq<(Seq<char>, Seq<char>)>) -> Result<
        DatabaseConfigView,
        DecodeFailureView,
    > {
        decode_database(Self::prefix(), fields)
    }

    /// Decodes the connection from the named pairs held under its prefix.
    pub fn from_fields(fields: &Vec<(String, String)>) -> (decoded: Result<Self, DecodeFailure>)
        ensures
            result_view(decoded) == Self::decode_spec(pairs_view(fields@)),
    {
        let settings = database_from_fields(Self::PREFIX, fields)?;
        Ok(
            ConiferDatabaseConfig {
                host: settings.host,
                port: settings.port,
                database_name: settings.database_name,
                user: settings.user,
                password: settings.password,
            },
        )
    }
}

impl FromEnvLikeKeyValuePairs for ConiferDatabaseConfig {
    /// The record is decoded from the named pairs that the pairs hold under its prefix.
    open spec fn from_iter_spec(pairs: Seq<(Seq<char>, Seq<char>)>) -> Result<
        DatabaseConfigView,
        DecodeFailureView,
    > {
        Self::decode_spec(Self::named_of(pairs))
    }

    fn from_iter(pairs: &Vec<(String, String)>) -> (loaded: Result<Self, DecodeFailure>) {
        let fields = bind(Self::PREFIX, pairs);
        Self::from_fields(&fields)
    }
}

} // verus!
