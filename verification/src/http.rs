//! The settings of the HTTP server that takes requests.

use crate::binding::{bind, field_map, named_under, pairs_view, FromEnvLikeKeyValuePairs};
use crate::failure::{result_view, DecodeFailure, DecodeFailureView};
use crate::port::Port;
use crate::record::{
    declared_view, failure, first_missing, holds_port, lemma_walked_ports_are_ports,
    port_field, port_field_named, required, text_field, walk, Field, FieldKind,
};
use vstd::prelude::*;

verus! {

/// Where the HTTP server listens.
#[derive(Debug, PartialEq, Eq)]
pub struct HttpConfig {
    pub host: String,
    pub port: Port,
}

/// The settings of the HTTP server as plain text.
pub struct HttpConfigView {
    pub host: Seq<char>,
    pub port: Port,
}

impl View for HttpConfig {
    type V = HttpConfigView;

    open spec fn view(&self) -> HttpConfigView {
        HttpConfigView { host: self.host@, port: self.port }
    }
}

/// The first field of the HTTP server without a value, told by the fields one after the
/// other; and the port is a declared field that holds a port.
proof fn lemma_http_fields(fields: Map<Seq<char>, Seq<char>>)
    ensures
        holds_port(HttpConfig::declared(), "port"@),
        first_missing(HttpConfig::declared(), fields) == if !fields.contains_key("host"@) {
            Some("host"@)
        } else if !fields.contains_key("port"@) {
            Some("port"@)
        } else {
            None::<Seq<char>>
        },
{
    reveal_with_fuel(first_missing, 3);
    let d0 = HttpConfig::declared();
    let d1 = d0.drop_first();
    assert(d1.drop_first().len() == 0);
    assert(d0[1].name == "port"@ && d0[1].kind is Port);
}

/// The fields of the HTTP server, for the walk through the pairs.
fn declared_http_fields() -> (declared: Vec<(String, FieldKind)>)
    ensures
        declared_view(declared@) == HttpConfig::declared(),
{
    let mut declared: Vec<(String, FieldKind)> = Vec::new();
    declared.push(("host".to_owned(), FieldKind::Text));
    declared.push(("port".to_owned(), FieldKind::Port));
    proof {
        assert(declared_view(declared@) =~= HttpConfig::declared());
    }
    declared
}

impl HttpConfig {
    /// The prefix of the keys that describe the HTTP server.
    pub const PREFIX: &'static str = "HTTP_";

    /// The prefix as plain text.
    pub open spec fn prefix() -> Seq<char> {
        Self::PREFIX@
    }

    /// The fields of the HTTP server, in the order of their declaration.
    pub open spec fn declared() -> Seq<Field> {
        seq![text_field("host"@), port_field_named("port"@)]
    }

    /// The pairs that `pairs` hold under the prefix, in their order, each under the name
    /// of its field.
    pub open spec fn named_of(pairs: Seq<(Seq<char>, Seq<char>)>) -> Seq<(Seq<char>, Seq<char>)> {
        named_under(Self::prefix(), pairs)
    }

    /// The fields that `pairs` bind under the prefix.
    pub open spec fn fields_of(pairs: Seq<(Seq<char>, Seq<char>)>) -> Map<Seq<char>, Seq<char>> {
        field_map(Self::named_of(pairs))
    }

    /// What the named pairs held under the prefix decode to: the failure that they give
    /// rise to, or else the host with its value and the port with its number.
    pub open spec fn decode_spec(fields: Seq<(Seq<char>, Seq<char>)>) -> Result<
        HttpConfigView,
        DecodeFailureView,
    > {
        match failure(Self::prefix(), Self::declared(), fields) {
            Some(report) => Err(report),
            None => Ok(
                HttpConfigView {
                    host: field_map(fields)["host"@],
                    port: Port::parse_spec(field_map(fields)["port"@])->0,
                },
            ),
        }
    }

    /// Decodes the settings from the named pairs held under the prefix.
    pub fn from_fields(fields: &Vec<(String, String)>) -> (decoded: Result<Self, DecodeFailure>)
        ensures
            result_view(decoded) == Self::decode_spec(pairs_view(fields@)),
    {
        let declared = declared_http_fields();
        match walk(Self::PREFIX, &declared, fields) {
            Some(met) => {
                return Err(met);
            },
            None => {},
        }
        proof {
            lemma_http_fields(field_map(pairs_view(fields@)));
            lemma_walked_ports_are_ports(
                Self::prefix(),
                Self::declared(),
                pairs_view(fields@),
                "port"@,
            );
        }
        let port = port_field(Self::PREFIX, fields, "port")?;
        let host = required(Self::PREFIX, fields, "host")?;
        match port {
            Some(port) => Ok(HttpConfig { host, port }),
            None => Err(DecodeFailure::missing(Self::PREFIX, "port")),
        }
    }
}

impl FromEnvLikeKeyValuePairs for HttpConfig {
    /// The record is decoded from the named pairs that the pairs hold under its prefix.
    open spec fn from_iter_spec(pairs: Seq<(Seq<char>, Seq<char>)>) -> Result<
        HttpConfigView,
        DecodeFailureView,
    > {
        Self::decode_spec(Self::named_of(pairs))
    }

    fn from_iter(pairs: &Vec<(String, String)>) -> (loaded: Result<Self, DecodeFailure>) {
        let fields = bind(Self::PREFIX, pairs);
        Self::from_fields(&fields)
    }
}

} // verus!
