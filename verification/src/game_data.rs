//! The settings of the game data server that is called.

use crate::binding::{bind, field_map, named_under, pairs_view, FromEnvLikeKeyValuePairs};
use crate::failure::{result_view, DecodeFailure, DecodeFailureView};
use crate::record::{
    declared_view, failure, first_missing, required, text_field, walk, Field, FieldKind,
};
use vstd::prelude::*;

verus! {

/// Where the game data server is reached.
#[derive(Debug, PartialEq, Eq)]
pub struct GameDataServerConfig {
    pub grpc_endpoint_url: String,
}

/// The settings of the game data server as plain text.
pub struct GameDataServerConfigView {
    pub grpc_endpoint_url: Seq<char>,
}

impl View for GameDataServerConfig {
    type V = GameDataServerConfigView;

    open spec fn view(&self) -> GameDataServerConfigView {
        GameDataServerConfigView { grpc_endpoint_url: self.grpc_endpoint_url@ }
    }
}

impl GameDataServerConfig {
    /// The prefix of the keys that describe the game data server.
    pub const PREFIX: &'static str = "GAME_DATA_SERVER_";

    /// The prefix as plain text.
    pub open spec fn prefix() -> Seq<char> {
        Self::PREFIX@
    }

    /// The fields of the game data server, in the order of their declaration.
    pub open spec fn declared() -> Seq<Field> {
        seq![text_field("grpc_endpoint_url"@)]
    }

    /// The pairs that `pairs` hold under the prefix, in their order, each under the name
    /// of its field.
    pub open spec fn named_of(pairs: Seq<(Seq<char>, Seq<char>)>) -> Seq<(Seq<char>, Seq<char>)> {
        named_under(Self::prefix(), pairs)
    }

    /// The fields that `pairs` bind under the prefix.
    pub open spec fn fields_of(pairs: Seq<(Seq<char>, Seq<char>)>) -> Map<Seq<char>, Seq<char>> {
        field_map(Self::named_of(pairs))
    }

    /// What the named pairs held under the prefix decode to: the failure that they give
    /// rise to, or else the address with its value.
    pub open spec fn decode_spec(fields: Seq<(Seq<char>, Seq<char>)>) -> Result<
        GameDataServerConfigView,
        DecodeFailureView,
    > {
        match failure(Self::prefix(), Self::declared(), fields) {
            Some(report) => Err(report),
            None => Ok(
                GameDataServerConfigView {
                    grpc_endpoint_url: field_map(fields)["grpc_endpoint_url"@],
                },
            ),
        }
    }

    /// Decodes the settings from the named pairs held under the prefix.
    pub fn from_fields(fields: &Vec<(String, String)>) -> (decoded: Result<Self, DecodeFailure>)
        ensures
            result_view(decoded) == Self::decode_spec(pairs_view(fields@)),
    {
        let mut declared: Vec<(String, FieldKind)> = Vec::new();
        declared.push(("grpc_endpoint_url".to_owned(), FieldKind::Text));
        proof {
            assert(declared_view(declared@) =~= Self::declared());
            reveal_with_fuel(first_missing, 2);
            assert(Self::declared().drop_first().len() == 0);
        }
        match walk(Self::PREFIX, &declared, fields) {
            Some(met) => {
                return Err(met);
            },
            None => {},
        }
        let grpc_endpoint_url = required(Self::PREFIX, fields, "grpc_endpoint_url")?;
        Ok(GameDataServerConfig { grpc_endpoint_url })
    }
}

impl FromEnvLikeKeyValuePairs for GameDataServerConfig {
    /// The record is decoded from the named pairs that the pairs hold under its prefix.
    open spec fn from_iter_spec(pairs: Seq<(Seq<char>, Seq<char>)>) -> Result<
        GameDataServerConfigView,
        DecodeFailureView,
    > {
        Self::decode_spec(Self::named_of(pairs))
    }

    fn from_iter(pairs: &Vec<(String, String)>) -> (loaded: Result<Self, DecodeFailure>) {
        let fields = bind(Self::PREFIX, pairs);
        Self::from_fields(&fields)
    }
}

} // verus!
