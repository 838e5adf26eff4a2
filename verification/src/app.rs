//! The configuration of each of the two services: every record that the service needs,
//! or no configuration at all.

use crate::binding::{pairs_view, FromEnvLikeKeyValuePairs};
use crate::database::{ConiferDatabaseConfig, DatabaseConfigView, SourceDatabaseConfig};
use crate::failure::{result_view, DecodeFailure, DecodeFailureView};
use crate::game_data::{GameDataServerConfig, GameDataServerConfigView};
use crate::http::{HttpConfig, HttpConfigView};
use vstd::prelude::*;

verus! {

/// The configuration of the service that calls the game data server and writes to the
/// target database.
#[derive(Debug, PartialEq, Eq)]
pub struct AppConfig {
    pub game_data_server_config: GameDataServerConfig,
    pub target_database_config: ConiferDatabaseConfig,
}

/// The configuration of that service as plain text.
pub struct AppConfigView {
    pub game_data_server_config: GameDataServerConfigView,
    pub target_database_config: DatabaseConfigView,
}

impl View for AppConfig {
    type V = AppConfigView;

    open spec fn view(&self) -> AppConfigView {
        AppConfigView {
            game_data_server_config: self.game_data_server_config@,
            target_database_config: self.target_database_config@,
        }
    }
}

impl FromEnvLikeKeyValuePairs for AppConfig {
    /// The records are decoded in the order of their declaration, each from all the
    /// pairs. The first failure is the outcome; without one, both records are.
    open spec fn from_iter_spec(pairs: Seq<(Seq<char>, Seq<char>)>) -> Result<
        AppConfigView,
        DecodeFailureView,
    > {
        match GameDataServerConfig::from_iter_spec(pairs) {
            Err(failure) => Err(failure),
            Ok(game_data_server_config) => match ConiferDatabaseConfig::from_iter_spec(pairs) {
                Err(failure) => Err(failure),
                Ok(target_database_config) => Ok(
                    AppConfigView { game_data_server_config, target_database_config },
                ),
            },
        }
    }

    fn from_iter(pairs: &Vec<(String, String)>) -> (loaded: Result<Self, DecodeFailure>) {
        let game_data_server_config = GameDataServerConfig::from_iter(pairs)?;
        let target_database_config = ConiferDatabaseConfig::from_iter(pairs)?;
        Ok(AppConfig { game_data_server_config, target_database_config })
    }
}

/// The configuration of the service that reads the source database and answers over
/// HTTP.
#[derive(Debug, PartialEq, Eq)]
pub struct ServerAppConfig {
    pub source_database_config: SourceDatabaseConfig,
    pub http_config: HttpConfig,
}

/// The configuration of that service as plain text.
pub struct ServerAppConfigView {
    pub source_database_config: DatabaseConfigView,
    pub http_config: HttpConfigView,
}

impl View for ServerAppConfig {
    type V = ServerAppConfigView;

    open spec fn view(&self) -> ServerAppConfigView {
        ServerAppConfigView {
            source_database_config: self.source_database_config@,
            http_config: self.http_config@,
        }
    }
}

impl FromEnvLikeKeyValuePairs for ServerAppConfig {
    /// The records are decoded in the order of their declaration, each from all the
    /// pairs. The first failure is the outcome; without one, both records are.
    open spec fn from_iter_spec(pairs: Seq<(Seq<char>, Seq<char>)>) -> Result<
        ServerAppConfigView,
        DecodeFailureView,
    > {
        match SourceDatabaseConfig::from_iter_spec(pairs) {
            Err(failure) => Err(failure),
            Ok(source_database_config) => match HttpConfig::from_iter_spec(pairs) {
                Err(failure) => Err(failure),
                Ok(http_config) => Ok(ServerAppConfigView { source_database_config, http_config }),
            },
        }
    }

    fn from_iter(pairs: &Vec<(String, String)>) -> (loaded: Result<Self, DecodeFailure>) {
        let source_database_config = SourceDatabaseConfig::from_iter(pairs)?;
        let http_config = HttpConfig::from_iter(pairs)?;
        Ok(ServerAppConfig { source_database_config, http_config })
    }
}

} // verus!
