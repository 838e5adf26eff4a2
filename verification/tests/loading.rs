use config::app::{AppConfig, ServerAppConfig};
use config::binding::FromEnvLikeKeyValuePairs;
use config::database::{ConiferDatabaseConfig, SourceDatabaseConfig};
use config::failure::DecodeFailure;
use config::game_data::GameDataServerConfig;
use config::http::HttpConfig;
use config::port::Port;

fn pairs(list: &[(&str, &str)]) -> Vec<(String, String)> {
    list.iter().map(|(key, value)| (key.to_string(), value.to_string())).collect()
}

fn source_database_pairs() -> Vec<(String, String)> {
    pairs(&[
        ("DB_HOST", "example.com"),
        ("DB_PORT", "3307"),
        ("DB_DATABASE_NAME", "db"),
        ("DB_USER", "bff"),
        ("DB_PASSWORD", "$tr0ngpAssw0rd"),
    ])
}

fn server_pairs() -> Vec<(String, String)> {
    let mut all = pairs(&[("HTTP_HOST", "127.0.0.1"), ("HTTP_PORT", "12345")]);
    all.extend(source_database_pairs());
    all
}

fn conifer_pairs() -> Vec<(String, String)> {
    pairs(&[
        ("GAME_DATA_SERVER_GRPC_ENDPOINT_URL", "http://localhost:50051"),
        ("CONIFER_DB_HOST", "conifer.example.com"),
        ("CONIFER_DB_PORT", "3306"),
        ("CONIFER_DB_DATABASE_NAME", "conifer"),
        ("CONIFER_DB_USER", "writer"),
        ("CONIFER_DB_PASSWORD", "secret"),
    ])
}

fn expected_source_database() -> SourceDatabaseConfig {
    SourceDatabaseConfig {
        host: "example.com".to_string(),
        port: Port(3307),
        database_name: "db".to_string(),
        user: "bff".to_string(),
        password: "$tr0ngpAssw0rd".to_string(),
    }
}

fn missing(prefix: &str, field: &str) -> DecodeFailure {
    DecodeFailure::MissingField { prefix: prefix.to_string(), field: field.to_string() }
}

fn mistyped(prefix: &str, field: &str, value: &str) -> DecodeFailure {
    DecodeFailure::TypeCoercion {
        prefix: prefix.to_string(),
        field: field.to_string(),
        value: value.to_string(),
        target: "Port".to_string(),
    }
}

#[test]
fn read_config_from_iterator() {
    let setting = [
        ("HTTP_PORT".to_string(), "12345".to_string()),
        ("HTTP_HOST".to_string(), "127.0.0.1".to_string()),
        ("DB_HOST".to_string(), "example.com".to_string()),
        ("DB_PORT".to_string(), "3307".to_string()),
        ("DB_DATABASE_NAME".to_string(), "db".to_string()),
        ("DB_USER".to_string(), "bff".to_string()),
        ("DB_PASSWORD".to_string(), "$tr0ngpAssw0rd".to_string()),
    ];

    ServerAppConfig::from_iter(&setting.to_vec()).unwrap();
}

#[test]
fn source_database_is_bound_under_its_prefix() {
    let loaded = SourceDatabaseConfig::from_iter(&source_database_pairs());
    assert_eq!(loaded, Ok(expected_source_database()));
}

#[test]
fn server_aggregate_holds_both_records() {
    let loaded = ServerAppConfig::from_iter(&server_pairs()).unwrap();
    assert_eq!(loaded.source_database_config, expected_source_database());
    assert_eq!(
        loaded.http_config,
        HttpConfig { host: "127.0.0.1".to_string(), port: Port(12345) }
    );
}

#[test]
fn conifer_aggregate_holds_both_records() {
    let loaded = AppConfig::from_iter(&conifer_pairs()).unwrap();
    assert_eq!(
        loaded.game_data_server_config,
        GameDataServerConfig { grpc_endpoint_url: "http://localhost:50051".to_string() }
    );
    assert_eq!(
        loaded.target_database_config,
        ConiferDatabaseConfig {
            host: "conifer.example.com".to_string(),
            port: Port(3306),
            database_name: "conifer".to_string(),
            user: "writer".to_string(),
            password: "secret".to_string(),
        }
    );
}

#[test]
fn conifer_aggregate_finds_nothing_under_other_prefixes() {
    let loaded = AppConfig::from_iter(&server_pairs());
    assert_eq!(loaded, Err(missing("GAME_DATA_SERVER_", "grpc_endpoint_url")));
}

#[test]
fn missing_password_is_named() {
    let mut given = server_pairs();
    given.retain(|(key, _)| key != "DB_PASSWORD");
    assert_eq!(ServerAppConfig::from_iter(&given), Err(missing("DB_", "password")));
    assert_eq!(SourceDatabaseConfig::from_iter(&given), Err(missing("DB_", "password")));
}

#[test]
fn each_missing_field_is_named_in_declaration_order() {
    let all = source_database_pairs();
    let names = ["host", "port", "database_name", "user", "password"];
    for first in 0..names.len() {
        let only_later_missing: Vec<(String, String)> = all.iter().take(first).cloned().collect();
        assert_eq!(
            SourceDatabaseConfig::from_iter(&only_later_missing),
            Err(missing("DB_", names[first]))
        );
        let mut one_missing = all.clone();
        one_missing.remove(first);
        assert_eq!(
            SourceDatabaseConfig::from_iter(&one_missing),
            Err(missing("DB_", names[first]))
        );
    }
    assert_eq!(HttpConfig::from_iter(&pairs(&[])), Err(missing("HTTP_", "host")));
    assert_eq!(
        HttpConfig::from_iter(&pairs(&[("HTTP_HOST", "::1")])),
        Err(missing("HTTP_", "port"))
    );
    assert_eq!(
        GameDataServerConfig::from_iter(&pairs(&[("GAME_DATA_SERVER_URL", "x")])),
        Err(missing("GAME_DATA_SERVER_", "grpc_endpoint_url"))
    );
}

#[test]
fn port_out_of_range_is_a_coercion_failure() {
    let mut given = server_pairs();
    given[1].1 = "99999999".to_string();
    assert_eq!(ServerAppConfig::from_iter(&given), Err(mistyped("HTTP_", "port", "99999999")));
}

#[test]
fn port_that_is_no_number_is_a_coercion_failure() {
    let mut given = server_pairs();
    given[1].1 = "notanumber".to_string();
    assert_eq!(ServerAppConfig::from_iter(&given), Err(mistyped("HTTP_", "port", "notanumber")));
    assert_eq!(HttpConfig::from_iter(&given), Err(mistyped("HTTP_", "port", "notanumber")));
}

#[test]
fn mistyped_port_is_reported_before_a_missing_field() {
    let given = pairs(&[("CONIFER_DB_PORT", "80a"), ("CONIFER_DB_USER", "writer")]);
    assert_eq!(
        ConiferDatabaseConfig::from_iter(&given),
        Err(mistyped("CONIFER_DB_", "port", "80a"))
    );
}

#[test]
fn first_failing_record_decides() {
    let given = pairs(&[("HTTP_HOST", "::1"), ("HTTP_PORT", "http"), ("DB_PORT", "3307")]);
    assert_eq!(ServerAppConfig::from_iter(&given), Err(missing("DB_", "host")));
    let given = pairs(&[("CONIFER_DB_PORT", "x")]);
    assert_eq!(
        AppConfig::from_iter(&given),
        Err(missing("GAME_DATA_SERVER_", "grpc_endpoint_url"))
    );
}

#[test]
fn unknown_keys_are_ignored() {
    let mut given = server_pairs();
    given.insert(0, ("FOO_BAR".to_string(), "1".to_string()));
    given.insert(3, ("DB_COLOUR".to_string(), "green".to_string()));
    given.push(("HTTP_PORT_EXTRA".to_string(), "x".to_string()));
    given.push(("db_host".to_string(), "elsewhere".to_string()));
    assert_eq!(ServerAppConfig::from_iter(&given), ServerAppConfig::from_iter(&server_pairs()));
    assert!(ServerAppConfig::from_iter(&given).is_ok());
}

#[test]
fn prefix_is_matched_with_case() {
    let given = pairs(&[("http_HOST", "::1"), ("http_PORT", "80")]);
    assert_eq!(HttpConfig::from_iter(&given), Err(missing("HTTP_", "host")));
}

#[test]
fn field_names_are_matched_without_case() {
    let given = pairs(&[("HTTP_Host", "::1"), ("HTTP_port", "80")]);
    assert_eq!(
        HttpConfig::from_iter(&given),
        Ok(HttpConfig { host: "::1".to_string(), port: Port(80) })
    );
}

fn duplicate(prefix: &str, field: &str) -> DecodeFailure {
    DecodeFailure::DuplicateField { prefix: prefix.to_string(), field: field.to_string() }
}

#[test]
fn mistyped_port_is_not_mended_by_a_later_pair() {
    let mut given = conifer_pairs();
    given[2].1 = "notanumber".to_string();
    given.push(("CONIFER_DB_port".to_string(), "123".to_string()));
    assert_eq!(
        AppConfig::from_iter(&given),
        Err(mistyped("CONIFER_DB_", "port", "notanumber"))
    );
    assert_eq!(
        ConiferDatabaseConfig::from_iter(&given[1..].to_vec()),
        Err(mistyped("CONIFER_DB_", "port", "notanumber"))
    );
}

#[test]
fn second_value_for_a_field_is_refused() {
    let mut given = conifer_pairs();
    given.push(("CONIFER_DB_host".to_string(), "x".to_string()));
    assert_eq!(AppConfig::from_iter(&given), Err(duplicate("CONIFER_DB_", "host")));

    let mut given = conifer_pairs();
    given.insert(0, ("GAME_DATA_SERVER_Grpc_Endpoint_Url".to_string(), "y".to_string()));
    assert_eq!(
        AppConfig::from_iter(&given),
        Err(duplicate("GAME_DATA_SERVER_", "grpc_endpoint_url"))
    );

    let given = pairs(&[("HTTP_HOST", "a"), ("HTTP_HOST", "a"), ("HTTP_PORT", "80")]);
    assert_eq!(HttpConfig::from_iter(&given), Err(duplicate("HTTP_", "host")));
}

#[test]
fn the_first_failure_in_the_list_decides() {
    let given = pairs(&[("HTTP_PORT", "80"), ("HTTP_port", "abc"), ("HTTP_HOST", "h")]);
    assert_eq!(HttpConfig::from_iter(&given), Err(duplicate("HTTP_", "port")));
    let given = pairs(&[("HTTP_PORT", "abc"), ("HTTP_port", "80"), ("HTTP_HOST", "h")]);
    assert_eq!(HttpConfig::from_iter(&given), Err(mistyped("HTTP_", "port", "abc")));
    let given = pairs(&[("HTTP_HOST", "h"), ("HTTP_host", "i"), ("HTTP_PORT", "abc")]);
    assert_eq!(HttpConfig::from_iter(&given), Err(duplicate("HTTP_", "host")));
    let given = pairs(&[("HTTP_PORT", "abc"), ("HTTP_HOST", "h"), ("HTTP_host", "i")]);
    assert_eq!(HttpConfig::from_iter(&given), Err(mistyped("HTTP_", "port", "abc")));
    let given = pairs(&[("HTTP_PORT", "1"), ("HTTP_PORT", "2")]);
    assert_eq!(HttpConfig::from_iter(&given), Err(duplicate("HTTP_", "port")));
}

#[test]
fn unknown_names_may_come_twice() {
    let mut given = server_pairs();
    given.push(("DB_COLOUR".to_string(), "green".to_string()));
    given.push(("DB_colour".to_string(), "red".to_string()));
    given.push(("DB_COLOUR".to_string(), "blue".to_string()));
    assert_eq!(ServerAppConfig::from_iter(&given), ServerAppConfig::from_iter(&server_pairs()));
    assert!(ServerAppConfig::from_iter(&given).is_ok());
}

#[test]
fn binding_is_repeatable_and_independent_of_order() {
    let given = server_pairs();
    let http_first = HttpConfig::from_iter(&given);
    let database_then = SourceDatabaseConfig::from_iter(&given);
    let database_first = SourceDatabaseConfig::from_iter(&given);
    let http_then = HttpConfig::from_iter(&given);
    assert_eq!(http_first, http_then);
    assert_eq!(database_first, database_then);
    assert_eq!(given, server_pairs());
}

#[test]
fn prefix_is_taken_from_a_key_once() {
    let given = pairs(&[
        ("CONIFER_DB_CONIFER_DB_HOST", "evil"),
        ("CONIFER_DB_PORT", "3307"),
        ("CONIFER_DB_DATABASE_NAME", "db"),
        ("CONIFER_DB_USER", "bff"),
        ("CONIFER_DB_PASSWORD", "pw"),
    ]);
    assert_eq!(ConiferDatabaseConfig::from_iter(&given), Err(missing("CONIFER_DB_", "host")));

    let mut given = server_pairs();
    given.push(("DB_DB_HOST".to_string(), "evil".to_string()));
    given.push(("HTTP_HTTP_PORT".to_string(), "x".to_string()));
    assert_eq!(ServerAppConfig::from_iter(&given), ServerAppConfig::from_iter(&server_pairs()));
    assert!(ServerAppConfig::from_iter(&given).is_ok());
}
