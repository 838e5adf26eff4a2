use config::binding::{bind, lookup, name_of, select};
use config::database::{ConiferDatabaseConfig, SourceDatabaseConfig};
use config::failure::DecodeFailure;
use config::game_data::GameDataServerConfig;
use config::http::HttpConfig;
use config::port::Port;
use config::record::{port_field, required, walk, FieldKind};
use config::statistics::{PlayerBreakCount, PlayerBuildCount, PlayerPlayTicks, PlayerVoteCount};

fn named(list: &[(&str, &str)]) -> Vec<(String, String)> {
    list.iter().map(|(name, value)| (name.to_string(), value.to_string())).collect()
}

#[test]
fn bind_keeps_what_is_under_the_prefix() {
    let given = named(&[("APP_B", "2"), ("OTHER_A", "0"), ("APP_A", "1"), ("APP", "3")]);
    let fields = bind("APP_", &given);
    assert_eq!(lookup(&fields, "a"), Some(&"1".to_string()));
    assert_eq!(lookup(&fields, "b"), Some(&"2".to_string()));
    assert_eq!(lookup(&fields, "other_a"), None);
    assert_eq!(lookup(&fields, "app_a"), None);
    assert_eq!(lookup(&fields, "A"), None);
    assert_eq!(fields.len(), 2);
}

#[test]
fn bind_with_empty_prefix_keeps_every_pair() {
    let given = named(&[("HOST", "h"), ("Port", "1")]);
    let fields = bind("", &given);
    assert_eq!(lookup(&fields, "host"), Some(&"h".to_string()));
    assert_eq!(lookup(&fields, "port"), Some(&"1".to_string()));
}

#[test]
fn lookup_reads_a_list_of_named_values() {
    let fields = named(&[("host", "a"), ("port", "1"), ("host", "b")]);
    assert_eq!(lookup(&fields, "host"), Some(&"b".to_string()));
    assert_eq!(lookup(&fields, "port"), Some(&"1".to_string()));
    assert_eq!(lookup(&fields, "user"), None);
    assert_eq!(lookup(&named(&[]), "host"), None);
}

#[test]
fn required_reports_the_field_without_a_value() {
    let fields = named(&[("host", "a")]);
    assert_eq!(required("P_", &fields, "host"), Ok("a".to_string()));
    assert_eq!(
        required("P_", &fields, "user"),
        Err(DecodeFailure::MissingField { prefix: "P_".to_string(), field: "user".to_string() })
    );
}

#[test]
fn port_field_tells_absent_from_mistyped() {
    let fields = named(&[("port", "8080"), ("other", "65536")]);
    assert_eq!(port_field("P_", &fields, "port"), Ok(Some(Port(8080))));
    assert_eq!(port_field("P_", &fields, "none"), Ok(None));
    assert_eq!(
        port_field("P_", &fields, "other"),
        Err(DecodeFailure::TypeCoercion {
            prefix: "P_".to_string(),
            field: "other".to_string(),
            value: "65536".to_string(),
            target: "Port".to_string(),
        })
    );
}

#[test]
fn records_decode_from_named_values() {
    let fields = named(&[
        ("password", "pw"),
        ("user", "u"),
        ("database_name", "d"),
        ("port", "+5432"),
        ("host", "h"),
        ("grpc_endpoint_url", "http://g"),
        ("colour", "green"),
    ]);
    assert_eq!(
        SourceDatabaseConfig::from_fields(&fields),
        Ok(SourceDatabaseConfig {
            host: "h".to_string(),
            port: Port(5432),
            database_name: "d".to_string(),
            user: "u".to_string(),
            password: "pw".to_string(),
        })
    );
    assert_eq!(
        ConiferDatabaseConfig::from_fields(&fields),
        Ok(ConiferDatabaseConfig {
            host: "h".to_string(),
            port: Port(5432),
            database_name: "d".to_string(),
            user: "u".to_string(),
            password: "pw".to_string(),
        })
    );
    assert_eq!(
        HttpConfig::from_fields(&fields),
        Ok(HttpConfig { host: "h".to_string(), port: Port(5432) })
    );
    assert_eq!(
        GameDataServerConfig::from_fields(&fields),
        Ok(GameDataServerConfig { grpc_endpoint_url: "http://g".to_string() })
    );
}

#[test]
fn records_name_their_prefix_in_a_failure() {
    let fields = named(&[("host", "h"), ("port", "1")]);
    assert_eq!(
        SourceDatabaseConfig::from_fields(&fields),
        Err(DecodeFailure::MissingField {
            prefix: "DB_".to_string(),
            field: "database_name".to_string(),
        })
    );
    assert_eq!(
        ConiferDatabaseConfig::from_fields(&fields),
        Err(DecodeFailure::MissingField {
            prefix: "CONIFER_DB_".to_string(),
            field: "database_name".to_string(),
        })
    );
    assert_eq!(
        GameDataServerConfig::from_fields(&fields),
        Err(DecodeFailure::MissingField {
            prefix: "GAME_DATA_SERVER_".to_string(),
            field: "grpc_endpoint_url".to_string(),
        })
    );
    assert_eq!(
        HttpConfig::from_fields(&named(&[("port", "")])),
        Err(DecodeFailure::TypeCoercion {
            prefix: "HTTP_".to_string(),
            field: "port".to_string(),
            value: "".to_string(),
            target: "Port".to_string(),
        })
    );
}

#[test]
fn port_reads_decimal_text() {
    assert_eq!(Port::parse("3307"), Some(Port(3307)));
    assert_eq!(Port::parse("0"), Some(Port(0)));
    assert_eq!(Port::parse("65535"), Some(Port(65535)));
    assert_eq!(Port::parse("+80"), Some(Port(80)));
    assert_eq!(Port::parse("000000000000000000000080"), Some(Port(80)));
}

#[test]
fn port_refuses_other_text() {
    for text in [
        "", "+", "-1", "++1", "1+", "65536", "99999999", "4294967296", "18446744073709551616",
        "notanumber", " 80", "80 ", "8 0", "8_0", "0x50", "80.0", "\u{ff18}\u{ff10}",
    ] {
        assert_eq!(Port::parse(text), None, "{:?}", text);
        assert!(text.parse::<u16>().is_err(), "{:?}", text);
    }
}

#[test]
fn failure_is_told_in_words() {
    let missing = DecodeFailure::missing("DB_", "password");
    assert_eq!(missing.message(), "missing value for field password under prefix DB_");
    let mistyped = DecodeFailure::mistyped("HTTP_", "port", "99999999", "Port");
    assert_eq!(
        mistyped.message(),
        "value '99999999' of field port under prefix HTTP_ is not a Port"
    );
    let twice = DecodeFailure::duplicate("HTTP_", "host");
    assert_eq!(twice.message(), "second value for field host under prefix HTTP_");
    assert_eq!(
        mistyped,
        DecodeFailure::TypeCoercion {
            prefix: "HTTP_".to_string(),
            field: "port".to_string(),
            value: "99999999".to_string(),
            target: "Port".to_string(),
        }
    );
}

#[test]
fn bind_matches_the_prefix_by_characters() {
    let given = named(&[("\u{c9}T\u{c9}_HOST", "h"), ("\u{c9}T\u{c8}_HOST", "other")]);
    let fields = bind("\u{c9}T\u{c9}_", &given);
    assert_eq!(fields, named(&[("host", "h")]));
    let fields = bind("\u{c9}T", &given);
    assert_eq!(lookup(&fields, "\u{e9}_host"), Some(&"h".to_string()));
    assert_eq!(lookup(&fields, "\u{e8}_host"), Some(&"other".to_string()));
}

#[test]
fn select_keeps_the_pairs_under_the_prefix_in_their_order() {
    let given = named(&[
        ("APP_B", "2"),
        ("OTHER_A", "0"),
        ("APP_APP_A", "1"),
        ("APP", "3"),
        ("app_C", "4"),
        ("APP_", "5"),
        ("APP_b", "6"),
    ]);
    assert_eq!(
        select("APP_", &given),
        named(&[("B", "2"), ("APP_A", "1"), ("", "5"), ("b", "6")])
    );
    assert_eq!(select("", &given), given);
    assert_eq!(select("APP_", &named(&[])), named(&[]));
}

#[test]
fn bind_takes_the_prefix_once_and_names_in_lower_case() {
    let given = named(&[("APP_APP_A", "1"), ("APP_Key_9", "2"), ("APP_\u{c9}", "3")]);
    let fields = bind("APP_", &given);
    assert_eq!(lookup(&fields, "app_a"), Some(&"1".to_string()));
    assert_eq!(lookup(&fields, "a"), None);
    assert_eq!(lookup(&fields, "key_9"), Some(&"2".to_string()));
    assert_eq!(lookup(&fields, "\u{e9}"), Some(&"3".to_string()));
    assert_eq!(fields, named(&[("app_a", "1"), ("key_9", "2"), ("\u{e9}", "3")]));
}

#[test]
fn bind_keeps_the_order_and_every_pair() {
    let given = named(&[("P_B", "1"), ("Q_A", "2"), ("P_a", "3"), ("P_A", "4"), ("P_b", "5")]);
    assert_eq!(
        bind("P_", &given),
        named(&[("b", "1"), ("a", "3"), ("a", "4"), ("b", "5")])
    );
    assert_eq!(name_of(&"DATABASE_NAME".to_string()), "database_name");
    assert_eq!(name_of(&"".to_string()), "");
}

#[test]
fn walk_stops_at_the_first_failure() {
    let declared =
        vec![("host".to_string(), FieldKind::Text), ("port".to_string(), FieldKind::Port)];
    let clean = named(&[("port", "80"), ("other", "x"), ("other", "y"), ("host", "h")]);
    assert_eq!(walk("P_", &declared, &clean), None);
    assert_eq!(walk("P_", &declared, &named(&[])), None);
    let twice = named(&[("host", "h"), ("port", "x1"), ("host", "h")]);
    assert_eq!(
        walk("P_", &declared, &twice),
        Some(DecodeFailure::mistyped("P_", "port", "x1", "Port"))
    );
    let twice = named(&[("host", "h"), ("host", "h"), ("port", "x1")]);
    assert_eq!(walk("P_", &declared, &twice), Some(DecodeFailure::duplicate("P_", "host")));
    assert_eq!(
        HttpConfig::from_fields(&twice),
        Err(DecodeFailure::DuplicateField {
            prefix: "HTTP_".to_string(),
            field: "host".to_string(),
        })
    );
}

#[test]
fn statistics_hold_a_player_and_a_count() {
    let broken = PlayerBreakCount { player: "steve".to_string(), break_count: 3 };
    let built = PlayerBuildCount { player: 7u32, build_count: 4 };
    let played = PlayerPlayTicks { player: "alex", play_ticks: u64::MAX };
    let voted = PlayerVoteCount { player: (), vote_count: 0 };
    assert_eq!(broken.clone().player, "steve");
    assert_eq!(broken.break_count, 3);
    assert_eq!((built.clone().player, built.build_count), (7, 4));
    assert_eq!(played.clone().play_ticks, u64::MAX);
    assert_eq!(voted.clone().vote_count, 0);
    assert_eq!(format!("{:?}", built), "PlayerBuildCount { player: 7, build_count: 4 }");
}
