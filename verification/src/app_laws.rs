//! What holds of loading the configuration of a service, on every list of pairs.

use crate::app::{AppConfig, AppConfigView, ServerAppConfig, ServerAppConfigView};
use crate::binding::{pairs_view, FromEnvLikeKeyValuePairs};
use crate::database::{ConiferDatabaseConfig, DatabaseConfigView, SourceDatabaseConfig};
use crate::failure::{result_view, DecodeFailure, DecodeFailureView};
use crate::game_data::{GameDataServerConfig, GameDataServerConfigView};
use crate::http::{HttpConfig, HttpConfigView};
use crate::laws::{
    clean, is_first_defect, lemma_failure_names_a_declared_field,
    lemma_first_failure_in_the_list_decides, lemma_missing_field_is_reported,
    lemma_walk_comes_to_the_end_of_clean_pairs,
    lemma_mistyped_port_is_reported, lemma_record_is_made_of_complete_fields,
    lemma_unknown_pair_is_ignored, unknown_to,
};
use crate::port::Port;
use crate::record::{declares, defect, first_missing, holds_port, names, populated, Field};
use vstd::prelude::*;

verus! {

/// The database connection that complete fields make.
pub open spec fn database_of(fields: Map<Seq<char>, Seq<char>>) -> DatabaseConfigView {
    DatabaseConfigView {
        host: fields["host"@],
        port: Port::parse_spec(fields["port"@])->0,
        database_name: fields["database_name"@],
        user: fields["user"@],
        password: fields["password"@],
    }
}

/// The HTTP server that complete fields make.
pub open spec fn http_of(fields: Map<Seq<char>, Seq<char>>) -> HttpConfigView {
    HttpConfigView { host: fields["host"@], port: Port::parse_spec(fields["port"@])->0 }
}

/// The failure that names the first of the `declared` fields without a value.
pub open spec fn first_missing_failure(
    prefix: Seq<char>,
    declared: Seq<Field>,
    fields: Map<Seq<char>, Seq<char>>,
) -> DecodeFailureView {
    DecodeFailureView::MissingField { prefix, field: first_missing(declared, fields)->0 }
}

/// `name` is one of the `declared` fields, and `fields` gives it no value.
pub open spec fn lacks(
    declared: Seq<Field>,
    fields: Map<Seq<char>, Seq<char>>,
    name: Seq<char>,
) -> bool {
    declares(declared, name) && !fields.contains_key(name)
}

/// The failure that reports the value of the pair at `j` as no port.
pub open spec fn mistyped_at(
    prefix: Seq<char>,
    fields: Seq<(Seq<char>, Seq<char>)>,
    j: int,
) -> DecodeFailureView {
    DecodeFailureView::TypeCoercion {
        prefix,
        field: fields[j].0,
        value: fields[j].1,
        target: "Port"@,
    }
}

/// The pair at `j` gives a port field its first value, and the value writes no port;
/// the pairs before it fill fields or are passed over.
pub open spec fn is_first_mistyped_port(
    declared: Seq<Field>,
    fields: Seq<(Seq<char>, Seq<char>)>,
    j: int,
) -> bool {
    &&& 0 <= j < fields.len()
    &&& holds_port(declared, fields[j].0)
    &&& Port::parse_spec(fields[j].1) is None
    &&& clean(declared, fields.take(j))
    &&& !names(fields.take(j), fields[j].0)
}

/// A record is made of the pairs: every pair fills a field or is passed over, and every
/// declared field has a value.
pub open spec fn is_made(declared: Seq<Field>, fields: Seq<(Seq<char>, Seq<char>)>) -> bool {
    clean(declared, fields) && populated(declared, crate::binding::field_map(fields))
}

/// Reading is repeatable: two readings of the same pairs return the same.
pub proof fn lemma_reading_is_repeatable<C: FromEnvLikeKeyValuePairs>(
    pairs: Seq<(String, String)>,
    again: Seq<(String, String)>,
    first: Result<C, DecodeFailure>,
    second: Result<C, DecodeFailure>,
)
    requires
        pairs_view(pairs) == pairs_view(again),
        result_view(first) == C::from_iter_spec(pairs_view(pairs)),
        result_view(second) == C::from_iter_spec(pairs_view(again)),
    ensures
        result_view(first) == result_view(second),
{
}

/// Readings do not depend on their order: what two configurations read from the same
/// pairs is the same whichever of them is read first.
pub proof fn lemma_readings_are_independent<
    C: FromEnvLikeKeyValuePairs,
    D: FromEnvLikeKeyValuePairs,
>(
    pairs: Seq<(String, String)>,
    one_read_first: Result<C, DecodeFailure>,
    other_read_second: Result<D, DecodeFailure>,
    other_read_first: Result<D, DecodeFailure>,
    one_read_second: Result<C, DecodeFailure>,
)
    requires
        result_view(one_read_first) == C::from_iter_spec(pairs_view(pairs)),
        result_view(other_read_second) == D::from_iter_spec(pairs_view(pairs)),
        result_view(other_read_first) == D::from_iter_spec(pairs_view(pairs)),
        result_view(one_read_second) == C::from_iter_spec(pairs_view(pairs)),
    ensures
        result_view(one_read_first) == result_view(one_read_second),
        result_view(other_read_second) == result_view(other_read_first),
{
}

/// The service that reads the source database is configured exactly where both of its
/// records are made of the pairs; each field then holds the value bound to it, and each
/// port the number that its value writes.
pub proof fn lemma_server_loads_complete_pairs(pairs: Seq<(Seq<char>, Seq<char>)>)
    ensures
        ServerAppConfig::from_iter_spec(pairs) is Ok <==> is_made(
            SourceDatabaseConfig::declared(),
            SourceDatabaseConfig::named_of(pairs),
        ) && is_made(HttpConfig::declared(), HttpConfig::named_of(pairs)),
        ServerAppConfig::from_iter_spec(pairs) matches Ok(config) ==> config == (
        ServerAppConfigView {
            source_database_config: database_of(SourceDatabaseConfig::fields_of(pairs)),
            http_config: http_of(HttpConfig::fields_of(pairs)),
        }),
{
    lemma_record_is_made_of_complete_fields(
        SourceDatabaseConfig::prefix(),
        SourceDatabaseConfig::declared(),
        SourceDatabaseConfig::named_of(pairs),
    );
    lemma_record_is_made_of_complete_fields(
        HttpConfig::prefix(),
        HttpConfig::declared(),
        HttpConfig::named_of(pairs),
    );
}

/// Where a declared field of the service that reads the source database has no value,
/// and no failure of another kind comes first, loading fails with the first such field
/// of the first such record, named under the record's prefix. A failure of another kind
/// comes first where the walk through the pairs of the source database meets one, or
/// where the source database lacks nothing and the walk through the pairs of the HTTP
/// server meets one.
pub proof fn lemma_server_reports_missing_field(pairs: Seq<(Seq<char>, Seq<char>)>)
    requires
        !populated(SourceDatabaseConfig::declared(), SourceDatabaseConfig::fields_of(pairs))
            || !populated(HttpConfig::declared(), HttpConfig::fields_of(pairs)),
        clean(SourceDatabaseConfig::declared(), SourceDatabaseConfig::named_of(pairs)),
        populated(SourceDatabaseConfig::declared(), SourceDatabaseConfig::fields_of(pairs))
            ==> clean(HttpConfig::declared(), HttpConfig::named_of(pairs)),
    ensures
        ServerAppConfig::from_iter_spec(pairs) == Err::<ServerAppConfigView, DecodeFailureView>(
            if !populated(
                SourceDatabaseConfig::declared(),
                SourceDatabaseConfig::fields_of(pairs),
            ) {
                first_missing_failure(
                    SourceDatabaseConfig::prefix(),
                    SourceDatabaseConfig::declared(),
                    SourceDatabaseConfig::fields_of(pairs),
                )
            } else {
                first_missing_failure(
                    HttpConfig::prefix(),
                    HttpConfig::declared(),
                    HttpConfig::fields_of(pairs),
                )
            },
        ),
        ServerAppConfig::from_iter_spec(pairs) matches Err(
            DecodeFailureView::MissingField { prefix, field },
        ) && {
            ||| prefix == SourceDatabaseConfig::prefix() && lacks(
                SourceDatabaseConfig::declared(),
                SourceDatabaseConfig::fields_of(pairs),
                field,
            )
            ||| prefix == HttpConfig::prefix() && lacks(
                HttpConfig::declared(),
                HttpConfig::fields_of(pairs),
                field,
            )
        },
{
    let database = SourceDatabaseConfig::named_of(pairs);
    let http = HttpConfig::named_of(pairs);
    lemma_record_is_made_of_complete_fields(
        SourceDatabaseConfig::prefix(),
        SourceDatabaseConfig::declared(),
        database,
    );
    lemma_record_is_made_of_complete_fields(HttpConfig::prefix(), HttpConfig::declared(), http);
    lemma_failure_names_a_declared_field(
        SourceDatabaseConfig::prefix(),
        SourceDatabaseConfig::declared(),
        database,
    );
    lemma_failure_names_a_declared_field(HttpConfig::prefix(), HttpConfig::declared(), http);
    lemma_walk_comes_to_the_end_of_clean_pairs(
        SourceDatabaseConfig::prefix(),
        SourceDatabaseConfig::declared(),
        database,
    );
    lemma_walk_comes_to_the_end_of_clean_pairs(
        HttpConfig::prefix(),
        HttpConfig::declared(),
        http,
    );
    if !populated(SourceDatabaseConfig::declared(), SourceDatabaseConfig::fields_of(pairs)) {
        let i = choose|i: int|
            0 <= i < SourceDatabaseConfig::declared().len() && !SourceDatabaseConfig::fields_of(
                pairs,
            ).contains_key(#[trigger] SourceDatabaseConfig::declared()[i].name);
        lemma_missing_field_is_reported(
            SourceDatabaseConfig::prefix(),
            SourceDatabaseConfig::declared(),
            database,
            i,
        );
    } else {
        let i = choose|i: int|
            0 <= i < HttpConfig::declared().len() && !HttpConfig::fields_of(pairs).contains_key(
                #[trigger] HttpConfig::declared()[i].name,
            );
        lemma_missing_field_is_reported(HttpConfig::prefix(), HttpConfig::declared(), http, i);
    }
}

/// The first pair of the source database to give rise to a failure decides what loading
/// the service that reads it returns, be it a value that writes no port or a second
/// value for a field.
pub proof fn lemma_server_fails_with_the_source_database(
    pairs: Seq<(Seq<char>, Seq<char>)>,
    j: int,
)
    requires
        is_first_defect(
            SourceDatabaseConfig::prefix(),
            SourceDatabaseConfig::declared(),
            SourceDatabaseConfig::named_of(pairs),
            j,
        ),
    ensures
        ServerAppConfig::from_iter_spec(pairs) == Err::<ServerAppConfigView, DecodeFailureView>(
            defect(
                SourceDatabaseConfig::prefix(),
                SourceDatabaseConfig::declared(),
                SourceDatabaseConfig::named_of(pairs).take(j),
                SourceDatabaseConfig::named_of(pairs)[j].0,
                SourceDatabaseConfig::named_of(pairs)[j].1,
            )->0,
        ),
{
    lemma_first_failure_in_the_list_decides(
        SourceDatabaseConfig::prefix(),
        SourceDatabaseConfig::declared(),
        SourceDatabaseConfig::named_of(pairs),
        j,
    );
}

/// Where the source database is made, the first pair of the HTTP server to give rise to
/// a failure decides what loading the service returns.
pub proof fn lemma_server_fails_with_the_http_server(pairs: Seq<(Seq<char>, Seq<char>)>, j: int)
    requires
        is_made(SourceDatabaseConfig::declared(), SourceDatabaseConfig::named_of(pairs)),
        is_first_defect(
            HttpConfig::prefix(),
            HttpConfig::declared(),
            HttpConfig::named_of(pairs),
            j,
        ),
    ensures
        ServerAppConfig::from_iter_spec(pairs) == Err::<ServerAppConfigView, DecodeFailureView>(
            defect(
                HttpConfig::prefix(),
                HttpConfig::declared(),
                HttpConfig::named_of(pairs).take(j),
                HttpConfig::named_of(pairs)[j].0,
                HttpConfig::named_of(pairs)[j].1,
            )->0,
        ),
{
    lemma_record_is_made_of_complete_fields(
        SourceDatabaseConfig::prefix(),
        SourceDatabaseConfig::declared(),
        SourceDatabaseConfig::named_of(pairs),
    );
    lemma_first_failure_in_the_list_decides(
        HttpConfig::prefix(),
        HttpConfig::declared(),
        HttpConfig::named_of(pairs),
        j,
    );
}

/// Where the port of the source database is given a value that writes no port, and no
/// pair of the source database before that one gives rise to a failure, loading the
/// service fails with the failure that names the port under the prefix of the source
/// database and holds the value, whatever a later pair gives the port.
pub proof fn lemma_server_reports_mistyped_database_port(
    pairs: Seq<(Seq<char>, Seq<char>)>,
    j: int,
)
    requires
        is_first_mistyped_port(
            SourceDatabaseConfig::declared(),
            SourceDatabaseConfig::named_of(pairs),
            j,
        ),
    ensures
        ServerAppConfig::from_iter_spec(pairs) == Err::<ServerAppConfigView, DecodeFailureView>(
            mistyped_at(SourceDatabaseConfig::prefix(), SourceDatabaseConfig::named_of(pairs), j),
        ),
{
    lemma_mistyped_port_is_reported(
        SourceDatabaseConfig::prefix(),
        SourceDatabaseConfig::declared(),
        SourceDatabaseConfig::named_of(pairs),
        j,
    );
}

/// Where the source database is made and the port of the HTTP server is given a value
/// that writes no port, and no pair of the HTTP server before that one gives rise to a
/// failure, loading the service fails with the failure that names the port under the
/// prefix of the HTTP server and holds the value.
pub proof fn lemma_server_reports_mistyped_http_port(pairs: Seq<(Seq<char>, Seq<char>)>, j: int)
    requires
        is_made(SourceDatabaseConfig::declared(), SourceDatabaseConfig::named_of(pairs)),
        is_first_mistyped_port(HttpConfig::declared(), HttpConfig::named_of(pairs), j),
    ensures
        ServerAppConfig::from_iter_spec(pairs) == Err::<ServerAppConfigView, DecodeFailureView>(
            mistyped_at(HttpConfig::prefix(), HttpConfig::named_of(pairs), j),
        ),
{
    lemma_record_is_made_of_complete_fields(
        SourceDatabaseConfig::prefix(),
        SourceDatabaseConfig::declared(),
        SourceDatabaseConfig::named_of(pairs),
    );
    lemma_mistyped_port_is_reported(
        HttpConfig::prefix(),
        HttpConfig::declared(),
        HttpConfig::named_of(pairs),
        j,
    );
}

/// A pair whose key means nothing to either record of the service that reads the source
/// database changes nothing of what loading returns, wherever it stands among the
/// others: it causes no failure and hides none.
pub proof fn lemma_server_ignores_unknown_pair(
    pairs: Seq<(Seq<char>, Seq<char>)>,
    at: int,
    pair: (Seq<char>, Seq<char>),
)
    requires
        0 <= at <= pairs.len(),
        unknown_to(SourceDatabaseConfig::prefix(), SourceDatabaseConfig::declared(), pair.0),
        unknown_to(HttpConfig::prefix(), HttpConfig::declared(), pair.0),
    ensures
        ServerAppConfig::from_iter_spec(pairs.insert(at, pair)) == ServerAppConfig::from_iter_spec(
            pairs,
        ),
{
    lemma_unknown_pair_is_ignored(
        SourceDatabaseConfig::prefix(),
        SourceDatabaseConfig::declared(),
        pairs,
        at,
        pair,
    );
    lemma_unknown_pair_is_ignored(HttpConfig::prefix(), HttpConfig::declared(), pairs, at, pair);
    lemma_database_field_names();
    lemma_http_field_names();
}

/// The service that writes to the target database is configured exactly where both of
/// its records are made of the pairs; each field then holds the value bound to it, and
/// the port the number that its value writes.
pub proof fn lemma_app_loads_complete_pairs(pairs: Seq<(Seq<char>, Seq<char>)>)
    ensures
        AppConfig::from_iter_spec(pairs) is Ok <==> is_made(
            GameDataServerConfig::declared(),
            GameDataServerConfig::named_of(pairs),
        ) && is_made(ConiferDatabaseConfig::declared(), ConiferDatabaseConfig::named_of(pairs)),
        AppConfig::from_iter_spec(pairs) matches Ok(config) ==> config == (AppConfigView {
            game_data_server_config: GameDataServerConfigView {
                grpc_endpoint_url: GameDataServerConfig::fields_of(pairs)["grpc_endpoint_url"@],
            },
            target_database_config: database_of(ConiferDatabaseConfig::fields_of(pairs)),
        }),
{
    lemma_record_is_made_of_complete_fields(
        GameDataServerConfig::prefix(),
        GameDataServerConfig::declared(),
        GameDataServerConfig::named_of(pairs),
    );
    lemma_record_is_made_of_complete_fields(
        ConiferDatabaseConfig::prefix(),
        ConiferDatabaseConfig::declared(),
        ConiferDatabaseConfig::named_of(pairs),
    );
}

/// Where a declared field of the service that writes to the target database has no
/// value, and no failure of another kind comes first, loading fails with the first such
/// field of the first such record, named under the record's prefix. A failure of another
/// kind comes first where the walk through the pairs of the game data server meets one,
/// or where the game data server lacks nothing and the walk through the pairs of the
/// target database meets one.
pub proof fn lemma_app_reports_missing_field(pairs: Seq<(Seq<char>, Seq<char>)>)
    requires
        !populated(GameDataServerConfig::declared(), GameDataServerConfig::fields_of(pairs))
            || !populated(
            ConiferDatabaseConfig::declared(),
            ConiferDatabaseConfig::fields_of(pairs),
        ),
        clean(GameDataServerConfig::declared(), GameDataServerConfig::named_of(pairs)),
        populated(GameDataServerConfig::declared(), GameDataServerConfig::fields_of(pairs))
            ==> clean(ConiferDatabaseConfig::declared(), ConiferDatabaseConfig::named_of(pairs)),
    ensures
        AppConfig::from_iter_spec(pairs) == Err::<AppConfigView, DecodeFailureView>(
            if !populated(
                GameDataServerConfig::declared(),
                GameDataServerConfig::fields_of(pairs),
            ) {
                first_missing_failure(
                    GameDataServerConfig::prefix(),
                    GameDataServerConfig::declared(),
                    GameDataServerConfig::fields_of(pairs),
                )
            } else {
                first_missing_failure(
                    ConiferDatabaseConfig::prefix(),
                    ConiferDatabaseConfig::declared(),
                    ConiferDatabaseConfig::fields_of(pairs),
                )
            },
        ),
        AppConfig::from_iter_spec(pairs) matches Err(
            DecodeFailureView::MissingField { prefix, field },
        ) && {
            ||| prefix == GameDataServerConfig::prefix() && lacks(
                GameDataServerConfig::declared(),
                GameDataServerConfig::fields_of(pairs),
                field,
            )
            ||| prefix == ConiferDatabaseConfig::prefix() && lacks(
                ConiferDatabaseConfig::declared(),
                ConiferDatabaseConfig::fields_of(pairs),
                field,
            )
        },
{
    let game_data = GameDataServerConfig::named_of(pairs);
    let database = ConiferDatabaseConfig::named_of(pairs);
    lemma_record_is_made_of_complete_fields(
        GameDataServerConfig::prefix(),
        GameDataServerConfig::declared(),
        game_data,
    );
    lemma_record_is_made_of_complete_fields(
        ConiferDatabaseConfig::prefix(),
        ConiferDatabaseConfig::declared(),
        database,
    );
    lemma_failure_names_a_declared_field(
        GameDataServerConfig::prefix(),
        GameDataServerConfig::declared(),
        game_data,
    );
    lemma_failure_names_a_declared_field(
        ConiferDatabaseConfig::prefix(),
        ConiferDatabaseConfig::declared(),
        database,
    );
    lemma_walk_comes_to_the_end_of_clean_pairs(
        GameDataServerConfig::prefix(),
        GameDataServerConfig::declared(),
        game_data,
    );
    lemma_walk_comes_to_the_end_of_clean_pairs(
        ConiferDatabaseConfig::prefix(),
        ConiferDatabaseConfig::declared(),
        database,
    );
    if !populated(GameDataServerConfig::declared(), GameDataServerConfig::fields_of(pairs)) {
        let i = choose|i: int|
            0 <= i < GameDataServerConfig::declared().len() && !GameDataServerConfig::fields_of(
                pairs,
            ).contains_key(#[trigger] GameDataServerConfig::declared()[i].name);
        lemma_missing_field_is_reported(
            GameDataServerConfig::prefix(),
            GameDataServerConfig::declared(),
            game_data,
            i,
        );
    } else {
        let i = choose|i: int|
            0 <= i < ConiferDatabaseConfig::declared().len() && !ConiferDatabaseConfig::fields_of(
                pairs,
            ).contains_key(#[trigger] ConiferDatabaseConfig::declared()[i].name);
        lemma_missing_field_is_reported(
            ConiferDatabaseConfig::prefix(),
            ConiferDatabaseConfig::declared(),
            database,
            i,
        );
    }
}

/// The first pair of the game data server to give rise to a failure decides what
/// loading the service that writes to the target database returns.
pub proof fn lemma_app_fails_with_the_game_data_server(pairs: Seq<(Seq<char>, Seq<char>)>, j: int)
    requires
        is_first_defect(
            GameDataServerConfig::prefix(),
            GameDataServerConfig::declared(),
            GameDataServerConfig::named_of(pairs),
            j,
        ),
    ensures
        AppConfig::from_iter_spec(pairs) == Err::<AppConfigView, DecodeFailureView>(
            defect(
                GameDataServerConfig::prefix(),
                GameDataServerConfig::declared(),
                GameDataServerConfig::named_of(pairs).take(j),
                GameDataServerConfig::named_of(pairs)[j].0,
                GameDataServerConfig::named_of(pairs)[j].1,
            )->0,
        ),
{
    lemma_first_failure_in_the_list_decides(
        GameDataServerConfig::prefix(),
        GameDataServerConfig::declared(),
        GameDataServerConfig::named_of(pairs),
        j,
    );
}

/// Where the game data server is made, the first pair of the target database to give
/// rise to a failure decides what loading the service returns, be it a value that writes
/// no port or a second value for a field.
pub proof fn lemma_app_fails_with_the_target_database(pairs: Seq<(Seq<char>, Seq<char>)>, j: int)
    requires
        is_made(GameDataServerConfig::declared(), GameDataServerConfig::named_of(pairs)),
        is_first_defect(
            ConiferDatabaseConfig::prefix(),
            ConiferDatabaseConfig::declared(),
            ConiferDatabaseConfig::named_of(pairs),
            j,
        ),
    ensures
        AppConfig::from_iter_spec(pairs) == Err::<AppConfigView, DecodeFailureView>(
            defect(
                ConiferDatabaseConfig::prefix(),
                ConiferDatabaseConfig::declared(),
                ConiferDatabaseConfig::named_of(pairs).take(j),
                ConiferDatabaseConfig::named_of(pairs)[j].0,
                ConiferDatabaseConfig::named_of(pairs)[j].1,
            )->0,
        ),
{
    lemma_record_is_made_of_complete_fields(
        GameDataServerConfig::prefix(),
        GameDataServerConfig::declared(),
        GameDataServerConfig::named_of(pairs),
    );
    lemma_first_failure_in_the_list_decides(
        ConiferDatabaseConfig::prefix(),
        ConiferDatabaseConfig::declared(),
        ConiferDatabaseConfig::named_of(pairs),
        j,
    );
}

/// Where the game data server is made and the port of the target database is given a
/// value that writes no port, and no pair of the target database before that one gives
/// rise to a failure, loading the service fails with the failure that names the port
/// under the prefix of the target database and holds the value, whatever a later pair
/// gives the port.
pub proof fn lemma_app_reports_mistyped_port(pairs: Seq<(Seq<char>, Seq<char>)>, j: int)
    requires
        is_made(GameDataServerConfig::declared(), GameDataServerConfig::named_of(pairs)),
        is_first_mistyped_port(
            ConiferDatabaseConfig::declared(),
            ConiferDatabaseConfig::named_of(pairs),
            j,
        ),
    ensures
        AppConfig::from_iter_spec(pairs) == Err::<AppConfigView, DecodeFailureView>(
            mistyped_at(ConiferDatabaseConfig::prefix(), ConiferDatabaseConfig::named_of(pairs), j),
        ),
{
    lemma_record_is_made_of_complete_fields(
        GameDataServerConfig::prefix(),
        GameDataServerConfig::declared(),
        GameDataServerConfig::named_of(pairs),
    );
    lemma_mistyped_port_is_reported(
        ConiferDatabaseConfig::prefix(),
        ConiferDatabaseConfig::declared(),
        ConiferDatabaseConfig::named_of(pairs),
        j,
    );
}

/// A pair whose key means nothing to either record of the service that writes to the
/// target database changes nothing of what loading returns, wherever it stands among the
/// others: it causes no failure and hides none.
pub proof fn lemma_app_ignores_unknown_pair(
    pairs: Seq<(Seq<char>, Seq<char>)>,
    at: int,
    pair: (Seq<char>, Seq<char>),
)
    requires
        0 <= at <= pairs.len(),
        unknown_to(GameDataServerConfig::prefix(), GameDataServerConfig::declared(), pair.0),
        unknown_to(ConiferDatabaseConfig::prefix(), ConiferDatabaseConfig::declared(), pair.0),
    ensures
        AppConfig::from_iter_spec(pairs.insert(at, pair)) == AppConfig::from_iter_spec(pairs),
{
    lemma_unknown_pair_is_ignored(
        GameDataServerConfig::prefix(),
        GameDataServerConfig::declared(),
        pairs,
        at,
        pair,
    );
    lemma_unknown_pair_is_ignored(
        ConiferDatabaseConfig::prefix(),
        ConiferDatabaseConfig::declared(),
        pairs,
        at,
        pair,
    );
    lemma_database_field_names();
    assert(GameDataServerConfig::declared()[0].name == "grpc_endpoint_url"@);
    assert(declares(GameDataServerConfig::declared(), "grpc_endpoint_url"@));
}

/// The names of the fields of a database connection are declared.
proof fn lemma_database_field_names()
    ensures
        SourceDatabaseConfig::declared() == ConiferDatabaseConfig::declared(),
        declares(SourceDatabaseConfig::declared(), "host"@),
        declares(SourceDatabaseConfig::declared(), "port"@),
        declares(SourceDatabaseConfig::declared(), "database_name"@),
        declares(SourceDatabaseConfig::declared(), "user"@),
        declares(SourceDatabaseConfig::declared(), "password"@),
{
    let declared = SourceDatabaseConfig::declared();
    assert(declared[0].name == "host"@);
    assert(declared[1].name == "port"@);
    assert(declared[2].name == "database_name"@);
    assert(declared[3].name == "user"@);
    assert(declared[4].name == "password"@);
}

/// The names of the fields of the HTTP server are declared.
proof fn lemma_http_field_names()
    ensures
        declares(HttpConfig::declared(), "host"@),
        declares(HttpConfig::declared(), "port"@),
{
    let declared = HttpConfig::declared();
    assert(declared[0].name == "host"@);
    assert(declared[1].name == "port"@);
}

} // verus!
