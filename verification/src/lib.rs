//! Typed configuration from a flat list of key/value pairs, such as the variables of the
//! environment.
//!
//! Every record of a configuration has a prefix. The pairs whose key begins with the
//! prefix are kept in their order, each under the name of the field that its key names
//! (`binding`). The kept pairs are walked through and decoded into the record, or into
//! the failure that names the offending field (`record`, `failure`), and the
//! configuration of a service is made of all its records or not at all (`app`).
//!
//! A key is read case by case in its prefix and without regard to case after it: under
//! `DB_`, the key `DB_DATABASE_NAME` names the field `database_name`. The prefix is taken
//! from a key once, so that `DB_DB_HOST` names `db_host`, which no record declares, and
//! is passed over like every key that names no declared field.
//!
//! A field takes one value. Two keys under a prefix may name the same field, as
//! `HTTP_HOST` and `HTTP_host` do, or one key that stands twice in the list: the second of
//! them is a failure. So is a value that does not write what its field holds, whatever a
//! later pair gives the field. Of several such pairs the first in the list decides, and a
//! field without a value is reported only where the walk through the pairs met none.
//!
//! Beside the configuration stand the records of what is counted of a player
//! (`statistics`).

pub mod app;
pub mod app_laws;
pub mod binding;
pub mod database;
pub mod failure;
pub mod game_data;
pub mod http;
pub mod laws;
pub mod port;
pub mod record;
pub mod statistics;
