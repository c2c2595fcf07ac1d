//! The statement that selects the application's schema in each new
//! database connection.
use vstd::prelude::*;
use crate::shared::config::app_config::AppConfig;

verus! {

/// Prepares the database connections.
#[derive(Clone, Copy, Debug)]
pub struct DatabaseManager;

impl DatabaseManager {
    /// `SET search_path TO {schema}`: the statement that makes the
    /// configured schema the one of the connection.
    pub fn sentencia_esquema(config: &AppConfig) -> (r: String)
        ensures
            r@ == "SET search_path TO "@ + config.database.schema@,
    {
        let mut r = String::from_str("SET search_path TO ");
        r.append(config.database.schema.as_str());
        r
    }
}

} // verus!
