//! The maintenance actions asked for on the command line.

use vstd::prelude::*;

verus! {

pub struct CliActionError {
    pub error_msg: String,
}

impl CliActionError {
    pub fn new(error_msg: String) -> (r: CliActionError)
        ensures
            r.error_msg == error_msg,
    {
        CliActionError { error_msg }
    }
}

pub struct CliActionSuccess {
    pub term_after_cli_actions: bool,
}

impl CliActionSuccess {
    pub fn new(term_after_cli_actions: bool) -> (r: CliActionSuccess)
        ensures
            r.term_after_cli_actions == term_after_cli_actions,
    {
        CliActionSuccess { term_after_cli_actions }
    }
}

pub struct CliActions {
    pub create_db: bool,
    pub create_db_user: bool,
    pub create_db_tables: bool,
    pub add_admin_user: bool,
    pub change_user_password: bool,
    pub change_pw_username: String,
    pub drop_db: bool,
    pub drop_db_user: bool,
    pub drop_db_tables: bool,
}

impl CliActions {
    /// Creating or dropping the database or its user needs the database
    /// administrator's connection.
    pub fn require_db_admin(&self) -> (r: bool)
        ensures
            r == (self.create_db || self.create_db_user || self.drop_db || self.drop_db_user),
    {
        self.create_db || self.create_db_user || self.drop_db || self.drop_db_user
    }
}

} // verus!
