//! Settings that the caller reads from its configuration file.

use vstd::prelude::*;

verus! {

/// Where the ledger service lives and the bearer token that opens it.
#[derive(Clone, Debug, PartialEq, Eq)]
pub struct FireflyConfig {
    pub base_url: String,
    pub token: String,
}

/// Homeserver and credentials for a first login.
#[derive(Clone, Debug, PartialEq, Eq)]
pub struct MatrixConfig {
    pub homeserver: String,
    pub username: String,
    pub password: String,
}

/// What a [`MatrixConfig`] holds, as plain mathematics.
pub struct MatrixConfigView {
    pub homeserver: Seq<char>,
    pub username: Seq<char>,
    pub password: Seq<char>,
}

impl View for MatrixConfig {
    type V = MatrixConfigView;

    open spec fn view(&self) -> MatrixConfigView {
        MatrixConfigView {
            homeserver: self.homeserver@,
            username: self.username@,
            password: self.password@,
        }
    }
}

/// The whole configuration file.
#[derive(Clone, Debug, PartialEq, Eq)]
pub struct Config {
    pub firefly: FireflyConfig,
    pub matrix: MatrixConfig,
}

} // verus!
