use vstd::prelude::*;
use vstd::string::StringExecFns;
use crate::store::{is_http_uri, is_http_uri_exec, ConnectError};
use crate::naming::{generate_unique_name, is_suffix, unique_name_of};

verus! {

/// The mathematical content of a [`TestRepoConfig`].
pub ghost struct ConfigView {
    pub uri: Seq<char>,
    pub username: Seq<char>,
    pub password: Seq<char>,
    pub db_name: Seq<char>,
}

/// Connection settings for the CouchDB instance and the name of the
/// fixture's database.
#[derive(Clone)]
pub struct TestRepoConfig {
    uri: String,
    username: String,
    password: String,
    db_name: String,
}

impl View for TestRepoConfig {
    type V = ConfigView;

    closed spec fn view(&self) -> ConfigView {
        ConfigView {
            uri: self.uri@,
            username: self.username@,
            password: self.password@,
            db_name: self.db_name@,
        }
    }
}

impl TestRepoConfig {
    /// A configuration holding the uri, user name and password of the
    /// CouchDB instance and the base name of the database, which is not
    /// empty.
    pub fn new(uri: &str, uname: &str, pwd: &str, dbname: &str) -> (r: TestRepoConfig)
        requires
            dbname@.len() > 0,
        ensures
            r@ == (ConfigView { uri: uri@, username: uname@, password: pwd@, db_name: dbname@ }),
    {
        let r = TestRepoConfig {
            uri: String::from_str(uri),
            username: String::from_str(uname),
            password: String::from_str(pwd),
            db_name: String::from_str(dbname),
        };
        proof {
            assert(r@ == ConfigView { uri: uri@, username: uname@, password: pwd@, db_name: dbname@ });
        }
        r
    }

    /// The same connection settings, naming the database `db_unique_name`,
    /// which is not empty.
    pub fn with_name(self, db_unique_name: String) -> (r: TestRepoConfig)
        requires
            db_unique_name@.len() > 0,
        ensures
            r@ == (ConfigView { db_name: db_unique_name@, ..self@ }),
    {
        TestRepoConfig { db_name: db_unique_name, ..self }
    }

    /// The same settings, naming the database after the base name followed by
    /// a hyphen and a fresh random suffix.
    pub fn with_unique_name(self) -> (r: TestRepoConfig)
        ensures
            exists|suffix: Seq<char>|
                is_suffix(suffix) && r@ == (ConfigView {
                    db_name: unique_name_of(self@.db_name, suffix),
                    ..self@
                }),
    {
        let name = generate_unique_name(self.db_name.as_str());
        self.with_name(name)
    }

    /// A fresh client for the configured server; an uri that does not
    /// start with `http://` or `https://` is refused before any call.
    pub fn connect(&self) -> (r: Result<couch_rs::Client, ConnectError>)
        ensures
            !is_http_uri(self@.uri) <==> r matches Err(ConnectError::UnsupportedUri),
    {
        if !is_http_uri_exec(self.uri.as_str()) {
            return Err(ConnectError::UnsupportedUri);
        }
        match couch_rs::Client::new(self.uri.as_str(), self.username.as_str(), self.password.as_str()) {
            Ok(c) => Ok(c),
            Err(e) => Err(ConnectError::Store(e)),
        }
    }

    /// The server's uri.
    pub fn uri(&self) -> (r: &str)
        ensures
            r@ == self@.uri,
    {
        self.uri.as_str()
    }

    /// The user name for basic authentication.
    pub fn username(&self) -> (r: &str)
        ensures
            r@ == self@.username,
    {
        self.username.as_str()
    }

    /// The password for basic authentication.
    pub fn password(&self) -> (r: &str)
        ensures
            r@ == self@.password,
    {
        self.password.as_str()
    }

    /// The database name.
    pub fn db_name(&self) -> (r: &str)
        ensures
            r@ == self@.db_name,
    {
        self.db_name.as_str()
    }
}

} // verus!
