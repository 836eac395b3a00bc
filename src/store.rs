use vstd::prelude::*;
use vstd::string::StringExecFns;
use vstd::string::StrSliceExecFns;
use couch_rs::error::CouchError;

verus! {

#[verifier::external_type_specification]
#[verifier::external_body]
pub struct ExCouchError(couch_rs::error::CouchError);

#[verifier::external_type_specification]
#[verifier::external_body]
pub struct ExClient(couch_rs::Client);

/// Whether `c` is `p`, or the uppercase form of the lowercase letter `p`.
pub open spec fn matches_ignoring_case(c: char, p: char) -> bool {
    c == p || ('a' <= p <= 'z' && c as u32 + 32 == p as u32)
}

/// Whether `s` begins with the lowercase text `p`, letters in either case.
pub open spec fn starts_with_ignoring_case(s: Seq<char>, p: Seq<char>) -> bool {
    p.len() <= s.len() && forall|i: int| 0 <= i < p.len() ==> matches_ignoring_case(s[i], p[i])
}

/// The URIs that the client accepts without panicking: an `http://` or
/// `https://` scheme, in any case, always makes a URL that can serve as a
/// base.
pub open spec fn is_http_uri(uri: Seq<char>) -> bool {
    starts_with_ignoring_case(uri, "http://"@) || starts_with_ignoring_case(uri, "https://"@)
}

/// Relies on `couch_rs::Client::new`: a client for the server at `uri` with
/// basic authentication, or the error met while building it. It asserts
/// that the parsed URL can be a base, which an http(s) URI always can.
pub assume_specification[ couch_rs::Client::new ](
    uri: &str,
    username: &str,
    password: &str,
) -> Result<couch_rs::Client, CouchError>
    requires
        is_http_uri(uri@),
;

/// Whether `s` begins with the lowercase text `p`, letters in either case.
pub fn starts_with_ignoring_case_exec(s: &str, p: &str) -> (r: bool)
    ensures
        r == starts_with_ignoring_case(s@, p@),
{
    let n = p.unicode_len();
    if n > s.unicode_len() {
        return false;
    }
    let mut i: usize = 0;
    while i < n
        invariant
            n == p@.len(),
            n <= s@.len(),
            i <= n,
            forall|k: int| 0 <= k < i ==> matches_ignoring_case(s@[k], p@[k]),
        decreases n - i,
    {
        let c = s.get_char(i);
        let q = p.get_char(i);
        let same = c == q || ('a' <= q && q <= 'z' && (c as u32) + 32 == q as u32);
        if !same {
            return false;
        }
        i = i + 1;
    }
    true
}

/// Whether the client accepts `uri`: it starts with `http://` or
/// `https://`, letters in either case.
pub fn is_http_uri_exec(uri: &str) -> (r: bool)
    ensures
        r == is_http_uri(uri@),
{
    proof {
        reveal_strlit("http://");
        reveal_strlit("https://");
    }
    starts_with_ignoring_case_exec(uri, "http://") || starts_with_ignoring_case_exec(uri, "https://")
}

/// Why no client could be made for a configuration.
#[derive(Debug)]
pub enum ConnectError {
    /// The uri does not start with `http://` or `https://`, in any case.
    UnsupportedUri,
    /// The store's client refused the settings.
    Store(CouchError),
}

/// The numeric HTTP status that a store error carries, if any.
pub uninterp spec fn status_of(e: CouchError) -> Option<u16>;

/// Relies on `CouchError::status` and `http::StatusCode::as_u16`: the
/// status of a failed operation as its number, which `StatusCode` keeps
/// between 100 and 999; the status depends on the error alone.
#[verifier::external_body]
fn error_status(e: &CouchError) -> (r: Option<u16>)
    ensures
        r == status_of(*e),
        r matches Some(code) ==> 100 <= code <= 999,
{
    match e.status() {
        Some(s) => Some(s.as_u16()),
        None => None,
    }
}

/// The status with which CouchDB refuses to create a database that exists.
pub const PRECONDITION_FAILED: u16 = 412;

/// Why the creation of a fixture's database failed.
#[derive(PartialEq, Eq, Structural, Clone, Copy, Debug)]
pub enum CreateFailure {
    /// A database of that name exists already: a name collision or a database
    /// left behind, to be removed by hand.
    AlreadyExists,
    /// Any other failure of the store.
    Failed,
}

/// How a failed creation is classified from the HTTP status of the error.
pub open spec fn create_failure_of(status: Option<u16>) -> CreateFailure {
    if status == Some(PRECONDITION_FAILED) {
        CreateFailure::AlreadyExists
    } else {
        CreateFailure::Failed
    }
}

/// Classifies a failed creation by the HTTP status that came with it.
pub fn classify_create_status(status: Option<u16>) -> (r: CreateFailure)
    ensures
        r == create_failure_of(status),
{
    match status {
        Some(code) => {
            if code == PRECONDITION_FAILED {
                CreateFailure::AlreadyExists
            } else {
                CreateFailure::Failed
            }
        },
        None => CreateFailure::Failed,
    }
}

/// Classifies the error with which the store refused to create a database.
pub fn classify_create_error(e: &CouchError) -> (r: CreateFailure)
    ensures
        r == create_failure_of(status_of(*e)),
{
    classify_create_status(error_status(e))
}

/// The text with which a fixture's creation is abandoned.
pub open spec fn create_failure_text(f: CreateFailure, name: Seq<char>) -> Seq<char> {
    match f {
        CreateFailure::AlreadyExists => "Database "@ + name
            + " already exists and must be manually removed."@,
        CreateFailure::Failed => "Error while creating new database "@ + name,
    }
}

impl CreateFailure {
    /// A human-readable account of the failure for the database `name`.
    pub fn message(&self, name: &str) -> (r: String)
        ensures
            r@ == create_failure_text(*self, name@),
    {
        proof {
            reveal_strlit("Database ");
            reveal_strlit(" already exists and must be manually removed.");
            reveal_strlit("Error while creating new database ");
        }
        match self {
            CreateFailure::AlreadyExists => String::from_str("Database ").concat(name).concat(
                " already exists and must be manually removed.",
            ),
            CreateFailure::Failed => String::from_str("Error while creating new database ").concat(
                name,
            ),
        }
    }
}

/// What came of the attempt to destroy a fixture's database.
#[derive(PartialEq, Eq, Structural, Clone, Copy, Debug)]
pub enum TeardownOutcome {
    /// The store removed the database.
    Removed,
    /// The store answered but removed nothing.
    NotRemoved,
    /// The store returned an error.
    Failed,
}

/// The outcome of a destroy call from the store's answer.
pub open spec fn teardown_outcome_of(r: Result<bool, CouchError>) -> TeardownOutcome {
    match r {
        Ok(true) => TeardownOutcome::Removed,
        Ok(false) => TeardownOutcome::NotRemoved,
        Err(_) => TeardownOutcome::Failed,
    }
}

/// Classifies the store's answer to a destroy call.
pub fn teardown_outcome(r: &Result<bool, CouchError>) -> (o: TeardownOutcome)
    ensures
        o == teardown_outcome_of(*r),
{
    match r {
        Ok(true) => TeardownOutcome::Removed,
        Ok(false) => TeardownOutcome::NotRemoved,
        Err(_) => TeardownOutcome::Failed,
    }
}

impl TeardownOutcome {
    /// Whether the outcome is reported as an error rather than as information.
    pub fn is_error(&self) -> (r: bool)
        ensures
            r == (*self == TeardownOutcome::Failed),
    {
        match self {
            TeardownOutcome::Failed => true,
            _ => false,
        }
    }

    /// A human-readable account of the outcome for the database `name`.
    pub fn message(&self, name: &str) -> (r: String)
        ensures
            r@ == match *self {
                TeardownOutcome::Removed => "Cleaned up database "@ + name@,
                TeardownOutcome::NotRemoved => "Failed to clean up database "@ + name@,
                TeardownOutcome::Failed => "Error while cleaning up "@ + name@,
            },
    {
        proof {
            reveal_strlit("Cleaned up database ");
            reveal_strlit("Failed to clean up database ");
            reveal_strlit("Error while cleaning up ");
        }
        match self {
            TeardownOutcome::Removed => String::from_str("Cleaned up database ").concat(name),
            TeardownOutcome::NotRemoved => String::from_str("Failed to clean up database ").concat(
                name,
            ),
            TeardownOutcome::Failed => String::from_str("Error while cleaning up ").concat(name),
        }
    }
}

} // verus!
