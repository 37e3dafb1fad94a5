//! Application settings and the choice of the runtime environment.
use vstd::prelude::*;
use vstd::utf8::is_ascii_chars;
use vstd::std_specs::convert::TryFromSpecImpl;
use crate::text::{ascii_lower, ascii_upper, lemma_ascii_case_images, to_lowercase, unicode_lower, same_chars};

verus! {

/// All settings of the service.
pub struct Settings {
    pub service: Service,
    pub database: Database,
}

/// Where the HTTP service listens.
pub struct Service {
    pub host: String,
}

/// How to reach the Postgres database.
pub struct Database {
    pub username: String,
    pub password: String,
    pub host: String,
    pub port: u16,
    pub database_name: String,
}

/// The parameters of a Postgres connection, as plain values. `PgConnectOptions::new`
/// reads the `PG*` environment variables and the password file on disk, so the
/// server side turns these values into `sqlx` options when it connects.
pub struct ConnectOptions {
    pub username: String,
    pub password: String,
    pub host: String,
    pub port: u16,
    /// The database to open; `None` leaves the server's default.
    pub database: Option<String>,
}

impl Database {
    /// Connection options for the configured database: those of `without_db`,
    /// with the configured database name chosen.
    pub fn with_db(&self) -> (r: ConnectOptions)
        ensures
            r.username@ == self.username@,
            r.password@ == self.password@,
            r.host@ == self.host@,
            r.port == self.port,
            r.database matches Some(d) && d@ == self.database_name@,
    {
        let mut options = self.without_db();
        options.database = Some(self.database_name.clone());
        options
    }

    /// Connection options for the Postgres server: the configured user, password,
    /// host and port, without choosing a database.
    pub fn without_db(&self) -> (r: ConnectOptions)
        ensures
            r.username@ == self.username@,
            r.password@ == self.password@,
            r.host@ == self.host@,
            r.port == self.port,
            r.database is None,
    {
        ConnectOptions {
            username: self.username.clone(),
            password: self.password.clone(),
            host: self.host.clone(),
            port: self.port,
            database: None,
        }
    }
}

/// The environment the service runs in; it selects the configuration file.
#[derive(Clone, Copy, Debug, PartialEq, Eq, Structural)]
pub enum Environment {
    Local,
    Prod,
}

/// The name under which an environment is written.
pub open spec fn environment_name(e: Environment) -> Seq<char> {
    match e {
        Environment::Local => "local"@,
        Environment::Prod => "prod"@,
    }
}

/// The environment written by an already lowercased name, or the error text
/// that names it.
pub open spec fn environment_from_lowercase(lower: Seq<char>) -> Result<Environment, Seq<char>> {
    if lower == "local"@ {
        Ok(Environment::Local)
    } else if lower == "prod"@ {
        Ok(Environment::Prod)
    } else {
        Err(lower + " is not supported environment"@)
    }
}

impl Environment {
    /// The name of the environment.
    pub fn as_str(&self) -> (r: &'static str)
        ensures
            r@ == environment_name(*self),
    {
        match self {
            Environment::Local => "local",
            Environment::Prod => "prod",
        }
    }
}


impl Environment {
    /// The environment written by a name that is already lowercase.
    pub fn from_lowercase(lower: String) -> (r: Result<Environment, String>)
        ensures
            match (r, environment_from_lowercase(lower@)) {
                (Ok(e), Ok(f)) => e == f,
                (Err(m), Err(n)) => m@ == n,
                _ => false,
            },
    {
        proof {
            reveal_strlit("local");
            reveal_strlit("prod");
        }
        if same_chars(lower.as_str(), "local") {
            Ok(Environment::Local)
        } else if same_chars(lower.as_str(), "prod") {
            Ok(Environment::Prod)
        } else {
            Err(lower.concat(" is not supported environment"))
        }
    }
}

impl TryFrom<String> for Environment {
    type Error = String;

    /// Reads an environment name, ignoring case: the name is lowercased first.
    fn try_from(s: String) -> (r: Result<Environment, String>)
        ensures
            match (r, environment_from_lowercase(unicode_lower(s@))) {
                (Ok(e), Ok(f)) => e == f,
                (Err(m), Err(n)) => m@ == n,
                _ => false,
            },
            is_ascii_chars(s@) ==> match (r, environment_from_lowercase(ascii_lower(s@))) {
                (Ok(e), Ok(f)) => e == f,
                (Err(m), Err(n)) => m@ == n,
                _ => false,
            },
    {
        let lower = to_lowercase(s.as_str());
        Environment::from_lowercase(lower)
    }
}

/// The trait-level reading of a name. A `String` is known here only through its
/// view, so no claim is made at the level of the trait (`obeys_try_from_spec` is
/// `false`); the impl's own `ensures` above state the result.
impl TryFromSpecImpl<String> for Environment {
    open spec fn obeys_try_from_spec() -> bool {
        false
    }

    open spec fn try_from_spec(v: String) -> Result<Environment, String> {
        match environment_from_lowercase(unicode_lower(v@)) {
            Ok(e) => Ok(e),
            Err(msg) => Err(choose|m: String| m@ == msg),
        }
    }
}


/// The environment the service runs in, from the value of its environment
/// variable: `local` where the variable is unset, else the value read as a name.
pub fn app_environment(var: Option<String>) -> (r: Result<Environment, String>)
    ensures
        var is None ==> r == Ok::<Environment, String>(Environment::Local),
        var matches Some(s) ==> match (r, environment_from_lowercase(unicode_lower(s@))) {
            (Ok(e), Ok(f)) => e == f,
            (Err(m), Err(n)) => m@ == n,
            _ => false,
        },
        var matches Some(s) ==> (is_ascii_chars(s@) ==> match (
            r,
            environment_from_lowercase(ascii_lower(s@)),
        ) {
            (Ok(e), Ok(f)) => e == f,
            (Err(m), Err(n)) => m@ == n,
            _ => false,
        }),
{
    match var {
        Some(s) => Environment::try_from(s),
        None => {
            let name = String::from_str("local");
            proof {
                reveal_strlit("local");
                lemma_name_roundtrip(Environment::Local);
                assert(is_ascii_chars(name@));
            }
            Environment::try_from(name)
        },
    }
}

/// The configuration files to read, in order: the shared `base.toml`, then the
/// file of the environment, whose values take precedence.
pub fn config_sources(env: Environment) -> (r: Vec<String>)
    ensures
        r@.len() == 2,
        r@[0]@ == "base.toml"@,
        r@[1]@ == environment_name(env) + ".toml"@,
{
    let mut files: Vec<String> = Vec::new();
    files.push(String::from_str("base.toml"));
    files.push(String::from_str(env.as_str()).concat(".toml"));
    files
}

/// Only the two names are read: a lowercase name gives `Local` exactly when it is
/// `local`, `Prod` exactly when it is `prod`, and any other name is refused with
/// the message that quotes it.
pub proof fn lemma_environment_names_only(lower: Seq<char>)
    ensures
        environment_from_lowercase(lower) == Ok::<Environment, Seq<char>>(Environment::Local)
            <==> lower == "local"@,
        environment_from_lowercase(lower) == Ok::<Environment, Seq<char>>(Environment::Prod)
            <==> lower == "prod"@,
        lower != "local"@ && lower != "prod"@ ==> environment_from_lowercase(lower) == Err::<
            Environment,
            Seq<char>,
        >(lower + " is not supported environment"@),
        environment_from_lowercase(lower) matches Ok(e) ==> lower == environment_name(e),
{
    reveal_strlit("local");
    reveal_strlit("prod");
    assert("local"@ != "prod"@) by {
        assert("local"@.len() != "prod"@.len());
    }
}

/// Reading an ASCII name does not depend on its case: the name, its uppercase image
/// and its lowercase image are all ASCII and read as the same environment, or are
/// refused with the same message (`Environment::try_from` reads an ASCII name
/// through `ascii_lower`).
pub proof fn lemma_environment_ignores_ascii_case(s: Seq<char>)
    requires
        is_ascii_chars(s),
    ensures
        is_ascii_chars(ascii_upper(s)),
        is_ascii_chars(ascii_lower(s)),
        environment_from_lowercase(ascii_lower(ascii_upper(s))) == environment_from_lowercase(ascii_lower(s)),
        environment_from_lowercase(ascii_lower(ascii_lower(s))) == environment_from_lowercase(ascii_lower(s)),
{
    lemma_ascii_case_images(s);
}

/// Writing an environment's name and reading it back gives the same environment;
/// the name is plain ASCII, so the lowercase mapping leaves it unchanged.
pub proof fn lemma_name_roundtrip(e: Environment)
    ensures
        is_ascii_chars(environment_name(e)),
        ascii_lower(environment_name(e)) == environment_name(e),
        environment_from_lowercase(ascii_lower(environment_name(e))) == Ok::<Environment, Seq<char>>(e),
{
    reveal_strlit("local");
    reveal_strlit("prod");
    let n = environment_name(e);
    assert(ascii_lower(n) =~= n);
}

} // verus!
