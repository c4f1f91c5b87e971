//! Process configuration of the server, as its environment and its file state it.
pub mod conduct;

use crate::paths;
use crate::text;
use vstd::prelude::*;
use vstd::string::*;

verus! {

pub const DEFAULT_LISTEN: &'static str = "127.0.0.1:50051";

pub const DEFAULT_DATABASE: &'static str = "alloyport-control.sqlite3";

pub const DEFAULT_ARTIFACT_ROOT: &'static str = "alloyport-artifacts";

/// The identity database, below the artifact root.
pub const IDENTITY_DATABASE: &'static str = "identities.sqlite3";

pub const DEFAULT_MAX_ARTIFACT_BYTES: u64 = 8589934592;

pub const DEFAULT_MAX_UPLOAD_CHUNK_BYTES: u64 = 1048576;

pub const DEFAULT_TOTAL_ARTIFACT_QUOTA_BYTES: u64 = 68719476736;

pub const DEFAULT_OWNER_ARTIFACT_QUOTA_BYTES: u64 = 17179869184;

pub const DEFAULT_SHUTDOWN_TIMEOUT_SECONDS: u64 = 10;

/// One variable of the environment, or the number that a configuration file has in its place.
#[derive(Debug, PartialEq, Eq)]
pub enum Variable {
    Absent,
    Text(String),
    /// It is there and is no text; why, in words.
    Unreadable(String),
    Number(u64),
}

/// Where a file or a directory lies: where the environment says, else where the configuration file
/// says, relative to itself, else at a default place, which may lie below the artifact root.
#[derive(Clone, Copy, Debug, PartialEq, Eq, Structural)]
pub enum Place {
    Given,
    File,
    Default,
    BelowArtifactRoot,
}

/// What the environment says. Of paths it counts only whether they are given.
#[derive(Debug, PartialEq, Eq)]
pub struct Environment {
    /// Whether the listening address is a loopback address, or why it is no address; none where the
    /// environment names none.
    pub listen: Option<Result<bool, String>>,
    pub tls_certificate: bool,
    pub tls_private_key: bool,
    pub tls_client_ca: bool,
    pub artifact_root: bool,
    pub database: bool,
    pub identity_database: bool,
    pub max_chunk_bytes: Variable,
    pub max_artifact_bytes: Variable,
    pub total_quota_bytes: Variable,
    pub per_owner_quota_bytes: Variable,
    pub shutdown_timeout_seconds: Variable,
}

/// What a configuration file says. Of paths it counts only whether they are given.
#[derive(Debug, PartialEq, Eq)]
pub struct ServerFile {
    pub schema_version: u16,
    pub listen: Option<Result<bool, String>>,
    /// The file has the three TLS files.
    pub tls: bool,
    pub artifact_root: bool,
    pub database: bool,
    pub identity_database: bool,
    pub max_chunk_bytes: Option<u64>,
    pub max_artifact_bytes: Option<u64>,
    pub total_quota_bytes: Option<u64>,
    pub per_owner_quota_bytes: Option<u64>,
    pub shutdown_timeout_seconds: Option<u64>,
}

pub const SERVER_CONFIG_SCHEMA: u16 = 1;

/// The settings of the server.
#[derive(Clone, Copy, Debug, PartialEq, Eq, Structural)]
pub struct ServerConfig {
    pub has_tls: bool,
    pub database: Place,
    pub artifact_root: Place,
    pub identity_database: Place,
    pub max_artifact_bytes: u64,
    pub max_chunk_bytes: usize,
    pub total_quota_bytes: u64,
    pub per_owner_quota_bytes: u64,
    pub shutdown_timeout_seconds: u64,
}

/// Why a text is no number.
pub open spec fn number_problem(s: Seq<char>) -> Seq<char> {
    if s.len() == 0 {
        "cannot parse integer from empty string"@
    } else if text::unsigned(s).len() == 0 || !text::all_digits(text::unsigned(s)) {
        "invalid digit found in string"@
    } else {
        "number too large to fit in target type"@
    }
}

/// A variable that must be a positive number.
pub open spec fn positive(name: Seq<char>, variable: Variable, default: u64) -> Result<
    u64,
    Seq<char>,
> {
    let value = match variable {
        Variable::Absent => Ok(default),
        Variable::Unreadable(e) => Err(e@),
        Variable::Number(n) => Ok(n),
        Variable::Text(s) => match text::parsed(s@) {
            Some(n) => Ok(n),
            None => Err(number_problem(s@)),
        },
    };
    match value {
        Err(e) => Err(e),
        Ok(n) => if n == 0 {
            Err(name + " must be greater than zero"@)
        } else {
            Ok(n)
        },
    }
}

pub open spec fn plain<T>(r: Result<T, String>) -> Result<T, Seq<char>> {
    match r {
        Ok(value) => Ok(value),
        Err(e) => Err(e@),
    }
}

fn explain_number(s: &str) -> (r: String)
    ensures
        r@ == number_problem(s@),
{
    let chars = text::chars_of(s);
    if chars.len() == 0 {
        return "cannot parse integer from empty string".to_owned();
    }
    let start: usize = if chars[0] == '+' {
        1
    } else {
        0
    };
    let ghost digits = text::unsigned(s@);
    assert(digits =~= s@.skip(start as int));
    if start >= chars.len() {
        return "invalid digit found in string".to_owned();
    }
    let mut k: usize = start;
    while k < chars.len()
        invariant
            start <= k <= chars@.len(),
            chars@ == s@,
            s@.len() > 0,
            digits == text::unsigned(s@),
            digits == s@.skip(start as int),
            forall|i: int| 0 <= i < k - start ==> '0' <= #[trigger] digits[i] <= '9',
        decreases chars@.len() - k,
    {
        assert(digits[k - start] == chars@[k as int]);
        if chars[k] < '0' || chars[k] > '9' {
            return "invalid digit found in string".to_owned();
        }
        k += 1;
    }
    "number too large to fit in target type".to_owned()
}

/// Reads a variable that must be a positive number.
pub fn positive_environment_u64(name: &str, variable: &Variable, default: u64) -> (r: Result<
    u64,
    String,
>)
    ensures
        plain(r) == positive(name@, *variable, default),
{
    let value: u64 = match variable {
        Variable::Absent => default,
        Variable::Unreadable(error) => {
            return Err(error.clone());
        },
        Variable::Number(n) => *n,
        Variable::Text(s) => match text::parse_u64(s.as_str()) {
            Some(n) => n,
            None => {
                return Err(explain_number(s.as_str()));
            },
        },
    };
    if value == 0 {
        return Err(text::concat(name, " must be greater than zero"));
    }
    Ok(value)
}

/// Whether the server has TLS: its three files are given together or not at all.
pub open spec fn tls(certificate: bool, private_key: bool, client_ca: bool) -> Result<
    bool,
    Seq<char>,
> {
    if !certificate && !private_key && !client_ca {
        Ok(false)
    } else if certificate && private_key && client_ca {
        Ok(true)
    } else {
        Err(
            "ALLOYPORT_TLS_CERT, ALLOYPORT_TLS_KEY and ALLOYPORT_TLS_CLIENT_CA must be set together"@,
        )
    }
}

pub fn tls_paths_from_environment(certificate: bool, private_key: bool, client_ca: bool) -> (r:
    Result<bool, String>)
    ensures
        plain(r) == tls(certificate, private_key, client_ca),
{
    if !certificate && !private_key && !client_ca {
        Ok(false)
    } else if certificate && private_key && client_ca {
        Ok(true)
    } else {
        Err(
            "ALLOYPORT_TLS_CERT, ALLOYPORT_TLS_KEY and ALLOYPORT_TLS_CLIENT_CA must be set together".to_owned(),
        )
    }
}

/// Whether the server listens on a loopback address, which the default address is.
pub open spec fn listening(listen: Option<Result<bool, String>>) -> Result<bool, Seq<char>> {
    match listen {
        Some(Ok(loopback)) => Ok(loopback),
        Some(Err(e)) => Err(e@),
        None => Ok(true),
    }
}

/// The settings that an environment states, or the first thing that is wrong with it.
pub open spec fn configured(environment: Environment) -> Result<ServerConfig, Seq<char>> {
    match listening(environment.listen) {
        Err(e) => Err(e),
        Ok(loopback) => match tls(
            environment.tls_certificate,
            environment.tls_private_key,
            environment.tls_client_ca,
        ) {
            Err(e) => Err(e),
            Ok(has_tls) => if !has_tls && !loopback {
                Err("plaintext worker control is restricted to loopback"@)
            } else {
                bounded(environment, has_tls)
            },
        },
    }
}

/// The bounds that an environment states.
pub open spec fn bounded(environment: Environment, has_tls: bool) -> Result<
    ServerConfig,
    Seq<char>,
> {
    match positive(
        "ALLOYPORT_ARTIFACT_MAX_CHUNK_BYTES"@,
        environment.max_chunk_bytes,
        DEFAULT_MAX_UPLOAD_CHUNK_BYTES,
    ) {
        Err(e) => Err(e),
        Ok(chunk) => if chunk > usize::MAX {
            Err("ALLOYPORT_ARTIFACT_MAX_CHUNK_BYTES exceeds this platform's usize"@)
        } else {
            match positive(
                "ALLOYPORT_ARTIFACT_MAX_BYTES"@,
                environment.max_artifact_bytes,
                DEFAULT_MAX_ARTIFACT_BYTES,
            ) {
                Err(e) => Err(e),
                Ok(max_artifact_bytes) => match positive(
                    "ALLOYPORT_ARTIFACT_TOTAL_QUOTA_BYTES"@,
                    environment.total_quota_bytes,
                    DEFAULT_TOTAL_ARTIFACT_QUOTA_BYTES,
                ) {
                    Err(e) => Err(e),
                    Ok(total_quota_bytes) => match positive(
                        "ALLOYPORT_ARTIFACT_OWNER_QUOTA_BYTES"@,
                        environment.per_owner_quota_bytes,
                        DEFAULT_OWNER_ARTIFACT_QUOTA_BYTES,
                    ) {
                        Err(e) => Err(e),
                        Ok(per_owner_quota_bytes) => match positive(
                            "ALLOYPORT_SHUTDOWN_TIMEOUT_SECONDS"@,
                            environment.shutdown_timeout_seconds,
                            DEFAULT_SHUTDOWN_TIMEOUT_SECONDS,
                        ) {
                            Err(e) => Err(e),
                            Ok(shutdown_timeout_seconds) => Ok(
                                ServerConfig {
                                    has_tls,
                                    database: place(environment.database),
                                    artifact_root: place(environment.artifact_root),
                                    identity_database: if environment.identity_database {
                                        Place::Given
                                    } else {
                                        Place::BelowArtifactRoot
                                    },
                                    max_artifact_bytes,
                                    max_chunk_bytes: chunk as usize,
                                    total_quota_bytes,
                                    per_owner_quota_bytes,
                                    shutdown_timeout_seconds,
                                },
                            ),
                        },
                    },
                },
            }
        },
    }
}

pub open spec fn place(given: bool) -> Place {
    if given {
        Place::Given
    } else {
        Place::Default
    }
}

fn place_of(given: bool) -> (r: Place)
    ensures
        r == place(given),
{
    if given {
        Place::Given
    } else {
        Place::Default
    }
}

impl ServerConfig {
    /// The settings that an environment states.
    pub fn from_environment(environment: &Environment) -> (r: Result<Self, String>)
        ensures
            plain(r) == configured(*environment),
    {
        let loopback = match &environment.listen {
            Some(Ok(loopback)) => *loopback,
            Some(Err(error)) => {
                return Err(error.clone());
            },
            None => true,
        };
        let has_tls = tls_paths_from_environment(
            environment.tls_certificate,
            environment.tls_private_key,
            environment.tls_client_ca,
        )?;
        if !has_tls && !loopback {
            return Err("plaintext worker control is restricted to loopback".to_owned());
        }
        let chunk = positive_environment_u64(
            "ALLOYPORT_ARTIFACT_MAX_CHUNK_BYTES",
            &environment.max_chunk_bytes,
            DEFAULT_MAX_UPLOAD_CHUNK_BYTES,
        )?;
        if chunk > usize::MAX as u64 {
            return Err(
                "ALLOYPORT_ARTIFACT_MAX_CHUNK_BYTES exceeds this platform's usize".to_owned(),
            );
        }
        let max_artifact_bytes = positive_environment_u64(
            "ALLOYPORT_ARTIFACT_MAX_BYTES",
            &environment.max_artifact_bytes,
            DEFAULT_MAX_ARTIFACT_BYTES,
        )?;
        let total_quota_bytes = positive_environment_u64(
            "ALLOYPORT_ARTIFACT_TOTAL_QUOTA_BYTES",
            &environment.total_quota_bytes,
            DEFAULT_TOTAL_ARTIFACT_QUOTA_BYTES,
        )?;
        let per_owner_quota_bytes = positive_environment_u64(
            "ALLOYPORT_ARTIFACT_OWNER_QUOTA_BYTES",
            &environment.per_owner_quota_bytes,
            DEFAULT_OWNER_ARTIFACT_QUOTA_BYTES,
        )?;
        let shutdown_timeout_seconds = positive_environment_u64(
            "ALLOYPORT_SHUTDOWN_TIMEOUT_SECONDS",
            &environment.shutdown_timeout_seconds,
            DEFAULT_SHUTDOWN_TIMEOUT_SECONDS,
        )?;
        Ok(
            ServerConfig {
                has_tls,
                database: place_of(environment.database),
                artifact_root: place_of(environment.artifact_root),
                identity_database: if environment.identity_database {
                    Place::Given
                } else {
                    Place::BelowArtifactRoot
                },
                max_artifact_bytes,
                max_chunk_bytes: chunk as usize,
                total_quota_bytes,
                per_owner_quota_bytes,
                shutdown_timeout_seconds,
            },
        )
    }
}

/// A variable, or what the file has where the environment has none.
pub open spec fn preferred(variable: Variable, in_file: Option<u64>) -> Variable {
    match (variable, in_file) {
        (Variable::Absent, Some(n)) => Variable::Number(n),
        _ => variable,
    }
}

fn prefer(variable: &Variable, in_file: Option<u64>) -> (r: Variable)
    ensures
        r == preferred(*variable, in_file),
{
    match variable {
        Variable::Absent => match in_file {
            Some(n) => Variable::Number(n),
            None => Variable::Absent,
        },
        Variable::Text(s) => Variable::Text(s.clone()),
        Variable::Unreadable(e) => Variable::Unreadable(e.clone()),
        Variable::Number(n) => Variable::Number(*n),
    }
}

/// The environment, with what the file says wherever the environment says nothing.
pub open spec fn overlaid(environment: Environment, file: ServerFile) -> Environment {
    Environment {
        listen: if environment.listen is Some {
            environment.listen
        } else {
            file.listen
        },
        tls_certificate: environment.tls_certificate || file.tls,
        tls_private_key: environment.tls_private_key || file.tls,
        tls_client_ca: environment.tls_client_ca || file.tls,
        artifact_root: environment.artifact_root || file.artifact_root,
        database: environment.database || file.database,
        identity_database: environment.identity_database || file.identity_database,
        max_chunk_bytes: preferred(environment.max_chunk_bytes, file.max_chunk_bytes),
        max_artifact_bytes: preferred(environment.max_artifact_bytes, file.max_artifact_bytes),
        total_quota_bytes: preferred(environment.total_quota_bytes, file.total_quota_bytes),
        per_owner_quota_bytes: preferred(
            environment.per_owner_quota_bytes,
            file.per_owner_quota_bytes,
        ),
        shutdown_timeout_seconds: preferred(
            environment.shutdown_timeout_seconds,
            file.shutdown_timeout_seconds,
        ),
    }
}

fn copy_listen(listen: &Option<Result<bool, String>>) -> (r: Option<Result<bool, String>>)
    ensures
        r == *listen,
{
    match listen {
        Some(Ok(loopback)) => Some(Ok(*loopback)),
        Some(Err(e)) => Some(Err(e.clone())),
        None => None,
    }
}

fn overlay(environment: &Environment, file: &ServerFile) -> (r: Environment)
    ensures
        r == overlaid(*environment, *file),
{
    Environment {
        listen: if environment.listen.is_some() {
            copy_listen(&environment.listen)
        } else {
            copy_listen(&file.listen)
        },
        tls_certificate: environment.tls_certificate || file.tls,
        tls_private_key: environment.tls_private_key || file.tls,
        tls_client_ca: environment.tls_client_ca || file.tls,
        artifact_root: environment.artifact_root || file.artifact_root,
        database: environment.database || file.database,
        identity_database: environment.identity_database || file.identity_database,
        max_chunk_bytes: prefer(&environment.max_chunk_bytes, file.max_chunk_bytes),
        max_artifact_bytes: prefer(&environment.max_artifact_bytes, file.max_artifact_bytes),
        total_quota_bytes: prefer(&environment.total_quota_bytes, file.total_quota_bytes),
        per_owner_quota_bytes: prefer(
            &environment.per_owner_quota_bytes,
            file.per_owner_quota_bytes,
        ),
        shutdown_timeout_seconds: prefer(
            &environment.shutdown_timeout_seconds,
            file.shutdown_timeout_seconds,
        ),
    }
}

/// Where something lies that the environment or the file may give.
pub open spec fn located(in_environment: bool, in_file: bool, otherwise: Place) -> Place {
    if in_environment {
        Place::Given
    } else if in_file {
        Place::File
    } else {
        otherwise
    }
}

fn locate(in_environment: bool, in_file: bool, otherwise: Place) -> (r: Place)
    ensures
        r == located(in_environment, in_file, otherwise),
{
    if in_environment {
        Place::Given
    } else if in_file {
        Place::File
    } else {
        otherwise
    }
}

/// The settings of an environment and a configuration file, or the first thing that is wrong.
pub open spec fn loaded(environment: Environment, file: Option<ServerFile>) -> Result<
    ServerConfig,
    Seq<char>,
> {
    match file {
        None => configured(environment),
        Some(f) => if f.schema_version != SERVER_CONFIG_SCHEMA {
            Err(
                "unsupported server config schema "@ + text::decimal(f.schema_version as nat)
                    + "; expected 1"@,
            )
        } else {
            match configured(overlaid(environment, f)) {
                Err(e) => Err(e),
                Ok(c) => Ok(
                    ServerConfig {
                        database: located(environment.database, f.database, Place::Default),
                        artifact_root: located(
                            environment.artifact_root,
                            f.artifact_root,
                            Place::Default,
                        ),
                        identity_database: located(
                            environment.identity_database,
                            f.identity_database,
                            Place::BelowArtifactRoot,
                        ),
                        ..c
                    },
                ),
            }
        },
    }
}

impl ServerConfig {
    /// The settings of an environment and, where there is one, a configuration file.
    pub fn load(environment: &Environment, file: &Option<ServerFile>) -> (r: Result<Self, String>)
        ensures
            plain(r) == loaded(*environment, *file),
    {
        let f = match file {
            None => {
                return Self::from_environment(environment);
            },
            Some(f) => f,
        };
        if f.schema_version != SERVER_CONFIG_SCHEMA {
            let mut out = "unsupported server config schema ".to_owned();
            text::push_decimal(&mut out, f.schema_version as u64);
            out.append("; expected 1");
            return Err(out);
        }
        let merged = overlay(environment, f);
        let settled = Self::from_environment(&merged)?;
        Ok(
            ServerConfig {
                has_tls: settled.has_tls,
                database: locate(environment.database, f.database, Place::Default),
                artifact_root: locate(environment.artifact_root, f.artifact_root, Place::Default),
                identity_database: locate(
                    environment.identity_database,
                    f.identity_database,
                    Place::BelowArtifactRoot,
                ),
                max_artifact_bytes: settled.max_artifact_bytes,
                max_chunk_bytes: settled.max_chunk_bytes,
                total_quota_bytes: settled.total_quota_bytes,
                per_owner_quota_bytes: settled.per_owner_quota_bytes,
                shutdown_timeout_seconds: settled.shutdown_timeout_seconds,
            },
        )
    }
}

/// The path at a place. `given` and `in_file` are what the environment and the file say, and count
/// only where the place is theirs.
pub open spec fn path_text(
    place: Place,
    given: Seq<char>,
    in_file: Seq<char>,
    default: Seq<char>,
    artifact_root: Seq<char>,
) -> Seq<char> {
    match place {
        Place::Given => given,
        Place::File => in_file,
        Place::Default => default,
        Place::BelowArtifactRoot => paths::joined(artifact_root, default),
    }
}

fn path_at(place: Place, given: &str, in_file: &str, default: &str, artifact_root: &str) -> (r:
    String)
    ensures
        r@ == path_text(place, given@, in_file@, default@, artifact_root@),
{
    match place {
        Place::Given => given.to_owned(),
        Place::File => in_file.to_owned(),
        Place::Default => default.to_owned(),
        Place::BelowArtifactRoot => paths::join(artifact_root, default),
    }
}

impl ServerConfig {
    /// Where the control database lies.
    pub fn database_path(&self, given: &str, in_file: &str) -> (r: String)
        ensures
            r@ == path_text(self.database, given@, in_file@, DEFAULT_DATABASE@, ""@),
    {
        path_at(self.database, given, in_file, DEFAULT_DATABASE, "")
    }

    /// Where artifacts are kept.
    pub fn artifact_root_path(&self, given: &str, in_file: &str) -> (r: String)
        ensures
            r@ == path_text(self.artifact_root, given@, in_file@, DEFAULT_ARTIFACT_ROOT@, ""@),
    {
        path_at(self.artifact_root, given, in_file, DEFAULT_ARTIFACT_ROOT, "")
    }

    /// Where the enrolled certificates are kept.
    pub fn identity_database_path(&self, given: &str, in_file: &str, artifact_root: &str) -> (r:
        String)
        ensures
            r@ == path_text(
                self.identity_database,
                given@,
                in_file@,
                IDENTITY_DATABASE@,
                artifact_root@,
            ),
    {
        path_at(self.identity_database, given, in_file, IDENTITY_DATABASE, artifact_root)
    }
}

/// The address that the server listens at: what the environment says, else the file, else the
/// default.
pub open spec fn listen_address(given: Option<Seq<char>>, in_file: Option<Seq<char>>) -> Seq<char> {
    match (given, in_file) {
        (Some(address), _) => address,
        (None, Some(address)) => address,
        (None, None) => DEFAULT_LISTEN@,
    }
}

pub fn listen_text(given: &Option<String>, in_file: &Option<String>) -> (r: String)
    ensures
        r@ == listen_address(text::optional(*given), text::optional(*in_file)),
{
    match (given, in_file) {
        (Some(address), _) => address.clone(),
        (None, Some(address)) => address.clone(),
        (None, None) => DEFAULT_LISTEN.to_owned(),
    }
}

/// Without a path in the environment or a file, every database and directory has its default name,
/// and the identities lie below the artifact root.
pub proof fn unnamed_places_are_the_defaults(
    environment: Environment,
    given: Seq<char>,
    in_file: Seq<char>,
)
    requires
        configured(environment) is Ok,
        !environment.database,
        !environment.artifact_root,
        !environment.identity_database,
    ensures
        ({
            let c = configured(environment)->Ok_0;
            let root = path_text(c.artifact_root, given, in_file, DEFAULT_ARTIFACT_ROOT@, ""@);
            &&& path_text(c.database, given, in_file, DEFAULT_DATABASE@, ""@)
                == "alloyport-control.sqlite3"@
            &&& root == "alloyport-artifacts"@
            &&& path_text(c.identity_database, given, in_file, IDENTITY_DATABASE@, root)
                == "alloyport-artifacts/identities.sqlite3"@
        }),
{
    reveal_strlit("alloyport-artifacts");
    reveal_strlit("/");
    reveal_strlit("identities.sqlite3");
    reveal_strlit("alloyport-artifacts/identities.sqlite3");
    assert(paths::joined("alloyport-artifacts"@, "identities.sqlite3"@)
        =~= "alloyport-artifacts/identities.sqlite3"@);
}

/// Which configuration file is read: the one that the command line names, else the one that the
/// environment names, else none.
#[derive(Clone, Copy, Debug, PartialEq, Eq, Structural)]
pub enum Locator {
    Argument,
    Environment,
    Nowhere,
}

pub open spec fn locator(argument: bool, in_environment: bool) -> Locator {
    if argument {
        Locator::Argument
    } else if in_environment {
        Locator::Environment
    } else {
        Locator::Nowhere
    }
}

pub fn config_locator(argument: bool, in_environment: bool) -> (r: Locator)
    ensures
        r == locator(argument, in_environment),
{
    if argument {
        Locator::Argument
    } else if in_environment {
        Locator::Environment
    } else {
        Locator::Nowhere
    }
}

/// A bound is what the environment says, where it says anything; else what the file says, where it
/// says anything; else the default.
pub open spec fn in_order(
    name: Seq<char>,
    variable: Variable,
    in_file: Option<u64>,
    default: u64,
    value: u64,
) -> bool {
    match (variable, in_file) {
        (Variable::Absent, Some(n)) => value == n,
        (Variable::Absent, None) => value == default,
        _ => positive(name, variable, default) == Ok::<u64, Seq<char>>(value),
    }
}

/// What the environment says counts before what the file says, and that before the defaults.
pub proof fn the_environment_comes_first(environment: Environment, file: ServerFile)
    requires
        loaded(environment, Some(file)) is Ok,
    ensures
        ({
            let c = loaded(environment, Some(file))->Ok_0;
            &&& environment.database ==> c.database == Place::Given
            &&& !environment.database && file.database ==> c.database == Place::File
            &&& environment.artifact_root ==> c.artifact_root == Place::Given
            &&& !environment.artifact_root && file.artifact_root ==> c.artifact_root == Place::File
            &&& environment.identity_database ==> c.identity_database == Place::Given
            &&& !environment.identity_database && file.identity_database ==> c.identity_database
                == Place::File
            &&& in_order(
                "ALLOYPORT_ARTIFACT_MAX_CHUNK_BYTES"@,
                environment.max_chunk_bytes,
                file.max_chunk_bytes,
                DEFAULT_MAX_UPLOAD_CHUNK_BYTES,
                c.max_chunk_bytes as u64,
            )
            &&& in_order(
                "ALLOYPORT_ARTIFACT_MAX_BYTES"@,
                environment.max_artifact_bytes,
                file.max_artifact_bytes,
                DEFAULT_MAX_ARTIFACT_BYTES,
                c.max_artifact_bytes,
            )
            &&& in_order(
                "ALLOYPORT_ARTIFACT_TOTAL_QUOTA_BYTES"@,
                environment.total_quota_bytes,
                file.total_quota_bytes,
                DEFAULT_TOTAL_ARTIFACT_QUOTA_BYTES,
                c.total_quota_bytes,
            )
            &&& in_order(
                "ALLOYPORT_ARTIFACT_OWNER_QUOTA_BYTES"@,
                environment.per_owner_quota_bytes,
                file.per_owner_quota_bytes,
                DEFAULT_OWNER_ARTIFACT_QUOTA_BYTES,
                c.per_owner_quota_bytes,
            )
            &&& in_order(
                "ALLOYPORT_SHUTDOWN_TIMEOUT_SECONDS"@,
                environment.shutdown_timeout_seconds,
                file.shutdown_timeout_seconds,
                DEFAULT_SHUTDOWN_TIMEOUT_SECONDS,
                c.shutdown_timeout_seconds,
            )
        }),
{
}

/// Nothing is served in plain text beyond the machine itself, whatever a file says.
pub proof fn loaded_plaintext_stays_on_the_machine(environment: Environment, file: ServerFile)
    requires
        loaded(environment, Some(file)) is Ok,
    ensures
        loaded(environment, Some(file))->Ok_0.has_tls || listening(
            overlaid(environment, file).listen,
        ) == Ok::<bool, Seq<char>>(true),
{
    plaintext_stays_on_the_machine(overlaid(environment, file));
}

/// Nothing is served in plain text beyond the machine itself.
pub proof fn plaintext_stays_on_the_machine(environment: Environment)
    requires
        configured(environment) is Ok,
    ensures
        configured(environment)->Ok_0.has_tls || listening(environment.listen) == Ok::<
            bool,
            Seq<char>,
        >(true),
{
}

/// No bound of a running server is zero.
pub proof fn bounds_are_positive(environment: Environment)
    requires
        configured(environment) is Ok,
    ensures
        ({
            let c = configured(environment)->Ok_0;
            &&& c.max_artifact_bytes > 0
            &&& c.max_chunk_bytes > 0
            &&& c.total_quota_bytes > 0
            &&& c.per_owner_quota_bytes > 0
            &&& c.shutdown_timeout_seconds > 0
        }),
{
}

} // verus!
