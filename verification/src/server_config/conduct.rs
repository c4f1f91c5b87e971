//! Which configuration the server runs with, told from its environment and its file.
use crate::paths;
use crate::server_config;
use crate::server_config::{Environment, Place, ServerFile, Variable};
use crate::text;
use vstd::prelude::*;
use vstd::string::*;

verus! {

/// A variable that is not there has the default, one that spells a number has the number, and zero
/// is refused wherever it comes from.
pub proof fn numbers_are_positive(name: Seq<char>, variable: Variable, default: u64)
    ensures
        server_config::positive(name, variable, default) matches Ok(n) ==> n > 0 && match variable {
            Variable::Absent => n == default,
            Variable::Number(given) => n == given,
            Variable::Text(s) => text::parsed(s@) == Some(n),
            Variable::Unreadable(_) => false,
        },
        server_config::positive(name, variable, default) is Ok <==> match variable {
            Variable::Absent => default > 0,
            Variable::Number(given) => given > 0,
            Variable::Text(s) => text::parsed(s@) is Some && text::parsed(s@)->0 > 0,
            Variable::Unreadable(_) => false,
        },
        variable matches Variable::Unreadable(e) ==> server_config::positive(
            name,
            variable,
            default,
        ) == Err::<u64, Seq<char>>(e@),
        variable == Variable::Number(0) ==> server_config::positive(name, variable, default)
            == Err::<u64, Seq<char>>(name + " must be greater than zero"@),
{
}

/// A text that spells no number is refused with what is wrong with it.
pub proof fn bad_numbers_are_explained(s: Seq<char>)
    requires
        text::parsed(s) is None,
    ensures
        server_config::number_problem(s) == if s.len() == 0 {
            "cannot parse integer from empty string"@
        } else if (s == seq!['+'] || exists|i: int|
            (if s[0] == '+' {
                1int
            } else {
                0int
            }) <= i < s.len() && !('0' <= #[trigger] s[i] <= '9')) {
            "invalid digit found in string"@
        } else {
            "number too large to fit in target type"@
        },
{
    if s.len() > 0 {
        let digits = text::unsigned(s);
        let first = if s[0] == '+' {
            1int
        } else {
            0int
        };
        assert(forall|i: int| 0 <= i < digits.len() ==> #[trigger] digits[i] == s[i + first]);
        if digits.len() == 0 {
            assert(s =~= seq!['+']);
        }
        if s == seq!['+'] {
            assert(digits.len() == 0);
        }
        if exists|i: int| first <= i < s.len() && !('0' <= #[trigger] s[i] <= '9') {
            let i = choose|i: int| first <= i < s.len() && !('0' <= #[trigger] s[i] <= '9');
            assert(digits[i - first] == s[i]);
            assert(!text::all_digits(digits));
        } else if digits.len() > 0 {
            assert(text::all_digits(digits));
        }
    }
}

/// Transport security is on with all three of its files, off with none, and refused with some.
pub proof fn all_or_no_tls_files(certificate: bool, private_key: bool, client_ca: bool)
    ensures
        ({
            let r = server_config::tls(certificate, private_key, client_ca);
            &&& r == Ok::<bool, Seq<char>>(true) <==> certificate && private_key && client_ca
            &&& r == Ok::<bool, Seq<char>>(false) <==> !certificate && !private_key && !client_ca
            &&& r is Err <==> (certificate || private_key || client_ca) && !(certificate
                && private_key && client_ca)
        }),
{
}

/// The server starts exactly when it listens somewhere it may, its files of transport security go
/// together, and every number is there and above zero.
pub proof fn configurations_are_accepted(environment: Environment)
    ensures
        ({
            let some_tls = environment.tls_certificate || environment.tls_private_key
                || environment.tls_client_ca;
            let all_tls = environment.tls_certificate && environment.tls_private_key
                && environment.tls_client_ca;
            let r = server_config::configured(environment);
            &&& environment.listen matches Some(Err(_)) ==> r is Err
            &&& some_tls && !all_tls ==> r is Err
            &&& !some_tls && environment.listen == Some(Ok::<bool, String>(false)) ==> r is Err
            &&& r matches Ok(c) ==> c.has_tls == all_tls
        }),
{
}

/// With nothing set the server has the default bounds, the default places and no transport security.
pub proof fn bare_environments_have_the_defaults(environment: Environment)
    requires
        environment.listen is None,
        !environment.tls_certificate,
        !environment.tls_private_key,
        !environment.tls_client_ca,
        !environment.artifact_root,
        !environment.database,
        !environment.identity_database,
        environment.max_chunk_bytes == Variable::Absent,
        environment.max_artifact_bytes == Variable::Absent,
        environment.total_quota_bytes == Variable::Absent,
        environment.per_owner_quota_bytes == Variable::Absent,
        environment.shutdown_timeout_seconds == Variable::Absent,
    ensures
        server_config::configured(environment) matches Ok(c) && {
            &&& !c.has_tls
            &&& c.database == Place::Default
            &&& c.artifact_root == Place::Default
            &&& c.identity_database == Place::BelowArtifactRoot
            &&& c.max_artifact_bytes == 8 * 1024 * 1024 * 1024
            &&& c.max_chunk_bytes == 1024 * 1024
            &&& c.total_quota_bytes == 64 * 1024 * 1024 * 1024
            &&& c.per_owner_quota_bytes == 16 * 1024 * 1024 * 1024
            &&& c.shutdown_timeout_seconds == 10
        },
{
}

/// A number that is given is the one used.
pub proof fn given_numbers_are_used(environment: Environment, n: u64)
    requires
        server_config::configured(environment) is Ok,
    ensures
        ({
            let c = server_config::configured(environment)->Ok_0;
            &&& environment.max_chunk_bytes == Variable::Number(n) ==> c.max_chunk_bytes == n
            &&& environment.max_artifact_bytes == Variable::Number(n) ==> c.max_artifact_bytes == n
            &&& environment.total_quota_bytes == Variable::Number(n) ==> c.total_quota_bytes == n
            &&& environment.per_owner_quota_bytes == Variable::Number(n)
                ==> c.per_owner_quota_bytes == n
            &&& environment.shutdown_timeout_seconds == Variable::Number(n)
                ==> c.shutdown_timeout_seconds == n
            &&& environment.database ==> c.database == Place::Given
            &&& environment.artifact_root ==> c.artifact_root == Place::Given
            &&& environment.identity_database ==> c.identity_database == Place::Given
        }),
{
}

/// A file of another schema than the first is refused, and one with nothing in it changes nothing.
pub proof fn files_are_overlaid(environment: Environment, file: ServerFile)
    ensures
        file.schema_version != 1 ==> server_config::loaded(environment, Some(file)) is Err,
        server_config::loaded(environment, None) == server_config::configured(environment),
        file.schema_version == 1 && file.listen is None && !file.tls && !file.artifact_root
            && !file.database && !file.identity_database && file.max_chunk_bytes is None
            && file.max_artifact_bytes is None && file.total_quota_bytes is None
            && file.per_owner_quota_bytes is None && file.shutdown_timeout_seconds is None
            ==> server_config::loaded(environment, Some(file)) == server_config::configured(
            environment,
        ),
{
}

/// Where the environment is silent the file's address counts, and its files of transport security
/// come all together.
pub proof fn files_fill_the_gaps(environment: Environment, file: ServerFile)
    requires
        file.schema_version == 1,
        !environment.tls_certificate,
        !environment.tls_private_key,
        !environment.tls_client_ca,
    ensures
        server_config::loaded(environment, Some(file)) matches Ok(c) ==> c.has_tls == file.tls,
        !file.tls && environment.listen is None && file.listen == Some(Ok::<bool, String>(false))
            ==> server_config::loaded(environment, Some(file)) is Err,
        !file.tls && environment.listen == Some(Ok::<bool, String>(false))
            ==> server_config::loaded(environment, Some(file)) is Err,
{
}

/// A path is the one of its place; a default below the artifact root is joined to it.
pub proof fn paths_follow_their_place(
    given: Seq<char>,
    in_file: Seq<char>,
    default: Seq<char>,
    root: Seq<char>,
)
    ensures
        server_config::path_text(Place::Given, given, in_file, default, root) == given,
        server_config::path_text(Place::File, given, in_file, default, root) == in_file,
        server_config::path_text(Place::Default, given, in_file, default, root) == default,
        server_config::path_text(Place::BelowArtifactRoot, given, in_file, default, root)
            == paths::joined(root, default),
{
}

/// The address is the one given, or the one in the file, or that of the machine itself.
pub proof fn addresses_come_in_order(given: Seq<char>, in_file: Seq<char>)
    ensures
        server_config::listen_address(Some(given), Some(in_file)) == given,
        server_config::listen_address(Some(given), None) == given,
        server_config::listen_address(None, Some(in_file)) == in_file,
        server_config::listen_address(None, None) == "127.0.0.1:50051"@,
{
}

/// The file is found through the argument first, and through the environment where there is none.
pub proof fn arguments_come_first(argument: bool, in_environment: bool)
    ensures
        server_config::locator(argument, in_environment) is Argument <==> argument,
        server_config::locator(argument, in_environment) is Environment <==> !argument
            && in_environment,
        server_config::locator(argument, in_environment) is Nowhere <==> !argument
            && !in_environment,
{
}

/// Where the address and the files of transport security are in order, the server starts exactly
/// when its five numbers are, and a chunk fits in memory.
pub proof fn ordered_servers_start(environment: Environment)
    requires
        environment.listen is None || environment.listen == Some(Ok::<bool, String>(true)),
        environment.tls_certificate == environment.tls_private_key,
        environment.tls_certificate == environment.tls_client_ca,
    ensures
        ({
            let chunk = server_config::positive(
                "ALLOYPORT_ARTIFACT_MAX_CHUNK_BYTES"@,
                environment.max_chunk_bytes,
                1048576,
            );
            server_config::configured(environment) is Ok <==> {
                &&& chunk is Ok
                &&& chunk->Ok_0 <= usize::MAX
                &&& server_config::positive(
                    "ALLOYPORT_ARTIFACT_MAX_BYTES"@,
                    environment.max_artifact_bytes,
                    8589934592,
                ) is Ok
                &&& server_config::positive(
                    "ALLOYPORT_ARTIFACT_TOTAL_QUOTA_BYTES"@,
                    environment.total_quota_bytes,
                    68719476736,
                ) is Ok
                &&& server_config::positive(
                    "ALLOYPORT_ARTIFACT_OWNER_QUOTA_BYTES"@,
                    environment.per_owner_quota_bytes,
                    17179869184,
                ) is Ok
                &&& server_config::positive(
                    "ALLOYPORT_SHUTDOWN_TIMEOUT_SECONDS"@,
                    environment.shutdown_timeout_seconds,
                    10,
                ) is Ok
            }
        }),
{
}

} // verus!
