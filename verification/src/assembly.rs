//! How the server's parts are put together.
use crate::control::reconciliation::PreparationReconciliationReport;
use crate::identity;
use crate::identity::{IdentityRegistry, IdentityState};
use crate::proto;
use crate::server_config::ServerConfig;
use crate::status;
use crate::status::{Code, ResolvedConnectionIdentity, Status, StatusView};
use crate::text;
use vstd::prelude::*;
use vstd::string::*;

verus! {

/// Who may read a run's events.
#[derive(Clone, Copy, Debug, PartialEq, Eq, Structural)]
pub enum InteractionAccess {
    /// Owners behind enrolled certificates.
    Enrolled,
}

/// Who may store and read artifacts.
#[derive(Clone, Copy, Debug, PartialEq, Eq, Structural)]
pub enum ArtifactAccess {
    /// Owners behind enrolled certificates.
    Enrolled,
}

/// What the parts of the server are given.
#[derive(Clone, Copy, Debug, PartialEq, Eq, Structural)]
pub struct AssemblyPlan {
    /// Workers must have enrolled certificates.
    pub requires_enrollment: bool,
    pub interaction_access: InteractionAccess,
    pub artifact_access: ArtifactAccess,
    pub artifact_max_decoding_message_bytes: usize,
}

pub open spec fn planned(config: ServerConfig) -> AssemblyPlan {
    AssemblyPlan {
        requires_enrollment: config.has_tls,
        interaction_access: InteractionAccess::Enrolled,
        artifact_access: ArtifactAccess::Enrolled,
        artifact_max_decoding_message_bytes: if config.max_chunk_bytes
            + proto::PROTOBUF_MESSAGE_OVERHEAD_BYTES > usize::MAX {
            usize::MAX
        } else {
            (config.max_chunk_bytes + proto::PROTOBUF_MESSAGE_OVERHEAD_BYTES) as usize
        },
    }
}

/// Decides what the parts of the server are given.
pub fn assemble(config: &ServerConfig) -> (r: AssemblyPlan)
    ensures
        r == planned(*config),
{
    AssemblyPlan {
        requires_enrollment: config.has_tls,
        interaction_access: InteractionAccess::Enrolled,
        artifact_access: ArtifactAccess::Enrolled,
        artifact_max_decoding_message_bytes: config.max_chunk_bytes.saturating_add(
            proto::PROTOBUF_MESSAGE_OVERHEAD_BYTES,
        ),
    }
}

/// What the operator is told where preparing assignments could not be reconciled at startup.
pub fn startup_notice(report: &PreparationReconciliationReport) -> (r: Option<String>)
    ensures
        if report.failures@.len() == 0 {
            r is None
        } else {
            r matches Some(line) && line@ == "deferred "@ + text::decimal(report.failures@.len())
                + " of "@ + text::decimal(report.scanned as nat)
                + " preparing assignments during startup reconciliation"@
        },
{
    if report.failures.len() == 0 {
        return None;
    }
    let mut line = "deferred ".to_owned();
    text::push_decimal(&mut line, report.failures.len() as u64);
    line.append(" of ");
    text::push_decimal(&mut line, report.scanned as u64);
    line.append(" preparing assignments during startup reconciliation");
    Some(line)
}

/// A server that can be reached from elsewhere takes no worker without an enrolled certificate.
pub proof fn remote_servers_require_enrollment(config: ServerConfig)
    requires
        config.has_tls,
    ensures
        planned(config).requires_enrollment,
{
}

/// Events are read by enrolled owners only, even where workers may connect in plain text.
pub proof fn interaction_always_requires_enrollment(config: ServerConfig)
    ensures
        planned(config).interaction_access == InteractionAccess::Enrolled,
{
}

/// Artifacts are stored and read by enrolled owners only, even where workers may connect in plain
/// text.
pub proof fn artifacts_always_require_enrollment(config: ServerConfig)
    ensures
        planned(config).artifact_access == ArtifactAccess::Enrolled,
{
}

/// The owner and the fingerprint behind a call, or why the call is refused.
pub open spec fn interaction_caller(
    access: InteractionAccess,
    enrollments: IdentityState,
    chain: Option<Option<Seq<Seq<u8>>>>,
) -> Result<(Seq<char>, Seq<char>), StatusView> {
    match access {
        InteractionAccess::Enrolled => status::resolved(enrollments, identity::leaf(chain)),
    }
}

/// The owner and the fingerprint behind a call, or why the call is refused.
pub open spec fn artifact_caller(
    access: ArtifactAccess,
    enrollments: IdentityState,
    chain: Option<Option<Seq<Seq<u8>>>>,
) -> Result<(Seq<char>, Seq<char>), StatusView> {
    match access {
        ArtifactAccess::Enrolled => status::resolved(enrollments, identity::leaf(chain)),
    }
}

pub open spec fn caller_seen(r: Result<ResolvedConnectionIdentity, Status>) -> Result<
    (Seq<char>, Seq<char>),
    StatusView,
> {
    match r {
        Ok(identity) => Ok((identity.owner_id@, identity.fingerprint@)),
        Err(e) => Err(e@),
    }
}

impl AssemblyPlan {
    /// Who calls to read events. `chain` is none without mutual TLS, and holds none without a
    /// client certificate.
    pub fn authorize_interaction<R: IdentityRegistry>(
        &self,
        registry: &R,
        chain: Option<Option<&Vec<Vec<u8>>>>,
    ) -> (r: Result<ResolvedConnectionIdentity, Status>)
        ensures
            caller_seen(r) == interaction_caller(
                self.interaction_access,
                registry.enrollments(),
                identity::chain_view(chain),
            ),
    {
        match self.interaction_access {
            InteractionAccess::Enrolled => status::resolve_identity(
                registry,
                identity::peer_certificate_fingerprint(chain),
            ),
        }
    }

    /// Who calls to store or read artifacts. `chain` is none without mutual TLS, and holds none
    /// without a client certificate.
    pub fn authorize_artifact<R: IdentityRegistry>(
        &self,
        registry: &R,
        chain: Option<Option<&Vec<Vec<u8>>>>,
    ) -> (r: Result<ResolvedConnectionIdentity, Status>)
        ensures
            caller_seen(r) == artifact_caller(
                self.artifact_access,
                registry.enrollments(),
                identity::chain_view(chain),
            ),
    {
        match self.artifact_access {
            ArtifactAccess::Enrolled => status::resolve_identity(
                registry,
                identity::peer_certificate_fingerprint(chain),
            ),
        }
    }
}

/// Whatever the configuration, a call for events or artifacts without a verified client
/// certificate is refused.
pub proof fn calls_without_a_certificate_are_refused(
    config: ServerConfig,
    enrollments: IdentityState,
    chain: Option<Option<Seq<Seq<u8>>>>,
)
    requires
        chain matches Some(Some(certificates)) ==> certificates.len() == 0,
    ensures
        interaction_caller(planned(config).interaction_access, enrollments, chain) matches Err(e)
            && e.code == Code::Unauthenticated,
        artifact_caller(planned(config).artifact_access, enrollments, chain) matches Err(e)
            && e.code == Code::Unauthenticated,
{
}

/// A message may be as long as the longest chunk and the frame around it, as far as a length can
/// say.
pub proof fn messages_hold_a_chunk(config: ServerConfig)
    ensures
        planned(config).requires_enrollment == config.has_tls,
        config.max_chunk_bytes + proto::PROTOBUF_MESSAGE_OVERHEAD_BYTES <= usize::MAX ==> planned(
            config,
        ).artifact_max_decoding_message_bytes == config.max_chunk_bytes
            + proto::PROTOBUF_MESSAGE_OVERHEAD_BYTES,
        config.max_chunk_bytes + proto::PROTOBUF_MESSAGE_OVERHEAD_BYTES > usize::MAX ==> planned(
            config,
        ).artifact_max_decoding_message_bytes == usize::MAX,
{
}

/// A caller is let in as the owner of the first certificate of its chain, on both services alike.
pub proof fn callers_are_their_owners(
    config: ServerConfig,
    enrollments: IdentityState,
    chain: Option<Option<Seq<Seq<u8>>>>,
)
    ensures
        ({
            let plan = planned(config);
            let caller = interaction_caller(plan.interaction_access, enrollments, chain);
            &&& artifact_caller(plan.artifact_access, enrollments, chain) == caller
            &&& caller matches Ok((owner, f)) ==> identity::leaf(chain) == Ok::<
                Seq<char>,
                identity::IdentityErrorView,
            >(f) && identity::resolve(enrollments, f) == Ok::<
                Seq<char>,
                identity::IdentityErrorView,
            >(owner)
            &&& caller is Ok <==> identity::leaf(chain) is Ok && identity::resolve(
                enrollments,
                identity::leaf(chain)->Ok_0,
            ) is Ok
        }),
{
}

} // verus!
