//! Create-only deployment bootstrap: what is made, where, and who may read it.
use crate::paths;
use crate::text;
use vstd::prelude::*;
use vstd::string::*;

verus! {

pub const SERVER_NAME: &'static str = "alloyport-server";

pub const ADMIN_NAME: &'static str = "alloyport-admin";

/// The server's configuration file.
pub const SERVER_CONFIG: &'static str = "{\"schema_version\":1,\"listen\":\"0.0.0.0:50051\",\"database\":\"state/control.sqlite3\",\"artifact\":{\"root\":\"state/artifacts\"},\"identity_database\":\"state/identities.sqlite3\",\"tls\":{\"certificate\":\"pki/server.pem\",\"private_key\":\"pki/server-key.pem\",\"client_ca\":\"pki/ca.pem\"},\"shutdown_timeout_seconds\":10,\"migration_runtime\":{\"candidate_template\":\"candidate.json\",\"root\":\"state/migrations\"}}";

/// The administrator's client configuration file.
pub const CLI_CONFIG: &'static str = "{\"schema_version\":1,\"server\":{\"endpoint\":\"https://127.0.0.1:50051\",\"tls\":{\"certificate\":\"admin.pem\",\"private_key\":\"admin-key.pem\",\"server_ca\":\"ca.pem\",\"server_name\":\"alloyport-server\"}}}";

/// What stands at the destination.
#[derive(Clone, Copy, Debug, PartialEq, Eq, Structural)]
pub enum Destination {
    Absent,
    NotADirectory,
    EmptyDirectory,
    UsedDirectory,
}

/// Whether the destination is still to be made, or why it cannot be used.
pub open spec fn root_step(destination: Destination) -> Result<bool, Seq<char>> {
    match destination {
        Destination::Absent => Ok(true),
        Destination::EmptyDirectory => Ok(false),
        Destination::NotADirectory => Err("bootstrap destination exists and is not a directory"@),
        Destination::UsedDirectory => Err("bootstrap destination must be empty"@),
    }
}

/// Decides whether the destination is still to be made.
pub fn prepare_root(destination: Destination) -> (r: Result<bool, String>)
    ensures
        match root_step(destination) {
            Ok(create) => r matches Ok(found) && found == create,
            Err(e) => r matches Err(error) && error@ == e,
        },
{
    match destination {
        Destination::Absent => Ok(true),
        Destination::EmptyDirectory => Ok(false),
        Destination::NotADirectory => Err(
            "bootstrap destination exists and is not a directory".to_owned(),
        ),
        Destination::UsedDirectory => Err("bootstrap destination must be empty".to_owned()),
    }
}

/// A worker that is enrolled from the start: its role, its identity, and where its bundle goes.
#[derive(Clone, Copy, Debug, PartialEq, Eq)]
pub struct WorkerPlan {
    pub role: &'static str,
    pub worker_id: &'static str,
    pub directory: &'static str,
}

pub ghost struct WorkerPlanView {
    pub role: Seq<char>,
    pub worker_id: Seq<char>,
    pub directory: Seq<char>,
}

pub open spec fn worker_view(w: WorkerPlan) -> WorkerPlanView {
    WorkerPlanView { role: w.role@, worker_id: w.worker_id@, directory: w.directory@ }
}

/// The workers of a new deployment.
pub open spec fn worker_plans() -> Seq<WorkerPlanView> {
    seq![
        WorkerPlanView {
            role: "ascend-build"@,
            worker_id: "ascend-build-worker-1"@,
            directory: "workers/ascend-build-worker-1"@,
        },
        WorkerPlanView {
            role: "cuda-correctness"@,
            worker_id: "cuda-correctness-worker-1"@,
            directory: "workers/cuda-correctness-worker-1"@,
        },
        WorkerPlanView {
            role: "ascend-correctness"@,
            worker_id: "ascend-correctness-worker-1"@,
            directory: "workers/ascend-correctness-worker-1"@,
        },
    ]
}

pub fn workers() -> (r: Vec<WorkerPlan>)
    ensures
        r@.map_values(|w: WorkerPlan| worker_view(w)) == worker_plans(),
{
    let mut list: Vec<WorkerPlan> = Vec::new();
    list.push(
        WorkerPlan {
            role: "ascend-build",
            worker_id: "ascend-build-worker-1",
            directory: "workers/ascend-build-worker-1",
        },
    );
    list.push(
        WorkerPlan {
            role: "cuda-correctness",
            worker_id: "cuda-correctness-worker-1",
            directory: "workers/cuda-correctness-worker-1",
        },
    );
    list.push(
        WorkerPlan {
            role: "ascend-correctness",
            worker_id: "ascend-correctness-worker-1",
            directory: "workers/ascend-correctness-worker-1",
        },
    );
    assert(list@.map_values(|w: WorkerPlan| worker_view(w)) =~= worker_plans());
    list
}

/// The directories of a new deployment.
pub open spec fn directory_list() -> Seq<Seq<char>> {
    seq![
        "pki"@,
        "clients/admin"@,
        "workers/ascend-build-worker-1"@,
        "workers/cuda-correctness-worker-1"@,
        "workers/ascend-correctness-worker-1"@,
        "state/artifacts"@,
        "state/migrations"@,
    ]
}

pub fn directories() -> (r: Vec<&'static str>)
    ensures
        r@.map_values(|d: &'static str| d@) == directory_list(),
{
    let mut list: Vec<&'static str> = Vec::new();
    list.push("pki");
    list.push("clients/admin");
    list.push("workers/ascend-build-worker-1");
    list.push("workers/cuda-correctness-worker-1");
    list.push("workers/ascend-correctness-worker-1");
    list.push("state/artifacts");
    list.push("state/migrations");
    assert(list@.map_values(|d: &'static str| d@) =~= directory_list());
    list
}

/// Every worker's bundle has a directory of its own.
pub proof fn bundles_have_directories(i: int)
    requires
        0 <= i < worker_plans().len(),
    ensures
        directory_list().contains(worker_plans()[i].directory),
{
    assert(directory_list()[2 + i] == worker_plans()[i].directory);
}

/// What a certificate may be used for.
#[derive(Clone, Copy, Debug, PartialEq, Eq, Structural)]
pub enum CertificateUse {
    ServerAuthentication,
    ClientAuthentication,
}

/// An identity to be issued: the name it carries, what it may be used for, where its files go, and
/// whether the registry enrolls it.
#[derive(Clone, Copy, Debug, PartialEq, Eq)]
pub struct IdentityPlan {
    pub common_name: &'static str,
    pub purpose: CertificateUse,
    pub directory: &'static str,
    pub stem: &'static str,
    pub enrolled: bool,
}

pub ghost struct IdentityPlanView {
    pub common_name: Seq<char>,
    pub purpose: CertificateUse,
    pub directory: Seq<char>,
    pub stem: Seq<char>,
    pub enrolled: bool,
}

pub open spec fn identity_view(p: IdentityPlan) -> IdentityPlanView {
    IdentityPlanView {
        common_name: p.common_name@,
        purpose: p.purpose,
        directory: p.directory@,
        stem: p.stem@,
        enrolled: p.enrolled,
    }
}

/// The identity of a worker of the new deployment.
pub open spec fn worker_identity(w: WorkerPlanView) -> IdentityPlanView {
    IdentityPlanView {
        common_name: w.worker_id,
        purpose: CertificateUse::ClientAuthentication,
        directory: w.directory,
        stem: "worker"@,
        enrolled: true,
    }
}

/// The identities of a new deployment: the server's, the administrator's and one for each worker.
pub open spec fn identity_plans() -> Seq<IdentityPlanView> {
    seq![
        IdentityPlanView {
            common_name: SERVER_NAME@,
            purpose: CertificateUse::ServerAuthentication,
            directory: "pki"@,
            stem: "server"@,
            enrolled: false,
        },
        IdentityPlanView {
            common_name: ADMIN_NAME@,
            purpose: CertificateUse::ClientAuthentication,
            directory: "clients/admin"@,
            stem: "admin"@,
            enrolled: true,
        },
    ] + Seq::new(worker_plans().len(), |i: int| worker_identity(worker_plans()[i]))
}

pub fn identities() -> (r: Vec<IdentityPlan>)
    ensures
        r@.map_values(|p: IdentityPlan| identity_view(p)) == identity_plans(),
{
    let mut list: Vec<IdentityPlan> = Vec::new();
    list.push(
        IdentityPlan {
            common_name: SERVER_NAME,
            purpose: CertificateUse::ServerAuthentication,
            directory: "pki",
            stem: "server",
            enrolled: false,
        },
    );
    list.push(
        IdentityPlan {
            common_name: ADMIN_NAME,
            purpose: CertificateUse::ClientAuthentication,
            directory: "clients/admin",
            stem: "admin",
            enrolled: true,
        },
    );
    let planned = workers();
    let ghost views = planned@.map_values(|w: WorkerPlan| worker_view(w));
    for i in 0..planned.len()
        invariant
            views == worker_plans(),
            views == planned@.map_values(|w: WorkerPlan| worker_view(w)),
            list@.map_values(|p: IdentityPlan| identity_view(p)) == identity_plans().take(2 + i),
    {
        let ghost before = list@;
        assert(views[i as int] == worker_view(planned@[i as int]));
        list.push(
            IdentityPlan {
                common_name: planned[i].worker_id,
                purpose: CertificateUse::ClientAuthentication,
                directory: planned[i].directory,
                stem: "worker",
                enrolled: true,
            },
        );
        assert(identity_plans().take(2 + i).push(identity_plans()[2 + i]) =~= identity_plans().take(
            3 + i,
        ));
        assert(list@.map_values(|p: IdentityPlan| identity_view(p)) =~= before.map_values(
            |p: IdentityPlan| identity_view(p),
        ).push(identity_plans()[2 + i]));
    }
    assert(identity_plans().take(2 + planned@.len() as int) =~= identity_plans());
    list
}

/// A deployment enrolls exactly the identities that authenticate clients, and its files go into
/// directories that it makes.
pub proof fn clients_are_enrolled(i: int)
    requires
        0 <= i < identity_plans().len(),
    ensures
        identity_plans()[i].enrolled <==> identity_plans()[i].purpose
            == CertificateUse::ClientAuthentication,
        directory_list().contains(identity_plans()[i].directory),
{
    assert(directory_list()[i] == identity_plans()[i].directory);
}

/// The names that the server's certificate answers to.
pub open spec fn server_name_list() -> Seq<Seq<char>> {
    seq![SERVER_NAME@, "localhost"@, "127.0.0.1"@, "::1"@]
}

pub fn server_names() -> (r: Vec<String>)
    ensures
        text::views(r@) == server_name_list(),
{
    let mut list: Vec<String> = Vec::new();
    list.push(SERVER_NAME.to_owned());
    list.push("localhost".to_owned());
    list.push("127.0.0.1".to_owned());
    list.push("::1".to_owned());
    assert(text::views(list@) =~= server_name_list());
    list
}

/// A file to be written, and with which permissions.
#[derive(Debug, PartialEq, Eq)]
pub struct FilePlan {
    pub path: String,
    pub mode: u32,
}

/// Everybody may read it.
pub const PUBLIC_MODE: u32 = 420;

/// Only its owner may read it.
pub const SECRET_MODE: u32 = 384;

/// The files of an issued identity: its certificate, which is public, and its key, which is not.
pub fn identity_files(directory: &str, stem: &str) -> (r: (FilePlan, FilePlan))
    ensures
        r.0.path@ == paths::joined(directory@, stem@ + ".pem"@),
        r.0.mode == PUBLIC_MODE,
        r.1.path@ == paths::joined(directory@, stem@ + "-key.pem"@),
        r.1.mode == SECRET_MODE,
        r.1.mode & 0x3f == 0,
{
    let certificate = text::concat(stem, ".pem");
    let key = text::concat(stem, "-key.pem");
    assert(384u32 & 0x3f == 0) by (bit_vector);
    (
        FilePlan { path: paths::join(directory, certificate.as_str()), mode: PUBLIC_MODE },
        FilePlan { path: paths::join(directory, key.as_str()), mode: SECRET_MODE },
    )
}

/// What to run on the host of a worker.
pub fn worker_instruction(root: &str, worker: &WorkerPlan) -> (r: String)
    ensures
        r@ == "  alloyport-worker bootstrap "@ + worker.role@ + " "@ + paths::joined(
            paths::joined(root@, "workers"@),
            worker.worker_id@,
        ) + " ./alloyport-worker https://SERVER_ADDRESS:50051"@,
{
    let parent = paths::join(root, "workers");
    let bundle = paths::join(parent.as_str(), worker.worker_id);
    let mut out = text::enclosed("  alloyport-worker bootstrap ", worker.role, " ");
    out.append(bundle.as_str());
    out.append(" ./alloyport-worker https://SERVER_ADDRESS:50051");
    out
}

/// A destination that is absent is created, an empty directory is used, and anything else is
/// refused.
pub proof fn only_fresh_destinations_are_used(destination: Destination)
    ensures
        root_step(destination) == Ok::<bool, Seq<char>>(true) <==> destination
            == Destination::Absent,
        root_step(destination) == Ok::<bool, Seq<char>>(false) <==> destination
            == Destination::EmptyDirectory,
        root_step(destination) is Err <==> destination == Destination::NotADirectory || destination
            == Destination::UsedDirectory,
{
}

/// There is one bundle for each of the three roles, named after its role and kept below the
/// workers' directory.
pub proof fn bundles_are_named_after_their_role(i: int)
    requires
        0 <= i < worker_plans().len(),
    ensures
        worker_plans().len() == 3,
        worker_plans()[0].role == "ascend-build"@,
        worker_plans()[1].role == "cuda-correctness"@,
        worker_plans()[2].role == "ascend-correctness"@,
        worker_plans()[i].worker_id == worker_plans()[i].role + "-worker-1"@,
        worker_plans()[i].directory == "workers/"@ + worker_plans()[i].worker_id,
{
    reveal_strlit("ascend-build");
    reveal_strlit("cuda-correctness");
    reveal_strlit("ascend-correctness");
    reveal_strlit("-worker-1");
    reveal_strlit("workers/");
    reveal_strlit("ascend-build-worker-1");
    reveal_strlit("cuda-correctness-worker-1");
    reveal_strlit("ascend-correctness-worker-1");
    reveal_strlit("workers/ascend-build-worker-1");
    reveal_strlit("workers/cuda-correctness-worker-1");
    reveal_strlit("workers/ascend-correctness-worker-1");
    assert("ascend-build-worker-1"@ =~= "ascend-build"@ + "-worker-1"@);
    assert("cuda-correctness-worker-1"@ =~= "cuda-correctness"@ + "-worker-1"@);
    assert("ascend-correctness-worker-1"@ =~= "ascend-correctness"@ + "-worker-1"@);
    assert("workers/ascend-build-worker-1"@ =~= "workers/"@ + "ascend-build-worker-1"@);
    assert("workers/cuda-correctness-worker-1"@ =~= "workers/"@ + "cuda-correctness-worker-1"@);
    assert("workers/ascend-correctness-worker-1"@ =~= "workers/"@ + "ascend-correctness-worker-1"@);
}

/// The first identity is the server's and serves; all others are clients that are enrolled: the
/// administrator and, behind it, each worker under its own name in its own directory.
pub proof fn identities_are_planned(i: int)
    requires
        0 <= i < worker_plans().len(),
    ensures
        identity_plans().len() == 5,
        identity_plans()[0].common_name == "alloyport-server"@,
        identity_plans()[0].purpose == CertificateUse::ServerAuthentication,
        identity_plans()[0].directory == "pki"@,
        identity_plans()[0].stem == "server"@,
        !identity_plans()[0].enrolled,
        identity_plans()[1].common_name == "alloyport-admin"@,
        identity_plans()[1].purpose == CertificateUse::ClientAuthentication,
        identity_plans()[1].directory == "clients/admin"@,
        identity_plans()[1].stem == "admin"@,
        identity_plans()[1].enrolled,
        identity_plans()[i + 2].common_name == worker_plans()[i].worker_id,
        identity_plans()[i + 2].purpose == CertificateUse::ClientAuthentication,
        identity_plans()[i + 2].directory == worker_plans()[i].directory,
        identity_plans()[i + 2].stem == "worker"@,
        identity_plans()[i + 2].enrolled,
{
}

/// The server answers to its name and to every name of its own machine.
pub proof fn the_server_answers_at_home()
    ensures
        server_name_list().contains("alloyport-server"@),
        server_name_list().contains("localhost"@),
        server_name_list().contains("127.0.0.1"@),
        server_name_list().contains("::1"@),
        server_name_list().len() == 4,
{
    assert(server_name_list()[0] == "alloyport-server"@);
    assert(server_name_list()[1] == "localhost"@);
    assert(server_name_list()[2] == "127.0.0.1"@);
    assert(server_name_list()[3] == "::1"@);
}

} // verus!
