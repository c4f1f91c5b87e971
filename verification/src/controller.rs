//! One durable, model-pinned Agent Episode as the controller opens and recovers it.
use crate::contexts;
use crate::contexts::{ContextState, ModelContextStore};
use crate::digest;
use crate::digest::Sha256Digest;
use crate::episodes;
use crate::episodes::{
    DurableEpisodeState, EpisodeRepository, EpisodeStateView, EpisodeStates, VersionedEpisodeState,
    VersionedView,
};
use crate::json;
use crate::json::JsonValue;
use crate::text;
use crate::tools;
use crate::tools::{CodecToolDefinition, ToolView};
use vstd::prelude::*;
use vstd::string::*;

verus! {

/// Immutable controller facts needed to create or recover one Episode.
#[derive(Debug, PartialEq, Eq)]
pub struct ControllerEpisodeSpec {
    pub episode_id: String,
    pub task_id: String,
    pub search_run_id: String,
    pub parent_candidate_id: Option<String>,
    pub subtask_contract_digest: Sha256Digest,
    pub context_projection_digest: Sha256Digest,
    pub input_artifact_root_digest: Sha256Digest,
    pub runtime_model_alias: Option<String>,
    pub prompt_revision: String,
    pub tools: Vec<CodecToolDefinition>,
    pub loop_policy: JsonValue,
    pub loop_policy_digest: Sha256Digest,
    pub data_boundary_policy_digest: Sha256Digest,
    pub budget_snapshot_digest: Sha256Digest,
    pub request_budget_digest: Sha256Digest,
    pub system_prompt: String,
    pub initial_user_text: String,
}

pub ghost struct ControllerEpisodeSpecView {
    pub episode_id: Seq<char>,
    pub task_id: Seq<char>,
    pub search_run_id: Seq<char>,
    pub parent_candidate_id: Option<Seq<char>>,
    pub subtask_contract_digest: Seq<char>,
    pub context_projection_digest: Seq<char>,
    pub input_artifact_root_digest: Seq<char>,
    pub runtime_model_alias: Option<Seq<char>>,
    pub prompt_revision: Seq<char>,
    pub tools: Seq<ToolView>,
    pub loop_policy: Seq<char>,
    pub loop_policy_digest: Seq<char>,
    pub data_boundary_policy_digest: Seq<char>,
    pub budget_snapshot_digest: Seq<char>,
    pub request_budget_digest: Seq<char>,
    pub system_prompt: Seq<char>,
    pub initial_user_text: Seq<char>,
}

impl View for ControllerEpisodeSpec {
    type V = ControllerEpisodeSpecView;

    open spec fn view(&self) -> ControllerEpisodeSpecView {
        ControllerEpisodeSpecView {
            episode_id: self.episode_id@,
            task_id: self.task_id@,
            search_run_id: self.search_run_id@,
            parent_candidate_id: text::optional(self.parent_candidate_id),
            subtask_contract_digest: self.subtask_contract_digest@,
            context_projection_digest: self.context_projection_digest@,
            input_artifact_root_digest: self.input_artifact_root_digest@,
            runtime_model_alias: text::optional(self.runtime_model_alias),
            prompt_revision: self.prompt_revision@,
            tools: tools::tool_views(self.tools@),
            loop_policy: self.loop_policy@,
            loop_policy_digest: self.loop_policy_digest@,
            data_boundary_policy_digest: self.data_boundary_policy_digest@,
            budget_snapshot_digest: self.budget_snapshot_digest@,
            request_budget_digest: self.request_budget_digest@,
            system_prompt: self.system_prompt@,
            initial_user_text: self.initial_user_text@,
        }
    }
}

/// The model deployment that an alias resolved to.
#[derive(Debug, PartialEq, Eq)]
pub struct ResolvedDeployment {
    pub alias: String,
    pub resolved_model_digest: Sha256Digest,
    pub deployment_digest: Sha256Digest,
    pub model_profile_digest: Sha256Digest,
}

pub ghost struct ResolvedDeploymentView {
    pub alias: Seq<char>,
    pub resolved_model_digest: Seq<char>,
    pub deployment_digest: Seq<char>,
    pub model_profile_digest: Seq<char>,
}

impl View for ResolvedDeployment {
    type V = ResolvedDeploymentView;

    open spec fn view(&self) -> ResolvedDeploymentView {
        ResolvedDeploymentView {
            alias: self.alias@,
            resolved_model_digest: self.resolved_model_digest@,
            deployment_digest: self.deployment_digest@,
            model_profile_digest: self.model_profile_digest@,
        }
    }
}

/// What identifies an Episode.
#[derive(Debug, PartialEq, Eq)]
pub struct EpisodeSpec {
    pub id: String,
    pub task_id: String,
    pub search_run_id: String,
    pub parent_candidate_id: Option<String>,
    pub subtask_contract_digest: Sha256Digest,
    pub context_projection_digest: Sha256Digest,
    pub input_artifact_root_digest: Sha256Digest,
    pub runtime_model_alias: String,
    pub resolved_model_digest: Sha256Digest,
    pub prompt_revision: String,
    pub tool_catalog_digest: Sha256Digest,
    pub loop_policy_digest: Sha256Digest,
    pub data_boundary_policy_digest: Sha256Digest,
    pub budget_snapshot_digest: Sha256Digest,
}

pub ghost struct EpisodeSpecView {
    pub id: Seq<char>,
    pub task_id: Seq<char>,
    pub search_run_id: Seq<char>,
    pub parent_candidate_id: Option<Seq<char>>,
    pub subtask_contract_digest: Seq<char>,
    pub context_projection_digest: Seq<char>,
    pub input_artifact_root_digest: Seq<char>,
    pub runtime_model_alias: Seq<char>,
    pub resolved_model_digest: Seq<char>,
    pub prompt_revision: Seq<char>,
    pub tool_catalog_digest: Seq<char>,
    pub loop_policy_digest: Seq<char>,
    pub data_boundary_policy_digest: Seq<char>,
    pub budget_snapshot_digest: Seq<char>,
}

impl View for EpisodeSpec {
    type V = EpisodeSpecView;

    open spec fn view(&self) -> EpisodeSpecView {
        EpisodeSpecView {
            id: self.id@,
            task_id: self.task_id@,
            search_run_id: self.search_run_id@,
            parent_candidate_id: text::optional(self.parent_candidate_id),
            subtask_contract_digest: self.subtask_contract_digest@,
            context_projection_digest: self.context_projection_digest@,
            input_artifact_root_digest: self.input_artifact_root_digest@,
            runtime_model_alias: self.runtime_model_alias@,
            resolved_model_digest: self.resolved_model_digest@,
            prompt_revision: self.prompt_revision@,
            tool_catalog_digest: self.tool_catalog_digest@,
            loop_policy_digest: self.loop_policy_digest@,
            data_boundary_policy_digest: self.data_boundary_policy_digest@,
            budget_snapshot_digest: self.budget_snapshot_digest@,
        }
    }
}

impl EpisodeSpec {
    /// Whether both have the same content.
    pub fn same(&self, other: &Self) -> (r: bool)
        ensures
            r == (self@ == other@),
    {
        text::same(self.id.as_str(), other.id.as_str())
            && text::same(self.task_id.as_str(), other.task_id.as_str())
            && text::same(self.search_run_id.as_str(), other.search_run_id.as_str())
            && text::same_optional(&self.parent_candidate_id, &other.parent_candidate_id)
            && self.subtask_contract_digest.same(&other.subtask_contract_digest)
            && self.context_projection_digest.same(&other.context_projection_digest)
            && self.input_artifact_root_digest.same(&other.input_artifact_root_digest)
            && text::same(self.runtime_model_alias.as_str(), other.runtime_model_alias.as_str())
            && self.resolved_model_digest.same(&other.resolved_model_digest)
            && text::same(self.prompt_revision.as_str(), other.prompt_revision.as_str())
            && self.tool_catalog_digest.same(&other.tool_catalog_digest)
            && self.loop_policy_digest.same(&other.loop_policy_digest)
            && self.data_boundary_policy_digest.same(&other.data_boundary_policy_digest)
            && self.budget_snapshot_digest.same(&other.budget_snapshot_digest)
    }
}

/// What the loop of an Episode runs under.
#[derive(Debug, PartialEq, Eq)]
pub struct AgentLoopRuntimeSpec {
    pub episode: EpisodeSpec,
    pub policy: JsonValue,
    pub initial_input_digest: Sha256Digest,
    pub resolved_model_digest: Sha256Digest,
    pub deployment_digest: Sha256Digest,
    pub model_profile_digest: Sha256Digest,
    pub request_budget_digest: Sha256Digest,
}

pub ghost struct AgentLoopRuntimeSpecView {
    pub episode: EpisodeSpecView,
    pub policy: Seq<char>,
    pub initial_input_digest: Seq<char>,
    pub resolved_model_digest: Seq<char>,
    pub deployment_digest: Seq<char>,
    pub model_profile_digest: Seq<char>,
    pub request_budget_digest: Seq<char>,
}

impl View for AgentLoopRuntimeSpec {
    type V = AgentLoopRuntimeSpecView;

    open spec fn view(&self) -> AgentLoopRuntimeSpecView {
        AgentLoopRuntimeSpecView {
            episode: self.episode@,
            policy: self.policy@,
            initial_input_digest: self.initial_input_digest@,
            resolved_model_digest: self.resolved_model_digest@,
            deployment_digest: self.deployment_digest@,
            model_profile_digest: self.model_profile_digest@,
            request_budget_digest: self.request_budget_digest@,
        }
    }
}

impl AgentLoopRuntimeSpec {
    /// Whether both have the same content.
    pub fn same(&self, other: &Self) -> (r: bool)
        ensures
            r == (self@ == other@),
    {
        self.episode.same(&other.episode)
            && self.policy.same(&other.policy)
            && self.initial_input_digest.same(&other.initial_input_digest)
            && self.resolved_model_digest.same(&other.resolved_model_digest)
            && self.deployment_digest.same(&other.deployment_digest)
            && self.model_profile_digest.same(&other.model_profile_digest)
            && self.request_budget_digest.same(&other.request_budget_digest)
    }
}

/// Why an Episode cannot be opened or advanced.
#[derive(Debug, PartialEq, Eq)]
pub struct ControllerEpisodeError(String);

impl Clone for ControllerEpisodeError {
    fn clone(&self) -> (r: Self)
        ensures
            r == *self,
    {
        ControllerEpisodeError(self.0.clone())
    }
}

impl View for ControllerEpisodeError {
    type V = Seq<char>;

    closed spec fn view(&self) -> Seq<char> {
        self.0@
    }
}

impl ControllerEpisodeError {
    /// The failure of an adapter.
    pub fn adapter(error: String) -> (r: Self)
        ensures
            r@ == error@,
    {
        ControllerEpisodeError(error)
    }

    /// The text of the failure.
    pub fn message(&self) -> (r: &str)
        ensures
            r@ == self@,
    {
        self.0.as_str()
    }
}

/// The JSON object of one tool.
pub open spec fn tool_object(tool: ToolView, schema: Seq<char>) -> Seq<char> {
    "{\"name\":"@ + json::string_json(tool.name) + ",\"description\":"@ + json::string_json(
        tool.description,
    ) + ",\"input_schema\":"@ + schema + ",\"strict\":"@ + (if tool.strict {
        "true"@
    } else {
        "false"@
    }) + "}"@
}

/// The JSON objects of the tools; none where a schema is no JSON.
pub open spec fn tool_objects(list: Seq<ToolView>) -> Option<Seq<Seq<char>>>
    decreases list.len(),
{
    if list.len() == 0 {
        Some(Seq::empty())
    } else {
        match (tool_objects(list.drop_last()), json::compact_json(list.last().input_schema)) {
            (Some(before), Some(schema)) => Some(before.push(tool_object(list.last(), schema))),
            _ => None,
        }
    }
}

/// The JSON list of the tools.
pub open spec fn tools_text(list: Seq<ToolView>) -> Option<Seq<char>> {
    match tool_objects(list) {
        Some(objects) => Some("["@ + text::joined(objects, ","@) + "]"@),
        None => None,
    }
}

proof fn unreadable_schemas_stay(list: Seq<ToolView>, n: int)
    requires
        0 <= n <= list.len(),
        tool_objects(list.take(n)) is None,
    ensures
        tool_objects(list) is None,
    decreases list.len() - n,
{
    if n == list.len() {
        assert(list.take(n) =~= list);
    } else {
        assert(list.take(n + 1).drop_last() =~= list.take(n));
        unreadable_schemas_stay(list, n + 1);
    }
}

/// The JSON list of the tools.
pub fn tools_json(list: &Vec<CodecToolDefinition>) -> (r: Result<String, String>)
    ensures
        match tools_text(tools::tool_views(list@)) {
            Some(t) => r matches Ok(found) && found@ == t,
            None => r matches Err(e) && e@ == "document is not JSON"@,
        },
{
    let ghost all = tools::tool_views(list@);
    let mut objects: Vec<String> = Vec::new();
    assert(text::views(objects@) =~= Seq::empty());
    assert(all.take(0) =~= Seq::empty());
    for i in 0..list.len()
        invariant
            all == tools::tool_views(list@),
            tool_objects(all.take(i as int)) == Some(text::views(objects@)),
    {
        let ghost longer = all.take(i + 1);
        assert(longer.drop_last() =~= all.take(i as int));
        let tool = &list[i];
        let schema = match json::compacted(tool.input_schema.as_str()) {
            Ok(schema) => schema,
            Err(error) => {
                proof {
                    unreadable_schemas_stay(all, i + 1);
                }
                return Err(error);
            },
        };
        let mut object = "{\"name\":".to_owned();
        object.append(json::string_literal(tool.name.as_str()).as_str());
        object.append(",\"description\":");
        object.append(json::string_literal(tool.description.as_str()).as_str());
        object.append(",\"input_schema\":");
        object.append(schema.as_str());
        object.append(",\"strict\":");
        object.append(
            if tool.strict {
                "true"
            } else {
                "false"
            },
        );
        object.append("}");
        let ghost before = objects@;
        objects.push(object);
        assert(text::views(objects@) =~= text::views(before).push(object@));
    }
    assert(all.take(list@.len() as int) =~= all);
    let mut out = "[".to_owned();
    text::push_joined(&mut out, &objects, ",");
    out.append("]");
    Ok(out)
}

/// What an Episode runs under, once its context exists.
pub open spec fn runtime_spec(
    spec: ControllerEpisodeSpecView,
    deployment: ResolvedDeploymentView,
    tool_list: Seq<char>,
    initial_input_digest: Seq<char>,
) -> AgentLoopRuntimeSpecView {
    AgentLoopRuntimeSpecView {
        episode: EpisodeSpecView {
            id: spec.episode_id,
            task_id: spec.task_id,
            search_run_id: spec.search_run_id,
            parent_candidate_id: spec.parent_candidate_id,
            subtask_contract_digest: spec.subtask_contract_digest,
            context_projection_digest: spec.context_projection_digest,
            input_artifact_root_digest: spec.input_artifact_root_digest,
            runtime_model_alias: deployment.alias,
            resolved_model_digest: deployment.resolved_model_digest,
            prompt_revision: spec.prompt_revision,
            tool_catalog_digest: digest::digest_text(vstd::utf8::encode_utf8(tool_list)),
            loop_policy_digest: spec.loop_policy_digest,
            data_boundary_policy_digest: spec.data_boundary_policy_digest,
            budget_snapshot_digest: spec.budget_snapshot_digest,
        },
        policy: spec.loop_policy,
        initial_input_digest,
        resolved_model_digest: deployment.resolved_model_digest,
        deployment_digest: deployment.deployment_digest,
        model_profile_digest: deployment.model_profile_digest,
        request_budget_digest: spec.request_budget_digest,
    }
}

/// Creates the context of an Episode, or finds it unchanged, and says what the Episode runs under.
pub open spec fn opened(
    s: ContextState,
    spec: ControllerEpisodeSpecView,
    deployment: ResolvedDeploymentView,
) -> (ContextState, Result<AgentLoopRuntimeSpecView, Seq<char>>) {
    match tools_text(spec.tools) {
        None => (s, Err("document is not JSON"@)),
        Some(tool_list) => {
            let (t, r) = contexts::create(
                s,
                spec.episode_id,
                spec.system_prompt,
                spec.initial_user_text,
                vstd::utf8::encode_utf8(tool_list),
            );
            (
                t,
                match r {
                    Ok(identity) => Ok(runtime_spec(spec, deployment, tool_list, identity)),
                    Err(e) => Err(e),
                },
            )
        },
    }
}

/// Creates the Episode with its first snapshot; where there is one already, that one.
pub open spec fn claimed(s: EpisodeStates, id: Seq<char>, snapshot: Seq<u8>) -> (
    EpisodeStates,
    Option<VersionedView>,
) {
    if s.dom().contains(id) {
        (s, Some(s[id]))
    } else {
        (episodes::create(s, EpisodeStateView { episode_id: id, snapshot }).0, None)
    }
}

/// An Episode that is being run: what it runs under.
#[derive(Debug, PartialEq, Eq)]
pub struct ControllerEpisodeApplication {
    runtime: AgentLoopRuntimeSpec,
}

impl View for ControllerEpisodeApplication {
    type V = AgentLoopRuntimeSpecView;

    closed spec fn view(&self) -> AgentLoopRuntimeSpecView {
        self.runtime@
    }
}

impl ControllerEpisodeApplication {
    /// Creates the context of a new Episode, or finds that of an exactly matching one.
    pub fn open(
        spec: ControllerEpisodeSpec,
        deployment: ResolvedDeployment,
        contexts: &mut ModelContextStore,
    ) -> (r: Result<Self, ControllerEpisodeError>)
        ensures
            ({
                let (t, outcome) = opened(old(contexts)@, spec@, deployment@);
                &&& final(contexts)@ == t
                &&& match outcome {
                    Ok(runtime) => r matches Ok(application) && application@ == runtime,
                    Err(e) => r matches Err(error) && error@ == e,
                }
            }),
    {
        let tool_list = match tools_json(&spec.tools) {
            Ok(tool_list) => tool_list,
            Err(error) => {
                return Err(ControllerEpisodeError(error));
            },
        };
        let tool_catalog_digest = Sha256Digest::digest_bytes(tool_list.as_str().as_bytes());
        let initial_input_digest = match contexts.create_episode(
            spec.episode_id.as_str(),
            spec.system_prompt.as_str(),
            spec.initial_user_text.as_str(),
            tool_list.as_str().as_bytes(),
        ) {
            Ok(identity) => identity,
            Err(error) => {
                return Err(ControllerEpisodeError(error));
            },
        };
        let episode = EpisodeSpec {
            id: spec.episode_id,
            task_id: spec.task_id,
            search_run_id: spec.search_run_id,
            parent_candidate_id: spec.parent_candidate_id,
            subtask_contract_digest: spec.subtask_contract_digest,
            context_projection_digest: spec.context_projection_digest,
            input_artifact_root_digest: spec.input_artifact_root_digest,
            runtime_model_alias: deployment.alias,
            resolved_model_digest: deployment.resolved_model_digest.clone(),
            prompt_revision: spec.prompt_revision,
            tool_catalog_digest,
            loop_policy_digest: spec.loop_policy_digest,
            data_boundary_policy_digest: spec.data_boundary_policy_digest,
            budget_snapshot_digest: spec.budget_snapshot_digest,
        };
        Ok(
            ControllerEpisodeApplication {
                runtime: AgentLoopRuntimeSpec {
                    episode,
                    policy: spec.loop_policy,
                    initial_input_digest,
                    resolved_model_digest: deployment.resolved_model_digest,
                    deployment_digest: deployment.deployment_digest,
                    model_profile_digest: deployment.model_profile_digest,
                    request_budget_digest: spec.request_budget_digest,
                },
            },
        )
    }

    /// What the Episode runs under.
    pub fn runtime(&self) -> (r: &AgentLoopRuntimeSpec)
        ensures
            r@ == self@,
    {
        &self.runtime
    }

    /// Stores the first snapshot of a new Episode; where one is stored already, gives that one to
    /// be confirmed.
    pub fn claim(&self, repository: &mut EpisodeRepository, snapshot: Vec<u8>) -> (r: Option<
        VersionedEpisodeState,
    >)
        ensures
            ({
                let (t, known) = claimed(old(repository)@, self@.episode.id, snapshot@);
                &&& final(repository)@ == t
                &&& match known {
                    Some(stored) => r matches Some(found) && found@ == stored,
                    None => r is None,
                }
            }),
    {
        match repository.load(self.runtime.episode.id.as_str()) {
            Ok(found) => Some(found),
            Err(_) => {
                let _ = repository.create(
                    DurableEpisodeState { episode_id: self.runtime.episode.id.clone(), snapshot },
                );
                None
            },
        }
    }

    /// Confirms that a stored Episode runs under the same identity.
    pub fn confirm(&self, persisted: &AgentLoopRuntimeSpec) -> (r: Result<
        (),
        ControllerEpisodeError,
    >)
        ensures
            match r {
                Ok(()) => persisted@ == self@,
                Err(e) => persisted@ != self@ && e@
                    == "persisted Episode conflicts with requested runtime identity"@,
            },
    {
        if !persisted.same(&self.runtime) {
            return Err(
                ControllerEpisodeError(
                    "persisted Episode conflicts with requested runtime identity".to_owned(),
                ),
            );
        }
        Ok(())
    }
}

/// Opening the same Episode again finds its context and runs under the same identity.
pub proof fn reopening_recovers(
    s: ContextState,
    spec: ControllerEpisodeSpecView,
    deployment: ResolvedDeploymentView,
)
    requires
        opened(s, spec, deployment).1 is Ok,
    ensures
        ({
            let (t, r) = opened(s, spec, deployment);
            opened(t, spec, deployment) == (t, r)
        }),
{
    contexts::creation_is_idempotent(
        s,
        spec.episode_id,
        spec.system_prompt,
        spec.initial_user_text,
        vstd::utf8::encode_utf8(tools_text(spec.tools)->0),
    );
}

/// An Episode whose prompts changed is refused, and nothing of the stored context changes.
pub proof fn changed_prompts_conflict(
    s: ContextState,
    spec: ControllerEpisodeSpecView,
    changed: ControllerEpisodeSpecView,
    deployment: ResolvedDeploymentView,
)
    requires
        opened(s, spec, deployment).1 is Ok,
        changed.episode_id == spec.episode_id,
        changed.system_prompt != spec.system_prompt || changed.initial_user_text
            != spec.initial_user_text,
    ensures
        ({
            let t = opened(s, spec, deployment).0;
            &&& opened(t, changed, deployment).1 is Err
            &&& opened(t, changed, deployment).0 == t
        }),
{
}

/// The first snapshot of an Episode stays: a second claim gives it back and stores nothing.
pub proof fn claims_keep_the_first_snapshot(
    s: EpisodeStates,
    id: Seq<char>,
    first: Seq<u8>,
    second: Seq<u8>,
)
    requires
        !s.dom().contains(id),
    ensures
        ({
            let t = claimed(s, id, first).0;
            &&& claimed(t, id, second).0 == t
            &&& claimed(t, id, second).1 == Some(
                VersionedView {
                    revision: 0,
                    state: EpisodeStateView { episode_id: id, snapshot: first },
                },
            )
        }),
{
}

/// A tool is an object of its name, its description, its schema and whether it is strict.
pub proof fn tools_are_written(tool: ToolView, schema: Seq<char>)
    ensures
        tool.strict ==> tool_object(tool, schema) == "{\"name\":"@ + json::string_json(tool.name)
            + ",\"description\":"@ + json::string_json(tool.description) + ",\"input_schema\":"@
            + schema + ",\"strict\":"@ + "true"@ + "}"@,
        !tool.strict ==> tool_object(tool, schema) == "{\"name\":"@ + json::string_json(tool.name)
            + ",\"description\":"@ + json::string_json(tool.description) + ",\"input_schema\":"@
            + schema + ",\"strict\":"@ + "false"@ + "}"@,
{
}

/// The tools are written when every schema is JSON, one object for each in their order.
pub proof fn every_tool_is_written(list: Seq<ToolView>)
    ensures
        tool_objects(list) is Some <==> forall|i: int|
            0 <= i < list.len() ==> json::compact_json((#[trigger] list[i]).input_schema) is Some,
        tool_objects(list) matches Some(objects) ==> objects.len() == list.len() && forall|i: int|
            0 <= i < list.len() ==> #[trigger] objects[i] == tool_object(
                list[i],
                json::compact_json(list[i].input_schema)->0,
            ),
    decreases list.len(),
{
    if list.len() > 0 {
        let before = list.drop_last();
        every_tool_is_written(before);
        assert forall|i: int| 0 <= i < before.len() implies #[trigger] before[i] == list[i] by {}
        if tool_objects(list) is Some {
            assert forall|i: int| 0 <= i < list.len() implies json::compact_json(
                (#[trigger] list[i]).input_schema,
            ) is Some by {
                if i < before.len() {
                    assert(before[i] == list[i]);
                }
            }
        } else if forall|i: int|
            0 <= i < list.len() ==> json::compact_json((#[trigger] list[i]).input_schema) is Some {
            assert(json::compact_json(list[list.len() - 1].input_schema) is Some);
            assert forall|i: int| 0 <= i < before.len() implies json::compact_json(
                (#[trigger] before[i]).input_schema,
            ) is Some by {
                assert(before[i] == list[i]);
            }
        }
    }
}

/// An opened episode is pinned to the model that was resolved for it: the runtime carries the
/// resolved alias and digests, the catalog of the tools, and everything else as it was asked for.
pub proof fn episodes_are_pinned(
    s: ContextState,
    spec: ControllerEpisodeSpecView,
    deployment: ResolvedDeploymentView,
)
    requires
        opened(s, spec, deployment).1 is Ok,
    ensures
        ({
            let (t, r) = opened(s, spec, deployment);
            let runtime = r->Ok_0;
            let e = runtime.episode;
            &&& t.episodes.dom().contains(spec.episode_id)
            &&& t.episodes[spec.episode_id].system_prompt == spec.system_prompt
            &&& t.episodes[spec.episode_id].initial_user_text == spec.initial_user_text
            &&& runtime.initial_input_digest == t.episodes[spec.episode_id].initial_input_digest
            &&& runtime.policy == spec.loop_policy
            &&& runtime.resolved_model_digest == deployment.resolved_model_digest
            &&& runtime.deployment_digest == deployment.deployment_digest
            &&& runtime.model_profile_digest == deployment.model_profile_digest
            &&& runtime.request_budget_digest == spec.request_budget_digest
            &&& e.id == spec.episode_id
            &&& e.task_id == spec.task_id
            &&& e.search_run_id == spec.search_run_id
            &&& e.parent_candidate_id == spec.parent_candidate_id
            &&& e.subtask_contract_digest == spec.subtask_contract_digest
            &&& e.context_projection_digest == spec.context_projection_digest
            &&& e.input_artifact_root_digest == spec.input_artifact_root_digest
            &&& e.runtime_model_alias == deployment.alias
            &&& e.resolved_model_digest == deployment.resolved_model_digest
            &&& e.prompt_revision == spec.prompt_revision
            &&& e.tool_catalog_digest == digest::digest_text(
                t.episodes[spec.episode_id].tools_json,
            )
            &&& e.loop_policy_digest == spec.loop_policy_digest
            &&& e.data_boundary_policy_digest == spec.data_boundary_policy_digest
            &&& e.budget_snapshot_digest == spec.budget_snapshot_digest
        }),
{
}

/// An episode that is not there is opened exactly when its tools can be written and neither prompt
/// is blank.
pub proof fn new_episodes_open(
    s: ContextState,
    spec: ControllerEpisodeSpecView,
    deployment: ResolvedDeploymentView,
)
    requires
        !s.episodes.dom().contains(spec.episode_id),
    ensures
        opened(s, spec, deployment).1 is Ok <==> tool_objects(spec.tools) is Some && !text::blank(
            spec.system_prompt,
        ) && !text::blank(spec.initial_user_text),
        opened(s, spec, deployment).1 is Err ==> opened(s, spec, deployment).0 == s,
{
}

/// Claiming gives back what is stored, and stores the snapshot where nothing is.
pub proof fn claims_store_or_give_back(s: EpisodeStates, id: Seq<char>, snapshot: Seq<u8>)
    ensures
        ({
            let (t, known) = claimed(s, id, snapshot);
            &&& s.dom().contains(id) ==> t == s && known == Some(s[id])
            &&& !s.dom().contains(id) ==> known is None && t.dom() == s.dom().insert(id)
                && t[id].revision == 0 && t[id].state.episode_id == id && t[id].state.snapshot
                == snapshot
        }),
{
}

} // verus!
