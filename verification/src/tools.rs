//! The model-visible tool catalog of a reduction Candidate Episode.
use crate::text;
use vstd::prelude::*;
use vstd::string::*;

verus! {

pub const SUBMIT_CANDIDATE_BUNDLE_TOOL: &'static str = "submit_candidate_bundle";

pub const REQUEST_SOURCE_GATE_TOOL: &'static str = "request_source_gate";

pub const REQUEST_ASCEND_BUILD_TOOL: &'static str = "request_ascend_build";

pub const READ_REFERENCE_TOOL: &'static str = "read_reference";

pub const READ_BUILD_DIAGNOSTICS_TOOL: &'static str = "read_build_diagnostics";

pub const REQUEST_REDUCTION_CORRECTNESS_TOOL: &'static str = "request_reduction_correctness";

/// The schema of a digest.
pub const DIGEST_SCHEMA: &'static str = "{\"type\":\"string\",\"pattern\":\"^sha256:[0-9a-f]{64}$\"}";

/// The schema of a text that is not empty.
pub const TEXT_SCHEMA: &'static str = "{\"type\":\"string\",\"minLength\":1}";

/// The schema of one submitted file.
pub const FILE_SCHEMA: &'static str = "{\"type\":\"object\",\"additionalProperties\":false,\"properties\":{\"path\":{\"type\":\"string\",\"pattern\":\"^generated/\"},\"kind\":{\"enum\":[\"ascend_c_device\",\"ascend_host\",\"build_integration\",\"component_mapping\"]},\"contents\":{\"type\":\"string\",\"minLength\":1}},\"required\":[\"path\",\"kind\",\"contents\"]}";

/// One tool that a model may call.
#[derive(Debug, PartialEq, Eq)]
pub struct CodecToolDefinition {
    pub name: String,
    pub description: String,
    /// The JSON schema of the arguments.
    pub input_schema: String,
    pub strict: bool,
}

pub ghost struct ToolView {
    pub name: Seq<char>,
    pub description: Seq<char>,
    pub input_schema: Seq<char>,
    pub strict: bool,
}

impl View for CodecToolDefinition {
    type V = ToolView;

    open spec fn view(&self) -> ToolView {
        ToolView {
            name: self.name@,
            description: self.description@,
            input_schema: self.input_schema@,
            strict: self.strict,
        }
    }
}

impl Clone for CodecToolDefinition {
    fn clone(&self) -> (r: Self)
        ensures
            r == *self,
    {
        CodecToolDefinition {
            name: self.name.clone(),
            description: self.description.clone(),
            input_schema: self.input_schema.clone(),
            strict: self.strict,
        }
    }
}

/// One property of an object: its name and its schema.
#[derive(Clone, Copy, Debug, PartialEq, Eq)]
pub struct Property<'a> {
    pub name: &'a str,
    pub schema: &'a str,
}

pub open spec fn quoted(name: Seq<char>) -> Seq<char> {
    "\""@ + name + "\""@
}

pub open spec fn property_text(property: (Seq<char>, Seq<char>)) -> Seq<char> {
    quoted(property.0) + ":"@ + property.1
}

pub open spec fn property_texts(properties: Seq<(Seq<char>, Seq<char>)>) -> Seq<Seq<char>> {
    Seq::new(properties.len(), |i: int| property_text(properties[i]))
}

pub open spec fn quoted_texts(names: Seq<Seq<char>>) -> Seq<Seq<char>> {
    Seq::new(names.len(), |i: int| quoted(names[i]))
}

/// The schema of a closed object: no property but these.
pub open spec fn object_schema(
    properties: Seq<(Seq<char>, Seq<char>)>,
    required: Seq<Seq<char>>,
) -> Seq<char> {
    "{\"type\":\"object\",\"additionalProperties\":false,\"properties\":{"@ + text::joined(
        property_texts(properties),
        ","@,
    ) + "},\"required\":["@ + text::joined(quoted_texts(required), ","@) + "]}"@
}

/// The schema of the submitted files.
pub open spec fn files_schema() -> Seq<char> {
    "{\"type\":\"array\",\"minItems\":1,\"maxItems\":64,\"items\":"@ + FILE_SCHEMA@ + "}"@
}

/// The schema of the author's notes.
pub open spec fn notes_schema() -> Seq<char> {
    "{\"type\":\"array\",\"items\":"@ + TEXT_SCHEMA@ + "}"@
}

/// The schema of a submitted bundle.
pub open spec fn bundle_schema() -> Seq<char> {
    object_schema(
        seq![("files"@, files_schema()), ("author_notes"@, notes_schema())],
        seq!["files"@],
    )
}

pub open spec fn tool(
    name: Seq<char>,
    description: Seq<char>,
    properties: Seq<(Seq<char>, Seq<char>)>,
    required: Seq<Seq<char>>,
) -> ToolView {
    ToolView { name, description, input_schema: object_schema(properties, required), strict: true }
}

/// The whole catalog, in order.
pub open spec fn catalog() -> Seq<ToolView> {
    seq![
        tool(
            SUBMIT_CANDIDATE_BUNDLE_TOOL@,
            "Submit a generated Ascend C candidate. Send every file to create one from nothing, or set inherit_from_manifest_digest to the manifest digest an earlier submission returned and send only the files that change; the candidate is still complete and immutable, assembled from that manifest plus what you send."@,
            seq![
                ("parent_candidate_id"@, TEXT_SCHEMA@),
                ("inherit_from_manifest_digest"@, DIGEST_SCHEMA@),
                ("bundle"@, bundle_schema()),
            ],
            seq!["bundle"@],
        ),
        tool(
            REQUEST_SOURCE_GATE_TOOL@,
            "Run the independent structural Source Gate for one submitted manifest."@,
            seq![("manifest_digest"@, DIGEST_SCHEMA@)],
            seq!["manifest_digest"@],
        ),
        tool(
            REQUEST_ASCEND_BUILD_TOOL@,
            "Build one exact Source-Gate-passing candidate on the pinned Ascend worker."@,
            seq![
                ("manifest_digest"@, DIGEST_SCHEMA@),
                ("source_gate_receipt_digest"@, DIGEST_SCHEMA@),
            ],
            seq!["manifest_digest"@, "source_gate_receipt_digest"@],
        ),
        tool(
            READ_REFERENCE_TOOL@,
            "List the vendored Ascend reference corpus, or read one document. Every document arrives with its trust state; nothing in it has been verified on this hardware, so follow a document's supported path and treat its numbers as hypotheses."@,
            seq![("document"@, TEXT_SCHEMA@)],
            Seq::empty(),
        ),
        tool(
            READ_BUILD_DIAGNOSTICS_TOOL@,
            "Read the compiler output the Build Gate published for one of this migration's build receipts. Returns information only; it approves nothing."@,
            seq![("build_gate_receipt_digest"@, DIGEST_SCHEMA@)],
            seq!["build_gate_receipt_digest"@],
        ),
        tool(
            REQUEST_REDUCTION_CORRECTNESS_TOOL@,
            "Run the paired frozen reduction Correctness Gate after Build Gate passes."@,
            seq![
                ("candidate_id"@, TEXT_SCHEMA@),
                ("manifest_digest"@, DIGEST_SCHEMA@),
                ("source_gate_receipt_digest"@, DIGEST_SCHEMA@),
                ("build_gate_receipt_digest"@, DIGEST_SCHEMA@),
            ],
            seq![
                "candidate_id"@,
                "manifest_digest"@,
                "source_gate_receipt_digest"@,
                "build_gate_receipt_digest"@,
            ],
        ),
    ]
}

pub open spec fn property_views(properties: Seq<Property>) -> Seq<(Seq<char>, Seq<char>)> {
    Seq::new(properties.len(), |i: int| (properties[i].name@, properties[i].schema@))
}

pub open spec fn name_views(names: Seq<&str>) -> Seq<Seq<char>> {
    Seq::new(names.len(), |i: int| names[i]@)
}

fn quote(name: &str) -> (r: String)
    ensures
        r@ == quoted(name@),
{
    text::enclosed("\"", name, "\"")
}

/// The schema of a closed object.
pub fn closed_object(properties: &[Property], required: &[&str]) -> (r: String)
    ensures
        r@ == object_schema(property_views(properties@), name_views(required@)),
{
    let mut fields: Vec<String> = Vec::new();
    for i in 0..properties.len()
        invariant
            fields@.len() == i,
            forall|j: int|
                0 <= j < i ==> #[trigger] fields@[j]@ == property_text(
                    property_views(properties@)[j],
                ),
    {
        let mut field = quote(properties[i].name);
        field.append(":");
        field.append(properties[i].schema);
        fields.push(field);
    }
    assert(text::views(fields@) =~= property_texts(property_views(properties@)));
    let mut names: Vec<String> = Vec::new();
    for i in 0..required.len()
        invariant
            names@.len() == i,
            forall|j: int|
                0 <= j < i ==> #[trigger] names@[j]@ == quoted(name_views(required@)[j]),
    {
        names.push(quote(required[i]));
    }
    assert(text::views(names@) =~= quoted_texts(name_views(required@)));
    let mut out =
        "{\"type\":\"object\",\"additionalProperties\":false,\"properties\":{".to_owned();
    text::push_joined(&mut out, &fields, ",");
    out.append("},\"required\":[");
    text::push_joined(&mut out, &names, ",");
    out.append("]}");
    out
}

fn definition(name: &str, description: &str, properties: &[Property], required: &[&str]) -> (r:
    CodecToolDefinition)
    ensures
        r@ == tool(name@, description@, property_views(properties@), name_views(required@)),
{
    CodecToolDefinition {
        name: name.to_owned(),
        description: description.to_owned(),
        input_schema: closed_object(properties, required),
        strict: true,
    }
}

fn bundle() -> (r: String)
    ensures
        r@ == bundle_schema(),
{
    let files = text::enclosed(
        "{\"type\":\"array\",\"minItems\":1,\"maxItems\":64,\"items\":",
        FILE_SCHEMA,
        "}",
    );
    let notes = text::enclosed("{\"type\":\"array\",\"items\":", TEXT_SCHEMA, "}");
    let properties = [
        Property { name: "files", schema: files.as_str() },
        Property { name: "author_notes", schema: notes.as_str() },
    ];
    let required = ["files"];
    proof {
        assert(property_views(properties@) =~= seq![
            ("files"@, files_schema()),
            ("author_notes"@, notes_schema()),
        ]);
        assert(name_views(required@) =~= seq!["files"@]);
    }
    closed_object(&properties, &required)
}

pub open spec fn tool_views(tools: Seq<CodecToolDefinition>) -> Seq<ToolView> {
    Seq::new(tools.len(), |i: int| tools[i]@)
}

fn submission_tool() -> (r: CodecToolDefinition)
    ensures
        r@ == catalog()[0],
{
    let bundle = bundle();
    let properties = [
        Property { name: "parent_candidate_id", schema: TEXT_SCHEMA },
        Property { name: "inherit_from_manifest_digest", schema: DIGEST_SCHEMA },
        Property { name: "bundle", schema: bundle.as_str() },
    ];
    let required = ["bundle"];
    proof {
        assert(property_views(properties@) =~= seq![
            ("parent_candidate_id"@, TEXT_SCHEMA@),
            ("inherit_from_manifest_digest"@, DIGEST_SCHEMA@),
            ("bundle"@, bundle_schema()),
        ]);
        assert(name_views(required@) =~= seq!["bundle"@]);
    }
    definition(
        SUBMIT_CANDIDATE_BUNDLE_TOOL,
        "Submit a generated Ascend C candidate. Send every file to create one from nothing, or set inherit_from_manifest_digest to the manifest digest an earlier submission returned and send only the files that change; the candidate is still complete and immutable, assembled from that manifest plus what you send.",
        &properties,
        &required,
    )
}

fn source_gate_tool() -> (r: CodecToolDefinition)
    ensures
        r@ == catalog()[1],
{
    let properties = [Property { name: "manifest_digest", schema: DIGEST_SCHEMA }];
    let required = ["manifest_digest"];
    proof {
        assert(property_views(properties@) =~= seq![("manifest_digest"@, DIGEST_SCHEMA@)]);
        assert(name_views(required@) =~= seq!["manifest_digest"@]);
    }
    definition(
        REQUEST_SOURCE_GATE_TOOL,
        "Run the independent structural Source Gate for one submitted manifest.",
        &properties,
        &required,
    )
}

fn build_tool() -> (r: CodecToolDefinition)
    ensures
        r@ == catalog()[2],
{
    let properties = [
        Property { name: "manifest_digest", schema: DIGEST_SCHEMA },
        Property { name: "source_gate_receipt_digest", schema: DIGEST_SCHEMA },
    ];
    let required = ["manifest_digest", "source_gate_receipt_digest"];
    proof {
        assert(property_views(properties@) =~= seq![
            ("manifest_digest"@, DIGEST_SCHEMA@),
            ("source_gate_receipt_digest"@, DIGEST_SCHEMA@),
        ]);
        assert(name_views(required@) =~= seq![
            "manifest_digest"@,
            "source_gate_receipt_digest"@,
        ]);
    }
    definition(
        REQUEST_ASCEND_BUILD_TOOL,
        "Build one exact Source-Gate-passing candidate on the pinned Ascend worker.",
        &properties,
        &required,
    )
}

fn reference_tool() -> (r: CodecToolDefinition)
    ensures
        r@ == catalog()[3],
{
    let properties = [Property { name: "document", schema: TEXT_SCHEMA }];
    let required: Vec<&str> = Vec::new();
    proof {
        assert(property_views(properties@) =~= seq![("document"@, TEXT_SCHEMA@)]);
        assert(name_views(required@) =~= Seq::empty());
    }
    definition(
        READ_REFERENCE_TOOL,
        "List the vendored Ascend reference corpus, or read one document. Every document arrives with its trust state; nothing in it has been verified on this hardware, so follow a document's supported path and treat its numbers as hypotheses.",
        &properties,
        required.as_slice(),
    )
}

fn diagnostics_tool() -> (r: CodecToolDefinition)
    ensures
        r@ == catalog()[4],
{
    let properties = [Property { name: "build_gate_receipt_digest", schema: DIGEST_SCHEMA }];
    let required = ["build_gate_receipt_digest"];
    proof {
        assert(property_views(properties@) =~= seq![
            ("build_gate_receipt_digest"@, DIGEST_SCHEMA@),
        ]);
        assert(name_views(required@) =~= seq!["build_gate_receipt_digest"@]);
    }
    definition(
        READ_BUILD_DIAGNOSTICS_TOOL,
        "Read the compiler output the Build Gate published for one of this migration's build receipts. Returns information only; it approves nothing.",
        &properties,
        &required,
    )
}

fn correctness_tool() -> (r: CodecToolDefinition)
    ensures
        r@ == catalog()[5],
{
    let properties = [
        Property { name: "candidate_id", schema: TEXT_SCHEMA },
        Property { name: "manifest_digest", schema: DIGEST_SCHEMA },
        Property { name: "source_gate_receipt_digest", schema: DIGEST_SCHEMA },
        Property { name: "build_gate_receipt_digest", schema: DIGEST_SCHEMA },
    ];
    let required = [
        "candidate_id",
        "manifest_digest",
        "source_gate_receipt_digest",
        "build_gate_receipt_digest",
    ];
    proof {
        assert(property_views(properties@) =~= seq![
            ("candidate_id"@, TEXT_SCHEMA@),
            ("manifest_digest"@, DIGEST_SCHEMA@),
            ("source_gate_receipt_digest"@, DIGEST_SCHEMA@),
            ("build_gate_receipt_digest"@, DIGEST_SCHEMA@),
        ]);
        assert(name_views(required@) =~= seq![
            "candidate_id"@,
            "manifest_digest"@,
            "source_gate_receipt_digest"@,
            "build_gate_receipt_digest"@,
        ]);
    }
    definition(
        REQUEST_REDUCTION_CORRECTNESS_TOOL,
        "Run the paired frozen reduction Correctness Gate after Build Gate passes.",
        &properties,
        &required,
    )
}

/// Exact model-visible tool catalog for the reduction Candidate Episode.
pub fn candidate_episode_tool_definitions() -> (r: Vec<CodecToolDefinition>)
    ensures
        tool_views(r@) == catalog(),
{
    let mut tools: Vec<CodecToolDefinition> = Vec::new();
    tools.push(submission_tool());
    tools.push(source_gate_tool());
    tools.push(build_tool());
    tools.push(reference_tool());
    tools.push(diagnostics_tool());
    tools.push(correctness_tool());
    assert(tool_views(tools@) =~= catalog());
    tools
}

/// The tools that an Episode offers, in order: without a reference corpus the tool that reads it is
/// not among them.
pub open spec fn offered(has_reference: bool) -> Seq<ToolView> {
    if has_reference {
        catalog()
    } else {
        catalog().remove(3)
    }
}

/// The tools that an Episode offers.
pub fn episode_tools(has_reference: bool) -> (r: Vec<CodecToolDefinition>)
    ensures
        tool_views(r@) == offered(has_reference),
{
    let mut tools = candidate_episode_tool_definitions();
    assert(tools@.len() == tool_views(tools@).len());
    if !has_reference {
        let ghost whole = tools@;
        let _ = tools.remove(3);
        assert(tool_views(tools@) =~= tool_views(whole).remove(3));
    }
    tools
}

/// A corpus that is withheld is not offered: no tool reads it, and every other tool is there.
pub proof fn withheld_corpora_are_not_offered(i: int)
    requires
        0 <= i < catalog().len(),
    ensures
        catalog()[i].name == READ_REFERENCE_TOOL@ <==> i == 3,
        i != 3 ==> offered(false).contains(catalog()[i]),
        !offered(false).contains(catalog()[3]),
        forall|j: int|
            0 <= j < offered(false).len() ==> (#[trigger] offered(false)[j]).name
                != READ_REFERENCE_TOOL@,
{
    if i < 3 {
        assert(offered(false)[i] == catalog()[i]);
    } else if i > 3 {
        assert(offered(false)[i - 1] == catalog()[i]);
    }
    reveal_strlit("submit_candidate_bundle");
    reveal_strlit("request_source_gate");
    reveal_strlit("request_ascend_build");
    reveal_strlit("read_reference");
    reveal_strlit("read_build_diagnostics");
    reveal_strlit("request_reduction_correctness");
    assert("submit_candidate_bundle"@.len() != "read_reference"@.len());
    assert("request_source_gate"@.len() != "read_reference"@.len());
    assert("request_ascend_build"@.len() != "read_reference"@.len());
    assert("read_build_diagnostics"@.len() != "read_reference"@.len());
    assert("request_reduction_correctness"@.len() != "read_reference"@.len());
}

/// The catalog is closed: every tool is strict and takes an object with no property but its own.
pub proof fn catalog_is_closed()
    ensures
        forall|i: int|
            0 <= i < catalog().len() ==> (#[trigger] catalog()[i]).strict && exists|
                properties: Seq<(Seq<char>, Seq<char>)>,
                required: Seq<Seq<char>>,
            |
                catalog()[i].input_schema == #[trigger] object_schema(properties, required),
{
}

/// The catalog holds the six tools of an episode, in the order in which a candidate passes them.
pub proof fn tools_stand_in_order()
    ensures
        catalog().len() == 6,
        catalog()[0].name == "submit_candidate_bundle"@,
        catalog()[1].name == "request_source_gate"@,
        catalog()[2].name == "request_ascend_build"@,
        catalog()[3].name == "read_reference"@,
        catalog()[4].name == "read_build_diagnostics"@,
        catalog()[5].name == "request_reduction_correctness"@,
{
}

/// With a corpus all tools are offered; without one all but the one that reads it, in the same
/// order.
pub proof fn only_the_corpus_is_withheld(i: int)
    ensures
        offered(true) == catalog(),
        offered(false).len() == catalog().len() - 1,
        0 <= i < 3 ==> offered(false)[i] == catalog()[i],
        3 <= i < offered(false).len() ==> offered(false)[i] == catalog()[i + 1],
{
}

/// A gate is asked with everything it must be given: what each tool requires is what it takes, but
/// for the parents of a submission and the document of a reading.
pub proof fn tools_require_their_evidence()
    ensures
        catalog()[0].input_schema == object_schema(
            seq![
                ("parent_candidate_id"@, TEXT_SCHEMA@),
                ("inherit_from_manifest_digest"@, DIGEST_SCHEMA@),
                ("bundle"@, bundle_schema()),
            ],
            seq!["bundle"@],
        ),
        catalog()[1].input_schema == object_schema(
            seq![("manifest_digest"@, DIGEST_SCHEMA@)],
            seq!["manifest_digest"@],
        ),
        catalog()[2].input_schema == object_schema(
            seq![
                ("manifest_digest"@, DIGEST_SCHEMA@),
                ("source_gate_receipt_digest"@, DIGEST_SCHEMA@),
            ],
            seq!["manifest_digest"@, "source_gate_receipt_digest"@],
        ),
        catalog()[3].input_schema == object_schema(seq![("document"@, TEXT_SCHEMA@)], seq![]),
        catalog()[4].input_schema == object_schema(
            seq![("build_gate_receipt_digest"@, DIGEST_SCHEMA@)],
            seq!["build_gate_receipt_digest"@],
        ),
        catalog()[5].input_schema == object_schema(
            seq![
                ("candidate_id"@, TEXT_SCHEMA@),
                ("manifest_digest"@, DIGEST_SCHEMA@),
                ("source_gate_receipt_digest"@, DIGEST_SCHEMA@),
                ("build_gate_receipt_digest"@, DIGEST_SCHEMA@),
            ],
            seq![
                "candidate_id"@,
                "manifest_digest"@,
                "source_gate_receipt_digest"@,
                "build_gate_receipt_digest"@,
            ],
        ),
{
}

/// A schema admits no property but those it names, and names those it requires.
pub proof fn schemas_are_closed(
    properties: Seq<(Seq<char>, Seq<char>)>,
    required: Seq<Seq<char>>,
    members: Seq<Seq<char>>,
    names: Seq<Seq<char>>,
)
    requires
        members.len() == properties.len(),
        forall|i: int|
            0 <= i < members.len() ==> #[trigger] members[i] == "\""@ + properties[i].0 + "\""@
                + ":"@ + properties[i].1,
        names.len() == required.len(),
        forall|i: int|
            0 <= i < names.len() ==> #[trigger] names[i] == "\""@ + required[i] + "\""@,
    ensures
        object_schema(properties, required)
            == "{\"type\":\"object\",\"additionalProperties\":false,\"properties\":{"@
            + text::joined(members, ","@) + "},\"required\":["@ + text::joined(names, ","@)
            + "]}"@,
{
    assert(property_texts(properties) =~= members);
    assert(quoted_texts(required) =~= names);
}

} // verus!
