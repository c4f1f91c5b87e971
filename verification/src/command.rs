//! Strict parsing of the process command.
use crate::text;
use vstd::prelude::*;
use vstd::string::*;

verus! {

/// How the process is called.
pub const USAGE: &'static str = "usage: alloyport-server bootstrap DIRECTORY | alloyport-server [--config PATH] [identity enroll OWNER CERT | identity rotate OWNER OLD_CERT NEW_CERT | identity revoke CERT | candidate-episode validate CANDIDATE_CONFIG | candidate-episode run CANDIDATE_CONFIG --authorize-provider-dispatch | candidate-record TASK_ID --into DIRECTORY]";

/// An argument that names a path: where it stands in the argument list, and its text where it is
/// UTF-8.
#[derive(Debug, PartialEq, Eq)]
pub struct PathArgument {
    pub index: usize,
    pub text: Option<String>,
}

/// What an argument list says; `None` stands for an argument that is no UTF-8.
pub type Arguments = Seq<Option<Seq<char>>>;

/// Paths are given by their place in the argument list.
#[allow(inconsistent_fields)]
pub ghost enum CommandView {
    Bootstrap { directory: int },
    Serve { config_path: Option<int> },
    Identity { config_path: Option<int>, action: IdentityActionView },
    CandidateEpisode {
        config_path: Option<int>,
        candidate_config_path: int,
        action: CandidateEpisodeAction,
    },
    CandidateRecord { config_path: Option<int>, task_id: Seq<char>, into: int },
}

pub ghost enum IdentityActionView {
    Enroll { owner: Seq<char>, certificate: int },
    Rotate { owner: Seq<char>, old_certificate: int, new_certificate: int },
    Revoke { certificate: int },
}

#[allow(inconsistent_fields)]
#[derive(Debug, PartialEq, Eq)]
pub enum ServerCommand {
    Bootstrap { directory: PathArgument },
    Serve { config_path: Option<PathArgument> },
    Identity { config_path: Option<PathArgument>, action: IdentityAction },
    CandidateEpisode {
        config_path: Option<PathArgument>,
        candidate_config_path: PathArgument,
        action: CandidateEpisodeAction,
    },
    /// Offline projection of one task's candidates into a readable record.
    CandidateRecord { config_path: Option<PathArgument>, task_id: String, into: PathArgument },
}

#[derive(Clone, Copy, Debug, PartialEq, Eq, Structural)]
pub enum CandidateEpisodeAction {
    Validate,
    RunAuthorized,
}

#[derive(Debug, PartialEq, Eq)]
pub enum IdentityAction {
    Enroll { owner: String, certificate: PathArgument },
    Rotate { owner: String, old_certificate: PathArgument, new_certificate: PathArgument },
    Revoke { certificate: PathArgument },
}

pub open spec fn place(path: Option<PathArgument>) -> Option<int> {
    match path {
        Some(p) => Some(p.index as int),
        None => None,
    }
}

impl View for IdentityAction {
    type V = IdentityActionView;

    open spec fn view(&self) -> IdentityActionView {
        match *self {
            IdentityAction::Enroll { owner, certificate } => IdentityActionView::Enroll {
                owner: owner@,
                certificate: certificate.index as int,
            },
            IdentityAction::Rotate { owner, old_certificate, new_certificate } =>
                IdentityActionView::Rotate {
                owner: owner@,
                old_certificate: old_certificate.index as int,
                new_certificate: new_certificate.index as int,
            },
            IdentityAction::Revoke { certificate } => IdentityActionView::Revoke {
                certificate: certificate.index as int,
            },
        }
    }
}

impl View for ServerCommand {
    type V = CommandView;

    open spec fn view(&self) -> CommandView {
        match *self {
            ServerCommand::Bootstrap { directory } => CommandView::Bootstrap {
                directory: directory.index as int,
            },
            ServerCommand::Serve { config_path } => CommandView::Serve {
                config_path: place(config_path),
            },
            ServerCommand::Identity { config_path, action } => CommandView::Identity {
                config_path: place(config_path),
                action: action@,
            },
            ServerCommand::CandidateEpisode { config_path, candidate_config_path, action } =>
                CommandView::CandidateEpisode {
                config_path: place(config_path),
                candidate_config_path: candidate_config_path.index as int,
                action,
            },
            ServerCommand::CandidateRecord { config_path, task_id, into } =>
                CommandView::CandidateRecord {
                config_path: place(config_path),
                task_id: task_id@,
                into: into.index as int,
            },
        }
    }
}

/// The complaint that an argument is missing.
pub open spec fn missing(name: Seq<char>) -> Seq<char> {
    "missing "@ + name + "; "@ + USAGE@
}

/// The place of a required argument.
pub open spec fn required(args: Arguments, at: int, name: Seq<char>) -> Result<int, Seq<char>> {
    if at < args.len() {
        Ok(at)
    } else {
        Err(missing(name))
    }
}

/// A required argument that must be text.
pub open spec fn required_text(args: Arguments, at: int, name: Seq<char>) -> Result<
    Seq<char>,
    Seq<char>,
> {
    if at >= args.len() {
        Err(missing(name))
    } else {
        match args[at] {
            Some(s) => Ok(s),
            None => Err(name + " must be UTF-8"@),
        }
    }
}

/// Nothing follows the arguments up to `at`.
pub open spec fn ended<T>(args: Arguments, at: int, value: T) -> Result<T, Seq<char>> {
    if at < args.len() {
        Err(USAGE@)
    } else {
        Ok(value)
    }
}

/// What is asked of the identity registry, from `at` on.
pub open spec fn identity(args: Arguments, at: int) -> Result<IdentityActionView, Seq<char>> {
    if at >= args.len() {
        Err(missing("identity action"@))
    } else if args[at] == Some("enroll"@) {
        match required_text(args, at + 1, "owner ID"@) {
            Err(e) => Err(e),
            Ok(owner) => match required(args, at + 2, "certificate PEM path"@) {
                Err(e) => Err(e),
                Ok(certificate) => ended(
                    args,
                    at + 3,
                    IdentityActionView::Enroll { owner, certificate },
                ),
            },
        }
    } else if args[at] == Some("rotate"@) {
        match required_text(args, at + 1, "owner ID"@) {
            Err(e) => Err(e),
            Ok(owner) => match required(args, at + 2, "old certificate PEM path"@) {
                Err(e) => Err(e),
                Ok(old_certificate) => match required(args, at + 3, "new certificate PEM path"@) {
                    Err(e) => Err(e),
                    Ok(new_certificate) => ended(
                        args,
                        at + 4,
                        IdentityActionView::Rotate { owner, old_certificate, new_certificate },
                    ),
                },
            },
        }
    } else if args[at] == Some("revoke"@) {
        match required(args, at + 1, "certificate PEM path"@) {
            Err(e) => Err(e),
            Ok(certificate) => ended(args, at + 2, IdentityActionView::Revoke { certificate }),
        }
    } else {
        Err(USAGE@)
    }
}

/// What is asked of a candidate episode, from `at` on. A run needs the exact authorization.
pub open spec fn candidate_episode(args: Arguments, at: int, config_path: Option<int>) -> Result<
    CommandView,
    Seq<char>,
> {
    if at >= args.len() {
        Err(missing("candidate Episode action"@))
    } else if at + 1 >= args.len() {
        Err(missing("candidate Episode configuration path"@))
    } else if args[at] == Some("validate"@) {
        ended(
            args,
            at + 2,
            CommandView::CandidateEpisode {
                config_path,
                candidate_config_path: at + 1,
                action: CandidateEpisodeAction::Validate,
            },
        )
    } else if args[at] == Some("run"@) {
        if at + 2 >= args.len() {
            Err(missing("provider dispatch authorization"@))
        } else if args[at + 2] != Some("--authorize-provider-dispatch"@) {
            Err(USAGE@)
        } else {
            ended(
                args,
                at + 3,
                CommandView::CandidateEpisode {
                    config_path,
                    candidate_config_path: at + 1,
                    action: CandidateEpisodeAction::RunAuthorized,
                },
            )
        }
    } else {
        Err(USAGE@)
    }
}

/// What is asked of a candidate record, from `at` on. The destination needs its flag.
pub open spec fn candidate_record(args: Arguments, at: int, config_path: Option<int>) -> Result<
    CommandView,
    Seq<char>,
> {
    match required_text(args, at, "task ID"@) {
        Err(e) => Err(e),
        Ok(task_id) => if at + 1 >= args.len() {
            Err(missing("record destination flag"@))
        } else if args[at + 1] != Some("--into"@) {
            Err(USAGE@)
        } else {
            match required(args, at + 2, "record directory"@) {
                Err(e) => Err(e),
                Ok(into) => ended(
                    args,
                    at + 3,
                    CommandView::CandidateRecord { config_path, task_id, into },
                ),
            }
        },
    }
}

/// What the process is asked to do, where the configuration path is known and the command, if any,
/// stands at `at`.
pub open spec fn selected(args: Arguments, at: int, config_path: Option<int>) -> Result<
    CommandView,
    Seq<char>,
> {
    if at >= args.len() {
        Ok(CommandView::Serve { config_path })
    } else if args[at] == Some("bootstrap"@) && config_path is None {
        match required(args, at + 1, "bootstrap directory"@) {
            Err(e) => Err(e),
            Ok(directory) => ended(args, at + 2, CommandView::Bootstrap { directory }),
        }
    } else if args[at] == Some("identity"@) {
        match identity(args, at + 1) {
            Err(e) => Err(e),
            Ok(action) => Ok(CommandView::Identity { config_path, action }),
        }
    } else if args[at] == Some("candidate-episode"@) {
        candidate_episode(args, at + 1, config_path)
    } else if args[at] == Some("candidate-record"@) {
        candidate_record(args, at + 1, config_path)
    } else {
        Err(USAGE@)
    }
}

/// What the process is asked to do.
pub open spec fn parsed(args: Arguments) -> Result<CommandView, Seq<char>> {
    if args.len() > 0 && args[0] == Some("--config"@) {
        match required(args, 1, "server configuration path"@) {
            Err(e) => Err(e),
            Ok(path) => selected(args, 2, Some(path)),
        }
    } else {
        selected(args, 0, None)
    }
}

pub open spec fn arguments(list: Seq<Option<String>>) -> Arguments {
    Seq::new(list.len(), |i: int| text::optional(list[i]))
}

/// The text of a path argument is what stands at its place.
pub open spec fn quotes(args: Arguments, path: PathArgument) -> bool {
    path.index < args.len() && text::optional(path.text) == args[path.index as int]
}

pub open spec fn quotes_optional(args: Arguments, path: Option<PathArgument>) -> bool {
    path matches Some(p) ==> quotes(args, p)
}

/// Each path of an identity action holds the text at its place.
pub open spec fn action_quotes(args: Arguments, action: IdentityAction) -> bool {
    match action {
        IdentityAction::Enroll { certificate, .. } => quotes(args, certificate),
        IdentityAction::Rotate { old_certificate, new_certificate, .. } => quotes(
            args,
            old_certificate,
        ) && quotes(args, new_certificate),
        IdentityAction::Revoke { certificate } => quotes(args, certificate),
    }
}

/// Each path of a command holds the text at its place.
pub open spec fn command_quotes(args: Arguments, command: ServerCommand) -> bool {
    match command {
        ServerCommand::Bootstrap { directory } => quotes(args, directory),
        ServerCommand::Serve { config_path } => quotes_optional(args, config_path),
        ServerCommand::Identity { config_path, action } => quotes_optional(args, config_path)
            && action_quotes(args, action),
        ServerCommand::CandidateEpisode { config_path, candidate_config_path, .. } =>
            quotes_optional(args, config_path) && quotes(args, candidate_config_path),
        ServerCommand::CandidateRecord { config_path, into, .. } => quotes_optional(
            args,
            config_path,
        ) && quotes(args, into),
    }
}

fn says(list: &Vec<Option<String>>, at: usize, word: &str) -> (r: bool)
    requires
        at < list@.len(),
    ensures
        r == (arguments(list@)[at as int] == Some(word@)),
{
    match &list[at] {
        Some(s) => text::same(s.as_str(), word),
        None => false,
    }
}

fn missing_text(name: &str) -> (r: String)
    ensures
        r@ == missing(name@),
{
    let mut out = text::enclosed("missing ", name, "; ");
    out.append(USAGE);
    out
}

fn required_argument(list: &Vec<Option<String>>, at: usize, name: &str) -> (r: Result<
    PathArgument,
    String,
>)
    ensures
        match required(arguments(list@), at as int, name@) {
            Ok(i) => r matches Ok(path) && path.index == i && quotes(arguments(list@), path),
            Err(e) => r matches Err(error) && error@ == e,
        },
{
    if at < list.len() {
        Ok(PathArgument { index: at, text: text::copy_optional(&list[at]) })
    } else {
        Err(missing_text(name))
    }
}

fn required_utf8_argument(list: &Vec<Option<String>>, at: usize, name: &str) -> (r: Result<
    String,
    String,
>)
    ensures
        match required_text(arguments(list@), at as int, name@) {
            Ok(s) => r matches Ok(found) && found@ == s,
            Err(e) => r matches Err(error) && error@ == e,
        },
{
    if at >= list.len() {
        return Err(missing_text(name));
    }
    match &list[at] {
        Some(s) => Ok(s.clone()),
        None => Err(text::concat(name, " must be UTF-8")),
    }
}

fn parse_identity_action(list: &Vec<Option<String>>, at: usize) -> (r: Result<
    IdentityAction,
    String,
>)
    requires
        at + 4 <= usize::MAX,
    ensures
        match identity(arguments(list@), at as int) {
            Ok(action) => r matches Ok(found) && found@ == action && action_quotes(
                arguments(list@),
                found,
            ),
            Err(e) => r matches Err(error) && error@ == e,
        },
{
    if at >= list.len() {
        return Err(missing_text("identity action"));
    }
    if says(list, at, "enroll") {
        let owner = required_utf8_argument(list, at + 1, "owner ID")?;
        let certificate = required_argument(list, at + 2, "certificate PEM path")?;
        if at + 3 < list.len() {
            return Err(USAGE.to_owned());
        }
        return Ok(IdentityAction::Enroll { owner, certificate });
    }
    if says(list, at, "rotate") {
        let owner = required_utf8_argument(list, at + 1, "owner ID")?;
        let old_certificate = required_argument(list, at + 2, "old certificate PEM path")?;
        let new_certificate = required_argument(list, at + 3, "new certificate PEM path")?;
        if at + 4 < list.len() {
            return Err(USAGE.to_owned());
        }
        return Ok(IdentityAction::Rotate { owner, old_certificate, new_certificate });
    }
    if says(list, at, "revoke") {
        let certificate = required_argument(list, at + 1, "certificate PEM path")?;
        if at + 2 < list.len() {
            return Err(USAGE.to_owned());
        }
        return Ok(IdentityAction::Revoke { certificate });
    }
    Err(USAGE.to_owned())
}

fn parse_candidate_episode(
    list: &Vec<Option<String>>,
    at: usize,
    config_path: Option<PathArgument>,
) -> (r: Result<ServerCommand, String>)
    requires
        at + 4 <= usize::MAX,
        quotes_optional(arguments(list@), config_path),
    ensures
        match candidate_episode(arguments(list@), at as int, place(config_path)) {
            Ok(command) => r matches Ok(found) && found@ == command && command_quotes(
                arguments(list@),
                found,
            ),
            Err(e) => r matches Err(error) && error@ == e,
        },
{
    let _ = required_argument(list, at, "candidate Episode action")?;
    let candidate_config_path = required_argument(
        list,
        at + 1,
        "candidate Episode configuration path",
    )?;
    let (action, next) = if says(list, at, "validate") {
        (CandidateEpisodeAction::Validate, at + 2)
    } else if says(list, at, "run") {
        let _ = required_argument(list, at + 2, "provider dispatch authorization")?;
        if !says(list, at + 2, "--authorize-provider-dispatch") {
            return Err(USAGE.to_owned());
        }
        (CandidateEpisodeAction::RunAuthorized, at + 3)
    } else {
        return Err(USAGE.to_owned());
    };
    if next < list.len() {
        return Err(USAGE.to_owned());
    }
    Ok(ServerCommand::CandidateEpisode { config_path, candidate_config_path, action })
}

fn parse_candidate_record(
    list: &Vec<Option<String>>,
    at: usize,
    config_path: Option<PathArgument>,
) -> (r: Result<ServerCommand, String>)
    requires
        at + 4 <= usize::MAX,
        quotes_optional(arguments(list@), config_path),
    ensures
        match candidate_record(arguments(list@), at as int, place(config_path)) {
            Ok(command) => r matches Ok(found) && found@ == command && command_quotes(
                arguments(list@),
                found,
            ),
            Err(e) => r matches Err(error) && error@ == e,
        },
{
    let task_id = required_utf8_argument(list, at, "task ID")?;
    let _ = required_argument(list, at + 1, "record destination flag")?;
    if !says(list, at + 1, "--into") {
        return Err(USAGE.to_owned());
    }
    let into = required_argument(list, at + 2, "record directory")?;
    if at + 3 < list.len() {
        return Err(USAGE.to_owned());
    }
    Ok(ServerCommand::CandidateRecord { config_path, task_id, into })
}

impl ServerCommand {
    /// Reads the arguments behind the program's name; `None` stands for one that is no UTF-8.
    pub fn parse(list: &Vec<Option<String>>) -> (r: Result<Self, String>)
        ensures
            match parsed(arguments(list@)) {
                Ok(command) => r matches Ok(found) && found@ == command && command_quotes(
                    arguments(list@),
                    found,
                ),
                Err(e) => r matches Err(error) && error@ == e,
            },
    {
        let (config_path, at): (Option<PathArgument>, usize) = if list.len() > 0 && says(
            list,
            0,
            "--config",
        ) {
            (Some(required_argument(list, 1, "server configuration path")?), 2)
        } else {
            (None, 0)
        };
        if at >= list.len() {
            return Ok(ServerCommand::Serve { config_path });
        }
        if says(list, at, "bootstrap") && config_path.is_none() {
            let directory = required_argument(list, at + 1, "bootstrap directory")?;
            if at + 2 < list.len() {
                return Err(USAGE.to_owned());
            }
            return Ok(ServerCommand::Bootstrap { directory });
        }
        if says(list, at, "identity") {
            let action = parse_identity_action(list, at + 1)?;
            return Ok(ServerCommand::Identity { config_path, action });
        }
        if says(list, at, "candidate-episode") {
            return parse_candidate_episode(list, at + 1, config_path);
        }
        if says(list, at, "candidate-record") {
            return parse_candidate_record(list, at + 1, config_path);
        }
        Err(USAGE.to_owned())
    }
}

/// No provider is paid by accident: every command that runs a candidate carries the exact
/// authorization as its last argument.
pub proof fn runs_are_authorized(args: Arguments)
    requires
        parsed(args) matches Ok(
            CommandView::CandidateEpisode { action: CandidateEpisodeAction::RunAuthorized, .. },
        ),
    ensures
        args.len() > 0,
        args.last() == Some("--authorize-provider-dispatch"@),
{
}

/// Every command that is understood has its shape: an optional configuration path in front, the
/// words of the command, and nothing behind them. The paths are named by their places.
pub proof fn commands_have_their_shape(args: Arguments)
    ensures
        ({
            let prefixed = args.len() > 0 && args[0] == Some("--config"@);
            let b = if prefixed {
                2int
            } else {
                0int
            };
            let config = if prefixed {
                Some(1int)
            } else {
                None
            };
            match parsed(args) {
                Err(_) => true,
                Ok(CommandView::Bootstrap { directory }) => !prefixed && args.len() == 2 && args[0]
                    == Some("bootstrap"@) && directory == 1,
                Ok(CommandView::Serve { config_path }) => args.len() == b && config_path == config,
                Ok(CommandView::Identity { config_path, action }) => config_path == config
                    && args.len() > b + 1 && args[b] == Some("identity"@) && match action {
                    IdentityActionView::Enroll { owner, certificate } => args.len() == b + 4
                        && args[b + 1] == Some("enroll"@) && args[b + 2] == Some(owner)
                        && certificate == b + 3,
                    IdentityActionView::Rotate { owner, old_certificate, new_certificate } =>
                        args.len() == b + 5 && args[b + 1] == Some("rotate"@) && args[b + 2]
                            == Some(owner) && old_certificate == b + 3 && new_certificate == b + 4,
                    IdentityActionView::Revoke { certificate } => args.len() == b + 3 && args[b + 1]
                        == Some("revoke"@) && certificate == b + 2,
                },
                Ok(CommandView::CandidateEpisode { config_path, candidate_config_path, action }) =>
                    config_path == config && args.len() > b + 2 && args[b] == Some(
                        "candidate-episode"@,
                    ) && candidate_config_path == b + 2 && match action {
                        CandidateEpisodeAction::Validate => args.len() == b + 3 && args[b + 1]
                            == Some("validate"@),
                        CandidateEpisodeAction::RunAuthorized => args.len() == b + 4 && args[b + 1]
                            == Some("run"@) && args[b + 3] == Some(
                            "--authorize-provider-dispatch"@,
                        ),
                    },
                Ok(CommandView::CandidateRecord { config_path, task_id, into }) => config_path
                    == config && args.len() == b + 4 && args[b] == Some("candidate-record"@)
                    && args[b + 1] == Some(task_id) && args[b + 2] == Some("--into"@) && into == b
                    + 3,
            }
        }),
{
}

proof fn words_differ()
    ensures
        "--config"@ != "bootstrap"@,
        "--config"@ != "identity"@,
        "--config"@ != "candidate-episode"@,
        "--config"@ != "candidate-record"@,
        "bootstrap"@ != "identity"@,
        "bootstrap"@ != "candidate-episode"@,
        "bootstrap"@ != "candidate-record"@,
        "identity"@ != "candidate-episode"@,
        "identity"@ != "candidate-record"@,
        "candidate-episode"@ != "candidate-record"@,
        "enroll"@ != "rotate"@,
        "enroll"@ != "revoke"@,
        "rotate"@ != "revoke"@,
        "validate"@ != "run"@,
{
    reveal_strlit("--config");
    reveal_strlit("bootstrap");
    reveal_strlit("identity");
    reveal_strlit("candidate-episode");
    reveal_strlit("candidate-record");
    reveal_strlit("enroll");
    reveal_strlit("rotate");
    reveal_strlit("revoke");
    reveal_strlit("validate");
    reveal_strlit("run");
    assert("--config"@[0] == '-');
    assert("bootstrap"@[0] == 'b');
    assert("identity"@[0] == 'i');
    assert("candidate-episode"@[10] == 'e');
    assert("candidate-record"@[10] == 'r');
    assert("candidate-record"@[0] == 'c');
    assert("candidate-episode"@[0] == 'c');
    assert("enroll"@[0] == 'e');
    assert("rotate"@[1] == 'o');
    assert("revoke"@[1] == 'e');
    assert("rotate"@[0] == 'r');
    assert("revoke"@[0] == 'r');
    assert("validate"@.len() == 8);
    assert("run"@.len() == 3);
}

/// And every command of that shape is understood.
pub proof fn shaped_commands_are_understood(args: Arguments, b: int, config: Option<int>)
    requires
        b == 0 || b == 2,
        b == 0 ==> config is None && (args.len() > 0 ==> args[0] != Some("--config"@)),
        b == 2 ==> config == Some(1int) && args.len() >= 2 && args[0] == Some("--config"@),
    ensures
        args.len() == b ==> parsed(args) == Ok::<_, Seq<char>>(
            CommandView::Serve { config_path: config },
        ),
        args.len() == 2 && b == 0 && args[0] == Some("bootstrap"@) ==> parsed(args) == Ok::<
            _,
            Seq<char>,
        >(CommandView::Bootstrap { directory: 1 }),
        args.len() == b + 4 && args[b] == Some("identity"@) && args[b + 1] == Some("enroll"@)
            && args[b + 2] is Some ==> parsed(args) == Ok::<_, Seq<char>>(
            CommandView::Identity {
                config_path: config,
                action: IdentityActionView::Enroll { owner: args[b + 2]->0, certificate: b + 3 },
            },
        ),
        args.len() == b + 5 && args[b] == Some("identity"@) && args[b + 1] == Some("rotate"@)
            && args[b + 2] is Some ==> parsed(args) == Ok::<_, Seq<char>>(
            CommandView::Identity {
                config_path: config,
                action: IdentityActionView::Rotate {
                    owner: args[b + 2]->0,
                    old_certificate: b + 3,
                    new_certificate: b + 4,
                },
            },
        ),
        args.len() == b + 3 && args[b] == Some("identity"@) && args[b + 1] == Some("revoke"@)
            ==> parsed(args) == Ok::<_, Seq<char>>(
            CommandView::Identity {
                config_path: config,
                action: IdentityActionView::Revoke { certificate: b + 2 },
            },
        ),
        args.len() == b + 3 && args[b] == Some("candidate-episode"@) && args[b + 1] == Some(
            "validate"@,
        ) ==> parsed(args) == Ok::<_, Seq<char>>(
            CommandView::CandidateEpisode {
                config_path: config,
                candidate_config_path: b + 2,
                action: CandidateEpisodeAction::Validate,
            },
        ),
        args.len() == b + 4 && args[b] == Some("candidate-episode"@) && args[b + 1] == Some("run"@)
            && args[b + 3] == Some("--authorize-provider-dispatch"@) ==> parsed(args) == Ok::<
            _,
            Seq<char>,
        >(
            CommandView::CandidateEpisode {
                config_path: config,
                candidate_config_path: b + 2,
                action: CandidateEpisodeAction::RunAuthorized,
            },
        ),
        args.len() == b + 4 && args[b] == Some("candidate-record"@) && args[b + 1] is Some && args[b
            + 2] == Some("--into"@) ==> parsed(args) == Ok::<_, Seq<char>>(
            CommandView::CandidateRecord {
                config_path: config,
                task_id: args[b + 1]->0,
                into: b + 3,
            },
        ),
{
    words_differ();
}

/// A command that is cut short is refused with the word that is missing.
pub proof fn short_commands_are_explained(args: Arguments)
    ensures
        args == seq![Some("--config"@)] ==> parsed(args) == Err::<CommandView, Seq<char>>(
            "missing "@ + "server configuration path"@ + "; "@ + USAGE@,
        ),
        args == seq![Some("bootstrap"@)] ==> parsed(args) == Err::<CommandView, Seq<char>>(
            "missing "@ + "bootstrap directory"@ + "; "@ + USAGE@,
        ),
        args == seq![Some("identity"@)] ==> parsed(args) == Err::<CommandView, Seq<char>>(
            "missing "@ + "identity action"@ + "; "@ + USAGE@,
        ),
        args == seq![Some("candidate-episode"@)] ==> parsed(args) == Err::<CommandView, Seq<char>>(
            "missing "@ + "candidate Episode action"@ + "; "@ + USAGE@,
        ),
        args == seq![Some("candidate-record"@)] ==> parsed(args) == Err::<CommandView, Seq<char>>(
            "missing "@ + "task ID"@ + "; "@ + USAGE@,
        ),
{
    words_differ();
}

} // verus!
