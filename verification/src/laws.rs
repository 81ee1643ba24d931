//! What holds of addresses and of runs, whatever the inputs.

use crate::address::{
    address_from, address_of, credential_of, invalid_format_text, missing_port_text, scheme_text,
    UrlPartsView,
};
use crate::command::{
    CliView, CommandsView, ObsWebsocketView, SceneActionView, StudioModeAction,
};
use crate::protocol::{ReplyView, RequestView};
use crate::session::{calling, default_address, finished, halted, NextView, Outcome, StageView};
use crate::text::json_object_text;
use crate::verb::Verb;
use vstd::prelude::*;

verus! {

/// Components of the scheme `obsws` with a host and a port denote the
/// address of that host and port. With no path the address carries no
/// credential; with the path `/` followed by `rest` it carries `rest` as it
/// stands, further slashes and all.
pub proof fn credential_is_path_after_slash(parts: UrlPartsView, rest: Seq<char>)
    requires
        parts.scheme == scheme_text(),
        parts.host is Some,
        parts.port is Some,
    ensures
        address_of(parts) == Ok::<ObsWebsocketView, Seq<char>>(
            ObsWebsocketView {
                hostname: parts.host->0,
                port: parts.port->0,
                password: credential_of(parts.path),
            },
        ),
        parts.path.len() == 0 ==> credential_of(parts.path) == None::<Seq<char>>,
        parts.path == "/"@ + rest ==> credential_of(parts.path) == Some(rest),
{
    reveal_strlit("/");
    assert(("/"@ + rest).subrange(1, ("/"@ + rest).len() as int) =~= rest);
}

/// The two messages differ, so a caller can tell the failures apart.
pub proof fn messages_differ()
    ensures
        invalid_format_text() != missing_port_text(),
{
    reveal_strlit("Invalid URL format, use the format obsws://hostname:port/password");
    reveal_strlit("Please specify a port in the format obsws://hostname:port/password");
    assert(invalid_format_text()[0] == 'I');
    assert(missing_port_text()[0] == 'P');
}

/// An address is read exactly where the scheme is `obsws` and a host and a
/// port are given. A string that is no URL, and a URL of another scheme,
/// get the message on the format; a URL of the scheme without a port gets
/// the message on the port.
pub proof fn address_failures(parts: UrlPartsView)
    ensures
        address_from(None) == Err::<ObsWebsocketView, Seq<char>>(invalid_format_text()),
        address_from(Some(parts)) == address_of(parts),
        address_of(parts) is Ok <==> parts.scheme == scheme_text() && parts.host is Some
            && parts.port is Some,
        parts.scheme != scheme_text() ==> address_of(parts) == Err::<ObsWebsocketView, Seq<char>>(
            invalid_format_text(),
        ),
        parts.scheme == scheme_text() && parts.port is None ==> address_of(parts) == Err::<
            ObsWebsocketView,
            Seq<char>,
        >(missing_port_text()),
{
}

/// With no address given, a run connects to `localhost`, port 4455, with
/// the credential `secret`; with one given, to that one.
pub proof fn run_connects_to_effective_address(cli: CliView)
    ensures
        cli.websocket is None ==> cli.address() == default_address(),
        cli.websocket matches Some(address) ==> cli.address() == address,
        cli.begin() == calling(
            Seq::empty(),
            RequestView::Connect {
                hostname: cli.address().hostname,
                port: cli.address().port,
                password: cli.address().password,
            },
            StageView::Connecting,
        ),
        cli.pending(StageView::Connecting) == Some(cli.connect()),
{
}

/// The three verbs are read from their words, and each sets what it says:
/// `enable` sets true, `disable` sets false, `toggle` sets the opposite of
/// the state found.
pub proof fn verbs_set_what_they_say(current: bool)
    ensures
        Verb::of("enable"@) == Some(Verb::Enable),
        Verb::of("disable"@) == Some(Verb::Disable),
        Verb::of("toggle"@) == Some(Verb::Toggle),
        Verb::Enable.target(current) == true,
        Verb::Disable.target(current) == false,
        Verb::Toggle.target(current) == !current,
{
    reveal_strlit("enable");
    reveal_strlit("disable");
    reveal_strlit("toggle");
    assert("enable"@.len() != "disable"@.len());
    assert("toggle"@.len() != "disable"@.len());
    assert("toggle"@[0] != "enable"@[0]);
}

/// A filter command sets the state that its verb says. A verb that names
/// a state has it set by the first call after connecting; `toggle` has
/// the state read first, and its opposite set by the call after. A word
/// that is no verb ends the run with a message, and no call is made.
pub proof fn filter_command_sets_target(
    cli: CliView,
    command: Seq<char>,
    source: Seq<char>,
    filter: Seq<char>,
    current: bool,
)
    requires
        cli.command == (CommandsView::Filter { command, source, filter }),
    ensures
        ({
            let first = cli.advance(StageView::Connecting, ReplyView::Done);
            let second = cli.advance(StageView::FilterState, ReplyView::Flag(current));
            match Verb::of(command) {
                Some(verb) => {
                    let enabled = verb.target(current);
                    let set = NextView::Call {
                        request: RequestView::SetFilterEnabled { source, filter, enabled },
                        stage: StageView::FilterSet { enabled },
                    };
                    if verb == Verb::Toggle {
                        &&& first.next == NextView::Call {
                            request: RequestView::FilterEnabled { source, filter },
                            stage: StageView::FilterState,
                        }
                        &&& second.next == set
                    } else {
                        first.next == set
                    }
                },
                None => {
                    &&& first == finished(
                        cli.command.announcement().push("Invalid filter command: "@ + command),
                    )
                    &&& second == halted()
                },
            }
        }),
{
}

/// A scene item command looks the item up first, searching from the first
/// match, and then sets the state that its verb says, as a filter command
/// does. A word that is no verb ends the run with a message once the
/// lookup is back, and no state is read or set.
pub proof fn scene_item_command_sets_target(
    cli: CliView,
    command: Seq<char>,
    scene: Seq<char>,
    source: Seq<char>,
    item_id: i64,
    current: bool,
)
    requires
        cli.command == (CommandsView::SceneItem { command, scene, source }),
    ensures
        ({
            let first = cli.advance(StageView::Connecting, ReplyView::Done);
            let second = cli.advance(StageView::ItemId, ReplyView::Id(item_id));
            let third = cli.advance(StageView::ItemState { item_id }, ReplyView::Flag(current));
            &&& first == calling(
                cli.command.announcement(),
                RequestView::SceneItemId { scene, source, search_offset: 0 },
                StageView::ItemId,
            )
            &&& match Verb::of(command) {
                Some(verb) => {
                    let enabled = verb.target(current);
                    let set = NextView::Call {
                        request: RequestView::SetSceneItemEnabled { scene, item_id, enabled },
                        stage: StageView::ItemSet { item_id, enabled },
                    };
                    if verb == Verb::Toggle {
                        &&& second.next == NextView::Call {
                            request: RequestView::SceneItemEnabled { scene, item_id },
                            stage: StageView::ItemState { item_id },
                        }
                        &&& third.next == set
                    } else {
                        second.next == set
                    }
                },
                None => {
                    &&& second == finished(
                        Seq::empty().push("Invalid scene item command: "@ + command),
                    )
                    &&& third == halted()
                },
            }
        }),
{
}

/// With a word that is no verb, the one call that a filter or scene item
/// command ever makes after connecting is the lookup of the item: nothing
/// on the remote side is changed.
pub proof fn no_verb_changes_nothing(cli: CliView, stage: StageView, reply: ReplyView)
    requires
        match cli.command {
            CommandsView::Filter { command, .. } => Verb::of(command) is None,
            CommandsView::SceneItem { command, .. } => Verb::of(command) is None,
            _ => false,
        },
    ensures
        cli.advance(stage, reply).next matches NextView::Call { request, .. }
            ==> request is SceneItemId,
{
}

/// Where the lookup of a scene item fails, the run ends on that failure:
/// nothing is printed and no further call is made.
pub proof fn failed_lookup_ends_run(cli: CliView, error: Seq<char>)
    requires
        cli.command is SceneItem,
    ensures
        cli.advance(StageView::ItemId, ReplyView::Failed(error)) == halted(),
        halted().lines.len() == 0,
        halted().next == NextView::End(Outcome::Failure),
{
}

/// The scene query asks for the live scene, then for the scene in the
/// preview, and prints both as one JSON object. Where the second query
/// fails, as it does outside studio mode, the preview is the empty name
/// and the run still ends well.
pub proof fn scene_query_survives_missing_preview(
    cli: CliView,
    program: Seq<char>,
    preview: Seq<char>,
    error: Seq<char>,
)
    requires
        cli.command == (CommandsView::Scene { action: SceneActionView::Get }),
    ensures
        cli.advance(StageView::Connecting, ReplyView::Done) == calling(
            Seq::empty(),
            RequestView::CurrentProgramScene,
            StageView::ProgramScene,
        ),
        cli.advance(StageView::ProgramScene, ReplyView::Text(program)) == calling(
            Seq::empty(),
            RequestView::CurrentPreviewScene,
            StageView::PreviewScene { program },
        ),
        cli.advance(StageView::ProgramScene, ReplyView::Failed(error)) == halted(),
        cli.advance(StageView::PreviewScene { program }, ReplyView::Text(preview)) == finished(
            Seq::empty().push(
                "Scenes: "@ + json_object_text("program"@, program, "preview"@, preview),
            ),
        ),
        cli.advance(StageView::PreviewScene { program }, ReplyView::Failed(error)) == finished(
            Seq::empty().push(
                "Scenes: "@ + json_object_text("program"@, program, "preview"@, Seq::empty()),
            ),
        ),
{
}

/// Switching studio mode over reads the state, sets its opposite, and says
/// which state that is. Either call failing ends the run.
pub proof fn studio_toggle_sets_opposite(cli: CliView, was: bool, error: Seq<char>)
    requires
        cli.command == (CommandsView::StudioMode { action: StudioModeAction::Toggle }),
    ensures
        cli.advance(StageView::Connecting, ReplyView::Done) == calling(
            Seq::empty(),
            RequestView::StudioModeEnabled,
            StageView::StudioState,
        ),
        cli.advance(StageView::StudioState, ReplyView::Flag(was)) == calling(
            Seq::empty(),
            RequestView::SetStudioModeEnabled { enabled: !was },
            StageView::StudioFlip { was },
        ),
        cli.advance(StageView::StudioFlip { was }, ReplyView::Done) == finished(
            Seq::empty().push(
                "Toggle Studio Mode: "@ + (if was {
                    "Disabled"@
                } else {
                    "Enabled"@
                }),
            ).push("Result: ()"@),
        ),
        cli.advance(StageView::StudioState, ReplyView::Failed(error)) == halted(),
        cli.advance(StageView::StudioFlip { was }, ReplyView::Failed(error)) == halted(),
{
}

/// How many calls a run can still make once the call at `stage` is back.
pub open spec fn calls_left(stage: StageView) -> nat {
    match stage {
        StageView::Connecting => 3,
        StageView::ItemId => 2,
        StageView::ProgramScene
        | StageView::StudioState
        | StageView::FilterState
        | StageView::ItemState { .. } => 1,
        _ => 0,
    }
}

/// A run keeps to its command. The call that a step asks for is the one
/// that is out at the stage it hands on; it is never a second connection;
/// and it leaves fewer calls to come, so that a run makes at most three
/// calls once connected. A run that ends in failure prints nothing in its
/// last step.
pub proof fn run_keeps_to_command(cli: CliView, stage: StageView, reply: ReplyView)
    ensures
        cli.begin().next matches NextView::Call { request, stage: first }
            && cli.pending(first) == Some(request),
        cli.advance(stage, reply).next matches NextView::Call { request, stage: after } ==> {
            &&& cli.pending(after) == Some(request)
            &&& !(request is Connect)
            &&& calls_left(after) < calls_left(stage)
        },
        cli.advance(stage, reply).next == NextView::End(Outcome::Failure) ==> cli.advance(
            stage,
            reply,
        ).lines.len() == 0,
        cli.pending(stage) is None || !reply.answers(cli.pending(stage)->0) ==> cli.advance(
            stage,
            reply,
        ) == halted(),
{
}

} // verus!
