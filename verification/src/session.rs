//! One run against the remote side, as a machine: from where the run
//! stands and what came back from the call that was out, to the lines to
//! print and the call to make next.
//!
//! A run opens the connection, makes the calls of its command one after the
//! other, and ends. Where a command reads a state and then sets its
//! opposite, the two calls are separate: a change made on the remote side
//! between them is overwritten.

use crate::command::{
    Cli, CliView, Commands, CommandsView, ObsWebsocket, ObsWebsocketView, Recording, Replay, SceneAction,
    SceneActionView, Streaming, StudioModeAction, VirtualCamera,
};
use crate::protocol::{Reply, ReplyView, Request, RequestView};
use crate::text::{debug_text, flag_name, flag_text, joined, json_object, json_object_text, quoted};
use crate::verb::Verb;
use vstd::prelude::*;

verus! {

/// Where a run stands: which call is out.
#[derive(Clone, Debug, PartialEq, Eq)]
pub enum Stage {
    /// The connection is being opened.
    Connecting,
    /// The one call of a command that makes a single call.
    Calling,
    /// The query for the live scene.
    ProgramScene,
    /// The query for the scene in the preview; `program` is the live one.
    PreviewScene { program: String },
    /// The query for studio mode, before it is switched over.
    StudioState,
    /// The call that switches studio mode over; `was` is the state found.
    StudioFlip { was: bool },
    /// The query for a filter's state, before it is switched over.
    FilterState,
    /// The call that sets a filter's state.
    FilterSet { enabled: bool },
    /// The lookup of a scene item's identifier.
    ItemId,
    /// The query for a scene item's state, before it is switched over.
    ItemState { item_id: i64 },
    /// The call that sets a scene item's state.
    ItemSet { item_id: i64, enabled: bool },
}

/// A [`Stage`] as plain values.
pub enum StageView {
    Connecting,
    Calling,
    ProgramScene,
    PreviewScene { program: Seq<char> },
    StudioState,
    StudioFlip { was: bool },
    FilterState,
    FilterSet { enabled: bool },
    ItemId,
    ItemState { item_id: i64 },
    ItemSet { item_id: i64, enabled: bool },
}

impl View for Stage {
    type V = StageView;

    open spec fn view(&self) -> StageView {
        match self {
            Stage::Connecting => StageView::Connecting,
            Stage::Calling => StageView::Calling,
            Stage::ProgramScene => StageView::ProgramScene,
            Stage::PreviewScene { program } => StageView::PreviewScene { program: program@ },
            Stage::StudioState => StageView::StudioState,
            Stage::StudioFlip { was } => StageView::StudioFlip { was: *was },
            Stage::FilterState => StageView::FilterState,
            Stage::FilterSet { enabled } => StageView::FilterSet { enabled: *enabled },
            Stage::ItemId => StageView::ItemId,
            Stage::ItemState { item_id } => StageView::ItemState { item_id: *item_id },
            Stage::ItemSet { item_id, enabled } => StageView::ItemSet {
                item_id: *item_id,
                enabled: *enabled,
            },
        }
    }
}

/// How a run ended.
#[derive(Clone, Copy, Debug, PartialEq, Eq, Structural)]
pub enum Outcome {
    /// The command is done; failures of its calls, if any, were printed.
    Success,
    /// The call that was out failed, or what came back was no answer to
    /// it, and the run ends on that with nothing printed.
    Failure,
}

/// What to do once the lines of a step are printed.
#[derive(Clone, Debug, PartialEq, Eq)]
pub enum Next {
    /// Make this call; the run then stands at `stage`.
    Call { request: Request, stage: Stage },
    /// The run is over.
    End(Outcome),
}

/// A [`Next`] as plain values.
pub enum NextView {
    Call { request: RequestView, stage: StageView },
    End(Outcome),
}

impl View for Next {
    type V = NextView;

    open spec fn view(&self) -> NextView {
        match self {
            Next::Call { request, stage } => NextView::Call { request: request@, stage: stage@ },
            Next::End(outcome) => NextView::End(*outcome),
        }
    }
}

/// One step of a run: the lines to print, in order, then what to do.
#[derive(Clone, Debug, PartialEq, Eq)]
pub struct Step {
    pub lines: Vec<String>,
    pub next: Next,
}

/// A [`Step`] as plain values.
pub struct StepView {
    pub lines: Seq<Seq<char>>,
    pub next: NextView,
}

impl View for Step {
    type V = StepView;

    open spec fn view(&self) -> StepView {
        StepView { lines: self.lines.deep_view(), next: self.next@ }
    }
}

/// The step that ends a run in failure, with nothing printed.
pub open spec fn halted() -> StepView {
    StepView { lines: Seq::empty(), next: NextView::End(Outcome::Failure) }
}

/// The step that prints `lines` and ends the run.
pub open spec fn finished(lines: Seq<Seq<char>>) -> StepView {
    StepView { lines, next: NextView::End(Outcome::Success) }
}

/// The step that prints `lines` and makes a call.
pub open spec fn calling(lines: Seq<Seq<char>>, request: RequestView, stage: StageView) -> StepView {
    StepView { lines, next: NextView::Call { request, stage } }
}

/// The address used where none is given.
pub open spec fn default_address() -> ObsWebsocketView {
    ObsWebsocketView { hostname: "localhost"@, port: 4455, password: Some("secret"@) }
}

impl ReplyView {
    /// The outcome of a call as `{:?}` prints the `Result` of it; none for
    /// an identifier or a structure, which no command prints this way.
    pub open spec fn shown(self) -> Option<Seq<char>> {
        match self {
            ReplyView::Failed(error) => Some("Err("@ + error + ")"@),
            ReplyView::Done => Some("Ok(())"@),
            ReplyView::Flag(flag) => Some("Ok("@ + flag_text(flag) + ")"@),
            ReplyView::Text(text) => Some("Ok("@ + debug_text(text) + ")"@),
            _ => None,
        }
    }

    /// The value that a call gave as `{:?}` prints it, for a truth value
    /// and for a structure; none for the rest.
    pub open spec fn bare(self) -> Option<Seq<char>> {
        match self {
            ReplyView::Flag(flag) => Some(flag_text(flag)),
            ReplyView::Report(text) => Some(text),
            _ => None,
        }
    }

    /// The name of the scene in the preview: the name that the query gave,
    /// and the empty name where it failed, as it does outside studio mode.
    pub open spec fn preview_name(self) -> Seq<char> {
        match self {
            ReplyView::Text(name) => name,
            _ => Seq::empty(),
        }
    }
}

impl CommandsView {
    /// The call of a command that makes a single call; none for the
    /// commands that make several or may make none.
    pub open spec fn single_call(self) -> Option<RequestView> {
        match self {
            CommandsView::Info => Some(RequestView::Version),
            CommandsView::Scene { action: SceneActionView::Preview { scene_name } } => Some(
                RequestView::SetCurrentPreviewScene { scene: scene_name },
            ),
            CommandsView::Scene { action: SceneActionView::List } => Some(RequestView::ListScenes),
            CommandsView::Scene { action: SceneActionView::Switch { scene_name } } => Some(
                RequestView::SetCurrentProgramScene { scene: scene_name },
            ),
            CommandsView::SceneCollection { scene_collection_name, .. } => Some(
                RequestView::SetCurrentSceneCollection { name: scene_collection_name },
            ),
            CommandsView::Streaming(action) => Some(RequestView::Streaming(action)),
            CommandsView::StudioMode { action: StudioModeAction::Enable } => Some(
                RequestView::SetStudioModeEnabled { enabled: true },
            ),
            CommandsView::StudioMode { action: StudioModeAction::Disable } => Some(
                RequestView::SetStudioModeEnabled { enabled: false },
            ),
            CommandsView::StudioMode { action: StudioModeAction::Status } => Some(
                RequestView::StudioModeEnabled,
            ),
            CommandsView::Recording(action) => Some(RequestView::Recording(action)),
            CommandsView::Replay(action) => Some(RequestView::Replay(action)),
            CommandsView::ToggleMute { device } => Some(RequestView::ToggleMute { device }),
            CommandsView::VirtualCamera(action) => Some(RequestView::VirtualCamera(action)),
            _ => None,
        }
    }

    /// Whether the run ends in failure where the command's single call
    /// fails. Otherwise the failure is printed and the run ends well.
    pub open spec fn strict(self) -> bool {
        match self {
            CommandsView::Info => true,
            CommandsView::Scene { action: SceneActionView::List } => true,
            CommandsView::StudioMode { action: StudioModeAction::Status } => true,
            CommandsView::Streaming(Streaming::Toggle) => true,
            CommandsView::Replay(Replay::Toggle) => true,
            CommandsView::VirtualCamera(VirtualCamera::Toggle) => true,
            _ => false,
        }
    }

    /// The lines printed before the command's first call.
    pub open spec fn announcement(self) -> Seq<Seq<char>> {
        match self {
            CommandsView::Filter { command, source, filter } => Seq::empty().push(
                "Filter: "@ + debug_text(command) + " "@ + debug_text(source) + " "@ + debug_text(
                    filter,
                ),
            ),
            CommandsView::SceneItem { command, scene, source } => Seq::empty().push(
                "Scene Item: "@ + debug_text(command) + " "@ + debug_text(scene) + " "@
                    + debug_text(source),
            ),
            CommandsView::Streaming(action) => Seq::empty().push(
                "Streaming "@ + action.name_text(),
            ),
            CommandsView::Recording(action) => Seq::empty().push(
                "Recording "@ + action.name_text(),
            ),
            CommandsView::Replay(action) => Seq::empty().push("Replay "@ + action.name_text()),
            CommandsView::ToggleMute { device } => Seq::empty().push(
                "Toggling mute on device: "@ + debug_text(device) + "  "@,
            ),
            CommandsView::VirtualCamera(action) => Seq::empty().push(
                "VirtualCamera "@ + action.name_text(),
            ),
            _ => Seq::empty(),
        }
    }

    /// The lines printed after the command's single call came back, before
    /// the line with what it gave.
    pub open spec fn heading(self) -> Seq<Seq<char>> {
        match self {
            CommandsView::Scene { action: SceneActionView::Preview { scene_name } } => Seq::empty(
            ).push("Switched preview to scene: "@ + debug_text(scene_name)),
            CommandsView::Scene { action: SceneActionView::Switch { scene_name } } => Seq::empty(
            ).push("Switched to scene: "@ + scene_name),
            CommandsView::SceneCollection {
                switch_placeholder,
                scene_collection_name,
            } => Seq::empty().push(
                "Set current scene collection: "@ + switch_placeholder + " "@
                    + scene_collection_name,
            ),
            CommandsView::StudioMode { action: StudioModeAction::Enable } => Seq::empty().push(
                "Enable Studio Mode"@,
            ),
            CommandsView::StudioMode { action: StudioModeAction::Disable } => Seq::empty().push(
                "Disable Studio Mode"@,
            ),
            CommandsView::Recording(Recording::Start) => Seq::empty().push("Recording started"@),
            CommandsView::Recording(Recording::Stop) => Seq::empty().push("Recording stopped"@),
            CommandsView::Recording(Recording::Toggle) => Seq::empty().push("Recording toggled"@),
            CommandsView::Streaming(Streaming::Start) => Seq::empty().push("Streaming started"@),
            CommandsView::Streaming(Streaming::Stop) => Seq::empty().push("Streaming stopped"@),
            CommandsView::Streaming(Streaming::Toggle) => Seq::empty().push("Streaming toggled"@),
            CommandsView::Replay(Replay::Start) => Seq::empty().push("Replay Buffer started"@),
            CommandsView::Replay(Replay::Stop) => Seq::empty().push("Replay Buffer stopped"@),
            CommandsView::Replay(Replay::Toggle) => Seq::empty().push("Replay Buffer toggled"@),
            CommandsView::Replay(Replay::Save) => Seq::empty().push("Buffer saved"@),
            _ => Seq::empty(),
        }
    }

    /// What the line with the outcome of the command's single call begins
    /// with.
    pub open spec fn label(self) -> Seq<char> {
        match self {
            CommandsView::Info => "Version: "@,
            CommandsView::Scene { action: SceneActionView::List } => "Scenes: "@,
            CommandsView::StudioMode { action: StudioModeAction::Disable } => "Scene: "@,
            CommandsView::StudioMode { action: StudioModeAction::Status } => "Studio Mode: "@,
            _ => "Result: "@,
        }
    }

    /// The step after the command's single call came back: the heading and
    /// the line with the outcome. A strict command prints the bare value
    /// and ends in failure where there is none; the others print the
    /// outcome, failure or value.
    pub open spec fn report(self, reply: ReplyView) -> StepView {
        let text = if self.strict() {
            reply.bare()
        } else {
            reply.shown()
        };
        match text {
            Some(text) => finished(self.heading().push(self.label() + text)),
            None => halted(),
        }
    }

    /// The step once the connection is open: the announcement and the
    /// command's first call. A filter command whose verb is no verb says
    /// so and ends the run, with no call made.
    pub open spec fn opening(self) -> StepView {
        match self {
            CommandsView::Scene { action: SceneActionView::Get } => calling(
                self.announcement(),
                RequestView::CurrentProgramScene,
                StageView::ProgramScene,
            ),
            CommandsView::StudioMode { action: StudioModeAction::Toggle } => calling(
                self.announcement(),
                RequestView::StudioModeEnabled,
                StageView::StudioState,
            ),
            CommandsView::Filter { command, source, filter } => match Verb::of(command) {
                Some(verb) => match verb.fixed() {
                    Some(enabled) => calling(
                        self.announcement(),
                        RequestView::SetFilterEnabled { source, filter, enabled },
                        StageView::FilterSet { enabled },
                    ),
                    None => calling(
                        self.announcement(),
                        RequestView::FilterEnabled { source, filter },
                        StageView::FilterState,
                    ),
                },
                None => finished(self.announcement().push("Invalid filter command: "@ + command)),
            },
            CommandsView::SceneItem { scene, source, .. } => calling(
                self.announcement(),
                RequestView::SceneItemId { scene, source, search_offset: 0 },
                StageView::ItemId,
            ),
            _ => match self.single_call() {
                Some(request) => calling(self.announcement(), request, StageView::Calling),
                None => halted(),
            },
        }
    }

    /// The step at `stage` once `reply`, an answer to the call that was
    /// out, is there.
    pub open spec fn progress(self, stage: StageView, reply: ReplyView) -> StepView {
        match stage {
            StageView::Connecting => match reply {
                ReplyView::Done => self.opening(),
                _ => halted(),
            },
            StageView::Calling => self.report(reply),
            StageView::ProgramScene => match reply {
                ReplyView::Text(program) => calling(
                    Seq::empty(),
                    RequestView::CurrentPreviewScene,
                    StageView::PreviewScene { program },
                ),
                _ => halted(),
            },
            StageView::PreviewScene { program } => finished(
                Seq::empty().push(
                    "Scenes: "@ + json_object_text(
                        "program"@,
                        program,
                        "preview"@,
                        reply.preview_name(),
                    ),
                ),
            ),
            StageView::StudioState => match reply {
                ReplyView::Flag(enabled) => calling(
                    Seq::empty(),
                    RequestView::SetStudioModeEnabled { enabled: !enabled },
                    StageView::StudioFlip { was: enabled },
                ),
                _ => halted(),
            },
            StageView::StudioFlip { was } => match reply {
                ReplyView::Done => finished(
                    Seq::empty().push(
                        "Toggle Studio Mode: "@ + (if was {
                            "Disabled"@
                        } else {
                            "Enabled"@
                        }),
                    ).push("Result: ()"@),
                ),
                _ => halted(),
            },
            StageView::FilterState => match (self, reply) {
                (
                    CommandsView::Filter { source, filter, .. },
                    ReplyView::Flag(enabled),
                ) => calling(
                    Seq::empty(),
                    RequestView::SetFilterEnabled { source, filter, enabled: !enabled },
                    StageView::FilterSet { enabled: !enabled },
                ),
                _ => halted(),
            },
            StageView::FilterSet { .. } | StageView::ItemSet { .. } => match reply.shown() {
                Some(text) => finished(Seq::empty().push("Result: "@ + text)),
                None => halted(),
            },
            StageView::ItemId => match (self, reply) {
                (
                    CommandsView::SceneItem { command, scene, .. },
                    ReplyView::Id(item_id),
                ) => match Verb::of(command) {
                    Some(verb) => match verb.fixed() {
                        Some(enabled) => calling(
                            Seq::empty(),
                            RequestView::SetSceneItemEnabled { scene, item_id, enabled },
                            StageView::ItemSet { item_id, enabled },
                        ),
                        None => calling(
                            Seq::empty(),
                            RequestView::SceneItemEnabled { scene, item_id },
                            StageView::ItemState { item_id },
                        ),
                    },
                    None => finished(
                        Seq::empty().push("Invalid scene item command: "@ + command),
                    ),
                },
                _ => halted(),
            },
            StageView::ItemState { item_id } => match (self, reply) {
                (CommandsView::SceneItem { scene, .. }, ReplyView::Flag(enabled)) => calling(
                    Seq::empty(),
                    RequestView::SetSceneItemEnabled { scene, item_id, enabled: !enabled },
                    StageView::ItemSet { item_id, enabled: !enabled },
                ),
                _ => halted(),
            },
        }
    }
}

impl CliView {
    /// The address that the run connects to: the one given, else the
    /// default.
    pub open spec fn address(self) -> ObsWebsocketView {
        match self.websocket {
            Some(address) => address,
            None => default_address(),
        }
    }

    /// The first step of a run: open the connection.
    pub open spec fn begin(self) -> StepView {
        calling(Seq::empty(), self.connect(), StageView::Connecting)
    }

    /// The call that opens the connection.
    pub open spec fn connect(self) -> RequestView {
        RequestView::Connect {
            hostname: self.address().hostname,
            port: self.address().port,
            password: self.address().password,
        }
    }

    /// The call that is out at `stage`; none where no run of this command
    /// comes to stand at `stage`.
    pub open spec fn pending(self, stage: StageView) -> Option<RequestView> {
        match (stage, self.command) {
            (StageView::Connecting, _) => Some(self.connect()),
            (StageView::Calling, command) => command.single_call(),
            (
                StageView::ProgramScene,
                CommandsView::Scene { action: SceneActionView::Get },
            ) => Some(RequestView::CurrentProgramScene),
            (
                StageView::PreviewScene { .. },
                CommandsView::Scene { action: SceneActionView::Get },
            ) => Some(RequestView::CurrentPreviewScene),
            (
                StageView::StudioState,
                CommandsView::StudioMode { action: StudioModeAction::Toggle },
            ) => Some(RequestView::StudioModeEnabled),
            (
                StageView::StudioFlip { was },
                CommandsView::StudioMode { action: StudioModeAction::Toggle },
            ) => Some(RequestView::SetStudioModeEnabled { enabled: !was }),
            (StageView::FilterState, CommandsView::Filter { command, source, filter }) => {
                if Verb::of(command) == Some(Verb::Toggle) {
                    Some(RequestView::FilterEnabled { source, filter })
                } else {
                    None
                }
            },
            (
                StageView::FilterSet { enabled },
                CommandsView::Filter { command, source, filter },
            ) => {
                if Verb::of(command) matches Some(verb) && verb.allows(enabled) {
                    Some(RequestView::SetFilterEnabled { source, filter, enabled })
                } else {
                    None
                }
            },
            (StageView::ItemId, CommandsView::SceneItem { scene, source, .. }) => Some(
                RequestView::SceneItemId { scene, source, search_offset: 0 },
            ),
            (StageView::ItemState { item_id }, CommandsView::SceneItem { command, scene, .. }) => {
                if Verb::of(command) == Some(Verb::Toggle) {
                    Some(RequestView::SceneItemEnabled { scene, item_id })
                } else {
                    None
                }
            },
            (
                StageView::ItemSet { item_id, enabled },
                CommandsView::SceneItem { command, scene, .. },
            ) => {
                if Verb::of(command) matches Some(verb) && verb.allows(enabled) {
                    Some(RequestView::SetSceneItemEnabled { scene, item_id, enabled })
                } else {
                    None
                }
            },
            _ => None,
        }
    }

    /// The step at `stage` once `reply` is there. Where no call is out at
    /// `stage`, or `reply` is no answer to the one that is, the run ends in
    /// failure.
    pub open spec fn advance(self, stage: StageView, reply: ReplyView) -> StepView {
        match self.pending(stage) {
            Some(request) => if reply.answers(request) {
                self.command.progress(stage, reply)
            } else {
                halted()
            },
            None => halted(),
        }
    }
}

/// No lines.
fn no_lines() -> (lines: Vec<String>)
    ensures
        lines.deep_view() == Seq::<Seq<char>>::empty(),
{
    let lines: Vec<String> = Vec::new();
    assert(lines.deep_view() =~= Seq::<Seq<char>>::empty());
    lines
}

/// `lines` and one more.
fn with_line(lines: Vec<String>, line: String) -> (longer: Vec<String>)
    ensures
        longer.deep_view() == lines.deep_view().push(line@),
{
    let mut longer = lines;
    longer.push(line);
    assert(longer.deep_view() =~= lines.deep_view().push(line@));
    longer
}

/// The one line `line`.
fn one_line(line: String) -> (lines: Vec<String>)
    ensures
        lines.deep_view() == Seq::<Seq<char>>::empty().push(line@),
{
    with_line(no_lines(), line)
}

/// The one line `line`.
fn the_line(line: &str) -> (lines: Vec<String>)
    ensures
        lines.deep_view() == Seq::<Seq<char>>::empty().push(line@),
{
    one_line(String::from_str(line))
}

impl Step {
    /// The step that ends a run in failure, with nothing printed.
    pub fn halted() -> (step: Step)
        ensures
            step@ == halted(),
    {
        Step { lines: no_lines(), next: Next::End(Outcome::Failure) }
    }

    /// The step that prints `lines` and ends the run.
    pub fn finished(lines: Vec<String>) -> (step: Step)
        ensures
            step@ == finished(lines.deep_view()),
    {
        Step { lines, next: Next::End(Outcome::Success) }
    }

    /// The step that prints `lines` and makes a call.
    pub fn calling(lines: Vec<String>, request: Request, stage: Stage) -> (step: Step)
        ensures
            step@ == calling(lines.deep_view(), request@, stage@),
    {
        Step { lines, next: Next::Call { request, stage } }
    }
}

impl Reply {
    /// The outcome of a call as `{:?}` prints the `Result` of it.
    pub fn shown(&self) -> (text: Option<String>)
        ensures
            text.deep_view() == self@.shown(),
    {
        match self {
            Reply::Failed(error) => {
                let mut text = joined("Err(", error.as_str());
                text.append(")");
                Some(text)
            },
            Reply::Done => Some(String::from_str("Ok(())")),
            Reply::Flag(flag) => {
                let mut text = joined("Ok(", flag_name(*flag));
                text.append(")");
                Some(text)
            },
            Reply::Text(value) => {
                let mut text = joined("Ok(", quoted(value.as_str()).as_str());
                text.append(")");
                Some(text)
            },
            _ => None,
        }
    }

    /// The value that a call gave as `{:?}` prints it.
    pub fn bare(&self) -> (text: Option<String>)
        ensures
            text.deep_view() == self@.bare(),
    {
        match self {
            Reply::Flag(flag) => Some(String::from_str(flag_name(*flag))),
            Reply::Report(text) => Some(text.clone()),
            _ => None,
        }
    }

    /// The name of the scene in the preview, empty where the query failed.
    pub fn preview_name(&self) -> (name: String)
        ensures
            name@ == self@.preview_name(),
    {
        match self {
            Reply::Text(name) => name.clone(),
            _ => String::new(),
        }
    }
}

impl Commands {
    /// The call of a command that makes a single call.
    pub fn single_call(&self) -> (request: Option<Request>)
        ensures
            match request {
                Some(request) => self@.single_call() == Some(request@),
                None => self@.single_call() is None,
            },
    {
        match self {
            Commands::Info => Some(Request::Version),
            Commands::Scene { action: SceneAction::Preview { scene_name } } => Some(
                Request::SetCurrentPreviewScene { scene: scene_name.clone() },
            ),
            Commands::Scene { action: SceneAction::List } => Some(Request::ListScenes),
            Commands::Scene { action: SceneAction::Switch { scene_name } } => Some(
                Request::SetCurrentProgramScene { scene: scene_name.clone() },
            ),
            Commands::SceneCollection { scene_collection_name, .. } => Some(
                Request::SetCurrentSceneCollection { name: scene_collection_name.clone() },
            ),
            Commands::Streaming(action) => Some(Request::Streaming(*action)),
            Commands::StudioMode { action: StudioModeAction::Enable } => Some(
                Request::SetStudioModeEnabled { enabled: true },
            ),
            Commands::StudioMode { action: StudioModeAction::Disable } => Some(
                Request::SetStudioModeEnabled { enabled: false },
            ),
            Commands::StudioMode { action: StudioModeAction::Status } => Some(
                Request::StudioModeEnabled,
            ),
            Commands::Recording(action) => Some(Request::Recording(*action)),
            Commands::Replay(action) => Some(Request::Replay(*action)),
            Commands::ToggleMute { device } => Some(Request::ToggleMute { device: device.clone() }),
            Commands::VirtualCamera(action) => Some(Request::VirtualCamera(*action)),
            _ => None,
        }
    }

    /// Whether the run ends in failure where the command's single call
    /// fails.
    pub fn strict(&self) -> (strict: bool)
        ensures
            strict == self@.strict(),
    {
        match self {
            Commands::Info => true,
            Commands::Scene { action: SceneAction::List } => true,
            Commands::StudioMode { action: StudioModeAction::Status } => true,
            Commands::Streaming(Streaming::Toggle) => true,
            Commands::Replay(Replay::Toggle) => true,
            Commands::VirtualCamera(VirtualCamera::Toggle) => true,
            _ => false,
        }
    }

    /// The lines printed before the command's first call.
    pub fn announcement(&self) -> (lines: Vec<String>)
        ensures
            lines.deep_view() == self@.announcement(),
    {
        match self {
            Commands::Filter { command, source, filter } => {
                let mut line = joined("Filter: ", quoted(command.as_str()).as_str());
                line.append(" ");
                line.append(quoted(source.as_str()).as_str());
                line.append(" ");
                line.append(quoted(filter.as_str()).as_str());
                one_line(line)
            },
            Commands::SceneItem { command, scene, source } => {
                let mut line = joined("Scene Item: ", quoted(command.as_str()).as_str());
                line.append(" ");
                line.append(quoted(scene.as_str()).as_str());
                line.append(" ");
                line.append(quoted(source.as_str()).as_str());
                one_line(line)
            },
            Commands::Streaming(action) => one_line(joined("Streaming ", action.name())),
            Commands::Recording(action) => one_line(joined("Recording ", action.name())),
            Commands::Replay(action) => one_line(joined("Replay ", action.name())),
            Commands::ToggleMute { device } => {
                let mut line = joined("Toggling mute on device: ", quoted(device.as_str()).as_str());
                line.append("  ");
                one_line(line)
            },
            Commands::VirtualCamera(action) => one_line(joined("VirtualCamera ", action.name())),
            _ => no_lines(),
        }
    }

    /// The lines printed after the command's single call came back, before
    /// the line with what it gave.
    pub fn heading(&self) -> (lines: Vec<String>)
        ensures
            lines.deep_view() == self@.heading(),
    {
        match self {
            Commands::Scene { action: SceneAction::Preview { scene_name } } => one_line(
                joined("Switched preview to scene: ", quoted(scene_name.as_str()).as_str()),
            ),
            Commands::Scene { action: SceneAction::Switch { scene_name } } => one_line(
                joined("Switched to scene: ", scene_name.as_str()),
            ),
            Commands::SceneCollection { switch_placeholder, scene_collection_name } => {
                let mut line = joined("Set current scene collection: ", switch_placeholder.as_str());
                line.append(" ");
                line.append(scene_collection_name.as_str());
                one_line(line)
            },
            Commands::StudioMode { action: StudioModeAction::Enable } => the_line(
                "Enable Studio Mode",
            ),
            Commands::StudioMode { action: StudioModeAction::Disable } => the_line(
                "Disable Studio Mode",
            ),
            Commands::Recording(Recording::Start) => the_line("Recording started"),
            Commands::Recording(Recording::Stop) => the_line("Recording stopped"),
            Commands::Recording(Recording::Toggle) => the_line("Recording toggled"),
            Commands::Streaming(Streaming::Start) => the_line("Streaming started"),
            Commands::Streaming(Streaming::Stop) => the_line("Streaming stopped"),
            Commands::Streaming(Streaming::Toggle) => the_line("Streaming toggled"),
            Commands::Replay(Replay::Start) => the_line("Replay Buffer started"),
            Commands::Replay(Replay::Stop) => the_line("Replay Buffer stopped"),
            Commands::Replay(Replay::Toggle) => the_line("Replay Buffer toggled"),
            Commands::Replay(Replay::Save) => the_line("Buffer saved"),
            _ => no_lines(),
        }
    }

    /// What the line with the outcome of the command's single call begins
    /// with.
    pub fn label(&self) -> (label: &'static str)
        ensures
            label@ == self@.label(),
    {
        match self {
            Commands::Info => "Version: ",
            Commands::Scene { action: SceneAction::List } => "Scenes: ",
            Commands::StudioMode { action: StudioModeAction::Disable } => "Scene: ",
            Commands::StudioMode { action: StudioModeAction::Status } => "Studio Mode: ",
            _ => "Result: ",
        }
    }

    /// The step after the command's single call came back.
    pub fn report(&self, reply: &Reply) -> (step: Step)
        ensures
            step@ == self@.report(reply@),
    {
        let text = if self.strict() {
            reply.bare()
        } else {
            reply.shown()
        };
        match text {
            Some(text) => Step::finished(
                with_line(self.heading(), joined(self.label(), text.as_str())),
            ),
            None => Step::halted(),
        }
    }

    /// The step once the connection is open.
    pub fn opening(&self) -> (step: Step)
        ensures
            step@ == self@.opening(),
    {
        match self {
            Commands::Scene { action: SceneAction::Get } => Step::calling(
                self.announcement(),
                Request::CurrentProgramScene,
                Stage::ProgramScene,
            ),
            Commands::StudioMode { action: StudioModeAction::Toggle } => Step::calling(
                self.announcement(),
                Request::StudioModeEnabled,
                Stage::StudioState,
            ),
            Commands::Filter { command, source, filter } => match Verb::parse(command.as_str()) {
                Some(verb) => match verb.fixed() {
                    Some(enabled) => Step::calling(
                        self.announcement(),
                        Request::SetFilterEnabled {
                            source: source.clone(),
                            filter: filter.clone(),
                            enabled,
                        },
                        Stage::FilterSet { enabled },
                    ),
                    None => Step::calling(
                        self.announcement(),
                        Request::FilterEnabled { source: source.clone(), filter: filter.clone() },
                        Stage::FilterState,
                    ),
                },
                None => Step::finished(
                    with_line(
                        self.announcement(),
                        joined("Invalid filter command: ", command.as_str()),
                    ),
                ),
            },
            Commands::SceneItem { scene, source, .. } => Step::calling(
                self.announcement(),
                Request::SceneItemId {
                    scene: scene.clone(),
                    source: source.clone(),
                    search_offset: 0,
                },
                Stage::ItemId,
            ),
            _ => match self.single_call() {
                Some(request) => Step::calling(self.announcement(), request, Stage::Calling),
                None => Step::halted(),
            },
        }
    }

    /// The step at `stage` once `reply`, an answer to the call that was
    /// out, is there.
    pub fn progress(&self, stage: &Stage, reply: &Reply) -> (step: Step)
        ensures
            step@ == self@.progress(stage@, reply@),
    {
        match stage {
            Stage::Connecting => match reply {
                Reply::Done => self.opening(),
                _ => Step::halted(),
            },
            Stage::Calling => self.report(reply),
            Stage::ProgramScene => match reply {
                Reply::Text(program) => Step::calling(
                    no_lines(),
                    Request::CurrentPreviewScene,
                    Stage::PreviewScene { program: program.clone() },
                ),
                _ => Step::halted(),
            },
            Stage::PreviewScene { program } => {
                let preview = reply.preview_name();
                let object = json_object("program", program.as_str(), "preview", preview.as_str());
                Step::finished(one_line(joined("Scenes: ", object.as_str())))
            },
            Stage::StudioState => match reply {
                Reply::Flag(enabled) => Step::calling(
                    no_lines(),
                    Request::SetStudioModeEnabled { enabled: !*enabled },
                    Stage::StudioFlip { was: *enabled },
                ),
                _ => Step::halted(),
            },
            Stage::StudioFlip { was } => match reply {
                Reply::Done => {
                    let now = if *was {
                        "Disabled"
                    } else {
                        "Enabled"
                    };
                    let lines = one_line(joined("Toggle Studio Mode: ", now));
                    Step::finished(with_line(lines, String::from_str("Result: ()")))
                },
                _ => Step::halted(),
            },
            Stage::FilterState => match self {
                Commands::Filter { source, filter, .. } => match reply {
                    Reply::Flag(enabled) => Step::calling(
                        no_lines(),
                        Request::SetFilterEnabled {
                            source: source.clone(),
                            filter: filter.clone(),
                            enabled: !*enabled,
                        },
                        Stage::FilterSet { enabled: !*enabled },
                    ),
                    _ => Step::halted(),
                },
                _ => Step::halted(),
            },
            Stage::FilterSet { .. } | Stage::ItemSet { .. } => match reply.shown() {
                Some(text) => Step::finished(one_line(joined("Result: ", text.as_str()))),
                None => Step::halted(),
            },
            Stage::ItemId => match self {
                Commands::SceneItem { command, scene, .. } => match reply {
                    Reply::Id(item_id) => match Verb::parse(command.as_str()) {
                        Some(verb) => match verb.fixed() {
                            Some(enabled) => Step::calling(
                                no_lines(),
                                Request::SetSceneItemEnabled {
                                    scene: scene.clone(),
                                    item_id: *item_id,
                                    enabled,
                                },
                                Stage::ItemSet { item_id: *item_id, enabled },
                            ),
                            None => Step::calling(
                                no_lines(),
                                Request::SceneItemEnabled {
                                    scene: scene.clone(),
                                    item_id: *item_id,
                                },
                                Stage::ItemState { item_id: *item_id },
                            ),
                        },
                        None => Step::finished(
                            one_line(joined("Invalid scene item command: ", command.as_str())),
                        ),
                    },
                    _ => Step::halted(),
                },
                _ => Step::halted(),
            },
            Stage::ItemState { item_id } => match self {
                Commands::SceneItem { scene, .. } => match reply {
                    Reply::Flag(enabled) => Step::calling(
                        no_lines(),
                        Request::SetSceneItemEnabled {
                            scene: scene.clone(),
                            item_id: *item_id,
                            enabled: !*enabled,
                        },
                        Stage::ItemSet { item_id: *item_id, enabled: !*enabled },
                    ),
                    _ => Step::halted(),
                },
                _ => Step::halted(),
            },
        }
    }
}

impl Cli {
    /// The address that the run connects to: the one given, else
    /// `localhost`, port 4455, with the credential `secret`.
    pub fn address(&self) -> (address: ObsWebsocket)
        ensures
            address@ == self@.address(),
    {
        match &self.websocket {
            Some(given) => ObsWebsocket {
                hostname: given.hostname.clone(),
                port: given.port,
                password: match &given.password {
                    Some(password) => Some(password.clone()),
                    None => None,
                },
            },
            None => ObsWebsocket {
                hostname: String::from_str("localhost"),
                port: 4455,
                password: Some(String::from_str("secret")),
            },
        }
    }

    /// The call that opens the connection, to [`Cli::address`].
    pub fn connect(&self) -> (request: Request)
        ensures
            request@ == self@.connect(),
    {
        let address = self.address();
        Request::Connect {
            hostname: address.hostname,
            port: address.port,
            password: address.password,
        }
    }

    /// The first step of a run: open the connection.
    pub fn begin(&self) -> (step: Step)
        ensures
            step@ == self@.begin(),
    {
        Step::calling(no_lines(), self.connect(), Stage::Connecting)
    }

    /// The call that is out at `stage`; none where no run of this command
    /// comes to stand at `stage`.
    pub fn pending(&self, stage: &Stage) -> (request: Option<Request>)
        ensures
            match request {
                Some(request) => self@.pending(stage@) == Some(request@),
                None => self@.pending(stage@) is None,
            },
    {
        match stage {
            Stage::Connecting => Some(self.connect()),
            Stage::Calling => self.command.single_call(),
            Stage::ProgramScene => match &self.command {
                Commands::Scene { action: SceneAction::Get } => Some(Request::CurrentProgramScene),
                _ => None,
            },
            Stage::PreviewScene { .. } => match &self.command {
                Commands::Scene { action: SceneAction::Get } => Some(Request::CurrentPreviewScene),
                _ => None,
            },
            Stage::StudioState => match &self.command {
                Commands::StudioMode { action: StudioModeAction::Toggle } => Some(
                    Request::StudioModeEnabled,
                ),
                _ => None,
            },
            Stage::StudioFlip { was } => match &self.command {
                Commands::StudioMode { action: StudioModeAction::Toggle } => Some(
                    Request::SetStudioModeEnabled { enabled: !*was },
                ),
                _ => None,
            },
            Stage::FilterState => match &self.command {
                Commands::Filter { command, source, filter } => match Verb::parse(
                    command.as_str(),
                ) {
                    Some(Verb::Toggle) => Some(
                        Request::FilterEnabled { source: source.clone(), filter: filter.clone() },
                    ),
                    _ => None,
                },
                _ => None,
            },
            Stage::FilterSet { enabled } => match &self.command {
                Commands::Filter { command, source, filter } => match Verb::parse(
                    command.as_str(),
                ) {
                    Some(verb) => if verb.allows(*enabled) {
                        Some(
                            Request::SetFilterEnabled {
                                source: source.clone(),
                                filter: filter.clone(),
                                enabled: *enabled,
                            },
                        )
                    } else {
                        None
                    },
                    None => None,
                },
                _ => None,
            },
            Stage::ItemId => match &self.command {
                Commands::SceneItem { scene, source, .. } => Some(
                    Request::SceneItemId {
                        scene: scene.clone(),
                        source: source.clone(),
                        search_offset: 0,
                    },
                ),
                _ => None,
            },
            Stage::ItemState { item_id } => match &self.command {
                Commands::SceneItem { command, scene, .. } => match Verb::parse(command.as_str()) {
                    Some(Verb::Toggle) => Some(
                        Request::SceneItemEnabled { scene: scene.clone(), item_id: *item_id },
                    ),
                    _ => None,
                },
                _ => None,
            },
            Stage::ItemSet { item_id, enabled } => match &self.command {
                Commands::SceneItem { command, scene, .. } => match Verb::parse(command.as_str()) {
                    Some(verb) => if verb.allows(*enabled) {
                        Some(
                            Request::SetSceneItemEnabled {
                                scene: scene.clone(),
                                item_id: *item_id,
                                enabled: *enabled,
                            },
                        )
                    } else {
                        None
                    },
                    None => None,
                },
                _ => None,
            },
        }
    }

    /// The step at `stage` once `reply` is there: the lines to print and
    /// the call to make next, or the end of the run.
    pub fn advance(&self, stage: &Stage, reply: &Reply) -> (step: Step)
        ensures
            step@ == self@.advance(stage@, reply@),
    {
        match self.pending(stage) {
            Some(request) => if reply.answers(&request) {
                self.command.progress(stage, reply)
            } else {
                Step::halted()
            },
            None => Step::halted(),
        }
    }
}

} // verus!
