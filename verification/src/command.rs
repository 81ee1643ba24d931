//! The command vocabulary: what the operator can ask for.

use vstd::prelude::*;

verus! {

/// Where the control socket listens, and the credential to present there.
#[derive(Clone, Debug, PartialEq, Eq)]
pub struct ObsWebsocket {
    pub hostname: String,
    pub port: u16,
    pub password: Option<String>,
}

/// An [`ObsWebsocket`] as plain values.
pub struct ObsWebsocketView {
    pub hostname: Seq<char>,
    pub port: u16,
    pub password: Option<Seq<char>>,
}

impl View for ObsWebsocket {
    type V = ObsWebsocketView;

    open spec fn view(&self) -> ObsWebsocketView {
        ObsWebsocketView {
            hostname: self.hostname@,
            port: self.port,
            password: self.password.deep_view(),
        }
    }
}

/// What to do with the replay buffer.
#[derive(Clone, Copy, Debug, PartialEq, Eq, Structural)]
pub enum Replay {
    Start,
    Stop,
    Toggle,
    Save,
}

/// What to do with the virtual camera.
#[derive(Clone, Copy, Debug, PartialEq, Eq, Structural)]
pub enum VirtualCamera {
    Start,
    Stop,
    Toggle,
}

/// What to do with the stream.
#[derive(Clone, Copy, Debug, PartialEq, Eq, Structural)]
pub enum Streaming {
    Start,
    Stop,
    Toggle,
}

/// What to do with the recording.
#[derive(Clone, Copy, Debug, PartialEq, Eq, Structural)]
pub enum Recording {
    Start,
    Stop,
    Toggle,
}

/// What to do with the scenes.
#[derive(Clone, Debug, PartialEq, Eq)]
pub enum SceneAction {
    Preview { scene_name: String },
    Get,
    List,
    Switch { scene_name: String },
}

/// A [`SceneAction`] as plain values.
pub enum SceneActionView {
    Preview { scene_name: Seq<char> },
    Get,
    List,
    Switch { scene_name: Seq<char> },
}

impl View for SceneAction {
    type V = SceneActionView;

    open spec fn view(&self) -> SceneActionView {
        match self {
            SceneAction::Preview { scene_name } => SceneActionView::Preview {
                scene_name: scene_name@,
            },
            SceneAction::Get => SceneActionView::Get,
            SceneAction::List => SceneActionView::List,
            SceneAction::Switch { scene_name } => SceneActionView::Switch {
                scene_name: scene_name@,
            },
        }
    }
}

/// What to do with studio mode.
#[derive(Clone, Copy, Debug, PartialEq, Eq, Structural)]
pub enum StudioModeAction {
    Enable,
    Disable,
    Toggle,
    Status,
}

/// One invocation: the address given, if any, and the command.
#[derive(Clone, Debug, PartialEq, Eq)]
pub struct Cli {
    /// The address `obsws://localhost:4455/secret` is used where none is
    /// given.
    pub websocket: Option<ObsWebsocket>,
    pub command: Commands,
}

/// A [`Cli`] as plain values.
pub struct CliView {
    pub websocket: Option<ObsWebsocketView>,
    pub command: CommandsView,
}

impl View for Cli {
    type V = CliView;

    open spec fn view(&self) -> CliView {
        CliView {
            websocket: match self.websocket {
                Some(address) => Some(address@),
                None => None,
            },
            command: self.command@,
        }
    }
}

/// The commands.
#[allow(inconsistent_fields)]
#[derive(Clone, Debug, PartialEq, Eq)]
pub enum Commands {
    Info,
    Filter { command: String, source: String, filter: String },
    Scene { action: SceneAction },
    SceneCollection {
        /// A word that only holds the place before the name.
        switch_placeholder: String,
        scene_collection_name: String,
    },
    SceneItem { command: String, scene: String, source: String },
    Streaming(Streaming),
    StudioMode { action: StudioModeAction },
    Recording(Recording),
    Replay(Replay),
    ToggleMute { device: String },
    VirtualCamera(VirtualCamera),
}

/// A [`Commands`] value as plain values.
#[allow(inconsistent_fields)]
pub enum CommandsView {
    Info,
    Filter { command: Seq<char>, source: Seq<char>, filter: Seq<char> },
    Scene { action: SceneActionView },
    SceneCollection { switch_placeholder: Seq<char>, scene_collection_name: Seq<char> },
    SceneItem { command: Seq<char>, scene: Seq<char>, source: Seq<char> },
    Streaming(Streaming),
    StudioMode { action: StudioModeAction },
    Recording(Recording),
    Replay(Replay),
    ToggleMute { device: Seq<char> },
    VirtualCamera(VirtualCamera),
}

impl View for Commands {
    type V = CommandsView;

    open spec fn view(&self) -> CommandsView {
        match self {
            Commands::Info => CommandsView::Info,
            Commands::Filter { command, source, filter } => CommandsView::Filter {
                command: command@,
                source: source@,
                filter: filter@,
            },
            Commands::Scene { action } => CommandsView::Scene { action: action@ },
            Commands::SceneCollection {
                switch_placeholder,
                scene_collection_name,
            } => CommandsView::SceneCollection {
                switch_placeholder: switch_placeholder@,
                scene_collection_name: scene_collection_name@,
            },
            Commands::SceneItem { command, scene, source } => CommandsView::SceneItem {
                command: command@,
                scene: scene@,
                source: source@,
            },
            Commands::Streaming(action) => CommandsView::Streaming(*action),
            Commands::StudioMode { action } => CommandsView::StudioMode { action: *action },
            Commands::Recording(action) => CommandsView::Recording(*action),
            Commands::Replay(action) => CommandsView::Replay(*action),
            Commands::ToggleMute { device } => CommandsView::ToggleMute { device: device@ },
            Commands::VirtualCamera(action) => CommandsView::VirtualCamera(*action),
        }
    }
}

} // verus!
