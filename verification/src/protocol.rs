//! The remote calls and what comes back from them.

use crate::command::{Recording, Replay, Streaming, VirtualCamera};
use vstd::prelude::*;

verus! {

/// One remote call, with its arguments.
#[derive(Clone, Debug, PartialEq, Eq)]
pub enum Request {
    /// Open the connection and present the credential.
    Connect { hostname: String, port: u16, password: Option<String> },
    /// Ask for the versions on the remote side.
    Version,
    /// Ask whether a filter of a source is enabled.
    FilterEnabled { source: String, filter: String },
    /// Enable or disable a filter of a source.
    SetFilterEnabled { source: String, filter: String, enabled: bool },
    /// Put a scene in the preview.
    SetCurrentPreviewScene { scene: String },
    /// Ask for the name of the scene that is live.
    CurrentProgramScene,
    /// Ask for the name of the scene in the preview.
    CurrentPreviewScene,
    /// Ask for the list of scenes.
    ListScenes,
    /// Make a scene the live one.
    SetCurrentProgramScene { scene: String },
    /// Switch to a scene collection.
    SetCurrentSceneCollection { name: String },
    /// Look up the identifier of a source's item in a scene, skipping
    /// `search_offset` matches.
    SceneItemId { scene: String, source: String, search_offset: i32 },
    /// Ask whether an item of a scene is enabled.
    SceneItemEnabled { scene: String, item_id: i64 },
    /// Enable or disable an item of a scene.
    SetSceneItemEnabled { scene: String, item_id: i64, enabled: bool },
    /// Start, stop or toggle the stream.
    Streaming(Streaming),
    /// Ask whether studio mode is enabled.
    StudioModeEnabled,
    /// Enable or disable studio mode.
    SetStudioModeEnabled { enabled: bool },
    /// Start, stop or toggle the recording.
    Recording(Recording),
    /// Start, stop, toggle or save the replay buffer.
    Replay(Replay),
    /// Toggle the mute of an input device.
    ToggleMute { device: String },
    /// Start, stop or toggle the virtual camera.
    VirtualCamera(VirtualCamera),
}

/// A [`Request`] as plain values.
pub enum RequestView {
    Connect { hostname: Seq<char>, port: u16, password: Option<Seq<char>> },
    Version,
    FilterEnabled { source: Seq<char>, filter: Seq<char> },
    SetFilterEnabled { source: Seq<char>, filter: Seq<char>, enabled: bool },
    SetCurrentPreviewScene { scene: Seq<char> },
    CurrentProgramScene,
    CurrentPreviewScene,
    ListScenes,
    SetCurrentProgramScene { scene: Seq<char> },
    SetCurrentSceneCollection { name: Seq<char> },
    SceneItemId { scene: Seq<char>, source: Seq<char>, search_offset: i32 },
    SceneItemEnabled { scene: Seq<char>, item_id: i64 },
    SetSceneItemEnabled { scene: Seq<char>, item_id: i64, enabled: bool },
    Streaming(Streaming),
    StudioModeEnabled,
    SetStudioModeEnabled { enabled: bool },
    Recording(Recording),
    Replay(Replay),
    ToggleMute { device: Seq<char> },
    VirtualCamera(VirtualCamera),
}

impl View for Request {
    type V = RequestView;

    open spec fn view(&self) -> RequestView {
        match self {
            Request::Connect { hostname, port, password } => RequestView::Connect {
                hostname: hostname@,
                port: *port,
                password: password.deep_view(),
            },
            Request::Version => RequestView::Version,
            Request::FilterEnabled { source, filter } => RequestView::FilterEnabled {
                source: source@,
                filter: filter@,
            },
            Request::SetFilterEnabled { source, filter, enabled } => RequestView::SetFilterEnabled {
                source: source@,
                filter: filter@,
                enabled: *enabled,
            },
            Request::SetCurrentPreviewScene { scene } => RequestView::SetCurrentPreviewScene {
                scene: scene@,
            },
            Request::CurrentProgramScene => RequestView::CurrentProgramScene,
            Request::CurrentPreviewScene => RequestView::CurrentPreviewScene,
            Request::ListScenes => RequestView::ListScenes,
            Request::SetCurrentProgramScene { scene } => RequestView::SetCurrentProgramScene {
                scene: scene@,
            },
            Request::SetCurrentSceneCollection { name } => RequestView::SetCurrentSceneCollection {
                name: name@,
            },
            Request::SceneItemId { scene, source, search_offset } => RequestView::SceneItemId {
                scene: scene@,
                source: source@,
                search_offset: *search_offset,
            },
            Request::SceneItemEnabled { scene, item_id } => RequestView::SceneItemEnabled {
                scene: scene@,
                item_id: *item_id,
            },
            Request::SetSceneItemEnabled {
                scene,
                item_id,
                enabled,
            } => RequestView::SetSceneItemEnabled {
                scene: scene@,
                item_id: *item_id,
                enabled: *enabled,
            },
            Request::Streaming(action) => RequestView::Streaming(*action),
            Request::StudioModeEnabled => RequestView::StudioModeEnabled,
            Request::SetStudioModeEnabled { enabled } => RequestView::SetStudioModeEnabled {
                enabled: *enabled,
            },
            Request::Recording(action) => RequestView::Recording(*action),
            Request::Replay(action) => RequestView::Replay(*action),
            Request::ToggleMute { device } => RequestView::ToggleMute { device: device@ },
            Request::VirtualCamera(action) => RequestView::VirtualCamera(*action),
        }
    }
}

/// What kind of value a call gives where it succeeds.
#[derive(Clone, Copy, Debug, PartialEq, Eq, Structural)]
pub enum Kind {
    /// Nothing but the success.
    Unit,
    /// A truth value.
    Flag,
    /// A name or a path.
    Text,
    /// The identifier of a scene item.
    Id,
    /// A structure that is only ever printed.
    Report,
}

/// What came back from a call.
#[derive(Clone, Debug, PartialEq, Eq)]
pub enum Reply {
    /// The call failed; the text is the error as `{:?}` prints it.
    Failed(String),
    /// The call succeeded and gave nothing.
    Done,
    /// The call gave a truth value.
    Flag(bool),
    /// The call gave a name or a path.
    Text(String),
    /// The call gave the identifier of a scene item.
    Id(i64),
    /// The call gave a structure; the text is that structure as `{:?}`
    /// prints it.
    Report(String),
}

/// A [`Reply`] as plain values.
pub enum ReplyView {
    Failed(Seq<char>),
    Done,
    Flag(bool),
    Text(Seq<char>),
    Id(i64),
    Report(Seq<char>),
}

impl View for Reply {
    type V = ReplyView;

    open spec fn view(&self) -> ReplyView {
        match self {
            Reply::Failed(error) => ReplyView::Failed(error@),
            Reply::Done => ReplyView::Done,
            Reply::Flag(flag) => ReplyView::Flag(*flag),
            Reply::Text(text) => ReplyView::Text(text@),
            Reply::Id(id) => ReplyView::Id(*id),
            Reply::Report(text) => ReplyView::Report(text@),
        }
    }
}

impl RequestView {
    /// The kind of value that the call gives where it succeeds.
    pub open spec fn kind(self) -> Kind {
        match self {
            RequestView::Version | RequestView::ListScenes => Kind::Report,
            RequestView::FilterEnabled { .. }
            | RequestView::SceneItemEnabled { .. }
            | RequestView::StudioModeEnabled
            | RequestView::ToggleMute { .. }
            | RequestView::Streaming(Streaming::Toggle)
            | RequestView::Recording(Recording::Toggle)
            | RequestView::Replay(Replay::Toggle)
            | RequestView::VirtualCamera(VirtualCamera::Toggle) => Kind::Flag,
            RequestView::CurrentProgramScene
            | RequestView::CurrentPreviewScene
            | RequestView::Recording(Recording::Stop) => Kind::Text,
            RequestView::SceneItemId { .. } => Kind::Id,
            _ => Kind::Unit,
        }
    }
}

impl ReplyView {
    /// Whether the reply is one that a call of kind `kind` can give: its
    /// failure, or a value of that kind.
    pub open spec fn is_of(self, kind: Kind) -> bool {
        match self {
            ReplyView::Failed(_) => true,
            ReplyView::Done => kind == Kind::Unit,
            ReplyView::Flag(_) => kind == Kind::Flag,
            ReplyView::Text(_) => kind == Kind::Text,
            ReplyView::Id(_) => kind == Kind::Id,
            ReplyView::Report(_) => kind == Kind::Report,
        }
    }

    /// Whether the reply is one that `request` can get.
    pub open spec fn answers(self, request: RequestView) -> bool {
        self.is_of(request.kind())
    }
}

impl Request {
    /// The kind of value that the call gives where it succeeds.
    pub fn kind(&self) -> (kind: Kind)
        ensures
            kind == self@.kind(),
    {
        match self {
            Request::Version | Request::ListScenes => Kind::Report,
            Request::FilterEnabled { .. }
            | Request::SceneItemEnabled { .. }
            | Request::StudioModeEnabled
            | Request::ToggleMute { .. }
            | Request::Streaming(Streaming::Toggle)
            | Request::Recording(Recording::Toggle)
            | Request::Replay(Replay::Toggle)
            | Request::VirtualCamera(VirtualCamera::Toggle) => Kind::Flag,
            Request::CurrentProgramScene
            | Request::CurrentPreviewScene
            | Request::Recording(Recording::Stop) => Kind::Text,
            Request::SceneItemId { .. } => Kind::Id,
            _ => Kind::Unit,
        }
    }
}

impl Reply {
    /// Whether the reply is one that `request` can get: the call's failure,
    /// or a value of the kind that the call gives.
    pub fn answers(&self, request: &Request) -> (fits: bool)
        ensures
            fits == self@.answers(request@),
    {
        let kind = request.kind();
        match self {
            Reply::Failed(_) => true,
            Reply::Done => kind == Kind::Unit,
            Reply::Flag(_) => kind == Kind::Flag,
            Reply::Text(_) => kind == Kind::Text,
            Reply::Id(_) => kind == Kind::Id,
            Reply::Report(_) => kind == Kind::Report,
        }
    }
}

} // verus!
