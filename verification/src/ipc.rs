//! The messages between the page and the shell: which requests of the page
//! the shell knows and what is wrong with the others, and the frame of what
//! the shell tells the page.

use crate::text::same_bytes;
use vstd::prelude::*;
use vstd::string::*;

verus! {

/// The type of the request that opens the channel.
pub const TYPE_INIT: u8 = 3;

/// The type of a request that calls a method.
pub const TYPE_INVOKE: u8 = 6;

/// A request that the shell knows.
#[derive(Clone, Copy, Debug, PartialEq, Eq, Structural)]
pub enum Method {
    /// The channel opens.
    Init,
    /// The page is ready.
    Ready,
    /// The window is to enter or leave fullscreen.
    SetVisibility,
    /// A command for the player.
    MpvCommand,
    /// A property of the player is to be observed.
    MpvObserve,
    /// A property of the player is to be set.
    MpvSet,
    /// New metadata of what is playing.
    MetadataUpdate,
    /// The shell is to quit.
    Quit,
}

/// What is wrong with a request that the shell does not know.
#[derive(Clone, Copy, Debug, PartialEq, Eq, Structural)]
pub enum RequestError {
    UnknownType,
    MissingArgs,
    InvalidName,
    UnknownMethod,
}

/// What the arguments of a request hold, as far as the method depends on it.
pub struct Arguments<'a> {
    /// The first argument, where it is a text: the name of the method.
    pub name: Option<&'a [u8]>,
    /// Whether there is a second argument: the data of the method.
    pub has_data: bool,
}

/// The method that the name `name` stands for in a request with data.
pub open spec fn method_with_data(name: Seq<u8>) -> Option<Method> {
    if name == "app-ready".spec_bytes() {
        Some(Method::Ready)
    } else if name == "win-set-visibility".spec_bytes() {
        Some(Method::SetVisibility)
    } else if name == "mpv-command".spec_bytes() {
        Some(Method::MpvCommand)
    } else if name == "mpv-observe-prop".spec_bytes() {
        Some(Method::MpvObserve)
    } else if name == "mpv-set-prop".spec_bytes() {
        Some(Method::MpvSet)
    } else if name == "metadata-update".spec_bytes() {
        Some(Method::MetadataUpdate)
    } else {
        None
    }
}

/// The method that the name `name` stands for in a request without data.
pub open spec fn method_without_data(name: Seq<u8>) -> Option<Method> {
    if name == "quit".spec_bytes() {
        Some(Method::Quit)
    } else {
        None
    }
}

/// What a request of type `kind` with the arguments `args` asks for.
pub open spec fn classified(kind: u8, args: Option<(Option<Seq<u8>>, bool)>) -> Result<
    Method,
    RequestError,
> {
    if kind == TYPE_INIT {
        Ok(Method::Init)
    } else if kind == TYPE_INVOKE {
        match args {
            None => Err(RequestError::MissingArgs),
            Some((None, _)) => Err(RequestError::InvalidName),
            Some((Some(name), has_data)) => {
                let method = if has_data {
                    method_with_data(name)
                } else {
                    method_without_data(name)
                };
                match method {
                    Some(method) => Ok(method),
                    None => Err(RequestError::UnknownMethod),
                }
            },
        }
    } else {
        Err(RequestError::UnknownType)
    }
}

impl<'a> Arguments<'a> {
    /// The arguments as the rules see them.
    pub open spec fn model(&self) -> (Option<Seq<u8>>, bool) {
        (
            match self.name {
                Some(name) => Some(name@),
                None => None,
            },
            self.has_data,
        )
    }
}

/// The arguments of a request as the rules see them, if it has any.
pub open spec fn model_of(args: Option<Arguments>) -> Option<(Option<Seq<u8>>, bool)> {
    match args {
        Some(args) => Some(args.model()),
        None => None,
    }
}

/// Tells what a request asks for, or what is wrong with it.
pub fn classify(kind: u8, args: Option<Arguments>) -> (method: Result<Method, RequestError>)
    ensures
        method == classified(kind, model_of(args)),
{
    if kind == TYPE_INIT {
        return Ok(Method::Init);
    }
    if kind != TYPE_INVOKE {
        return Err(RequestError::UnknownType);
    }
    let args = match args {
        Some(args) => args,
        None => { return Err(RequestError::MissingArgs); },
    };
    let name = match args.name {
        Some(name) => name,
        None => { return Err(RequestError::InvalidName); },
    };
    if args.has_data {
        if same_bytes(name, "app-ready".as_bytes()) {
            Ok(Method::Ready)
        } else if same_bytes(name, "win-set-visibility".as_bytes()) {
            Ok(Method::SetVisibility)
        } else if same_bytes(name, "mpv-command".as_bytes()) {
            Ok(Method::MpvCommand)
        } else if same_bytes(name, "mpv-observe-prop".as_bytes()) {
            Ok(Method::MpvObserve)
        } else if same_bytes(name, "mpv-set-prop".as_bytes()) {
            Ok(Method::MpvSet)
        } else if same_bytes(name, "metadata-update".as_bytes()) {
            Ok(Method::MetadataUpdate)
        } else {
            Err(RequestError::UnknownMethod)
        }
    } else if same_bytes(name, "quit".as_bytes()) {
        Ok(Method::Quit)
    } else {
        Err(RequestError::UnknownMethod)
    }
}

impl RequestError {
    /// The words for the error.
    pub fn message(&self) -> (words: &'static str)
        ensures
            words@ == match self {
                RequestError::UnknownType => "Unknown type"@,
                RequestError::MissingArgs => "Missing args"@,
                RequestError::InvalidName => "Invalid name"@,
                RequestError::UnknownMethod => "Unknown method"@,
            },
    {
        match self {
            RequestError::UnknownType => "Unknown type",
            RequestError::MissingArgs => "Missing args",
            RequestError::InvalidName => "Invalid name",
            RequestError::UnknownMethod => "Unknown method",
        }
    }
}

/// The type of a message that answers the opening of the channel.
pub const TYPE_INIT_ANSWER: u8 = 3;

/// The type of a message that tells the page of an event.
pub const TYPE_SIGNAL: u8 = 1;

/// What the shell tells the page.
#[derive(Clone, Copy, Debug, PartialEq, Eq, Structural)]
pub enum Answer {
    /// The channel is open: the shell describes itself.
    Init,
    /// The window is shown, hidden, or has entered or left fullscreen.
    VisibilityChanged,
    /// A link is to be opened.
    OpenMedia,
    /// A property of the player has changed.
    MpvPropChange,
    /// The player has come to the end.
    MpvEventEnded,
}

/// What the page is told of the window.
#[derive(Clone, Copy, Debug, PartialEq, Eq, Structural)]
pub struct WindowState {
    pub visible: bool,
    pub visibility: u32,
    pub is_fullscreen: bool,
}

impl Answer {
    /// The id of the message.
    pub fn id(&self) -> (id: u64)
        ensures
            id == if self is Init {
                0u64
            } else {
                1u64
            },
    {
        match self {
            Answer::Init => 0,
            _ => 1,
        }
    }

    /// The type of the message.
    pub fn kind(&self) -> (kind: u8)
        ensures
            kind == if self is Init {
                TYPE_INIT_ANSWER
            } else {
                TYPE_SIGNAL
            },
    {
        match self {
            Answer::Init => TYPE_INIT_ANSWER,
            _ => TYPE_SIGNAL,
        }
    }

    /// The name under which the page knows the event; the answer to the
    /// opening of the channel has none.
    pub fn name(&self) -> (name: Option<&'static str>)
        ensures
            match self {
                Answer::Init => name is None,
                Answer::VisibilityChanged => name matches Some(words) && words@
                    == "win-visibility-changed"@,
                Answer::OpenMedia => name matches Some(words) && words@ == "open-media"@,
                Answer::MpvPropChange => name matches Some(words) && words@ == "mpv-prop-change"@,
                Answer::MpvEventEnded => name matches Some(words) && words@ == "mpv-event-ended"@,
            },
    {
        match self {
            Answer::Init => None,
            Answer::VisibilityChanged => Some("win-visibility-changed"),
            Answer::OpenMedia => Some("open-media"),
            Answer::MpvPropChange => Some("mpv-prop-change"),
            Answer::MpvEventEnded => Some("mpv-event-ended"),
        }
    }
}

impl WindowState {
    /// What the page is told when the window has entered or left fullscreen:
    /// the window is visible.
    pub fn fullscreen(state: bool) -> (window: WindowState)
        ensures
            window == (WindowState { visible: true, visibility: 1, is_fullscreen: state }),
    {
        WindowState { visible: true, visibility: 1, is_fullscreen: state }
    }

    /// What the page is told when the window has been shown or hidden: it is
    /// not fullscreen.
    pub fn visibility(state: bool) -> (window: WindowState)
        ensures
            window == (WindowState {
                visible: state,
                visibility: if state {
                    1u32
                } else {
                    0u32
                },
                is_fullscreen: false,
            }),
    {
        WindowState { visible: state, visibility: if state {
            1
        } else {
            0
        }, is_fullscreen: false }
    }
}

/// What may happen in the shell that the page could be told of.
#[derive(Clone, Copy, Debug, PartialEq, Eq, Structural)]
pub enum EventKind {
    Init,
    Ready,
    Quit,
    Fullscreen,
    Visibility,
    OpenMedia,
    MpvObserve,
    MpvCommand,
    MpvSet,
    MpvChange,
    MpvEnded,
    MetadataUpdate,
}

/// What the page is told of an event; none for an event that has no answer.
pub open spec fn answer_of(event: EventKind) -> Option<Answer> {
    match event {
        EventKind::Init => Some(Answer::Init),
        EventKind::Fullscreen => Some(Answer::VisibilityChanged),
        EventKind::Visibility => Some(Answer::VisibilityChanged),
        EventKind::OpenMedia => Some(Answer::OpenMedia),
        EventKind::MpvChange => Some(Answer::MpvPropChange),
        EventKind::MpvEnded => Some(Answer::MpvEventEnded),
        _ => None,
    }
}

/// Tells what the page is told of an event, if anything.
pub fn answer_to(event: EventKind) -> (answer: Option<Answer>)
    ensures
        answer == answer_of(event),
{
    match event {
        EventKind::Init => Some(Answer::Init),
        EventKind::Fullscreen => Some(Answer::VisibilityChanged),
        EventKind::Visibility => Some(Answer::VisibilityChanged),
        EventKind::OpenMedia => Some(Answer::OpenMedia),
        EventKind::MpvChange => Some(Answer::MpvPropChange),
        EventKind::MpvEnded => Some(Answer::MpvEventEnded),
        _ => None,
    }
}

/// What the page is told of the window when the event `event` reports the
/// state `state`; none for an event that does not concern the window.
pub open spec fn window_of(event: EventKind, state: bool) -> Option<WindowState> {
    match event {
        EventKind::Fullscreen => Some(WindowState { visible: true, visibility: 1, is_fullscreen: state }),
        EventKind::Visibility => Some(
            WindowState {
                visible: state,
                visibility: if state {
                    1u32
                } else {
                    0u32
                },
                is_fullscreen: false,
            },
        ),
        _ => None,
    }
}

/// Tells what the page is told of the window for an event that reports the
/// state `state`.
pub fn window_state(event: EventKind, state: bool) -> (window: Option<WindowState>)
    ensures
        window == window_of(event, state),
{
    match event {
        EventKind::Fullscreen => Some(WindowState::fullscreen(state)),
        EventKind::Visibility => Some(WindowState::visibility(state)),
        _ => None,
    }
}

} // verus!
