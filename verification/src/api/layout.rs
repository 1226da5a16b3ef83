//! Layout negotiation: a stream on which a client sends layout requests and
//! on which the compositor pushes layout work to the client.

use vstd::prelude::*;
use crate::channel::{CommandChannel, StateFnSender};
use crate::output::{has_output, OutputName};
use crate::state::{Pinnacle, StreamId};

verus! {

/// Where a window is to be, and how large. A part that is `None` stays as it
/// is.
#[derive(Clone, Copy, Debug, PartialEq, Eq, Structural)]
pub struct Geometry {
    pub x: Option<i32>,
    pub y: Option<i32>,
    pub width: Option<i32>,
    pub height: Option<i32>,
}

/// Geometries to apply at once to the windows of an output.
#[derive(Debug)]
pub struct Geometries {
    pub request_id: Option<u32>,
    pub output_name: Option<String>,
    pub geometries: Vec<Geometry>,
}

/// A request to lay an output out anew.
#[derive(Debug)]
pub struct ExplicitLayout {
    pub output_name: Option<String>,
}

/// What a layout request asks for.
#[derive(Debug)]
pub enum Body {
    Geometries(Geometries),
    Layout(ExplicitLayout),
}

/// A message of the client on the layout stream.
#[derive(Debug)]
pub struct LayoutRequest {
    pub body: Option<Body>,
}

/// Why the stream failed to deliver a message.
#[derive(Debug)]
pub struct StreamError {
    pub message: String,
}

/// What a layout stream submits to the owner of the state.
#[derive(Debug)]
pub enum LayoutCommand {
    /// A client has opened a stream; layout work goes to `sender` from now on.
    Connect { sender: StreamId },
    /// The stream has delivered a message, or has failed to.
    Message { request: Result<LayoutRequest, StreamError> },
    /// The stream whose sender is `sender` has ended.
    Disconnect { sender: StreamId },
}

/// What the caller is to do after a layout command.
#[derive(Debug)]
pub enum LayoutAction {
    Nothing,
    /// Apply these geometries.
    ApplyLayout { geometries: Geometries },
    /// Ask the client on `to` for a layout of `output`.
    RequestLayout { output: String, to: Option<StreamId> },
    /// Log the error; the client is not told.
    LogError { error: StreamError },
}

/// What the compositor keeps about layout negotiation.
#[derive(Clone, Copy, Debug, PartialEq, Eq, Structural)]
pub struct LayoutState {
    /// The sender of the stream that was opened last, while it is open.
    pub layout_request_sender: Option<StreamId>,
}

impl LayoutState {
    /// No stream is open.
    pub fn new() -> (r: Self)
        ensures
            r.layout_request_sender is None,
    {
        LayoutState { layout_request_sender: None }
    }
}

/// The sender that is installed after `command`. A stream that opens
/// displaces the sender installed before it. A stream that ends clears the
/// sender only where it is its own.
pub open spec fn sender_after(installed: Option<StreamId>, command: LayoutCommand) -> Option<StreamId> {
    match command {
        LayoutCommand::Connect { sender } => Some(sender),
        LayoutCommand::Disconnect { sender } => if installed == Some(sender) {
            None
        } else {
            installed
        },
        LayoutCommand::Message { .. } => installed,
    }
}

/// The output that a request for a layout is about: the named one where the
/// request names an output that exists, else the focused one, else none.
pub open spec fn layout_target(pinnacle: Pinnacle, wanted: Option<String>) -> Option<String> {
    match wanted {
        Some(name) if has_output(pinnacle.outputs@, name@) => Some(name),
        _ => match pinnacle.focus_state.focused_output {
            Some(focused) => Some(focused.0),
            None => None,
        },
    }
}

/// What the caller is to do after `command`.
pub open spec fn layout_action(pinnacle: Pinnacle, command: LayoutCommand) -> LayoutAction {
    match command {
        LayoutCommand::Connect { .. } => LayoutAction::Nothing,
        LayoutCommand::Disconnect { .. } => LayoutAction::Nothing,
        LayoutCommand::Message { request: Err(error) } => LayoutAction::LogError { error },
        LayoutCommand::Message { request: Ok(request) } => match request.body {
            None => LayoutAction::Nothing,
            Some(Body::Geometries(geometries)) => LayoutAction::ApplyLayout { geometries },
            Some(Body::Layout(layout)) => match layout_target(pinnacle, layout.output_name) {
                Some(output) => LayoutAction::RequestLayout {
                    output,
                    to: pinnacle.layout_state.layout_request_sender,
                },
                None => LayoutAction::Nothing,
            },
        },
    }
}

impl Pinnacle {
    /// The focused output.
    pub fn focused_output(&self) -> (r: Option<&OutputName>)
        ensures
            match r {
                Some(name) => self.focus_state.focused_output == Some(*name),
                None => self.focus_state.focused_output is None,
            },
    {
        self.focus_state.focused_output.as_ref()
    }

    /// Executes a command of a layout stream.
    ///
    /// A stream that opens has its sender installed, in place of any other. A
    /// stream that ends has its sender removed if it is still the one
    /// installed. Geometries are handed on to be applied. A request for a
    /// layout is handed on for its target, and dropped without a word where
    /// it has none. A failure of the stream is handed on to be logged.
    /// Nothing but the installed sender changes.
    pub fn handle_layout(&mut self, command: LayoutCommand) -> (r: LayoutAction)
        ensures
            r == layout_action(*old(self), command),
            final(self).layout_state.layout_request_sender == sender_after(
                old(self).layout_state.layout_request_sender,
                command,
            ),
            final(self).unchanged_but_layout(*old(self)),
    {
        match command {
            LayoutCommand::Connect { sender } => {
                self.layout_state.layout_request_sender = Some(sender);
                LayoutAction::Nothing
            },
            LayoutCommand::Disconnect { sender } => {
                match self.layout_state.layout_request_sender {
                    Some(installed) => {
                        if installed == sender {
                            self.layout_state.layout_request_sender = None;
                        }
                    },
                    None => {},
                }
                LayoutAction::Nothing
            },
            LayoutCommand::Message { request: Err(error) } => LayoutAction::LogError { error },
            LayoutCommand::Message { request: Ok(request) } => match request.body {
                None => LayoutAction::Nothing,
                Some(Body::Geometries(geometries)) => LayoutAction::ApplyLayout { geometries },
                Some(Body::Layout(layout)) => {
                    let to = self.layout_state.layout_request_sender;
                    let named = match layout.output_name {
                        Some(name) => {
                            let wanted = OutputName(name);
                            match wanted.output(self) {
                                Some(_) => Some(wanted.0),
                                None => None,
                            }
                        },
                        None => None,
                    };
                    let target = match named {
                        Some(name) => Some(name),
                        None => match self.focused_output() {
                            Some(focused) => Some(focused.0.clone()),
                            None => None,
                        },
                    };
                    match target {
                        Some(output) => LayoutAction::RequestLayout { output, to },
                        None => LayoutAction::Nothing,
                    }
                },
            },
        }
    }
}

/// A second stream displaces the first: once `second` has connected after
/// `first`, layout work goes to `second`, and the end of the first stream does
/// not take the second one's sender away.
pub proof fn lemma_second_stream_displaces_first(
    installed: Option<StreamId>,
    first: StreamId,
    second: StreamId,
)
    requires
        first != second,
    ensures
        ({
            let one = sender_after(installed, LayoutCommand::Connect { sender: first });
            let two = sender_after(one, LayoutCommand::Connect { sender: second });
            &&& one == Some(first)
            &&& two == Some(second)
            &&& sender_after(two, LayoutCommand::Disconnect { sender: first }) == Some(second)
            &&& sender_after(two, LayoutCommand::Disconnect { sender: second }) == None::<StreamId>
        }),
{
}

/// A message on the stream leaves the installed sender as it is, whatever the
/// message.
pub proof fn lemma_message_keeps_sender(
    installed: Option<StreamId>,
    request: Result<LayoutRequest, StreamError>,
)
    ensures
        sender_after(installed, LayoutCommand::Message { request }) == installed,
{
}

/// The layout service: the end of the layout stream that faces the owner of
/// the state.
#[derive(Debug)]
pub struct LayoutService {
    sender: StateFnSender,
}

impl LayoutService {
    /// The producer end through which this service submits.
    pub closed spec fn producer(&self) -> StateFnSender {
        self.sender
    }

    /// A layout service that submits through `sender`.
    pub fn new(sender: StateFnSender) -> (r: Self)
        ensures
            r.producer() == sender,
    {
        Self { sender }
    }

    /// Passes what happened on a layout stream on to the owner of the state,
    /// as a command behind those that wait. The stream's task itself never
    /// touches the state. Returns whether the command was taken: a closed
    /// channel drops it.
    pub fn layout(&self, channel: &mut CommandChannel<LayoutCommand>, command: LayoutCommand) -> (r:
        bool)
        ensures
            r == old(channel).is_open(),
            final(channel).is_open() == old(channel).is_open(),
            final(channel).senders() == old(channel).senders(),
            final(channel).queued() == if r {
                old(channel).queued().push(
                    crate::channel::Submission { producer: self.producer().producer, command },
                )
            } else {
                old(channel).queued()
            },
    {
        match channel.submit(&self.sender, command) {
            Ok(()) => true,
            Err(_) => false,
        }
    }
}

} // verus!
