use pinnacle::api::layout::{
    Body, ExplicitLayout, Geometries, Geometry, LayoutAction, LayoutCommand, LayoutRequest,
    LayoutService, LayoutState, StreamError,
};
use pinnacle::channel::{CommandChannel, StateFnSender};
use pinnacle::output::{Output, OutputName};
use pinnacle::state::{State, StreamId};

fn pinnacle_with(outputs: &[&str], focused: Option<&str>) -> pinnacle::state::Pinnacle {
    let mut state = State::init("wayland-0".to_string(), StateFnSender { producer: 0 });
    state.pinnacle.outputs = outputs.iter().map(|n| Output::new(n.to_string())).collect();
    state.pinnacle.focus_state.focused_output = focused.map(|n| OutputName(n.to_string()));
    state.pinnacle
}

fn explicit(name: Option<&str>) -> LayoutCommand {
    LayoutCommand::Message {
        request: Ok(LayoutRequest {
            body: Some(Body::Layout(ExplicitLayout { output_name: name.map(|n| n.to_string()) })),
        }),
    }
}

#[test]
fn no_sender_is_installed_at_first() {
    assert_eq!(LayoutState::new().layout_request_sender, None);
}

#[test]
fn connecting_installs_the_sender() {
    let mut pinnacle = pinnacle_with(&[], None);
    let action = pinnacle.handle_layout(LayoutCommand::Connect { sender: StreamId(1) });
    assert!(matches!(action, LayoutAction::Nothing));
    assert_eq!(pinnacle.layout_state.layout_request_sender, Some(StreamId(1)));
}

#[test]
fn second_stream_displaces_the_first() {
    let mut pinnacle = pinnacle_with(&["DP-1"], Some("DP-1"));
    pinnacle.handle_layout(LayoutCommand::Connect { sender: StreamId(1) });
    pinnacle.handle_layout(LayoutCommand::Connect { sender: StreamId(2) });
    assert_eq!(pinnacle.layout_state.layout_request_sender, Some(StreamId(2)));
    let action = pinnacle.handle_layout(explicit(None));
    assert!(matches!(
        action,
        LayoutAction::RequestLayout { output, to: Some(StreamId(2)) } if output == "DP-1"
    ));
}

#[test]
fn end_of_a_displaced_stream_leaves_the_sender() {
    let mut pinnacle = pinnacle_with(&[], None);
    pinnacle.handle_layout(LayoutCommand::Connect { sender: StreamId(1) });
    pinnacle.handle_layout(LayoutCommand::Connect { sender: StreamId(2) });
    let action = pinnacle.handle_layout(LayoutCommand::Disconnect { sender: StreamId(1) });
    assert!(matches!(action, LayoutAction::Nothing));
    assert_eq!(pinnacle.layout_state.layout_request_sender, Some(StreamId(2)));
}

#[test]
fn end_of_the_installed_stream_clears_the_sender() {
    let mut pinnacle = pinnacle_with(&[], None);
    pinnacle.handle_layout(LayoutCommand::Connect { sender: StreamId(1) });
    pinnacle.handle_layout(LayoutCommand::Disconnect { sender: StreamId(1) });
    assert_eq!(pinnacle.layout_state.layout_request_sender, None);
}

#[test]
fn end_of_a_stream_without_any_sender_changes_nothing() {
    let mut pinnacle = pinnacle_with(&[], None);
    pinnacle.handle_layout(LayoutCommand::Disconnect { sender: StreamId(1) });
    assert_eq!(pinnacle.layout_state.layout_request_sender, None);
}

#[test]
fn geometries_are_handed_on() {
    let mut pinnacle = pinnacle_with(&["DP-1"], None);
    let geometry = Geometry { x: Some(1), y: Some(2), width: Some(300), height: None };
    let action = pinnacle.handle_layout(LayoutCommand::Message {
        request: Ok(LayoutRequest {
            body: Some(Body::Geometries(Geometries {
                request_id: Some(5),
                output_name: Some("DP-1".to_string()),
                geometries: vec![geometry, geometry],
            })),
        }),
    });
    match action {
        LayoutAction::ApplyLayout { geometries } => {
            assert_eq!(geometries.request_id, Some(5));
            assert_eq!(geometries.output_name, Some("DP-1".to_string()));
            assert_eq!(geometries.geometries, vec![geometry, geometry]);
        }
        other => panic!("unexpected action: {:?}", other),
    }
}

#[test]
fn named_output_is_laid_out() {
    let mut pinnacle = pinnacle_with(&["DP-1", "HDMI-1"], Some("DP-1"));
    pinnacle.handle_layout(LayoutCommand::Connect { sender: StreamId(9) });
    let action = pinnacle.handle_layout(explicit(Some("HDMI-1")));
    assert!(matches!(
        action,
        LayoutAction::RequestLayout { output, to: Some(StreamId(9)) } if output == "HDMI-1"
    ));
}

#[test]
fn focused_output_is_laid_out_when_none_is_named() {
    let mut pinnacle = pinnacle_with(&["DP-1", "HDMI-1"], Some("DP-1"));
    let action = pinnacle.handle_layout(explicit(None));
    assert!(matches!(
        action,
        LayoutAction::RequestLayout { output, to: None } if output == "DP-1"
    ));
}

#[test]
fn focused_output_is_laid_out_when_the_named_one_is_unknown() {
    let mut pinnacle = pinnacle_with(&["DP-1", "HDMI-1"], Some("HDMI-1"));
    let action = pinnacle.handle_layout(explicit(Some("VGA-1")));
    assert!(matches!(
        action,
        LayoutAction::RequestLayout { output, .. } if output == "HDMI-1"
    ));
}

#[test]
fn request_without_a_target_is_dropped_silently() {
    let mut pinnacle = pinnacle_with(&["DP-1"], None);
    assert!(matches!(pinnacle.handle_layout(explicit(Some("VGA-1"))), LayoutAction::Nothing));
    assert!(matches!(pinnacle.handle_layout(explicit(None)), LayoutAction::Nothing));
}

#[test]
fn request_without_a_body_does_nothing() {
    let mut pinnacle = pinnacle_with(&["DP-1"], Some("DP-1"));
    let action =
        pinnacle.handle_layout(LayoutCommand::Message { request: Ok(LayoutRequest { body: None }) });
    assert!(matches!(action, LayoutAction::Nothing));
}

#[test]
fn stream_failure_is_handed_on_to_be_logged() {
    let mut pinnacle = pinnacle_with(&["DP-1"], Some("DP-1"));
    pinnacle.handle_layout(LayoutCommand::Connect { sender: StreamId(1) });
    let action = pinnacle.handle_layout(LayoutCommand::Message {
        request: Err(StreamError { message: "broken pipe".to_string() }),
    });
    assert!(matches!(action, LayoutAction::LogError { error } if error.message == "broken pipe"));
    assert_eq!(pinnacle.layout_state.layout_request_sender, Some(StreamId(1)));
}

#[test]
fn messages_leave_everything_but_the_sender_alone() {
    let mut pinnacle = pinnacle_with(&["DP-1", "HDMI-1"], Some("DP-1"));
    pinnacle.handle_layout(LayoutCommand::Connect { sender: StreamId(1) });
    pinnacle.handle_layout(explicit(Some("HDMI-1")));
    assert_eq!(pinnacle.outputs.len(), 2);
    assert_eq!(pinnacle.outputs[0].name, "DP-1");
    assert_eq!(pinnacle.focus_state.focused_output.as_ref().map(|n| n.0.as_str()), Some("DP-1"));
    assert_eq!(pinnacle.focused_output().map(|n| n.0.as_str()), Some("DP-1"));
}

#[test]
fn service_submits_under_its_sender() {
    let mut channel: CommandChannel<LayoutCommand> = CommandChannel::new();
    channel.sender();
    let sender = channel.sender().unwrap();
    let service = LayoutService::new(sender);
    assert!(service.layout(&mut channel, LayoutCommand::Connect { sender: StreamId(3) }));
    assert!(service.layout(&mut channel, explicit(None)));
    assert!(service.layout(&mut channel, LayoutCommand::Disconnect { sender: StreamId(3) }));
    let drained = channel.drain();
    assert_eq!(drained.len(), 3);
    assert!(drained.iter().all(|s| s.producer == 1));
    assert!(matches!(drained[0].command, LayoutCommand::Connect { sender: StreamId(3) }));
    assert!(matches!(drained[1].command, LayoutCommand::Message { request: Ok(_) }));
    assert!(matches!(drained[2].command, LayoutCommand::Disconnect { sender: StreamId(3) }));
}

#[test]
fn service_reports_a_dropped_command() {
    let mut channel: CommandChannel<LayoutCommand> = CommandChannel::new();
    let service = LayoutService::new(channel.sender().unwrap());
    channel.close();
    assert!(!service.layout(&mut channel, explicit(None)));
    assert!(channel.drain().is_empty());
}

#[test]
fn commands_of_a_stream_reach_the_state_in_order() {
    let mut channel: CommandChannel<LayoutCommand> = CommandChannel::new();
    let first = LayoutService::new(channel.sender().unwrap());
    let second = LayoutService::new(channel.sender().unwrap());
    first.layout(&mut channel, LayoutCommand::Connect { sender: StreamId(1) });
    second.layout(&mut channel, LayoutCommand::Connect { sender: StreamId(2) });
    first.layout(&mut channel, LayoutCommand::Disconnect { sender: StreamId(1) });
    let mut pinnacle = pinnacle_with(&["DP-1"], Some("DP-1"));
    for submission in channel.drain() {
        pinnacle.handle_layout(submission.command);
    }
    assert_eq!(pinnacle.layout_state.layout_request_sender, Some(StreamId(2)));
}
