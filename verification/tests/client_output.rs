use pinnacle::api::layout::StreamError;
use pinnacle::client::output::{
    ConnectForAllResponse, GetPropertiesResponse, Output, OutputProperties, TagHandle,
};

fn names(items: &[&str]) -> Vec<String> {
    items.iter().map(|n| n.to_string()).collect()
}

fn response(focused: Option<bool>, tag_ids: Vec<u32>) -> GetPropertiesResponse {
    GetPropertiesResponse {
        make: Some("Maker".to_string()),
        model: None,
        x: Some(-10),
        y: Some(20),
        pixel_width: Some(1920),
        pixel_height: Some(1080),
        refresh_rate: Some(60000),
        physical_width: Some(520),
        physical_height: None,
        focused,
        tag_ids,
    }
}

fn announce(name: Option<&str>) -> Result<ConnectForAllResponse, StreamError> {
    Ok(ConnectForAllResponse { output_name: name.map(|n| n.to_string()) })
}

fn handle_names(handles: &[pinnacle::client::output::OutputHandle]) -> Vec<String> {
    handles.iter().map(|h| h.name().clone()).collect()
}

#[test]
fn every_named_output_gets_a_handle() {
    let handles = Output::new().get_all(names(&["DP-1", "HDMI-1", "eDP-1"]));
    assert_eq!(handle_names(&handles), names(&["DP-1", "HDMI-1", "eDP-1"]));
    assert!(Output::new().get_all(Vec::new()).is_empty());
}

#[test]
fn location_request_names_the_output() {
    let handles = Output::new().get_all(names(&["DP-1"]));
    let request = handles[0].set_location(Some(1920), None);
    assert_eq!(request.output_name, Some("DP-1".to_string()));
    assert_eq!(request.x, Some(1920));
    assert_eq!(request.y, None);
    let request = handles[0].set_location(None, Some(-5));
    assert_eq!((request.x, request.y), (None, Some(-5)));
}

#[test]
fn properties_are_taken_from_the_answer() {
    let handles = Output::new().get_all(names(&["DP-1"]));
    let props = handles[0].props(response(Some(true), vec![3, 1, 2]));
    assert_eq!(props.make, Some("Maker".to_string()));
    assert_eq!(props.model, None);
    assert_eq!(props.x, Some(-10));
    assert_eq!(props.y, Some(20));
    assert_eq!(props.pixel_width, Some(1920));
    assert_eq!(props.pixel_height, Some(1080));
    assert_eq!(props.refresh_rate, Some(60000));
    assert_eq!(props.physical_width, Some(520));
    assert_eq!(props.physical_height, None);
    assert_eq!(props.focused, Some(true));
    assert_eq!(props.tags, vec![TagHandle { id: 3 }, TagHandle { id: 1 }, TagHandle { id: 2 }]);
}

#[test]
fn properties_without_tags_have_no_handles() {
    let handles = Output::new().get_all(names(&["DP-1"]));
    let props: OutputProperties = handles[0].props(response(None, vec![]));
    assert!(props.tags.is_empty());
    assert_eq!(props.focused, None);
}

#[test]
fn first_focused_output_is_found() {
    let output = Output::new();
    let mut handles = output.get_all(names(&["A", "B", "C", "D"]));
    let d = handles.pop().unwrap();
    let c = handles.pop().unwrap();
    let b = handles.pop().unwrap();
    let a = handles.pop().unwrap();
    let pa = a.props(response(None, vec![]));
    let pb = b.props(response(Some(false), vec![]));
    let pc = c.props(response(Some(true), vec![]));
    let pd = d.props(response(Some(true), vec![]));
    let focused = output.get_focused(vec![(a, pa), (b, pb), (c, pc), (d, pd)]);
    assert_eq!(focused.map(|h| h.name().clone()), Some("C".to_string()));
}

#[test]
fn no_output_is_focused_when_none_says_so() {
    let output = Output::new();
    let mut handles = output.get_all(names(&["A", "B"]));
    let b = handles.pop().unwrap();
    let a = handles.pop().unwrap();
    let pa = a.props(response(None, vec![]));
    let pb = b.props(response(Some(false), vec![]));
    assert!(output.get_focused(vec![(a, pa), (b, pb)]).is_none());
    assert!(output.get_focused(Vec::new()).is_none());
}

#[test]
fn callback_is_due_for_existing_and_announced_outputs() {
    let output = Output::new();
    let existing = output.get_all(names(&["A", "B"]));
    let due = output.connect_for_all(existing, vec![announce(Some("C")), announce(Some("D"))]);
    assert_eq!(handle_names(&due), names(&["A", "B", "C", "D"]));
}

#[test]
fn announcements_without_a_name_are_skipped() {
    let output = Output::new();
    let due = output.connect_for_all(
        Vec::new(),
        vec![announce(None), announce(Some("C")), announce(None), announce(Some("D"))],
    );
    assert_eq!(handle_names(&due), names(&["C", "D"]));
}

#[test]
fn announcements_end_at_the_first_failure() {
    let output = Output::new();
    let existing = output.get_all(names(&["A"]));
    let due = output.connect_for_all(
        existing,
        vec![
            announce(Some("B")),
            Err(StreamError { message: "reset".to_string() }),
            announce(Some("C")),
        ],
    );
    assert_eq!(handle_names(&due), names(&["A", "B"]));
}

#[test]
fn no_announcement_leaves_the_existing_outputs() {
    let output = Output::new();
    let existing = output.get_all(names(&["A"]));
    let due = output.connect_for_all(existing, Vec::new());
    assert_eq!(handle_names(&due), names(&["A"]));
}
