use now_playing::events::{MetadataChange, PropertyChange};
use now_playing::playback::{PlaybackStateMachine, PlaybackStatus};

fn metadata(title: Option<&str>, artist: Option<Vec<&str>>) -> PropertyChange {
    PropertyChange::Metadata(MetadataChange {
        title: title.map(String::from),
        artist: artist.map(|a| a.into_iter().map(String::from).collect()),
    })
}

fn status(value: &str) -> PropertyChange {
    PropertyChange::PlaybackStatus(String::from(value))
}

#[test]
fn metadata_then_playing_emits_one_line() {
    let mut m = PlaybackStateMachine::new();
    let (lines, diags) = m.on_property_change(&vec![metadata(Some("Song"), Some(vec!["Band"]))]);
    assert!(lines.is_empty());
    assert!(diags.is_empty());
    let (lines, diags) = m.on_property_change(&vec![status("Playing")]);
    assert_eq!(lines, vec![String::from("Band - Song")]);
    assert!(diags.is_empty());
}

#[test]
fn playing_then_metadata_emits_one_line() {
    let mut m = PlaybackStateMachine::new();
    let (lines, diags) = m.on_property_change(&vec![status("Playing")]);
    assert!(lines.is_empty());
    assert!(diags.is_empty());
    let (lines, diags) = m.on_property_change(&vec![metadata(Some("A"), Some(vec!["B"]))]);
    assert_eq!(lines, vec![String::from("B - A")]);
    assert!(diags.is_empty());
}

#[test]
fn paused_emits_paused_line_every_time() {
    let mut m = PlaybackStateMachine::new();
    // Already paused: the transition still prints.
    let (lines, _) = m.on_property_change(&vec![status("Paused")]);
    assert_eq!(lines, vec![String::from("Paused")]);
    let (lines, _) = m.on_property_change(&vec![status("Playing")]);
    assert!(lines.is_empty());
    let (lines, diags) = m.on_property_change(&vec![status("Paused")]);
    assert_eq!(lines, vec![String::from("Paused")]);
    assert!(diags.is_empty());
}

#[test]
fn unknown_status_leaves_state_and_diagnoses() {
    let mut m = PlaybackStateMachine::new();
    let (lines, diags) = m.on_property_change(&vec![status("Stopped")]);
    assert!(lines.is_empty());
    assert_eq!(diags, vec![String::from("unknown status Stopped")]);
    assert_eq!(m.status, PlaybackStatus::Paused);
    assert_eq!(m.display_line, "");
}

#[test]
fn metadata_without_artist_keeps_line() {
    let mut m = PlaybackStateMachine::new();
    m.on_property_change(&vec![metadata(Some("Song"), Some(vec!["Band"]))]);
    let (lines, diags) = m.on_property_change(&vec![metadata(Some("Other"), None)]);
    assert!(lines.is_empty());
    assert_eq!(diags, vec![String::from("no artist")]);
    assert_eq!(m.display_line, "Band - Song");
}

#[test]
fn metadata_without_title_keeps_line() {
    let mut m = PlaybackStateMachine::new();
    m.on_property_change(&vec![metadata(Some("Song"), Some(vec!["Band"]))]);
    let (lines, diags) = m.on_property_change(&vec![metadata(None, Some(vec!["X"]))]);
    assert!(lines.is_empty());
    assert_eq!(diags, vec![String::from("no title")]);
    assert_eq!(m.display_line, "Band - Song");
}

#[test]
fn metadata_missing_both_fields_two_diagnostics() {
    let mut m = PlaybackStateMachine::new();
    let (lines, diags) = m.on_property_change(&vec![metadata(None, None)]);
    assert!(lines.is_empty());
    assert_eq!(diags, vec![String::from("no title"), String::from("no artist")]);
}

#[test]
fn metadata_while_playing_reemits_even_unchanged() {
    let mut m = PlaybackStateMachine::new();
    m.on_property_change(&vec![status("Playing")]);
    let event = vec![metadata(Some("A"), Some(vec!["B"]))];
    let (lines, _) = m.on_property_change(&event);
    assert_eq!(lines, vec![String::from("B - A")]);
    let (lines, _) = m.on_property_change(&event);
    assert_eq!(lines, vec![String::from("B - A")]);
}

#[test]
fn partial_metadata_while_playing_still_emits_retained_line() {
    let mut m = PlaybackStateMachine::new();
    m.on_property_change(&vec![metadata(Some("Song"), Some(vec!["Band"]))]);
    m.on_property_change(&vec![status("Playing")]);
    let (lines, diags) = m.on_property_change(&vec![metadata(Some("Other"), None)]);
    assert_eq!(lines, vec![String::from("Band - Song")]);
    assert_eq!(diags, vec![String::from("no artist")]);
}

#[test]
fn other_keys_are_ignored() {
    let mut m = PlaybackStateMachine::new();
    let (lines, diags) = m.on_property_change(&vec![PropertyChange::Other]);
    assert!(lines.is_empty());
    assert!(diags.is_empty());
    assert_eq!(m.status, PlaybackStatus::Paused);
    assert_eq!(m.display_line, "");
}

#[test]
fn entries_of_one_event_processed_in_order() {
    let mut m = PlaybackStateMachine::new();
    let (lines, diags) = m.on_property_change(&vec![
        metadata(Some("Song"), Some(vec!["Band"])),
        status("Playing"),
    ]);
    // The metadata entry arrives while paused (no line), then the Playing
    // transition reprints the freshly retained line.
    assert_eq!(lines, vec![String::from("Band - Song")]);
    assert!(diags.is_empty());
    assert_eq!(m.status, PlaybackStatus::Playing);
}

#[test]
fn long_metadata_is_truncated_in_display() {
    let mut m = PlaybackStateMachine::new();
    m.on_property_change(&vec![status("Playing")]);
    let long_title = "t".repeat(150);
    let (lines, _) =
        m.on_property_change(&vec![metadata(Some(long_title.as_str()), Some(vec!["B"]))]);
    let raw = format!("B - {long_title}");
    let expected: String = raw.chars().take(100).collect::<String>() + "...";
    assert_eq!(lines, vec![expected]);
}
