use librespot_core::spotify_id::SpotifyId;
use spotifyd_rest::environment::Environment;
use spotifyd_rest::player_event::PlayerEvent;
use spotifyd_rest::text::decimal_text;

const TRACK: u128 = 238762092608182713602505436543891614649;
const TRACK_TEXT: &str = "5sWHDYs0csV6RS48xBl0tH";
const OTHER: u128 = 204841891221366092811751085145916697048;
const OTHER_TEXT: &str = "4GNcXTGWmnZ3ySrqvol3o4";

fn sorted(env: &Environment) -> Vec<(String, String)> {
    let mut all: Vec<(String, String)> =
        env.entries().iter().map(|(name, value)| (name.to_string(), value.clone())).collect();
    all.sort();
    all
}

fn check(event: PlayerEvent, expected: &[(&str, &str)]) {
    let mut expected: Vec<(String, String)> =
        expected.iter().map(|(name, value)| (name.to_string(), value.to_string())).collect();
    expected.sort();
    assert_eq!(sorted(&event.environment()), expected);
}

#[test]
fn changed_event_names_both_tracks() {
    check(
        PlayerEvent::Changed { old_track_id: TRACK, new_track_id: OTHER },
        &[("PLAYER_EVENT", "change"), ("OLD_TRACK_ID", TRACK_TEXT), ("TRACK_ID", OTHER_TEXT)],
    );
}

#[test]
fn started_event() {
    check(
        PlayerEvent::Started { play_request_id: 7, track_id: TRACK, position_ms: 1000 },
        &[
            ("PLAYER_EVENT", "start"),
            ("TRACK_ID", TRACK_TEXT),
            ("PLAY_REQUEST_ID", "7"),
            ("POSITION_MS", "1000"),
        ],
    );
}

#[test]
fn stopped_event() {
    check(
        PlayerEvent::Stopped { play_request_id: u64::MAX, track_id: TRACK },
        &[
            ("PLAYER_EVENT", "stop"),
            ("TRACK_ID", TRACK_TEXT),
            ("PLAY_REQUEST_ID", "18446744073709551615"),
        ],
    );
}

#[test]
fn loading_event() {
    check(
        PlayerEvent::Loading { play_request_id: 10, track_id: OTHER, position_ms: 0 },
        &[
            ("PLAYER_EVENT", "load"),
            ("TRACK_ID", OTHER_TEXT),
            ("PLAY_REQUEST_ID", "10"),
            ("POSITION_MS", "0"),
        ],
    );
}

#[test]
fn playing_event() {
    check(
        PlayerEvent::Playing {
            play_request_id: 1,
            track_id: TRACK,
            position_ms: 99,
            duration_ms: 4294967295,
        },
        &[
            ("PLAYER_EVENT", "play"),
            ("TRACK_ID", TRACK_TEXT),
            ("PLAY_REQUEST_ID", "1"),
            ("POSITION_MS", "99"),
            ("DURATION_MS", "4294967295"),
        ],
    );
}

#[test]
fn paused_event() {
    check(
        PlayerEvent::Paused {
            play_request_id: 1,
            track_id: TRACK,
            position_ms: 100,
            duration_ms: 200,
        },
        &[
            ("PLAYER_EVENT", "pause"),
            ("TRACK_ID", TRACK_TEXT),
            ("PLAY_REQUEST_ID", "1"),
            ("POSITION_MS", "100"),
            ("DURATION_MS", "200"),
        ],
    );
}

#[test]
fn preload_event() {
    check(
        PlayerEvent::TimeToPreloadNextTrack { play_request_id: 2, track_id: TRACK },
        &[("PLAYER_EVENT", "preload"), ("TRACK_ID", TRACK_TEXT), ("PLAY_REQUEST_ID", "2")],
    );
}

#[test]
fn end_of_track_event() {
    check(
        PlayerEvent::EndOfTrack { play_request_id: 3, track_id: TRACK },
        &[("PLAYER_EVENT", "endoftrack"), ("TRACK_ID", TRACK_TEXT), ("PLAY_REQUEST_ID", "3")],
    );
}

#[test]
fn volume_event_names_no_track() {
    check(
        PlayerEvent::VolumeSet { volume: 65535 },
        &[("PLAYER_EVENT", "volumeset"), ("VOLUME", "65535")],
    );
}

#[test]
fn unavailable_event() {
    check(
        PlayerEvent::Unavailable { play_request_id: 4, track_id: TRACK },
        &[("PLAYER_EVENT", "unavailable"), ("TRACK_ID", TRACK_TEXT), ("PLAY_REQUEST_ID", "4")],
    );
}

#[test]
fn preloading_event() {
    check(
        PlayerEvent::Preloading { track_id: TRACK },
        &[("PLAYER_EVENT", "preloading"), ("TRACK_ID", TRACK_TEXT)],
    );
}

#[test]
fn ids_are_padded_to_a_fixed_length() {
    let text = |id: u128| PlayerEvent::Preloading { track_id: id }.environment().get("TRACK_ID");
    assert_eq!(text(0), Some("0000000000000000000000".to_string()));
    assert_eq!(text(61), Some("000000000000000000000Z".to_string()));
    assert_eq!(text(62), Some("0000000000000000000010".to_string()));
    assert_eq!(text(u128::MAX).unwrap().len(), 22);
    assert_ne!(text(1), text(2));
}

#[test]
fn ids_agree_with_librespot() {
    for id in [0, 1, 61, 62, 3843, 3844, TRACK, OTHER, u128::MAX] {
        let text = PlayerEvent::Preloading { track_id: id }.environment().get("TRACK_ID").unwrap();
        assert_eq!(SpotifyId::from_base62(&text).unwrap().id, id);
    }
}

#[test]
fn different_events_have_different_environments() {
    let events = [
        PlayerEvent::Stopped { play_request_id: 1, track_id: 2 },
        PlayerEvent::Stopped { play_request_id: 2, track_id: 2 },
        PlayerEvent::Stopped { play_request_id: 1, track_id: 3 },
        PlayerEvent::EndOfTrack { play_request_id: 1, track_id: 2 },
        PlayerEvent::Changed { old_track_id: 1, new_track_id: 2 },
        PlayerEvent::Changed { old_track_id: 2, new_track_id: 1 },
        PlayerEvent::VolumeSet { volume: 1 },
        PlayerEvent::VolumeSet { volume: 10 },
    ];
    for (i, a) in events.iter().enumerate() {
        for (j, b) in events.iter().enumerate() {
            assert_eq!(sorted(&a.environment()) == sorted(&b.environment()), i == j);
        }
    }
}

#[test]
fn setting_a_variable_again_replaces_it() {
    let mut env = Environment::new();
    assert_eq!(env.get("A"), None);
    env.insert("A", "1".to_string());
    env.insert("B", "2".to_string());
    env.insert("A", "3".to_string());
    assert_eq!(env.get("A"), Some("3".to_string()));
    assert_eq!(env.get("B"), Some("2".to_string()));
    assert_eq!(env.entries().len(), 2);
}

#[test]
fn decimal_texts() {
    for n in [0, 9, 10, 19, 100, 12345, u64::MAX - 1, u64::MAX] {
        assert_eq!(decimal_text(n), n.to_string());
    }
}
