use spotifyd_rest::handlers::Request;
use spotifyd_rest::routes::{
    create_rest_server, request_of, Endpoint, Method, Payload, PayloadKind, BIND_ADDRESS,
};

#[test]
fn all_routes() {
    let expected = [
        (Method::Get, "/", Endpoint::Root),
        (Method::Get, "/shutdown", Endpoint::Shutdown),
        (Method::Get, "/play_pause", Endpoint::PlayPause),
        (Method::Get, "/next", Endpoint::Next),
        (Method::Get, "/previous", Endpoint::Previous),
        (Method::Post, "/seek", Endpoint::Seek),
        (Method::Post, "/get_category_playlist", Endpoint::GetCategoryPlaylist),
        (Method::Post, "/repeat", Endpoint::Repeat),
        (Method::Post, "/shuffle", Endpoint::Shuffle),
        (Method::Post, "/search", Endpoint::Search),
        (Method::Get, "/player_status", Endpoint::PlayerStatus),
        (Method::Get, "/transfer_playback", Endpoint::TransferPlayback),
        (Method::Post, "/volume", Endpoint::Volume),
        (Method::Post, "/open_uri", Endpoint::OpenUri),
    ];
    let routes = create_rest_server();
    assert_eq!(routes.len(), expected.len());
    for (route, (method, path, endpoint)) in routes.iter().zip(expected) {
        assert_eq!((route.method, route.path, route.endpoint), (method, path, endpoint));
        assert_eq!(endpoint.path(), path);
        assert_eq!(endpoint.method(), method);
    }
}

#[test]
fn no_path_is_used_twice() {
    let routes = create_rest_server();
    for (i, a) in routes.iter().enumerate() {
        for (j, b) in routes.iter().enumerate() {
            assert_eq!(a.path == b.path, i == j);
        }
    }
}

#[test]
fn address() {
    assert_eq!(BIND_ADDRESS, "0.0.0.0:3000");
}

fn payloads() -> Vec<(PayloadKind, Payload<String>)> {
    vec![
        (PayloadKind::Empty, Payload::Empty),
        (PayloadKind::Pos, Payload::Pos(4711)),
        (PayloadKind::Text, Payload::Text("pop".to_string())),
        (PayloadKind::Flag, Payload::Flag(true)),
        (PayloadKind::Keyword, Payload::Keyword("abba".to_string())),
        (PayloadKind::Vol, Payload::Vol(42)),
        (PayloadKind::Uri, Payload::Uri("spotify:track:x".to_string())),
    ]
}

#[test]
fn requests_of_routes() {
    let expected = [
        (Endpoint::Root, Request::Root),
        (Endpoint::Shutdown, Request::Shutdown),
        (Endpoint::PlayPause, Request::PlayPause),
        (Endpoint::Next, Request::Next),
        (Endpoint::Previous, Request::Previous),
        (Endpoint::Seek, Request::Seek { pos: 4711 }),
        (
            Endpoint::GetCategoryPlaylist,
            Request::GetCategoryPlaylist { category_id: "pop".to_string() },
        ),
        (Endpoint::Repeat, Request::Repeat { word: "pop".to_string() }),
        (Endpoint::Shuffle, Request::Shuffle { on: true }),
        (Endpoint::Search, Request::Search { keyword: "abba".to_string() }),
        (Endpoint::PlayerStatus, Request::PlayerStatus),
        (Endpoint::TransferPlayback, Request::TransferPlayback),
        (Endpoint::Volume, Request::Volume { vol: 42 }),
        (Endpoint::OpenUri, Request::OpenUri { uri: "spotify:track:x".to_string() }),
    ];
    for (endpoint, request) in expected {
        let kind = endpoint.payload_kind();
        let payload = payloads().into_iter().find(|(k, _)| *k == kind).unwrap().1;
        assert_eq!(request_of(endpoint, payload), Some(request));
    }
}

#[test]
fn payloads_of_other_forms_make_no_request() {
    for route in create_rest_server() {
        for (kind, payload) in payloads() {
            let made = request_of(route.endpoint, payload).is_some();
            assert_eq!(made, kind == route.endpoint.payload_kind());
        }
    }
}

#[test]
fn requests_with_payload_are_posted() {
    for route in create_rest_server() {
        let posted = route.endpoint.payload_kind() != PayloadKind::Empty;
        assert_eq!(route.method == Method::Post, posted);
    }
}
