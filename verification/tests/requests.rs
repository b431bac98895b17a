use reqwest::StatusCode;
use spotifyd_rest::api::{
    get_device_id, ApiOutcome, Call, Device, Outcome, Playing, RepeatState, SearchType,
    SpircCommand,
};
use spotifyd_rest::handlers::{
    get_category_playlist, handle, open_ur, playback, repeat, search, shuffle, shutdown, Pending,
    Request, RequestStep, Step,
};
use spotifyd_rest::response::{
    respond, AppError, Body, RequestBody, RequestResponse, Response, SError,
};
use spotifyd_rest::uri::{Item, UriType};

type Reply = Result<RequestBody<u32>, AppError>;

fn text(s: &str) -> String {
    s.to_string()
}

fn devices() -> ApiOutcome<u32> {
    Outcome::Devices(vec![
        Device { name: text("kitchen"), id: Some(text("k")) },
        Device { name: text("radio"), id: None },
        Device { name: text("radio"), id: Some(text("r1")) },
        Device { name: text("radio"), id: Some(text("r2")) },
    ])
}

fn begin(request: Request<String>) -> RequestStep<u32> {
    handle(request, text("radio"))
}

fn call(step: RequestStep<u32>) -> (Call<String>, Pending<String, u32>) {
    match step {
        Step::Call(call, pending) => (call, pending),
        Step::Reply(_) => panic!("expected a call"),
    }
}

fn reply(step: RequestStep<u32>) -> Reply {
    match step {
        Step::Call(_, _) => panic!("expected a reply"),
        Step::Reply(reply) => reply,
    }
}

fn go_on(pending: Pending<String, u32>, outcome: ApiOutcome<u32>) -> RequestStep<u32> {
    assert!(pending.accepts(&outcome));
    pending.resume(outcome)
}

fn done() -> Reply {
    Ok(Body::Field { name: text("res"), value: text("done") })
}

fn refused(e: SError) -> Reply {
    Err(AppError::Playback(e))
}

#[test]
fn root_is_done_at_once() {
    assert_eq!(reply(begin(Request::Root)), done());
    let body: RequestBody<u32> = shutdown();
    assert_eq!(Ok(body), done());
}

#[test]
fn local_player_is_told() {
    let requests = [
        (Request::Shutdown, SpircCommand::Shutdown),
        (Request::PlayPause, SpircCommand::PlayPause),
        (Request::Next, SpircCommand::Next),
        (Request::Previous, SpircCommand::Previous),
    ];
    for (request, command) in requests {
        let (c, pending) = call(begin(request));
        assert_eq!(c, Call::Player(command));
        assert_eq!(reply(go_on(pending, Outcome::Done)), done());
    }
}

#[test]
fn first_device_with_name_and_id_is_found() {
    assert_eq!(get_device_id("radio", &devices()), Some(text("r1")));
    assert_eq!(get_device_id("kitchen", &devices()), Some(text("k")));
    assert_eq!(get_device_id("cellar", &devices()), None);
    let failed: ApiOutcome<u32> = Outcome::Failed;
    assert_eq!(get_device_id("radio", &failed), None);
    let none: ApiOutcome<u32> = Outcome::Devices(vec![Device { name: text("radio"), id: None }]);
    assert_eq!(get_device_id("radio", &none), None);
}

#[test]
fn seeking_goes_where_music_plays() {
    let (c, pending) = call(begin(Request::Seek { pos: 1500 }));
    assert_eq!(c, Call::CurrentPlayback);
    let playing = Playing { device_id: Some(text("d")), value: 1 };
    let (c, pending) = call(go_on(pending, Outcome::Playback(Some(playing))));
    assert_eq!(c, Call::Seek { position_ms: 1500, device_id: Some(text("d")) });
    assert_eq!(reply(go_on(pending, Outcome::Failed)), done());
}

#[test]
fn seeking_needs_playback() {
    for outcome in [Outcome::Playback(None), Outcome::Failed] {
        let (_, pending) = call(begin(Request::Seek { pos: 1 }));
        assert_eq!(reply(go_on(pending, outcome)), done());
    }
}

#[test]
fn category_playlists_are_passed_on() {
    let (c, pending) = call(begin(Request::GetCategoryPlaylist { category_id: text("jazz") }));
    assert_eq!(c, Call::CategoryPlaylists { category_id: text("jazz"), limit: 30 });
    assert_eq!(reply(go_on(pending, Outcome::Value(5))), Ok(Body::Value(5)));
    let (_, pending) = call(get_category_playlist(text("jazz")));
    assert_eq!(reply(go_on(pending, Outcome::Failed)), refused(SError::StatusError));
}

#[test]
fn words_for_repeating() {
    let words = [
        ("track", RepeatState::Track),
        ("context", RepeatState::Context),
        ("off", RepeatState::Off),
        ("", RepeatState::Off),
        ("Track", RepeatState::Off),
        ("everything", RepeatState::Off),
    ];
    for (word, mode) in words {
        let (c, pending) = call(begin(Request::Repeat { word: text(word) }));
        assert_eq!(c, Call::Devices);
        let (c, pending) = call(go_on(pending, devices()));
        assert_eq!(c, Call::Repeat { mode, device_id: Some(text("r1")) });
        assert_eq!(reply(go_on(pending, Outcome::Done)), done());
    }
}

#[test]
fn failure_to_repeat() {
    let (_, pending) = call(repeat(text("track"), text("cellar")));
    let (c, pending) = call(go_on(pending, devices()));
    assert_eq!(c, Call::Repeat { mode: RepeatState::Track, device_id: None });
    assert_eq!(reply(go_on(pending, Outcome::Failed)), refused(SError::StatusError));
}

#[test]
fn shuffling_is_switched() {
    let (c, pending) = call(begin(Request::Shuffle { on: true }));
    assert_eq!(c, Call::Devices);
    let (c, pending) = call(go_on(pending, devices()));
    assert_eq!(c, Call::Shuffle { on: true, device_id: Some(text("r1")) });
    assert_eq!(reply(go_on(pending, Outcome::Done)), done());
}

#[test]
fn failure_to_shuffle() {
    let (_, pending) = call(shuffle(false, text("radio")));
    let (c, pending) = call(go_on(pending, Outcome::Failed));
    assert_eq!(c, Call::Shuffle { on: false, device_id: None });
    assert_eq!(reply(go_on(pending, Outcome::Failed)), refused(SError::StatusError));
}

#[test]
fn searching_asks_four_times() {
    let query = || text("blue");
    let ask =
        |search_type: SearchType| Call::Search { query: query(), search_type, limit: 6 };
    let (c, pending) = call(begin(Request::Search { keyword: query() }));
    assert_eq!(c, ask(SearchType::Track));
    let (c, pending) = call(go_on(pending, Outcome::Value(1)));
    assert_eq!(c, ask(SearchType::Album));
    let (c, pending) = call(go_on(pending, Outcome::Value(2)));
    assert_eq!(c, ask(SearchType::Artist));
    let (c, pending) = call(go_on(pending, Outcome::Value(3)));
    assert_eq!(c, ask(SearchType::Playlist));
    assert_eq!(
        reply(go_on(pending, Outcome::Value(4))),
        Ok(Body::Array(vec![1, 2, 3, 4]))
    );
}

#[test]
fn searching_cannot_do_without_results() {
    let (_, pending) = call(search(text("blue")));
    let failed: ApiOutcome<u32> = Outcome::Failed;
    assert!(!pending.accepts(&failed));
}

#[test]
fn status_is_passed_on() {
    let (c, pending) = call(begin(Request::PlayerStatus));
    assert_eq!(c, Call::CurrentPlayback);
    let playing = Playing { device_id: None, value: 9 };
    assert_eq!(reply(go_on(pending, Outcome::Playback(Some(playing)))), Ok(Body::Value(9)));
}

#[test]
fn status_needs_playback() {
    for outcome in [Outcome::Playback(None), Outcome::Failed] {
        let (_, pending) = call(playback());
        assert_eq!(reply(go_on(pending, outcome)), refused(SError::StatusError));
    }
}

#[test]
fn playback_is_moved() {
    let (c, pending) = call(begin(Request::TransferPlayback));
    assert_eq!(c, Call::Devices);
    let (c, pending) = call(go_on(pending, devices()));
    assert_eq!(c, Call::TransferPlayback { target: text("r1"), play: false });
    assert_eq!(reply(go_on(pending, Outcome::Failed)), done());
}

#[test]
fn moving_playback_needs_a_device() {
    let (_, pending) = call(handle::<u32>(Request::TransferPlayback, text("cellar")));
    assert!(!pending.accepts(&devices()));
    let failed: ApiOutcome<u32> = Outcome::Failed;
    assert!(!pending.accepts(&failed));
}

#[test]
fn volume_is_set() {
    let (c, pending) = call(begin(Request::Volume { vol: 55 }));
    assert_eq!(c, Call::Devices);
    let (c, pending) = call(go_on(pending, devices()));
    assert_eq!(c, Call::Volume { percent: 55, device_id: Some(text("r1")) });
    let failed: ApiOutcome<u32> = Outcome::Failed;
    assert!(!pending.accepts(&failed));
    assert_eq!(reply(go_on(pending, Outcome::Done)), done());
}

#[test]
fn track_is_played_alone() {
    let item = || Item { item_type: UriType::Track, id: text("abc") };
    let (c, pending) = call(begin(Request::OpenUri { uri: text("spotify:track:abc") }));
    assert_eq!(c, Call::Devices);
    let (c, pending) = call(go_on(pending, devices()));
    assert_eq!(c, Call::StartUris { item: item(), device_id: Some(text("r1")), offset: 0 });
    assert_eq!(reply(go_on(pending, Outcome::Failed)), done());
}

#[test]
fn album_is_played_as_context() {
    let item = || Item { item_type: UriType::Album, id: text("abc") };
    let (_, pending) = call(open_ur(text("spotify/album/abc"), text("nowhere")));
    let (c, pending) = call(go_on(pending, devices()));
    assert_eq!(c, Call::StartContext { item: item(), device_id: None, offset: 0 });
    assert_eq!(reply(go_on(pending, Outcome::Done)), done());
}

#[test]
fn unknown_uri_leads_to_no_call() {
    assert_eq!(
        reply(begin(Request::OpenUri { uri: text("https://example.com") })),
        refused(SError::NotFound)
    );
}

#[test]
fn answers_that_no_call_gives_are_not_accepted() {
    let (_, pending) = call(begin(Request::PlayerStatus));
    assert!(!pending.accepts(&devices()));
    let (_, pending) = call(begin(Request::Next));
    let failed: ApiOutcome<u32> = Outcome::Failed;
    assert!(!pending.accepts(&failed));
}

fn error_response(status: u16, message: &str) -> RequestResponse<u32> {
    Response { status, body: Body::Field { name: text("error"), value: text(message) } }
}

#[test]
fn failures_have_status_and_message() {
    let not_found = AppError::from(SError::NotFound);
    assert_eq!(not_found, AppError::Playback(SError::NotFound));
    assert_eq!(not_found.into_response(), error_response(404, "User not found"));
    assert_eq!(
        respond(refused(SError::StatusError)),
        error_response(500, "Failed to get the data")
    );
    assert_eq!(
        AppError::from(SError::InvalidUsername).into_response(),
        error_response(422, "Invalid username")
    );
}

#[test]
fn success_has_status_200() {
    let outcome: Reply = Ok(Body::Value(3));
    assert_eq!(respond(outcome), Response { status: 200, body: Body::Value(3) });
}

#[test]
fn statuses_are_those_of_http() {
    let status = |e: SError| {
        let response: RequestResponse<u32> = AppError::from(e).into_response();
        StatusCode::from_u16(response.status).unwrap()
    };
    assert_eq!(status(SError::NotFound), StatusCode::NOT_FOUND);
    assert_eq!(status(SError::StatusError), StatusCode::INTERNAL_SERVER_ERROR);
    assert_eq!(status(SError::InvalidUsername), StatusCode::UNPROCESSABLE_ENTITY);
}
