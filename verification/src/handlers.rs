//! What each request leads to: a call at a time, and then an answer.
use vstd::prelude::*;

use crate::api::{
    device_of, get_device_id, opt_view, ApiOutcome, Call, Outcome, OutcomeView, Playing,
    RepeatState, SearchType, SpircCommand,
};
use crate::response::{answer, AppError, Body, BodyView, RequestBody, Response, SError};
use crate::uri::{
    is_separator, item_of, uri_of_item_denotes_it, valid_id, Item, UriType,
};

verus! {

/// How many playlists of a category are asked for.
pub const CATEGORY_LIMIT: u32 = 30;

/// How many results of each kind a search asks for.
pub const SEARCH_LIMIT: u32 = 6;

/// A request. `S` is the type of texts.
#[derive(Debug, PartialEq, Eq)]
pub enum Request<S> {
    Root,
    Shutdown,
    PlayPause,
    Next,
    Previous,
    Seek { pos: u32 },
    GetCategoryPlaylist { category_id: S },
    Repeat { word: S },
    Shuffle { on: bool },
    Search { keyword: S },
    PlayerStatus,
    TransferPlayback,
    Volume { vol: u8 },
    OpenUri { uri: S },
}

impl<S: View> View for Request<S> {
    type V = Request<S::V>;

    open spec fn view(&self) -> Request<S::V> {
        match *self {
            Request::Root => Request::Root,
            Request::Shutdown => Request::Shutdown,
            Request::PlayPause => Request::PlayPause,
            Request::Next => Request::Next,
            Request::Previous => Request::Previous,
            Request::Seek { pos } => Request::Seek { pos },
            Request::GetCategoryPlaylist { category_id } => Request::GetCategoryPlaylist {
                category_id: category_id@,
            },
            Request::Repeat { word } => Request::Repeat { word: word@ },
            Request::Shuffle { on } => Request::Shuffle { on },
            Request::Search { keyword } => Request::Search { keyword: keyword@ },
            Request::PlayerStatus => Request::PlayerStatus,
            Request::TransferPlayback => Request::TransferPlayback,
            Request::Volume { vol } => Request::Volume { vol },
            Request::OpenUri { uri } => Request::OpenUri { uri: uri@ },
        }
    }
}

/// A request that waits for what comes of a call.
#[derive(Debug, PartialEq, Eq)]
pub enum Pending<S, T> {
    /// Waits for the local player.
    Player,
    /// Waits for what is played, to seek there.
    SeekPlayback { pos: u32 },
    /// Waits for the end of seeking.
    Seek,
    /// Waits for the playlists.
    CategoryPlaylists,
    /// Waits for the devices, to set what is repeated.
    RepeatDevices { mode: RepeatState, device_name: S },
    /// Waits for what is repeated to be set.
    Repeat,
    /// Waits for the devices, to switch shuffling.
    ShuffleDevices { on: bool, device_name: S },
    /// Waits for shuffling to be switched.
    Shuffle,
    /// Waits for the tracks that were searched for.
    SearchTracks { query: S },
    /// Waits for the albums that were searched for.
    SearchAlbums { query: S, tracks: T },
    /// Waits for the artists that were searched for.
    SearchArtists { query: S, tracks: T, albums: T },
    /// Waits for the playlists that were searched for.
    SearchPlaylists { tracks: T, albums: T, artists: T },
    /// Waits for what is played, to tell it.
    PlayerStatus,
    /// Waits for the devices, to move playback.
    TransferDevices { device_name: S },
    /// Waits for playback to be moved.
    Transfer,
    /// Waits for the devices, to set the volume.
    VolumeDevices { vol: u8, device_name: S },
    /// Waits for the volume to be set.
    Volume,
    /// Waits for the devices, to play an item.
    OpenDevices { item: Item<S>, device_name: S },
    /// Waits for the item to be played.
    Open,
}

impl<S: View, T> View for Pending<S, T> {
    type V = Pending<S::V, T>;

    open spec fn view(&self) -> Pending<S::V, T> {
        match *self {
            Pending::Player => Pending::Player,
            Pending::SeekPlayback { pos } => Pending::SeekPlayback { pos },
            Pending::Seek => Pending::Seek,
            Pending::CategoryPlaylists => Pending::CategoryPlaylists,
            Pending::RepeatDevices { mode, device_name } => Pending::RepeatDevices {
                mode,
                device_name: device_name@,
            },
            Pending::Repeat => Pending::Repeat,
            Pending::ShuffleDevices { on, device_name } => Pending::ShuffleDevices {
                on,
                device_name: device_name@,
            },
            Pending::Shuffle => Pending::Shuffle,
            Pending::SearchTracks { query } => Pending::SearchTracks { query: query@ },
            Pending::SearchAlbums { query, tracks } => Pending::SearchAlbums {
                query: query@,
                tracks,
            },
            Pending::SearchArtists { query, tracks, albums } => Pending::SearchArtists {
                query: query@,
                tracks,
                albums,
            },
            Pending::SearchPlaylists { tracks, albums, artists } => Pending::SearchPlaylists {
                tracks,
                albums,
                artists,
            },
            Pending::PlayerStatus => Pending::PlayerStatus,
            Pending::TransferDevices { device_name } => Pending::TransferDevices {
                device_name: device_name@,
            },
            Pending::Transfer => Pending::Transfer,
            Pending::VolumeDevices { vol, device_name } => Pending::VolumeDevices {
                vol,
                device_name: device_name@,
            },
            Pending::Volume => Pending::Volume,
            Pending::OpenDevices { item, device_name } => Pending::OpenDevices {
                item: item@,
                device_name: device_name@,
            },
            Pending::Open => Pending::Open,
        }
    }
}

/// What is to be done next for a request. `S` is the type of texts, `T` that of values of the
/// Web API, `L` that of lists of them.
#[derive(Debug, PartialEq, Eq)]
pub enum Step<S, L, T> {
    /// A call is to be made; the request then goes on with what comes of it.
    Call(Call<S>, Pending<S, T>),
    /// The request is to be answered.
    Reply(Result<Body<S, L, T>, AppError>),
}

/// A step as it is returned.
pub type RequestStep<T> = Step<String, Vec<T>, T>;

/// A step as the contracts speak of it.
pub type StepView<T> = Step<Seq<char>, Seq<T>, T>;

impl<S: View, L: View, T> View for Step<S, L, T> {
    type V = Step<S::V, L::V, T>;

    open spec fn view(&self) -> Step<S::V, L::V, T> {
        match *self {
            Step::Call(call, pending) => Step::Call(call@, pending@),
            Step::Reply(Ok(body)) => Step::Reply(Ok(body@)),
            Step::Reply(Err(e)) => Step::Reply(Err(e)),
        }
    }
}

/// The answer to a request that is done.
pub open spec fn done_body<T>() -> BodyView<T> {
    Body::Field { name: "res"@, value: "done"@ }
}

/// The answer to a request that is done, as a step.
pub open spec fn done<T>() -> StepView<T> {
    Step::Reply(Ok(done_body()))
}

/// The answer to a request that failed, as a step.
pub open spec fn refused<T>(e: SError) -> StepView<T> {
    Step::Reply(Err(AppError::Playback(e)))
}

/// What a word says is to be repeated: a word that is not known says the same as `off`.
pub open spec fn repeat_mode(word: Seq<char>) -> RepeatState {
    if word == "track"@ {
        RepeatState::Track
    } else if word == "context"@ {
        RepeatState::Context
    } else {
        RepeatState::Off
    }
}

/// The call that plays an item from its beginning.
pub open spec fn start_call(item: Item<Seq<char>>, device_id: Option<Seq<char>>) -> Call<Seq<char>> {
    if item.item_type.starts_alone() {
        Call::StartUris { item, device_id, offset: 0 }
    } else {
        Call::StartContext { item, device_id, offset: 0 }
    }
}

pub open spec fn search_call(query: Seq<char>, search_type: SearchType) -> Call<Seq<char>> {
    Call::Search { query, search_type, limit: SEARCH_LIMIT }
}

/// What a request leads to first, on the device with the name `device_name`.
pub open spec fn begun<T>(request: Request<Seq<char>>, device_name: Seq<char>) -> StepView<T> {
    match request {
        Request::Root => done(),
        Request::Shutdown => Step::Call(Call::Player(SpircCommand::Shutdown), Pending::Player),
        Request::PlayPause => Step::Call(Call::Player(SpircCommand::PlayPause), Pending::Player),
        Request::Next => Step::Call(Call::Player(SpircCommand::Next), Pending::Player),
        Request::Previous => Step::Call(Call::Player(SpircCommand::Previous), Pending::Player),
        Request::Seek { pos } => Step::Call(Call::CurrentPlayback, Pending::SeekPlayback { pos }),
        Request::GetCategoryPlaylist { category_id } => Step::Call(
            Call::CategoryPlaylists { category_id, limit: CATEGORY_LIMIT },
            Pending::CategoryPlaylists,
        ),
        Request::Repeat { word } => Step::Call(
            Call::Devices,
            Pending::RepeatDevices { mode: repeat_mode(word), device_name },
        ),
        Request::Shuffle { on } => Step::Call(
            Call::Devices,
            Pending::ShuffleDevices { on, device_name },
        ),
        Request::Search { keyword } => Step::Call(
            search_call(keyword, SearchType::Track),
            Pending::SearchTracks { query: keyword },
        ),
        Request::PlayerStatus => Step::Call(Call::CurrentPlayback, Pending::PlayerStatus),
        Request::TransferPlayback => Step::Call(
            Call::Devices,
            Pending::TransferDevices { device_name },
        ),
        Request::Volume { vol } => Step::Call(
            Call::Devices,
            Pending::VolumeDevices { vol, device_name },
        ),
        Request::OpenUri { uri } => match item_of(uri) {
            Some(item) => Step::Call(Call::Devices, Pending::OpenDevices { item, device_name }),
            None => refused(SError::NotFound),
        },
    }
}

/// `pending` can go on with `outcome`: it is what the call that was made can come to, and a
/// request that cannot do without a result has got it. Searching and setting the volume cannot
/// do without success, and moving playback not without a device to move it to.
pub open spec fn accepts<T>(pending: Pending<Seq<char>, T>, outcome: OutcomeView<T>) -> bool {
    match pending {
        Pending::Player => outcome is Done,
        Pending::SeekPlayback { .. } => outcome is Failed || outcome is Playback,
        Pending::Seek => outcome is Failed || outcome is Done,
        Pending::CategoryPlaylists => outcome is Failed || outcome is Value,
        Pending::RepeatDevices { .. } => outcome is Failed || outcome is Devices,
        Pending::Repeat => outcome is Failed || outcome is Done,
        Pending::ShuffleDevices { .. } => outcome is Failed || outcome is Devices,
        Pending::Shuffle => outcome is Failed || outcome is Done,
        Pending::SearchTracks { .. } => outcome is Value,
        Pending::SearchAlbums { .. } => outcome is Value,
        Pending::SearchArtists { .. } => outcome is Value,
        Pending::SearchPlaylists { .. } => outcome is Value,
        Pending::PlayerStatus => outcome is Failed || outcome is Playback,
        Pending::TransferDevices { device_name } => device_of(device_name, outcome) is Some,
        Pending::Transfer => outcome is Failed || outcome is Done,
        Pending::VolumeDevices { .. } => outcome is Failed || outcome is Devices,
        Pending::Volume => outcome is Done,
        Pending::OpenDevices { .. } => outcome is Failed || outcome is Devices,
        Pending::Open => outcome is Failed || outcome is Done,
    }
}

/// The answer to a request that was to change something, and did or did not.
pub open spec fn done_unless_failed<T>(outcome: OutcomeView<T>) -> StepView<T> {
    if outcome is Failed {
        refused(SError::StatusError)
    } else {
        done()
    }
}

/// What a request leads to next, once a call has come to `outcome`.
pub open spec fn resumed<T>(pending: Pending<Seq<char>, T>, outcome: OutcomeView<T>) -> StepView<T> {
    match pending {
        Pending::Player => done(),
        Pending::SeekPlayback { pos } => match outcome {
            Outcome::Playback(Some(playing)) => Step::Call(
                Call::Seek { position_ms: pos, device_id: playing.device_id },
                Pending::Seek,
            ),
            _ => done(),
        },
        Pending::Seek => done(),
        Pending::CategoryPlaylists => match outcome {
            Outcome::Value(v) => Step::Reply(Ok(Body::Value(v))),
            _ => refused(SError::StatusError),
        },
        Pending::RepeatDevices { mode, device_name } => Step::Call(
            Call::Repeat { mode, device_id: device_of(device_name, outcome) },
            Pending::Repeat,
        ),
        Pending::Repeat => done_unless_failed(outcome),
        Pending::ShuffleDevices { on, device_name } => Step::Call(
            Call::Shuffle { on, device_id: device_of(device_name, outcome) },
            Pending::Shuffle,
        ),
        Pending::Shuffle => done_unless_failed(outcome),
        Pending::SearchTracks { query } => Step::Call(
            search_call(query, SearchType::Album),
            Pending::SearchAlbums { query, tracks: outcome->Value_0 },
        ),
        Pending::SearchAlbums { query, tracks } => Step::Call(
            search_call(query, SearchType::Artist),
            Pending::SearchArtists { query, tracks, albums: outcome->Value_0 },
        ),
        Pending::SearchArtists { query, tracks, albums } => Step::Call(
            search_call(query, SearchType::Playlist),
            Pending::SearchPlaylists { tracks, albums, artists: outcome->Value_0 },
        ),
        Pending::SearchPlaylists { tracks, albums, artists } => Step::Reply(
            Ok(Body::Array(seq![tracks, albums, artists, outcome->Value_0])),
        ),
        Pending::PlayerStatus => match outcome {
            Outcome::Playback(Some(playing)) => Step::Reply(Ok(Body::Value(playing.value))),
            _ => refused(SError::StatusError),
        },
        Pending::TransferDevices { device_name } => Step::Call(
            Call::TransferPlayback { target: device_of(device_name, outcome)->0, play: false },
            Pending::Transfer,
        ),
        Pending::Transfer => done(),
        Pending::VolumeDevices { vol, device_name } => Step::Call(
            Call::Volume { percent: vol, device_id: device_of(device_name, outcome) },
            Pending::Volume,
        ),
        Pending::Volume => done(),
        Pending::OpenDevices { item, device_name } => Step::Call(
            start_call(item, device_of(device_name, outcome)),
            Pending::Open,
        ),
        Pending::Open => done(),
    }
}

/// The answer to a request that is done.
pub fn shutdown<T>() -> (r: RequestBody<T>)
    ensures
        r@ == done_body::<T>(),
{
    Body::Field { name: "res".to_owned(), value: "done".to_owned() }
}

fn reply_done<T>() -> (r: RequestStep<T>)
    ensures
        r@ == done::<T>(),
{
    Step::Reply(Ok(shutdown()))
}

fn refuse<T>(e: SError) -> (r: RequestStep<T>)
    ensures
        r@ == refused::<T>(e),
{
    Step::Reply(Err(AppError::from(e)))
}

fn done_or_refuse<T>(outcome: &ApiOutcome<T>) -> (r: RequestStep<T>)
    ensures
        r@ == done_unless_failed(outcome@),
{
    match outcome {
        Outcome::Failed => refuse(SError::StatusError),
        _ => reply_done(),
    }
}

fn tell_player<T>(command: SpircCommand) -> (r: RequestStep<T>)
    ensures
        r@ == (StepView::<T>::Call(Call::Player(command), Pending::Player)),
{
    Step::Call(Call::Player(command), Pending::Player)
}

/// Begins a request for what is played.
pub fn playback<T>() -> (r: RequestStep<T>)
    ensures
        r@ == (StepView::<T>::Call(Call::CurrentPlayback, Pending::PlayerStatus)),
{
    Step::Call(Call::CurrentPlayback, Pending::PlayerStatus)
}

/// Begins a request to switch shuffling.
pub fn shuffle<T>(on: bool, device_name: String) -> (r: RequestStep<T>)
    ensures
        r@ == begun::<T>(Request::Shuffle { on }, device_name@),
{
    Step::Call(Call::Devices, Pending::ShuffleDevices { on, device_name })
}

/// Begins a request for the playlists of a category.
pub fn get_category_playlist<T>(category_id: String) -> (r: RequestStep<T>)
    ensures
        r@ == (StepView::<T>::Call(
            Call::CategoryPlaylists { category_id: category_id@, limit: CATEGORY_LIMIT },
            Pending::CategoryPlaylists,
        )),
{
    Step::Call(
        Call::CategoryPlaylists { category_id, limit: CATEGORY_LIMIT },
        Pending::CategoryPlaylists,
    )
}

/// Begins a request to set what is repeated.
pub fn repeat<T>(word: String, device_name: String) -> (r: RequestStep<T>)
    ensures
        r@ == begun::<T>(Request::Repeat { word: word@ }, device_name@),
{
    let mode = if word == "track".to_owned() {
        RepeatState::Track
    } else if word == "context".to_owned() {
        RepeatState::Context
    } else {
        RepeatState::Off
    };
    Step::Call(Call::Devices, Pending::RepeatDevices { mode, device_name })
}

fn search_for(query: String, search_type: SearchType) -> (r: Call<String>)
    ensures
        r@ == search_call(query@, search_type),
{
    Call::Search { query, search_type, limit: SEARCH_LIMIT }
}

/// Begins a search for tracks, albums, artists and playlists.
pub fn search<T>(query: String) -> (r: RequestStep<T>)
    ensures
        r@ == (StepView::<T>::Call(
            search_call(query@, SearchType::Track),
            Pending::SearchTracks { query: query@ },
        )),
{
    Step::Call(search_for(query.clone(), SearchType::Track), Pending::SearchTracks { query })
}

/// Begins a request to play what a URI denotes.
pub fn open_ur<T>(uri: String, device_name: String) -> (r: RequestStep<T>)
    ensures
        r@ == begun::<T>(Request::OpenUri { uri: uri@ }, device_name@),
{
    match Item::from_uri(uri.as_str()) {
        Some(item) => Step::Call(Call::Devices, Pending::OpenDevices { item, device_name }),
        None => refuse(SError::NotFound),
    }
}

fn start(item: Item<String>, device_id: Option<String>) -> (r: Call<String>)
    ensures
        r@ == start_call(item@, opt_view(device_id)),
{
    match item.item_type {
        UriType::Track | UriType::Episode => Call::StartUris { item, device_id, offset: 0 },
        _ => Call::StartContext { item, device_id, offset: 0 },
    }
}

/// Begins a request, on the device with the name `device_name`.
pub fn handle<T>(request: Request<String>, device_name: String) -> (r: RequestStep<T>)
    ensures
        r@ == begun::<T>(request@, device_name@),
{
    match request {
        Request::Root => reply_done(),
        Request::Shutdown => tell_player(SpircCommand::Shutdown),
        Request::PlayPause => tell_player(SpircCommand::PlayPause),
        Request::Next => tell_player(SpircCommand::Next),
        Request::Previous => tell_player(SpircCommand::Previous),
        Request::Seek { pos } => Step::Call(Call::CurrentPlayback, Pending::SeekPlayback { pos }),
        Request::GetCategoryPlaylist { category_id } => get_category_playlist(category_id),
        Request::Repeat { word } => repeat(word, device_name),
        Request::Shuffle { on } => shuffle(on, device_name),
        Request::Search { keyword } => search(keyword),
        Request::PlayerStatus => playback(),
        Request::TransferPlayback => Step::Call(
            Call::Devices,
            Pending::TransferDevices { device_name },
        ),
        Request::Volume { vol } => Step::Call(
            Call::Devices,
            Pending::VolumeDevices { vol, device_name },
        ),
        Request::OpenUri { uri } => open_ur(uri, device_name),
    }
}

impl<T> Pending<String, T> {
    /// Whether the request can go on with `outcome`.
    pub fn accepts(&self, outcome: &ApiOutcome<T>) -> (r: bool)
        ensures
            r == accepts(self@, outcome@),
    {
        let (failed, done, playback, devices, value) = match outcome {
            Outcome::Failed => (true, false, false, false, false),
            Outcome::Done => (false, true, false, false, false),
            Outcome::Playback(_) => (false, false, true, false, false),
            Outcome::Devices(_) => (false, false, false, true, false),
            Outcome::Value(_) => (false, false, false, false, true),
        };
        match self {
            Pending::Player | Pending::Volume => done,
            Pending::SeekPlayback { .. } | Pending::PlayerStatus => failed || playback,
            Pending::Seek | Pending::Repeat | Pending::Shuffle | Pending::Transfer
            | Pending::Open => failed || done,
            Pending::CategoryPlaylists => failed || value,
            Pending::SearchTracks { .. } | Pending::SearchAlbums { .. }
            | Pending::SearchArtists { .. } | Pending::SearchPlaylists { .. } => value,
            Pending::RepeatDevices { .. } | Pending::ShuffleDevices { .. }
            | Pending::VolumeDevices { .. } | Pending::OpenDevices { .. } => failed || devices,
            Pending::TransferDevices { device_name } => get_device_id(
                device_name.as_str(),
                outcome,
            ).is_some(),
        }
    }

    /// Goes on with a request, once a call has come to `outcome`.
    pub fn resume(self, outcome: ApiOutcome<T>) -> (r: RequestStep<T>)
        requires
            accepts(self@, outcome@),
        ensures
            r@ == resumed(self@, outcome@),
    {
        match self {
            Pending::Player | Pending::Seek | Pending::Transfer | Pending::Volume
            | Pending::Open => reply_done(),
            Pending::SeekPlayback { pos } => match outcome {
                Outcome::Playback(Some(playing)) => Step::Call(
                    Call::Seek { position_ms: pos, device_id: playing.device_id },
                    Pending::Seek,
                ),
                _ => reply_done(),
            },
            Pending::CategoryPlaylists => match outcome {
                Outcome::Value(v) => Step::Reply(Ok(Body::Value(v))),
                _ => refuse(SError::StatusError),
            },
            Pending::RepeatDevices { mode, device_name } => Step::Call(
                Call::Repeat { mode, device_id: get_device_id(device_name.as_str(), &outcome) },
                Pending::Repeat,
            ),
            Pending::Repeat | Pending::Shuffle => done_or_refuse(&outcome),
            Pending::ShuffleDevices { on, device_name } => Step::Call(
                Call::Shuffle { on, device_id: get_device_id(device_name.as_str(), &outcome) },
                Pending::Shuffle,
            ),
            Pending::SearchTracks { query } => {
                let tracks = value_of(outcome);
                Step::Call(
                    search_for(query.clone(), SearchType::Album),
                    Pending::SearchAlbums { query, tracks },
                )
            },
            Pending::SearchAlbums { query, tracks } => {
                let albums = value_of(outcome);
                Step::Call(
                    search_for(query.clone(), SearchType::Artist),
                    Pending::SearchArtists { query, tracks, albums },
                )
            },
            Pending::SearchArtists { query, tracks, albums } => {
                let artists = value_of(outcome);
                Step::Call(
                    search_for(query, SearchType::Playlist),
                    Pending::SearchPlaylists { tracks, albums, artists },
                )
            },
            Pending::SearchPlaylists { tracks, albums, artists } => {
                let playlists = value_of(outcome);
                let ghost found = seq![tracks, albums, artists, playlists];
                let pages: Vec<T> = vec![tracks, albums, artists, playlists];
                assert(pages@ =~= found);
                Step::Reply(Ok(Body::Array(pages)))
            },
            Pending::PlayerStatus => match outcome {
                Outcome::Playback(Some(playing)) => Step::Reply(Ok(Body::Value(playing.value))),
                _ => refuse(SError::StatusError),
            },
            Pending::TransferDevices { device_name } => {
                let target = get_device_id(device_name.as_str(), &outcome).unwrap();
                Step::Call(Call::TransferPlayback { target, play: false }, Pending::Transfer)
            },
            Pending::VolumeDevices { vol, device_name } => Step::Call(
                Call::Volume {
                    percent: vol,
                    device_id: get_device_id(device_name.as_str(), &outcome),
                },
                Pending::Volume,
            ),
            Pending::OpenDevices { item, device_name } => {
                let device_id = get_device_id(device_name.as_str(), &outcome);
                Step::Call(start(item, device_id), Pending::Open)
            },
        }
    }
}

fn value_of<T>(outcome: ApiOutcome<T>) -> (r: T)
    requires
        outcome@ is Value,
    ensures
        r == outcome@->Value_0,
{
    match outcome {
        Outcome::Value(v) => v,
        _ => vstd::pervasive::unreached(),
    }
}

/// How many calls can still follow, that which is waited for among them.
pub open spec fn calls_left<T>(pending: Pending<Seq<char>, T>) -> nat {
    match pending {
        Pending::SearchTracks { .. } => 4,
        Pending::SearchAlbums { .. } => 3,
        Pending::SearchArtists { .. } => 2,
        Pending::SeekPlayback { .. } => 2,
        Pending::RepeatDevices { .. } => 2,
        Pending::ShuffleDevices { .. } => 2,
        Pending::TransferDevices { .. } => 2,
        Pending::VolumeDevices { .. } => 2,
        Pending::OpenDevices { .. } => 2,
        _ => 1,
    }
}

/// Every request is answered after four calls at most.
pub proof fn requests_end<T>(
    request: Request<Seq<char>>,
    device_name: Seq<char>,
    pending: Pending<Seq<char>, T>,
    outcome: OutcomeView<T>,
)
    requires
        accepts(pending, outcome),
    ensures
        begun::<T>(request, device_name) matches Step::Call(_, first) ==> calls_left(first) <= 4,
        resumed(pending, outcome) matches Step::Call(_, next) ==> calls_left(next) < calls_left(
            pending,
        ),
{
}

/// The device that a request which waits for the devices is meant for.
pub open spec fn wanted_device<T>(pending: Pending<Seq<char>, T>) -> Option<Seq<char>> {
    match pending {
        Pending::RepeatDevices { device_name, .. } => Some(device_name),
        Pending::ShuffleDevices { device_name, .. } => Some(device_name),
        Pending::TransferDevices { device_name } => Some(device_name),
        Pending::VolumeDevices { device_name, .. } => Some(device_name),
        Pending::OpenDevices { device_name, .. } => Some(device_name),
        _ => None,
    }
}

/// The device that a call is for. Where there is none, the Web API takes the one that is
/// active.
pub open spec fn called_device(call: Call<Seq<char>>) -> Option<Seq<char>> {
    match call {
        Call::Seek { device_id, .. } => device_id,
        Call::Repeat { device_id, .. } => device_id,
        Call::Shuffle { device_id, .. } => device_id,
        Call::TransferPlayback { target, .. } => Some(target),
        Call::Volume { device_id, .. } => device_id,
        Call::StartUris { device_id, .. } => device_id,
        Call::StartContext { device_id, .. } => device_id,
        _ => None,
    }
}

/// Whoever asks for the devices does so to act on the one with the server's name: the device
/// that is asked for first is the one that is called.
pub proof fn named_device_is_called<T>(
    request: Request<Seq<char>>,
    device_name: Seq<char>,
    outcome: OutcomeView<T>,
)
    ensures
        begun::<T>(request, device_name) matches Step::Call(Call::Devices, pending) ==> {
            &&& wanted_device(pending) == Some(device_name)
            &&& accepts(pending, outcome) ==> {
                &&& resumed(pending, outcome) matches Step::Call(call, _)
                &&& called_device(call) == device_of(device_name, outcome)
            }
        },
{
}

/// Seeking goes to the device that plays, and is left out where nothing is played.
pub proof fn seeking_follows_playback<T>(pos: u32, playing: Playing<Seq<char>, T>)
    ensures
        resumed(
            Pending::SeekPlayback { pos },
            Outcome::Playback(Some(playing)),
        ) == (StepView::<T>::Call(
            Call::Seek { position_ms: pos, device_id: playing.device_id },
            Pending::Seek,
        )),
        resumed::<T>(Pending::SeekPlayback { pos }, Outcome::Playback(None)) == done::<T>(),
        resumed::<T>(Pending::SeekPlayback { pos }, Outcome::Failed) == done::<T>(),
{
}

/// Opening the URI of an item plays that item, from its beginning, on the device with the
/// server's name, and is answered as done whether or not it could be played.
pub proof fn opening_plays_the_item<T>(
    sep: char,
    item: Item<Seq<char>>,
    device_name: Seq<char>,
    devices: OutcomeView<T>,
    played: OutcomeView<T>,
)
    requires
        is_separator(sep),
        item.item_type.opens(),
        valid_id(item.id),
        devices is Failed || devices is Devices,
        played is Failed || played is Done,
    ensures
        ({
            let uri = "spotify"@ + seq![sep] + item.item_type.name() + seq![sep] + item.id;
            let first = Pending::OpenDevices { item, device_name };
            &&& begun::<T>(Request::OpenUri { uri }, device_name) == StepView::<T>::Call(
                Call::Devices,
                first,
            )
            &&& accepts(first, devices)
            &&& resumed(first, devices) == (StepView::<T>::Call(
                start_call(item, device_of(device_name, devices)),
                Pending::Open,
            ))
            &&& accepts(Pending::Open, played)
            &&& resumed(Pending::Open, played) == done::<T>()
        }),
{
    uri_of_item_denotes_it(sep, item);
}

/// A text that is not the URI of an item leads to no call, and is answered as not found.
pub proof fn unknown_uris_are_refused<T>(uri: Seq<char>, device_name: Seq<char>)
    requires
        item_of(uri) is None,
    ensures
        begun::<T>(Request::OpenUri { uri }, device_name) matches Step::Reply(outcome)
            && answer(outcome) == (Response {
            status: 404,
            body: Body::<_, Seq<T>, T>::Field { name: "error"@, value: "User not found"@ },
        }),
{
}

/// A search asks for tracks, albums, artists and playlists with the same words, one after the
/// other, and is answered with the list of what was found, in that order.
pub proof fn searching_keeps_the_order<T>(
    keyword: Seq<char>,
    device_name: Seq<char>,
    tracks: T,
    albums: T,
    artists: T,
    playlists: T,
)
    ensures
        ({
            let p1 = Pending::<Seq<char>, T>::SearchTracks { query: keyword };
            let p2 = Pending::SearchAlbums { query: keyword, tracks };
            let p3 = Pending::SearchArtists { query: keyword, tracks, albums };
            let p4 = Pending::<Seq<char>, T>::SearchPlaylists { tracks, albums, artists };
            &&& begun::<T>(Request::Search { keyword }, device_name) == StepView::<T>::Call(
                search_call(keyword, SearchType::Track),
                p1,
            )
            &&& resumed(p1, Outcome::Value(tracks)) == StepView::<T>::Call(
                search_call(keyword, SearchType::Album),
                p2,
            )
            &&& resumed(p2, Outcome::Value(albums)) == StepView::<T>::Call(
                search_call(keyword, SearchType::Artist),
                p3,
            )
            &&& resumed(p3, Outcome::Value(artists)) == StepView::<T>::Call(
                search_call(keyword, SearchType::Playlist),
                p4,
            )
            &&& resumed(p4, Outcome::Value(playlists)) == (StepView::<T>::Reply(
                Ok(Body::Array(seq![tracks, albums, artists, playlists])),
            ))
        }),
{
}

/// What the Web API fails to tell or to set is answered as a failure of the server. Where a
/// call only follows playback around, its failure goes unnoticed.
pub proof fn failures_of_the_web_api<T>(pending: Pending<Seq<char>, T>)
    requires
        accepts(pending, Outcome::Failed),
    ensures
        match pending {
            Pending::CategoryPlaylists | Pending::Repeat | Pending::Shuffle
            | Pending::PlayerStatus => resumed(pending, Outcome::Failed) matches Step::Reply(
                outcome,
            ) && answer(outcome) == (Response {
                status: 500,
                body: Body::<_, Seq<T>, T>::Field { name: "error"@, value: "Failed to get the data"@ },
            }),
            Pending::SeekPlayback { .. } | Pending::Seek | Pending::Transfer
            | Pending::Open => resumed(pending, Outcome::Failed) == done::<T>(),
            _ => resumed(pending, Outcome::Failed) matches Step::Call(call, _) && called_device(
                call,
            ) is None,
        },
{
}

/// Requests to the local player tell it just what was asked for, and are answered as done. A
/// request that asks for nothing is answered so at once.
pub proof fn player_is_told_what_was_asked<T>(device_name: Seq<char>, outcome: OutcomeView<T>)
    ensures
        ({
            let done = StepView::<T>::Reply(Ok(Body::Field { name: "res"@, value: "done"@ }));
            let tell = |command: SpircCommand|
                StepView::<T>::Call(Call::Player(command), Pending::Player);
            &&& begun::<T>(Request::Root, device_name) == done
            &&& begun::<T>(Request::Shutdown, device_name) == tell(SpircCommand::Shutdown)
            &&& begun::<T>(Request::PlayPause, device_name) == tell(SpircCommand::PlayPause)
            &&& begun::<T>(Request::Next, device_name) == tell(SpircCommand::Next)
            &&& begun::<T>(Request::Previous, device_name) == tell(SpircCommand::Previous)
            &&& resumed(Pending::Player, outcome) == done
        }),
{
}

/// Seeking goes to the place that was asked for, on the device that plays, and is answered as
/// done whatever comes of it.
pub proof fn seeking_goes_where_asked<T>(
    pos: u32,
    device_name: Seq<char>,
    playback: OutcomeView<T>,
    sought: OutcomeView<T>,
)
    ensures
        ({
            let done = StepView::<T>::Reply(Ok(Body::Field { name: "res"@, value: "done"@ }));
            let waiting = Pending::<Seq<char>, T>::SeekPlayback { pos };
            &&& begun::<T>(Request::Seek { pos }, device_name) == StepView::<T>::Call(
                Call::CurrentPlayback,
                waiting,
            )
            &&& resumed(waiting, playback) == match playback {
                Outcome::Playback(Some(playing)) => StepView::<T>::Call(
                    Call::Seek { position_ms: pos, device_id: playing.device_id },
                    Pending::Seek,
                ),
                _ => done,
            }
            &&& resumed(Pending::Seek, sought) == done
        }),
{
}

/// Shuffling is switched on where that was asked for, and off where that was, on the device
/// with the server's name, whatever the devices come to.
pub proof fn shuffling_is_switched_as_asked<T>(
    on: bool,
    device_name: Seq<char>,
    devices: OutcomeView<T>,
    switched: OutcomeView<T>,
)
    ensures
        ({
            let waiting = Pending::<Seq<char>, T>::ShuffleDevices { on, device_name };
            &&& begun::<T>(Request::Shuffle { on }, device_name) == StepView::<T>::Call(
                Call::Devices,
                waiting,
            )
            &&& resumed(waiting, devices) == StepView::<T>::Call(
                Call::Shuffle { on, device_id: device_of(device_name, devices) },
                Pending::Shuffle,
            )
            &&& resumed(Pending::Shuffle, switched) == if switched is Failed {
                StepView::<T>::Reply(Err(AppError::Playback(SError::StatusError)))
            } else {
                StepView::<T>::Reply(Ok(Body::Field { name: "res"@, value: "done"@ }))
            }
        }),
{
}

/// What is repeated is set to what the word that came with the request says: `track` and
/// `context` say so, and every other word says that nothing is.
pub proof fn repeating_is_set_as_asked<T>(
    word: Seq<char>,
    device_name: Seq<char>,
    devices: OutcomeView<T>,
    set_outcome: OutcomeView<T>,
)
    ensures
        ({
            let mode = if word == "track"@ {
                RepeatState::Track
            } else if word == "context"@ {
                RepeatState::Context
            } else {
                RepeatState::Off
            };
            let waiting = Pending::<Seq<char>, T>::RepeatDevices { mode, device_name };
            &&& begun::<T>(Request::Repeat { word }, device_name) == StepView::<T>::Call(
                Call::Devices,
                waiting,
            )
            &&& resumed(waiting, devices) == StepView::<T>::Call(
                Call::Repeat { mode, device_id: device_of(device_name, devices) },
                Pending::Repeat,
            )
            &&& resumed(Pending::Repeat, set_outcome) == if set_outcome is Failed {
                StepView::<T>::Reply(Err(AppError::Playback(SError::StatusError)))
            } else {
                StepView::<T>::Reply(Ok(Body::Field { name: "res"@, value: "done"@ }))
            }
        }),
{
}

/// A request that waits for the devices sets just the mode that it waits with.
pub proof fn waiting_keeps_the_mode<T>(
    mode: RepeatState,
    device_name: Seq<char>,
    devices: OutcomeView<T>,
)
    ensures
        resumed(Pending::RepeatDevices { mode, device_name }, devices) == StepView::<T>::Call(
            Call::Repeat { mode, device_id: device_of(device_name, devices) },
            Pending::Repeat,
        ),
{
}

/// The volume is set to the percentage that was asked for, on the device with the server's
/// name, whatever the devices come to.
pub proof fn volume_is_set_as_asked<T>(
    vol: u8,
    device_name: Seq<char>,
    devices: OutcomeView<T>,
    set_outcome: OutcomeView<T>,
)
    ensures
        ({
            let waiting = Pending::<Seq<char>, T>::VolumeDevices { vol, device_name };
            &&& begun::<T>(Request::Volume { vol }, device_name) == StepView::<T>::Call(
                Call::Devices,
                waiting,
            )
            &&& resumed(waiting, devices) == StepView::<T>::Call(
                Call::Volume { percent: vol, device_id: device_of(device_name, devices) },
                Pending::Volume,
            )
            &&& resumed(Pending::Volume, set_outcome) == StepView::<T>::Reply(Ok(Body::Field { name: "res"@, value: "done"@ }))
        }),
{
}

/// Playback is moved to the device with the server's name, and not made to play there.
pub proof fn playback_moves_to_the_named_device<T>(
    device_name: Seq<char>,
    devices: OutcomeView<T>,
    moved: OutcomeView<T>,
)
    ensures
        ({
            let waiting = Pending::<Seq<char>, T>::TransferDevices { device_name };
            &&& begun::<T>(Request::TransferPlayback, device_name) == StepView::<T>::Call(
                Call::Devices,
                waiting,
            )
            &&& device_of(device_name, devices) matches Some(target) ==> resumed(waiting, devices)
                == StepView::<T>::Call(
                Call::TransferPlayback { target, play: false },
                Pending::Transfer,
            )
            &&& resumed(Pending::Transfer, moved) == StepView::<T>::Reply(Ok(Body::Field { name: "res"@, value: "done"@ }))
        }),
{
}

/// Opening a URI starts the item that it denotes, from its beginning, on the device with the
/// server's name, whatever the devices come to: a track or an episode by itself, an artist, an
/// album, a playlist or a show as a list. It is answered as done whatever comes of it. A text
/// that denotes no item is answered as not found.
pub proof fn items_are_started_by_their_type<T>(
    uri: Seq<char>,
    item: Item<Seq<char>>,
    device_name: Seq<char>,
    devices: OutcomeView<T>,
    played: OutcomeView<T>,
)
    ensures
        ({
            let waiting = Pending::<Seq<char>, T>::OpenDevices { item, device_name };
            let device_id = device_of(device_name, devices);
            &&& item_of(uri) == Some(item) ==> begun::<T>(Request::OpenUri { uri }, device_name)
                == StepView::<T>::Call(Call::Devices, waiting)
            &&& item_of(uri) is None ==> begun::<T>(Request::OpenUri { uri }, device_name)
                == StepView::<T>::Reply(Err(AppError::Playback(SError::NotFound)))
            &&& item.item_type == UriType::Track || item.item_type == UriType::Episode ==> resumed(
                waiting,
                devices,
            ) == StepView::<T>::Call(
                Call::StartUris { item, device_id, offset: 0 },
                Pending::Open,
            )
            &&& item.item_type == UriType::Artist || item.item_type == UriType::Album
                || item.item_type == UriType::Playlist || item.item_type == UriType::Show
                ==> resumed(waiting, devices) == StepView::<T>::Call(
                Call::StartContext { item, device_id, offset: 0 },
                Pending::Open,
            )
            &&& resumed(Pending::Open, played) == StepView::<T>::Reply(Ok(Body::Field { name: "res"@, value: "done"@ }))
        }),
{
}

/// The playlists of the category that was asked for are asked for, thirty of them, and passed on
/// as they come. What is played is passed on as it comes, and a player that plays nothing is a
/// failure.
pub proof fn answers_of_the_web_api_are_passed_on<T>(
    category_id: Seq<char>,
    device_name: Seq<char>,
    outcome: OutcomeView<T>,
)
    ensures
        begun::<T>(Request::GetCategoryPlaylist { category_id }, device_name) == StepView::<T>::Call(
            Call::CategoryPlaylists { category_id, limit: 30 },
            Pending::CategoryPlaylists,
        ),
        resumed(Pending::CategoryPlaylists, outcome) == match outcome {
            Outcome::Value(v) => StepView::<T>::Reply(Ok(Body::Value(v))),
            _ => StepView::<T>::Reply(Err(AppError::Playback(SError::StatusError))),
        },
        begun::<T>(Request::PlayerStatus, device_name) == StepView::<T>::Call(
            Call::CurrentPlayback,
            Pending::PlayerStatus,
        ),
        resumed(Pending::PlayerStatus, outcome) == match outcome {
            Outcome::Playback(Some(playing)) => StepView::<T>::Reply(
                Ok(Body::Value(playing.value)),
            ),
            _ => StepView::<T>::Reply(Err(AppError::Playback(SError::StatusError))),
        },
{
}

/// A search asks for six results of each kind, with the words that were given, and is answered
/// with the four lists of results in the order in which they were asked for.
pub proof fn searching_asks_for_the_words<T>(
    keyword: Seq<char>,
    device_name: Seq<char>,
    tracks: T,
    albums: T,
    artists: T,
    playlists: T,
)
    ensures
        ({
            let p1 = Pending::<Seq<char>, T>::SearchTracks { query: keyword };
            let p2 = Pending::<Seq<char>, T>::SearchAlbums { query: keyword, tracks };
            let p3 = Pending::<Seq<char>, T>::SearchArtists { query: keyword, tracks, albums };
            let p4 = Pending::<Seq<char>, T>::SearchPlaylists { tracks, albums, artists };
            &&& begun::<T>(Request::Search { keyword }, device_name) == StepView::<T>::Call(
                Call::Search { query: keyword, search_type: SearchType::Track, limit: 6 },
                p1,
            )
            &&& resumed(p1, Outcome::Value(tracks)) == StepView::<T>::Call(
                Call::Search { query: keyword, search_type: SearchType::Album, limit: 6 },
                p2,
            )
            &&& resumed(p2, Outcome::Value(albums)) == StepView::<T>::Call(
                Call::Search { query: keyword, search_type: SearchType::Artist, limit: 6 },
                p3,
            )
            &&& resumed(p3, Outcome::Value(artists)) == StepView::<T>::Call(
                Call::Search { query: keyword, search_type: SearchType::Playlist, limit: 6 },
                p4,
            )
            &&& resumed(p4, Outcome::Value(playlists)) == StepView::<T>::Reply(
                Ok(Body::Array(seq![tracks, albums, artists, playlists])),
            )
        }),
{
}

/// Which outcomes a request can go on with: those that its call can come to, but for failures
/// of a search and of setting the volume, and for moving playback without a device to move it
/// to.
pub proof fn outcomes_to_go_on_with<T>(pending: Pending<Seq<char>, T>, outcome: OutcomeView<T>)
    ensures
        accepts(pending, outcome) <==> match pending {
            Pending::Player | Pending::Volume => outcome is Done,
            Pending::SeekPlayback { .. } | Pending::PlayerStatus => outcome is Failed || outcome
                is Playback,
            Pending::Seek | Pending::Repeat | Pending::Shuffle | Pending::Transfer
            | Pending::Open => outcome is Failed || outcome is Done,
            Pending::CategoryPlaylists => outcome is Failed || outcome is Value,
            Pending::RepeatDevices { .. } | Pending::ShuffleDevices { .. }
            | Pending::VolumeDevices { .. } | Pending::OpenDevices { .. } => outcome is Failed
                || outcome is Devices,
            Pending::SearchTracks { .. } | Pending::SearchAlbums { .. }
            | Pending::SearchArtists { .. } | Pending::SearchPlaylists { .. } => outcome is Value,
            Pending::TransferDevices { device_name } => outcome is Devices && device_of(
                device_name,
                outcome,
            ) is Some,
        },
{
}

/// The answers as done and as failed.
pub proof fn done_and_refused_say_so<T>(e: SError)
    ensures
        done_body::<T>() == (BodyView::<T>::Field { name: "res"@, value: "done"@ }),
        done::<T>() == StepView::<T>::Reply(Ok(Body::Field { name: "res"@, value: "done"@ })),
        refused::<T>(e) == StepView::<T>::Reply(Err(AppError::Playback(e))),
{
}

/// Contracts speak of a request by its kind and by what comes with it.
pub proof fn request_view_keeps_fields<S: View>(request: Request<S>)
    ensures
        match request {
            Request::Root => request@ is Root,
            Request::Shutdown => request@ is Shutdown,
            Request::PlayPause => request@ is PlayPause,
            Request::Next => request@ is Next,
            Request::Previous => request@ is Previous,
            Request::Seek { pos } => request@ == (Request::<S::V>::Seek { pos }),
            Request::GetCategoryPlaylist { category_id } => request@
                == (Request::GetCategoryPlaylist { category_id: category_id@ }),
            Request::Repeat { word } => request@ == (Request::Repeat { word: word@ }),
            Request::Shuffle { on } => request@ == (Request::<S::V>::Shuffle { on }),
            Request::Search { keyword } => request@ == (Request::Search { keyword: keyword@ }),
            Request::PlayerStatus => request@ is PlayerStatus,
            Request::TransferPlayback => request@ is TransferPlayback,
            Request::Volume { vol } => request@ == (Request::<S::V>::Volume { vol }),
            Request::OpenUri { uri } => request@ == (Request::OpenUri { uri: uri@ }),
        },
{
}

/// Contracts speak of a request that waits by what it waits for and by all that it waits with.
pub proof fn pending_view_keeps_fields<T>(pending: Pending<String, T>)
    ensures
        pending@ == match pending {
            Pending::Player => Pending::<Seq<char>, T>::Player,
            Pending::SeekPlayback { pos } => Pending::SeekPlayback { pos },
            Pending::Seek => Pending::Seek,
            Pending::CategoryPlaylists => Pending::CategoryPlaylists,
            Pending::RepeatDevices { mode, device_name } => Pending::RepeatDevices {
                mode,
                device_name: device_name@,
            },
            Pending::Repeat => Pending::Repeat,
            Pending::ShuffleDevices { on, device_name } => Pending::ShuffleDevices {
                on,
                device_name: device_name@,
            },
            Pending::Shuffle => Pending::Shuffle,
            Pending::SearchTracks { query } => Pending::SearchTracks { query: query@ },
            Pending::SearchAlbums { query, tracks } => Pending::SearchAlbums {
                query: query@,
                tracks,
            },
            Pending::SearchArtists { query, tracks, albums } => Pending::SearchArtists {
                query: query@,
                tracks,
                albums,
            },
            Pending::SearchPlaylists { tracks, albums, artists } => Pending::SearchPlaylists {
                tracks,
                albums,
                artists,
            },
            Pending::PlayerStatus => Pending::PlayerStatus,
            Pending::TransferDevices { device_name } => Pending::TransferDevices {
                device_name: device_name@,
            },
            Pending::Transfer => Pending::Transfer,
            Pending::VolumeDevices { vol, device_name } => Pending::VolumeDevices {
                vol,
                device_name: device_name@,
            },
            Pending::Volume => Pending::Volume,
            Pending::OpenDevices { item, device_name } => Pending::OpenDevices {
                item: item@,
                device_name: device_name@,
            },
            Pending::Open => Pending::Open,
        },
{
}

/// Contracts speak of a step by the call and what waits for it, or by the answer.
pub proof fn request_step_view_keeps_fields<T>(step: RequestStep<T>)
    ensures
        match step {
            Step::Call(call, pending) => step@ == StepView::<T>::Call(call@, pending@),
            Step::Reply(Ok(body)) => step@ == StepView::<T>::Reply(Ok(body@)),
            Step::Reply(Err(e)) => step@ == StepView::<T>::Reply(Err(e)),
        },
{
}

} // verus!
