//! Where requests are made, and what comes with them.
use vstd::prelude::*;

use crate::handlers::Request;

verus! {

/// Where the server listens.
pub const BIND_ADDRESS: &'static str = "0.0.0.0:3000";

/// The HTTP methods in use.
#[derive(Clone, Copy, Debug, PartialEq, Eq, Structural)]
pub enum Method {
    Get,
    Post,
}

/// The kinds of requests.
#[derive(Clone, Copy, Debug, PartialEq, Eq, Structural)]
pub enum Endpoint {
    Root,
    Shutdown,
    PlayPause,
    Next,
    Previous,
    Seek,
    GetCategoryPlaylist,
    Repeat,
    Shuffle,
    Search,
    PlayerStatus,
    TransferPlayback,
    Volume,
    OpenUri,
}

/// The forms of what comes with a request.
#[derive(Clone, Copy, Debug, PartialEq, Eq, Structural)]
pub enum PayloadKind {
    Empty,
    /// A position, in milliseconds.
    Pos,
    /// A word.
    Text,
    /// Whether something is to be switched on.
    Flag,
    /// What to search for.
    Keyword,
    /// A volume, in percent.
    Vol,
    /// A URI.
    Uri,
}

/// What comes with a request. `S` is the type of texts.
#[derive(Debug, PartialEq, Eq)]
pub enum Payload<S> {
    Empty,
    Pos(u32),
    Text(S),
    Flag(bool),
    Keyword(S),
    Vol(u8),
    Uri(S),
}

impl<S: View> View for Payload<S> {
    type V = Payload<S::V>;

    open spec fn view(&self) -> Payload<S::V> {
        match *self {
            Payload::Empty => Payload::Empty,
            Payload::Pos(pos) => Payload::Pos(pos),
            Payload::Text(val) => Payload::Text(val@),
            Payload::Flag(val) => Payload::Flag(val),
            Payload::Keyword(keyword) => Payload::Keyword(keyword@),
            Payload::Vol(vol) => Payload::Vol(vol),
            Payload::Uri(uri) => Payload::Uri(uri@),
        }
    }
}

impl<S> Payload<S> {
    /// The form of the payload.
    pub open spec fn kind(self) -> PayloadKind {
        match self {
            Payload::Empty => PayloadKind::Empty,
            Payload::Pos(_) => PayloadKind::Pos,
            Payload::Text(_) => PayloadKind::Text,
            Payload::Flag(_) => PayloadKind::Flag,
            Payload::Keyword(_) => PayloadKind::Keyword,
            Payload::Vol(_) => PayloadKind::Vol,
            Payload::Uri(_) => PayloadKind::Uri,
        }
    }
}

/// All kinds of requests, in the order in which the server is told of them.
pub open spec fn all_endpoints() -> Seq<Endpoint> {
    seq![
        Endpoint::Root,
        Endpoint::Shutdown,
        Endpoint::PlayPause,
        Endpoint::Next,
        Endpoint::Previous,
        Endpoint::Seek,
        Endpoint::GetCategoryPlaylist,
        Endpoint::Repeat,
        Endpoint::Shuffle,
        Endpoint::Search,
        Endpoint::PlayerStatus,
        Endpoint::TransferPlayback,
        Endpoint::Volume,
        Endpoint::OpenUri,
    ]
}

impl Endpoint {
    /// The path of the requests.
    pub open spec fn path_text(self) -> Seq<char> {
        match self {
            Endpoint::Root => "/"@,
            Endpoint::Shutdown => "/shutdown"@,
            Endpoint::PlayPause => "/play_pause"@,
            Endpoint::Next => "/next"@,
            Endpoint::Previous => "/previous"@,
            Endpoint::Seek => "/seek"@,
            Endpoint::GetCategoryPlaylist => "/get_category_playlist"@,
            Endpoint::Repeat => "/repeat"@,
            Endpoint::Shuffle => "/shuffle"@,
            Endpoint::Search => "/search"@,
            Endpoint::PlayerStatus => "/player_status"@,
            Endpoint::TransferPlayback => "/transfer_playback"@,
            Endpoint::Volume => "/volume"@,
            Endpoint::OpenUri => "/open_uri"@,
        }
    }

    /// The form of what comes with the requests.
    pub open spec fn takes(self) -> PayloadKind {
        match self {
            Endpoint::Seek => PayloadKind::Pos,
            Endpoint::GetCategoryPlaylist | Endpoint::Repeat => PayloadKind::Text,
            Endpoint::Shuffle => PayloadKind::Flag,
            Endpoint::Search => PayloadKind::Keyword,
            Endpoint::Volume => PayloadKind::Vol,
            Endpoint::OpenUri => PayloadKind::Uri,
            _ => PayloadKind::Empty,
        }
    }

    /// The requests come with a payload.
    pub open spec fn has_payload(self) -> bool {
        !(self.takes() is Empty)
    }

    /// The form of what comes with the requests.
    pub fn payload_kind(self) -> (r: PayloadKind)
        ensures
            r == self.takes(),
    {
        match self {
            Endpoint::Seek => PayloadKind::Pos,
            Endpoint::GetCategoryPlaylist | Endpoint::Repeat => PayloadKind::Text,
            Endpoint::Shuffle => PayloadKind::Flag,
            Endpoint::Search => PayloadKind::Keyword,
            Endpoint::Volume => PayloadKind::Vol,
            Endpoint::OpenUri => PayloadKind::Uri,
            _ => PayloadKind::Empty,
        }
    }

    /// The method of the requests: those with a payload are posted.
    pub fn method(self) -> (r: Method)
        ensures
            r == if self.has_payload() {
                Method::Post
            } else {
                Method::Get
            },
    {
        match self.payload_kind() {
            PayloadKind::Empty => Method::Get,
            _ => Method::Post,
        }
    }

    /// The path of the requests.
    pub fn path(self) -> (r: &'static str)
        ensures
            r@ == self.path_text(),
    {
        match self {
            Endpoint::Root => "/",
            Endpoint::Shutdown => "/shutdown",
            Endpoint::PlayPause => "/play_pause",
            Endpoint::Next => "/next",
            Endpoint::Previous => "/previous",
            Endpoint::Seek => "/seek",
            Endpoint::GetCategoryPlaylist => "/get_category_playlist",
            Endpoint::Repeat => "/repeat",
            Endpoint::Shuffle => "/shuffle",
            Endpoint::Search => "/search",
            Endpoint::PlayerStatus => "/player_status",
            Endpoint::TransferPlayback => "/transfer_playback",
            Endpoint::Volume => "/volume",
            Endpoint::OpenUri => "/open_uri",
        }
    }
}

/// Requests of one kind, with the method and the path that they are made with.
#[derive(Clone, Copy, Debug, PartialEq, Eq)]
pub struct Route {
    pub method: Method,
    pub path: &'static str,
    pub endpoint: Endpoint,
}

impl Route {
    /// The route of the requests of the kind `endpoint`.
    pub open spec fn leads_to(self, endpoint: Endpoint) -> bool {
        &&& self.endpoint == endpoint
        &&& self.path@ == endpoint.path_text()
        &&& self.method == if endpoint.has_payload() {
            Method::Post
        } else {
            Method::Get
        }
    }
}

fn route(endpoint: Endpoint) -> (r: Route)
    ensures
        r.leads_to(endpoint),
{
    Route { method: endpoint.method(), path: endpoint.path(), endpoint }
}

/// The routes of the server: one for each kind of request.
pub fn create_rest_server() -> (r: Vec<Route>)
    ensures
        r@.len() == all_endpoints().len(),
        forall|i: int| 0 <= i < r@.len() ==> (#[trigger] r@[i]).leads_to(all_endpoints()[i]),
{
    let mut r: Vec<Route> = Vec::new();
    r.push(route(Endpoint::Root));
    r.push(route(Endpoint::Shutdown));
    r.push(route(Endpoint::PlayPause));
    r.push(route(Endpoint::Next));
    r.push(route(Endpoint::Previous));
    r.push(route(Endpoint::Seek));
    r.push(route(Endpoint::GetCategoryPlaylist));
    r.push(route(Endpoint::Repeat));
    r.push(route(Endpoint::Shuffle));
    r.push(route(Endpoint::Search));
    r.push(route(Endpoint::PlayerStatus));
    r.push(route(Endpoint::TransferPlayback));
    r.push(route(Endpoint::Volume));
    r.push(route(Endpoint::OpenUri));
    r
}

/// The kind of a request.
pub open spec fn endpoint_of<S>(request: Request<S>) -> Endpoint {
    match request {
        Request::Root => Endpoint::Root,
        Request::Shutdown => Endpoint::Shutdown,
        Request::PlayPause => Endpoint::PlayPause,
        Request::Next => Endpoint::Next,
        Request::Previous => Endpoint::Previous,
        Request::Seek { .. } => Endpoint::Seek,
        Request::GetCategoryPlaylist { .. } => Endpoint::GetCategoryPlaylist,
        Request::Repeat { .. } => Endpoint::Repeat,
        Request::Shuffle { .. } => Endpoint::Shuffle,
        Request::Search { .. } => Endpoint::Search,
        Request::PlayerStatus => Endpoint::PlayerStatus,
        Request::TransferPlayback => Endpoint::TransferPlayback,
        Request::Volume { .. } => Endpoint::Volume,
        Request::OpenUri { .. } => Endpoint::OpenUri,
    }
}

/// What comes with a request.
pub open spec fn payload_of<S>(request: Request<S>) -> Payload<S> {
    match request {
        Request::Seek { pos } => Payload::Pos(pos),
        Request::GetCategoryPlaylist { category_id } => Payload::Text(category_id),
        Request::Repeat { word } => Payload::Text(word),
        Request::Shuffle { on } => Payload::Flag(on),
        Request::Search { keyword } => Payload::Keyword(keyword),
        Request::Volume { vol } => Payload::Vol(vol),
        Request::OpenUri { uri } => Payload::Uri(uri),
        _ => Payload::Empty,
    }
}

/// The request of the kind `endpoint` that comes with `payload`. There is one exactly where the
/// payload has the form that such requests take.
pub fn request_of(endpoint: Endpoint, payload: Payload<String>) -> (r: Option<Request<String>>)
    ensures
        r is Some <==> payload@.kind() == endpoint.takes(),
        r matches Some(q) ==> endpoint_of(q@) == endpoint && payload_of(q@) == payload@,
{
    match (endpoint, payload) {
        (Endpoint::Root, Payload::Empty) => Some(Request::Root),
        (Endpoint::Shutdown, Payload::Empty) => Some(Request::Shutdown),
        (Endpoint::PlayPause, Payload::Empty) => Some(Request::PlayPause),
        (Endpoint::Next, Payload::Empty) => Some(Request::Next),
        (Endpoint::Previous, Payload::Empty) => Some(Request::Previous),
        (Endpoint::Seek, Payload::Pos(pos)) => Some(Request::Seek { pos }),
        (Endpoint::GetCategoryPlaylist, Payload::Text(val)) => Some(
            Request::GetCategoryPlaylist { category_id: val },
        ),
        (Endpoint::Repeat, Payload::Text(val)) => Some(Request::Repeat { word: val }),
        (Endpoint::Shuffle, Payload::Flag(val)) => Some(Request::Shuffle { on: val }),
        (Endpoint::Search, Payload::Keyword(keyword)) => Some(Request::Search { keyword }),
        (Endpoint::PlayerStatus, Payload::Empty) => Some(Request::PlayerStatus),
        (Endpoint::TransferPlayback, Payload::Empty) => Some(Request::TransferPlayback),
        (Endpoint::Volume, Payload::Vol(vol)) => Some(Request::Volume { vol }),
        (Endpoint::OpenUri, Payload::Uri(uri)) => Some(Request::OpenUri { uri }),
        _ => None,
    }
}

/// A request is known by its kind and by what comes with it, and what comes with it has the
/// form that requests of its kind take: no route can lead to a request that was not made, and
/// every request can be made.
pub proof fn requests_are_made_by_their_routes<S>(a: Request<S>, b: Request<S>)
    ensures
        payload_of(a).kind() == endpoint_of(a).takes(),
        endpoint_of(a) == endpoint_of(b) && payload_of(a) == payload_of(b) ==> a == b,
{
}

/// No two kinds of requests share a path.
pub proof fn paths_are_distinct(a: Endpoint, b: Endpoint)
    requires
        a.path_text() == b.path_text(),
    ensures
        a == b,
{
    reveal_strlit("/");
    reveal_strlit("/shutdown");
    reveal_strlit("/play_pause");
    reveal_strlit("/next");
    reveal_strlit("/previous");
    reveal_strlit("/seek");
    reveal_strlit("/get_category_playlist");
    reveal_strlit("/repeat");
    reveal_strlit("/shuffle");
    reveal_strlit("/search");
    reveal_strlit("/player_status");
    reveal_strlit("/transfer_playback");
    reveal_strlit("/volume");
    reveal_strlit("/open_uri");
    assert("/"@.len() == 1 && "/play_pause"@.len() == 11 && "/shuffle"@.len() == 8);
    assert("/get_category_playlist"@.len() == 22 && "/player_status"@.len() == 14);
    assert("/transfer_playback"@.len() == 18);
    assert("/next"@.len() == 5 && "/next"@[1] == 'n');
    assert("/seek"@.len() == 5 && "/seek"@[1] == 's');
    assert("/repeat"@.len() == 7 && "/repeat"@[1] == 'r');
    assert("/search"@.len() == 7 && "/search"@[1] == 's');
    assert("/volume"@.len() == 7 && "/volume"@[1] == 'v');
    assert("/shutdown"@.len() == 9 && "/shutdown"@[1] == 's');
    assert("/previous"@.len() == 9 && "/previous"@[1] == 'p');
    assert("/open_uri"@.len() == 9 && "/open_uri"@[1] == 'o');
    assert(a.path_text().len() == b.path_text().len());
    assert(a.path_text()[1] == b.path_text()[1]);
}

/// Every request has exactly one route.
pub proof fn every_request_has_one_route<S>(request: Request<S>)
    ensures
        exists|i: int|
            0 <= i < all_endpoints().len() && #[trigger] all_endpoints()[i] == endpoint_of(request),
        forall|i: int, j: int|
            0 <= i < j < all_endpoints().len() ==> #[trigger] all_endpoints()[i]
                != #[trigger] all_endpoints()[j],
{
    let all = all_endpoints();
    let i: int = match request {
        Request::Root => 0,
        Request::Shutdown => 1,
        Request::PlayPause => 2,
        Request::Next => 3,
        Request::Previous => 4,
        Request::Seek { .. } => 5,
        Request::GetCategoryPlaylist { .. } => 6,
        Request::Repeat { .. } => 7,
        Request::Shuffle { .. } => 8,
        Request::Search { .. } => 9,
        Request::PlayerStatus => 10,
        Request::TransferPlayback => 11,
        Request::Volume { .. } => 12,
        Request::OpenUri { .. } => 13,
    };
    assert(all[i] == endpoint_of(request));
}

/// Which kind of request is which, and what comes with each: the value that the request holds,
/// in the form that requests of its kind take, and nothing with the others.
pub proof fn requests_hold_what_came_with_them<S>(request: Request<S>)
    ensures
        match request {
            Request::Root => endpoint_of(request) is Root && payload_of(request) is Empty,
            Request::Shutdown => endpoint_of(request) is Shutdown && payload_of(request) is Empty,
            Request::PlayPause => endpoint_of(request) is PlayPause && payload_of(request)
                is Empty,
            Request::Next => endpoint_of(request) is Next && payload_of(request) is Empty,
            Request::Previous => endpoint_of(request) is Previous && payload_of(request) is Empty,
            Request::Seek { pos } => endpoint_of(request) is Seek && payload_of(request)
                == Payload::<S>::Pos(pos),
            Request::GetCategoryPlaylist { category_id } => endpoint_of(request)
                is GetCategoryPlaylist && payload_of(request) == Payload::Text(category_id),
            Request::Repeat { word } => endpoint_of(request) is Repeat && payload_of(request)
                == Payload::Text(word),
            Request::Shuffle { on } => endpoint_of(request) is Shuffle && payload_of(request)
                == Payload::<S>::Flag(on),
            Request::Search { keyword } => endpoint_of(request) is Search && payload_of(request)
                == Payload::Keyword(keyword),
            Request::PlayerStatus => endpoint_of(request) is PlayerStatus && payload_of(request)
                is Empty,
            Request::TransferPlayback => endpoint_of(request) is TransferPlayback && payload_of(
                request,
            ) is Empty,
            Request::Volume { vol } => endpoint_of(request) is Volume && payload_of(request)
                == Payload::<S>::Vol(vol),
            Request::OpenUri { uri } => endpoint_of(request) is OpenUri && payload_of(request)
                == Payload::Uri(uri),
        },
{
}

/// The form of a payload, and of what each kind of request takes.
pub proof fn payloads_have_their_form<S>(payload: Payload<S>, endpoint: Endpoint)
    ensures
        payload.kind() == match payload {
            Payload::Empty => PayloadKind::Empty,
            Payload::Pos(_) => PayloadKind::Pos,
            Payload::Text(_) => PayloadKind::Text,
            Payload::Flag(_) => PayloadKind::Flag,
            Payload::Keyword(_) => PayloadKind::Keyword,
            Payload::Vol(_) => PayloadKind::Vol,
            Payload::Uri(_) => PayloadKind::Uri,
        },
        endpoint.takes() is Pos <==> endpoint is Seek,
        endpoint.takes() is Text <==> endpoint is GetCategoryPlaylist || endpoint is Repeat,
        endpoint.takes() is Flag <==> endpoint is Shuffle,
        endpoint.takes() is Keyword <==> endpoint is Search,
        endpoint.takes() is Vol <==> endpoint is Volume,
        endpoint.takes() is Uri <==> endpoint is OpenUri,
        endpoint.has_payload() <==> !(endpoint.takes() is Empty),
{
}

/// Contracts speak of a payload by its form and by what it holds.
pub proof fn payload_view_keeps_fields<S: View>(payload: Payload<S>)
    ensures
        match payload {
            Payload::Empty => payload@ is Empty,
            Payload::Pos(pos) => payload@ == Payload::<S::V>::Pos(pos),
            Payload::Text(val) => payload@ == Payload::Text(val@),
            Payload::Flag(val) => payload@ == Payload::<S::V>::Flag(val),
            Payload::Keyword(keyword) => payload@ == Payload::Keyword(keyword@),
            Payload::Vol(vol) => payload@ == Payload::<S::V>::Vol(vol),
            Payload::Uri(uri) => payload@ == Payload::Uri(uri@),
        },
{
}

/// A route leads to the requests of its kind, by their path, and by posting exactly where they
/// come with a payload.
pub proof fn routes_are_what_they_lead_to(route: Route, endpoint: Endpoint)
    ensures
        route.leads_to(endpoint) <==> {
            &&& route.endpoint == endpoint
            &&& route.path@ == endpoint.path_text()
            &&& route.method == Method::Post <==> endpoint.has_payload()
        },
{
}

} // verus!
