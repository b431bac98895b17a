//! The calls that requests lead to, and what comes of them.
use vstd::prelude::*;
use vstd::string::*;

use crate::uri::Item;

verus! {

/// What the local player can be told.
#[derive(Clone, Copy, Debug, PartialEq, Eq, Structural)]
pub enum SpircCommand {
    Shutdown,
    PlayPause,
    Next,
    Previous,
}

/// What is repeated.
#[derive(Clone, Copy, Debug, PartialEq, Eq, Structural)]
pub enum RepeatState {
    Off,
    Track,
    Context,
}

/// What is searched for.
#[derive(Clone, Copy, Debug, PartialEq, Eq, Structural)]
pub enum SearchType {
    Track,
    Album,
    Artist,
    Playlist,
}

/// A call of the local player or of the Web API. `S` is the type of texts. A parameter of the
/// Web API that is not named here is left out of the call.
#[derive(Debug, PartialEq, Eq)]
pub enum Call<S> {
    /// Tells the local player something.
    Player(SpircCommand),
    /// Asks what is played, and where.
    CurrentPlayback,
    /// Asks for the devices of the user.
    Devices,
    /// Asks for the playlists of a category.
    CategoryPlaylists { category_id: S, limit: u32 },
    /// Searches for something.
    Search { query: S, search_type: SearchType, limit: u32 },
    /// Goes on at another place of the track.
    Seek { position_ms: u32, device_id: Option<S> },
    /// Sets what is repeated.
    Repeat { mode: RepeatState, device_id: Option<S> },
    /// Switches shuffling on or off.
    Shuffle { on: bool, device_id: Option<S> },
    /// Moves playback to a device, and has it play there or not.
    TransferPlayback { target: S, play: bool },
    /// Sets the volume.
    Volume { percent: u8, device_id: Option<S> },
    /// Plays an item by itself, from the given offset.
    StartUris { item: Item<S>, device_id: Option<S>, offset: u32 },
    /// Plays a list of items, from the given offset.
    StartContext { item: Item<S>, device_id: Option<S>, offset: u32 },
}

pub open spec fn opt_view<S: View>(o: Option<S>) -> Option<S::V> {
    match o {
        Some(s) => Some(s@),
        None => None,
    }
}

impl<S: View> View for Call<S> {
    type V = Call<S::V>;

    open spec fn view(&self) -> Call<S::V> {
        match *self {
            Call::Player(command) => Call::Player(command),
            Call::CurrentPlayback => Call::CurrentPlayback,
            Call::Devices => Call::Devices,
            Call::CategoryPlaylists { category_id, limit } => Call::CategoryPlaylists {
                category_id: category_id@,
                limit,
            },
            Call::Search { query, search_type, limit } => Call::Search {
                query: query@,
                search_type,
                limit,
            },
            Call::Seek { position_ms, device_id } => Call::Seek {
                position_ms,
                device_id: opt_view(device_id),
            },
            Call::Repeat { mode, device_id } => Call::Repeat {
                mode,
                device_id: opt_view(device_id),
            },
            Call::Shuffle { on, device_id } => Call::Shuffle {
                on,
                device_id: opt_view(device_id),
            },
            Call::TransferPlayback { target, play } => Call::TransferPlayback {
                target: target@,
                play,
            },
            Call::Volume { percent, device_id } => Call::Volume {
                percent,
                device_id: opt_view(device_id),
            },
            Call::StartUris { item, device_id, offset } => Call::StartUris {
                item: item@,
                device_id: opt_view(device_id),
                offset,
            },
            Call::StartContext { item, device_id, offset } => Call::StartContext {
                item: item@,
                device_id: opt_view(device_id),
                offset,
            },
        }
    }
}

/// A device of the user. Not every device has an id.
#[derive(Debug, PartialEq, Eq)]
pub struct Device<S> {
    pub name: S,
    pub id: Option<S>,
}

impl<S: View> View for Device<S> {
    type V = Device<S::V>;

    open spec fn view(&self) -> Device<S::V> {
        Device { name: self.name@, id: opt_view(self.id) }
    }
}

/// What is played: the id of the device that plays, and the whole of what the Web API told.
#[derive(Debug, PartialEq, Eq)]
pub struct Playing<S, T> {
    pub device_id: Option<S>,
    pub value: T,
}

/// What came of a call. `L` is the type of lists of devices.
#[derive(Debug, PartialEq, Eq)]
pub enum Outcome<S, T, L> {
    /// The call failed.
    Failed,
    /// The call went well and returned nothing.
    Done,
    /// What is played, if anything is.
    Playback(Option<Playing<S, T>>),
    /// The devices of the user.
    Devices(L),
    /// A value that is passed on as it is.
    Value(T),
}

/// What came of a call, as the Web API tells it.
pub type ApiOutcome<T> = Outcome<String, T, Vec<Device<String>>>;

/// What came of a call, as contracts speak of it.
pub type OutcomeView<T> = Outcome<Seq<char>, T, Seq<Device<Seq<char>>>>;

pub open spec fn devices_view(devices: Seq<Device<String>>) -> Seq<Device<Seq<char>>> {
    devices.map_values(|d: Device<String>| d@)
}

impl<T> View for Outcome<String, T, Vec<Device<String>>> {
    type V = Outcome<Seq<char>, T, Seq<Device<Seq<char>>>>;

    open spec fn view(&self) -> Outcome<Seq<char>, T, Seq<Device<Seq<char>>>> {
        match *self {
            Outcome::Failed => Outcome::Failed,
            Outcome::Done => Outcome::Done,
            Outcome::Playback(None) => Outcome::Playback(None),
            Outcome::Playback(Some(p)) => Outcome::Playback(
                Some(Playing { device_id: opt_view(p.device_id), value: p.value }),
            ),
            Outcome::Devices(devices) => Outcome::Devices(devices_view(devices@)),
            Outcome::Value(v) => Outcome::Value(v),
        }
    }
}

/// The id of the first of `devices` that has the name `name` and an id.
pub open spec fn device_named(name: Seq<char>, devices: Seq<Device<Seq<char>>>) -> Option<Seq<char>>
    decreases devices.len(),
{
    if devices.len() == 0 {
        None
    } else if devices[0].name == name && devices[0].id is Some {
        devices[0].id
    } else {
        device_named(name, devices.drop_first())
    }
}

/// The id of the device with the name `name`, where the devices could be had.
pub open spec fn device_of<T>(name: Seq<char>, outcome: OutcomeView<T>) -> Option<Seq<char>> {
    match outcome {
        Outcome::Devices(devices) => device_named(name, devices),
        _ => None,
    }
}

/// The id of the device with the name `device_name`, where the devices could be had.
pub fn get_device_id<T>(device_name: &str, outcome: &ApiOutcome<T>) -> (r: Option<String>)
    ensures
        opt_view(r) == device_of(device_name@, outcome@),
{
    match outcome {
        Outcome::Devices(devices) => {
            let wanted = device_name.to_owned();
            let ghost all = devices_view(devices@);
            let mut i: usize = 0;
            assert(all.skip(0) =~= all);
            while i < devices.len()
                invariant
                    i <= devices.len(),
                    all == devices_view(devices@),
                    outcome@ == Outcome::<Seq<char>, T, _>::Devices(all),
                    wanted@ == device_name@,
                    device_named(device_name@, all) == device_named(
                        device_name@,
                        all.skip(i as int),
                    ),
                decreases devices.len() - i,
            {
                assert(all.skip(i as int)[0] == devices[i as int]@);
                assert(all.skip(i as int).drop_first() =~= all.skip(i + 1));
                if devices[i].name == wanted {
                    if let Some(id) = &devices[i].id {
                        return Some(id.clone());
                    }
                }
                i += 1;
            }
            None
        },
        _ => None,
    }
}

/// The id that is found belongs to a device with the wanted name, and to the first such device
/// that has an id at all.
pub proof fn device_found_is_first(name: Seq<char>, devices: Seq<Device<Seq<char>>>)
    ensures
        match device_named(name, devices) {
            Some(id) => exists|i: int|
                {
                    &&& 0 <= i < devices.len()
                    &&& (#[trigger] devices[i]).name == name
                    &&& devices[i].id == Some(id)
                    &&& forall|j: int|
                        0 <= j < i ==> (#[trigger] devices[j]).name != name || devices[j].id
                            is None
                },
            None => forall|j: int|
                0 <= j < devices.len() ==> (#[trigger] devices[j]).name != name || devices[j].id
                    is None,
        },
    decreases devices.len(),
{
    if devices.len() > 0 && !(devices[0].name == name && devices[0].id is Some) {
        let rest = devices.drop_first();
        device_found_is_first(name, rest);
        assert forall|j: int| 0 < j < devices.len() implies #[trigger] devices[j] == rest[j - 1] by {}
        match device_named(name, rest) {
            Some(id) => {
                let k = choose|k: int|
                    {
                        &&& 0 <= k < rest.len()
                        &&& (#[trigger] rest[k]).name == name
                        &&& rest[k].id == Some(id)
                        &&& forall|j: int|
                            0 <= j < k ==> (#[trigger] rest[j]).name != name || rest[j].id is None
                    };
                assert(devices[k + 1] == rest[k]);
            },
            None => {},
        }
    }
}

/// The device that is found, where the devices could be had, is the first one that has the name
/// and an id. No device is found where they could not be had.
pub proof fn device_is_looked_up_by_name<T>(name: Seq<char>, outcome: OutcomeView<T>)
    ensures
        match device_of(name, outcome) {
            Some(id) => outcome matches Outcome::Devices(devices) && exists|i: int|
                {
                    &&& 0 <= i < devices.len()
                    &&& (#[trigger] devices[i]).name == name
                    &&& devices[i].id == Some(id)
                    &&& forall|j: int|
                        0 <= j < i ==> (#[trigger] devices[j]).name != name || devices[j].id
                            is None
                },
            None => outcome matches Outcome::Devices(devices) ==> forall|j: int|
                0 <= j < devices.len() ==> (#[trigger] devices[j]).name != name || devices[j].id
                    is None,
        },
{
    if let Outcome::Devices(devices) = outcome {
        device_found_is_first(name, devices);
    }
}

/// Contracts speak of an optional text by the text.
pub proof fn opt_view_keeps_text<S: View>(s: S)
    ensures
        opt_view(Some(s)) == Some(s@),
        opt_view(None::<S>) == None::<S::V>,
{
}

/// Contracts speak of a call by its kind and by all that it holds.
pub proof fn call_view_keeps_fields<S: View>(call: Call<S>)
    ensures
        match call {
            Call::Player(command) => call@ == Call::<S::V>::Player(command),
            Call::CurrentPlayback => call@ == Call::<S::V>::CurrentPlayback,
            Call::Devices => call@ == Call::<S::V>::Devices,
            Call::CategoryPlaylists { category_id, limit } => call@
                == (Call::CategoryPlaylists { category_id: category_id@, limit }),
            Call::Search { query, search_type, limit } => call@
                == (Call::Search { query: query@, search_type, limit }),
            Call::Seek { position_ms, device_id } => call@
                == (Call::Seek { position_ms, device_id: opt_view(device_id) }),
            Call::Repeat { mode, device_id } => call@
                == (Call::Repeat { mode, device_id: opt_view(device_id) }),
            Call::Shuffle { on, device_id } => call@
                == (Call::Shuffle { on, device_id: opt_view(device_id) }),
            Call::TransferPlayback { target, play } => call@
                == (Call::TransferPlayback { target: target@, play }),
            Call::Volume { percent, device_id } => call@
                == (Call::Volume { percent, device_id: opt_view(device_id) }),
            Call::StartUris { item, device_id, offset } => call@
                == (Call::StartUris { item: item@, device_id: opt_view(device_id), offset }),
            Call::StartContext { item, device_id, offset } => call@
                == (Call::StartContext { item: item@, device_id: opt_view(device_id), offset }),
        },
{
}

/// Contracts speak of what came of a call by its kind and by all that it holds, the devices in
/// their order.
pub proof fn outcome_view_keeps_fields<T>(outcome: ApiOutcome<T>)
    ensures
        match outcome {
            Outcome::Failed => outcome@ is Failed,
            Outcome::Done => outcome@ is Done,
            Outcome::Playback(None) => outcome@ == OutcomeView::<T>::Playback(None),
            Outcome::Playback(Some(p)) => {
                &&& outcome@ matches Outcome::Playback(Some(q))
                &&& q.device_id == opt_view(p.device_id)
                &&& q.value == p.value
            },
            Outcome::Devices(devices) => {
                &&& outcome@ matches Outcome::Devices(view)
                &&& view.len() == devices@.len()
                &&& forall|i: int|
                    0 <= i < view.len() ==> (#[trigger] view[i]).name == devices@[i].name@
                        && view[i].id == opt_view(devices@[i].id)
            },
            Outcome::Value(v) => outcome@ == OutcomeView::<T>::Value(v),
        },
{
}

} // verus!
