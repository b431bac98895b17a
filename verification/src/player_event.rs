//! What the player reports, and how a program that is run on a report learns of it.
use vstd::prelude::*;

use crate::environment::Environment;
use crate::spotify_id::{base62, base62_is_injective, to_base62};
use crate::text::{decimal, decimal_is_injective, decimal_text};

verus! {

/// A report of the player. Tracks go by the number of their Spotify id.
#[derive(Clone, Copy, Debug, PartialEq, Eq)]
pub enum PlayerEvent {
    Stopped { play_request_id: u64, track_id: u128 },
    Started { play_request_id: u64, track_id: u128, position_ms: u32 },
    Changed { old_track_id: u128, new_track_id: u128 },
    Loading { play_request_id: u64, track_id: u128, position_ms: u32 },
    Preloading { track_id: u128 },
    Playing { play_request_id: u64, track_id: u128, position_ms: u32, duration_ms: u32 },
    Paused { play_request_id: u64, track_id: u128, position_ms: u32, duration_ms: u32 },
    TimeToPreloadNextTrack { play_request_id: u64, track_id: u128 },
    EndOfTrack { play_request_id: u64, track_id: u128 },
    Unavailable { play_request_id: u64, track_id: u128 },
    VolumeSet { volume: u16 },
}

/// `env` with the variable `name` set to the text of an id, where there is one.
pub open spec fn with_id(
    env: Map<Seq<char>, Seq<char>>,
    name: Seq<char>,
    id: Option<u128>,
) -> Map<Seq<char>, Seq<char>> {
    match id {
        Some(id) => env.insert(name, base62(id as nat)),
        None => env,
    }
}

/// `env` with the variable `name` set to the text of a number, where there is one.
pub open spec fn with_number(
    env: Map<Seq<char>, Seq<char>>,
    name: Seq<char>,
    number: Option<u64>,
) -> Map<Seq<char>, Seq<char>> {
    match number {
        Some(n) => env.insert(name, decimal(n as nat)),
        None => env,
    }
}

impl PlayerEvent {
    /// The word that stands for the kind of report.
    pub open spec fn word(self) -> Seq<char> {
        match self {
            PlayerEvent::Stopped { .. } => "stop"@,
            PlayerEvent::Started { .. } => "start"@,
            PlayerEvent::Changed { .. } => "change"@,
            PlayerEvent::Loading { .. } => "load"@,
            PlayerEvent::Preloading { .. } => "preloading"@,
            PlayerEvent::Playing { .. } => "play"@,
            PlayerEvent::Paused { .. } => "pause"@,
            PlayerEvent::TimeToPreloadNextTrack { .. } => "preload"@,
            PlayerEvent::EndOfTrack { .. } => "endoftrack"@,
            PlayerEvent::Unavailable { .. } => "unavailable"@,
            PlayerEvent::VolumeSet { .. } => "volumeset"@,
        }
    }

    /// The track that the report is about: the new one, where the track changed.
    pub open spec fn track(self) -> Option<u128> {
        match self {
            PlayerEvent::Stopped { track_id, .. } => Some(track_id),
            PlayerEvent::Started { track_id, .. } => Some(track_id),
            PlayerEvent::Changed { new_track_id, .. } => Some(new_track_id),
            PlayerEvent::Loading { track_id, .. } => Some(track_id),
            PlayerEvent::Preloading { track_id } => Some(track_id),
            PlayerEvent::Playing { track_id, .. } => Some(track_id),
            PlayerEvent::Paused { track_id, .. } => Some(track_id),
            PlayerEvent::TimeToPreloadNextTrack { track_id, .. } => Some(track_id),
            PlayerEvent::EndOfTrack { track_id, .. } => Some(track_id),
            PlayerEvent::Unavailable { track_id, .. } => Some(track_id),
            PlayerEvent::VolumeSet { .. } => None,
        }
    }

    /// The track that was played before a change.
    pub open spec fn old_track(self) -> Option<u128> {
        match self {
            PlayerEvent::Changed { old_track_id, .. } => Some(old_track_id),
            _ => None,
        }
    }

    /// The request to play that the report belongs to.
    pub open spec fn play_request(self) -> Option<u64> {
        match self {
            PlayerEvent::Stopped { play_request_id, .. } => Some(play_request_id),
            PlayerEvent::Started { play_request_id, .. } => Some(play_request_id),
            PlayerEvent::Loading { play_request_id, .. } => Some(play_request_id),
            PlayerEvent::Playing { play_request_id, .. } => Some(play_request_id),
            PlayerEvent::Paused { play_request_id, .. } => Some(play_request_id),
            PlayerEvent::TimeToPreloadNextTrack { play_request_id, .. } => Some(play_request_id),
            PlayerEvent::EndOfTrack { play_request_id, .. } => Some(play_request_id),
            PlayerEvent::Unavailable { play_request_id, .. } => Some(play_request_id),
            _ => None,
        }
    }

    /// The place in the track, in milliseconds.
    pub open spec fn position(self) -> Option<u64> {
        match self {
            PlayerEvent::Started { position_ms, .. } => Some(position_ms as u64),
            PlayerEvent::Loading { position_ms, .. } => Some(position_ms as u64),
            PlayerEvent::Playing { position_ms, .. } => Some(position_ms as u64),
            PlayerEvent::Paused { position_ms, .. } => Some(position_ms as u64),
            _ => None,
        }
    }

    /// The length of the track, in milliseconds.
    pub open spec fn duration(self) -> Option<u64> {
        match self {
            PlayerEvent::Playing { duration_ms, .. } => Some(duration_ms as u64),
            PlayerEvent::Paused { duration_ms, .. } => Some(duration_ms as u64),
            _ => None,
        }
    }

    /// The new volume.
    pub open spec fn new_volume(self) -> Option<u64> {
        match self {
            PlayerEvent::VolumeSet { volume } => Some(volume as u64),
            _ => None,
        }
    }

    /// The variables that describe the report, with their values: the word for its kind, and
    /// one variable for each thing that the report tells of.
    pub open spec fn variables(self) -> Map<Seq<char>, Seq<char>> {
        let env = map!["PLAYER_EVENT"@ => self.word()];
        let env = with_id(env, "TRACK_ID"@, self.track());
        let env = with_id(env, "OLD_TRACK_ID"@, self.old_track());
        let env = with_number(env, "PLAY_REQUEST_ID"@, self.play_request());
        let env = with_number(env, "POSITION_MS"@, self.position());
        let env = with_number(env, "DURATION_MS"@, self.duration());
        with_number(env, "VOLUME"@, self.new_volume())
    }

    /// The environment of a program that is run on this report.
    pub fn environment(self) -> (env: Environment)
        ensures
            env@ == self.variables(),
    {
        proof {
            lemma_names_distinct();
        }
        let mut env = Environment::new();
        match self {
            PlayerEvent::Changed { old_track_id, new_track_id } => {
                env.insert("OLD_TRACK_ID", to_base62(old_track_id).unwrap());
                env.insert("PLAYER_EVENT", "change".to_owned());
                env.insert("TRACK_ID", to_base62(new_track_id).unwrap());
            },
            PlayerEvent::Started { track_id, play_request_id, position_ms } => {
                env.insert("PLAYER_EVENT", "start".to_owned());
                env.insert("TRACK_ID", to_base62(track_id).unwrap());
                env.insert("PLAY_REQUEST_ID", decimal_text(play_request_id));
                env.insert("POSITION_MS", decimal_text(position_ms as u64));
            },
            PlayerEvent::Stopped { track_id, play_request_id } => {
                env.insert("PLAYER_EVENT", "stop".to_owned());
                env.insert("TRACK_ID", to_base62(track_id).unwrap());
                env.insert("PLAY_REQUEST_ID", decimal_text(play_request_id));
            },
            PlayerEvent::Loading { track_id, play_request_id, position_ms } => {
                env.insert("PLAYER_EVENT", "load".to_owned());
                env.insert("TRACK_ID", to_base62(track_id).unwrap());
                env.insert("PLAY_REQUEST_ID", decimal_text(play_request_id));
                env.insert("POSITION_MS", decimal_text(position_ms as u64));
            },
            PlayerEvent::Playing { track_id, play_request_id, position_ms, duration_ms } => {
                env.insert("PLAYER_EVENT", "play".to_owned());
                env.insert("TRACK_ID", to_base62(track_id).unwrap());
                env.insert("PLAY_REQUEST_ID", decimal_text(play_request_id));
                env.insert("POSITION_MS", decimal_text(position_ms as u64));
                env.insert("DURATION_MS", decimal_text(duration_ms as u64));
            },
            PlayerEvent::Paused { track_id, play_request_id, position_ms, duration_ms } => {
                env.insert("PLAYER_EVENT", "pause".to_owned());
                env.insert("TRACK_ID", to_base62(track_id).unwrap());
                env.insert("PLAY_REQUEST_ID", decimal_text(play_request_id));
                env.insert("POSITION_MS", decimal_text(position_ms as u64));
                env.insert("DURATION_MS", decimal_text(duration_ms as u64));
            },
            PlayerEvent::TimeToPreloadNextTrack { track_id, play_request_id } => {
                env.insert("PLAYER_EVENT", "preload".to_owned());
                env.insert("TRACK_ID", to_base62(track_id).unwrap());
                env.insert("PLAY_REQUEST_ID", decimal_text(play_request_id));
            },
            PlayerEvent::EndOfTrack { track_id, play_request_id } => {
                env.insert("PLAYER_EVENT", "endoftrack".to_owned());
                env.insert("TRACK_ID", to_base62(track_id).unwrap());
                env.insert("PLAY_REQUEST_ID", decimal_text(play_request_id));
            },
            PlayerEvent::VolumeSet { volume } => {
                env.insert("PLAYER_EVENT", "volumeset".to_owned());
                env.insert("VOLUME", decimal_text(volume as u64));
            },
            PlayerEvent::Unavailable { play_request_id, track_id } => {
                env.insert("PLAYER_EVENT", "unavailable".to_owned());
                env.insert("TRACK_ID", to_base62(track_id).unwrap());
                env.insert("PLAY_REQUEST_ID", decimal_text(play_request_id));
            },
            PlayerEvent::Preloading { track_id } => {
                env.insert("PLAYER_EVENT", "preloading".to_owned());
                env.insert("TRACK_ID", to_base62(track_id).unwrap());
            },
        }
        assert(env@ =~= self.variables());
        env
    }
}

/// The names of the variables are all different.
proof fn lemma_names_distinct()
    ensures
        "PLAYER_EVENT"@.len() == 12,
        "TRACK_ID"@.len() == 8,
        "OLD_TRACK_ID"@.len() == 12,
        "PLAYER_EVENT"@ != "OLD_TRACK_ID"@,
        "PLAY_REQUEST_ID"@.len() == 15,
        "POSITION_MS"@.len() == 11,
        "DURATION_MS"@.len() == 11,
        "POSITION_MS"@ != "DURATION_MS"@,
        "VOLUME"@.len() == 6,
{
    reveal_strlit("PLAYER_EVENT");
    reveal_strlit("TRACK_ID");
    reveal_strlit("OLD_TRACK_ID");
    reveal_strlit("PLAY_REQUEST_ID");
    reveal_strlit("POSITION_MS");
    reveal_strlit("DURATION_MS");
    reveal_strlit("VOLUME");
    assert("PLAYER_EVENT"@[0] != "OLD_TRACK_ID"@[0]);
    assert("POSITION_MS"@[0] != "DURATION_MS"@[0]);
}

/// The words for different kinds of reports are different.
proof fn lemma_words_distinct(a: PlayerEvent, b: PlayerEvent)
    requires
        a.word() == b.word(),
    ensures
        match a {
            PlayerEvent::Stopped { .. } => b is Stopped,
            PlayerEvent::Started { .. } => b is Started,
            PlayerEvent::Changed { .. } => b is Changed,
            PlayerEvent::Loading { .. } => b is Loading,
            PlayerEvent::Preloading { .. } => b is Preloading,
            PlayerEvent::Playing { .. } => b is Playing,
            PlayerEvent::Paused { .. } => b is Paused,
            PlayerEvent::TimeToPreloadNextTrack { .. } => b is TimeToPreloadNextTrack,
            PlayerEvent::EndOfTrack { .. } => b is EndOfTrack,
            PlayerEvent::Unavailable { .. } => b is Unavailable,
            PlayerEvent::VolumeSet { .. } => b is VolumeSet,
        },
{
    reveal_strlit("stop");
    reveal_strlit("start");
    reveal_strlit("change");
    reveal_strlit("load");
    reveal_strlit("preloading");
    reveal_strlit("play");
    reveal_strlit("pause");
    reveal_strlit("preload");
    reveal_strlit("endoftrack");
    reveal_strlit("unavailable");
    reveal_strlit("volumeset");
    assert("stop"@.len() == 4 && "load"@.len() == 4 && "play"@.len() == 4);
    assert("start"@.len() == 5 && "pause"@.len() == 5 && "change"@.len() == 6);
    assert("preload"@.len() == 7 && "volumeset"@.len() == 9 && "unavailable"@.len() == 11);
    assert("preloading"@.len() == 10 && "endoftrack"@.len() == 10);
    assert("stop"@[0] == 's' && "load"@[0] == 'l' && "play"@[0] == 'p');
    assert("start"@[0] == 's' && "pause"@[0] == 'p');
    assert("preloading"@[0] == 'p' && "endoftrack"@[0] == 'e');
    assert(a.word().len() == b.word().len());
    assert(a.word()[0] == b.word()[0]);
}

/// What is set, and to what, for each thing that a report may tell of.
proof fn lemma_variables(event: PlayerEvent)
    ensures
        ({
            let env = event.variables();
            &&& env.contains_key("PLAYER_EVENT"@) && env["PLAYER_EVENT"@] == event.word()
            &&& event.track() matches Some(id) ==> env["TRACK_ID"@] == base62(id as nat)
            &&& event.old_track() matches Some(id) ==> env["OLD_TRACK_ID"@] == base62(id as nat)
            &&& event.play_request() matches Some(n) ==> env["PLAY_REQUEST_ID"@] == decimal(
                n as nat,
            )
            &&& event.position() matches Some(n) ==> env["POSITION_MS"@] == decimal(n as nat)
            &&& event.duration() matches Some(n) ==> env["DURATION_MS"@] == decimal(n as nat)
            &&& event.new_volume() matches Some(n) ==> env["VOLUME"@] == decimal(n as nat)
        }),
{
    lemma_names_distinct();
}

/// Every report has a variable that says of which kind it is.
pub proof fn every_event_names_its_kind(event: PlayerEvent)
    ensures
        event.variables().contains_key("PLAYER_EVENT"@),
        event.variables()["PLAYER_EVENT"@] == event.word(),
{
    lemma_variables(event);
}

/// Only a change of the volume leaves the track unset.
pub proof fn track_is_set_but_for_volume(event: PlayerEvent)
    ensures
        event.variables().contains_key("TRACK_ID"@) <==> !(event is VolumeSet),
{
    lemma_names_distinct();
}

/// A program can tell from its environment which report it is run on.
pub proof fn variables_determine_event(a: PlayerEvent, b: PlayerEvent)
    requires
        a.variables() == b.variables(),
    ensures
        a == b,
{
    lemma_variables(a);
    lemma_variables(b);
    lemma_words_distinct(a, b);
    if let (Some(x), Some(y)) = (a.track(), b.track()) {
        base62_is_injective(x, y);
    }
    if let (Some(x), Some(y)) = (a.old_track(), b.old_track()) {
        base62_is_injective(x, y);
    }
    if let (Some(x), Some(y)) = (a.play_request(), b.play_request()) {
        decimal_is_injective(x as nat, y as nat);
    }
    if let (Some(x), Some(y)) = (a.position(), b.position()) {
        decimal_is_injective(x as nat, y as nat);
    }
    if let (Some(x), Some(y)) = (a.duration(), b.duration()) {
        decimal_is_injective(x as nat, y as nat);
    }
    if let (Some(x), Some(y)) = (a.new_volume(), b.new_volume()) {
        decimal_is_injective(x as nat, y as nat);
    }
}

/// What a program learns of a report: a word for its kind, and each of its fields under the
/// name that belongs to it, tracks as the text of their id and numbers in decimal. Nothing else
/// is set.
pub proof fn every_field_has_its_variable(event: PlayerEvent)
    ensures
        event.variables() == match event {
            PlayerEvent::Stopped { play_request_id, track_id } => map![
                "PLAYER_EVENT"@ => "stop"@,
                "PLAY_REQUEST_ID"@ => decimal(play_request_id as nat),
                "TRACK_ID"@ => base62(track_id as nat),
            ],
            PlayerEvent::Started { play_request_id, track_id, position_ms } => map![
                "PLAYER_EVENT"@ => "start"@,
                "PLAY_REQUEST_ID"@ => decimal(play_request_id as nat),
                "TRACK_ID"@ => base62(track_id as nat),
                "POSITION_MS"@ => decimal(position_ms as nat),
            ],
            PlayerEvent::Loading { play_request_id, track_id, position_ms } => map![
                "PLAYER_EVENT"@ => "load"@,
                "PLAY_REQUEST_ID"@ => decimal(play_request_id as nat),
                "TRACK_ID"@ => base62(track_id as nat),
                "POSITION_MS"@ => decimal(position_ms as nat),
            ],
            PlayerEvent::Preloading { track_id } => map![
                "PLAYER_EVENT"@ => "preloading"@,
                "TRACK_ID"@ => base62(track_id as nat),
            ],
            PlayerEvent::Playing { play_request_id, track_id, position_ms, duration_ms } => map![
                "PLAYER_EVENT"@ => "play"@,
                "PLAY_REQUEST_ID"@ => decimal(play_request_id as nat),
                "TRACK_ID"@ => base62(track_id as nat),
                "POSITION_MS"@ => decimal(position_ms as nat),
                "DURATION_MS"@ => decimal(duration_ms as nat),
            ],
            PlayerEvent::Paused { play_request_id, track_id, position_ms, duration_ms } => map![
                "PLAYER_EVENT"@ => "pause"@,
                "PLAY_REQUEST_ID"@ => decimal(play_request_id as nat),
                "TRACK_ID"@ => base62(track_id as nat),
                "POSITION_MS"@ => decimal(position_ms as nat),
                "DURATION_MS"@ => decimal(duration_ms as nat),
            ],
            PlayerEvent::TimeToPreloadNextTrack { play_request_id, track_id } => map![
                "PLAYER_EVENT"@ => "preload"@,
                "PLAY_REQUEST_ID"@ => decimal(play_request_id as nat),
                "TRACK_ID"@ => base62(track_id as nat),
            ],
            PlayerEvent::EndOfTrack { play_request_id, track_id } => map![
                "PLAYER_EVENT"@ => "endoftrack"@,
                "PLAY_REQUEST_ID"@ => decimal(play_request_id as nat),
                "TRACK_ID"@ => base62(track_id as nat),
            ],
            PlayerEvent::Unavailable { play_request_id, track_id } => map![
                "PLAYER_EVENT"@ => "unavailable"@,
                "PLAY_REQUEST_ID"@ => decimal(play_request_id as nat),
                "TRACK_ID"@ => base62(track_id as nat),
            ],
            PlayerEvent::Changed { old_track_id, new_track_id } => map![
                "PLAYER_EVENT"@ => "change"@,
                "OLD_TRACK_ID"@ => base62(old_track_id as nat),
                "TRACK_ID"@ => base62(new_track_id as nat),
            ],
            PlayerEvent::VolumeSet { volume } => map![
                "PLAYER_EVENT"@ => "volumeset"@,
                "VOLUME"@ => decimal(volume as nat),
            ],
        },
{
    lemma_names_distinct();
}

/// The place in the track and its length are told under different names, and the same way in
/// every kind of report: playing and pausing at one place differ in the kind alone, and so do
/// starting and loading; starting tells the same as playing, but for the length.
pub proof fn place_and_length_are_told_apart(
    play_request_id: u64,
    track_id: u128,
    position_ms: u32,
    duration_ms: u32,
)
    ensures
        ({
            let playing = (PlayerEvent::Playing {
                play_request_id,
                track_id,
                position_ms,
                duration_ms,
            }).variables();
            let paused = (PlayerEvent::Paused {
                play_request_id,
                track_id,
                position_ms,
                duration_ms,
            }).variables();
            let started = (PlayerEvent::Started { play_request_id, track_id, position_ms }).variables();
            let loading = (PlayerEvent::Loading { play_request_id, track_id, position_ms }).variables();
            &&& playing["POSITION_MS"@] == decimal(position_ms as nat)
            &&& playing["DURATION_MS"@] == decimal(duration_ms as nat)
            &&& playing.remove("PLAYER_EVENT"@) == paused.remove("PLAYER_EVENT"@)
            &&& started.remove("PLAYER_EVENT"@) == loading.remove("PLAYER_EVENT"@)
            &&& playing.remove("PLAYER_EVENT"@).remove("DURATION_MS"@) == started.remove(
                "PLAYER_EVENT"@,
            )
        }),
{
    lemma_names_distinct();
    let playing = PlayerEvent::Playing { play_request_id, track_id, position_ms, duration_ms };
    let paused = PlayerEvent::Paused { play_request_id, track_id, position_ms, duration_ms };
    let started = PlayerEvent::Started { play_request_id, track_id, position_ms };
    let loading = PlayerEvent::Loading { play_request_id, track_id, position_ms };
    assert(playing.variables().remove("PLAYER_EVENT"@) =~= paused.variables().remove(
        "PLAYER_EVENT"@,
    ));
    assert(started.variables().remove("PLAYER_EVENT"@) =~= loading.variables().remove(
        "PLAYER_EVENT"@,
    ));
    assert(playing.variables().remove("PLAYER_EVENT"@).remove("DURATION_MS"@)
        =~= started.variables().remove("PLAYER_EVENT"@));
}

} // verus!
