//! Spotify URIs of things that can be played.
use rspotify::model::{AlbumId, ArtistId, EpisodeId, PlaylistId, ShowId, TrackId, Type};
use rspotify::prelude::Id;
use vstd::prelude::*;
use vstd::string::*;

verus! {

/// The types that a Spotify URI can name.
#[derive(Clone, Copy, Debug, PartialEq, Eq, Structural)]
pub enum UriType {
    Artist,
    Album,
    Track,
    Playlist,
    User,
    Show,
    Episode,
    Collection,
    CollectionYourEpisodes,
}

impl UriType {
    /// The name that stands for the type in a URI.
    pub open spec fn name(self) -> Seq<char> {
        match self {
            UriType::Artist => "artist"@,
            UriType::Album => "album"@,
            UriType::Track => "track"@,
            UriType::Playlist => "playlist"@,
            UriType::User => "user"@,
            UriType::Show => "show"@,
            UriType::Episode => "episode"@,
            UriType::Collection => "collection"@,
            UriType::CollectionYourEpisodes => "collectionyourepisodes"@,
        }
    }

    /// Things of this type can be played.
    pub open spec fn opens(self) -> bool {
        self.starts_alone() || self.starts_as_context()
    }

    /// A thing of this type is played by itself.
    pub open spec fn starts_alone(self) -> bool {
        self is Track || self is Episode
    }

    /// A thing of this type is a list of things, which are played one after the other.
    pub open spec fn starts_as_context(self) -> bool {
        self is Artist || self is Album || self is Playlist || self is Show
    }
}

/// A thing that can be played: its type and its id. `S` is the type of texts.
#[derive(Debug, PartialEq, Eq)]
pub struct Item<S> {
    pub item_type: UriType,
    pub id: S,
}

impl<S: View> View for Item<S> {
    type V = Item<S::V>;

    open spec fn view(&self) -> Item<S::V> {
        Item { item_type: self.item_type, id: self.id@ }
    }
}

/// Why there is no item with a given type and id.
#[derive(Clone, Copy, Debug, PartialEq, Eq, Structural)]
pub enum IdError {
    /// Things of the type cannot be played.
    InvalidType,
    /// The id holds a character that no id holds.
    InvalidId,
}

pub open spec fn is_alphanumeric(c: char) -> bool {
    ||| 'a' <= c <= 'z'
    ||| 'A' <= c <= 'Z'
    ||| '0' <= c <= '9'
}

/// Ids are made up of ASCII letters and digits.
pub open spec fn valid_id(id: Seq<char>) -> bool {
    forall|i: int| 0 <= i < id.len() ==> is_alphanumeric(#[trigger] id[i])
}

/// The separators of a URI's parts.
pub open spec fn is_separator(c: char) -> bool {
    c == ':' || c == '/'
}

/// `uri` is the URI of `item`, written with the separator `sep`.
pub open spec fn spells(uri: Seq<char>, sep: char, item: Item<Seq<char>>) -> bool {
    &&& is_separator(sep)
    &&& item.item_type.opens()
    &&& valid_id(item.id)
    &&& uri == "spotify"@ + seq![sep] + item.item_type.name() + seq![sep] + item.id
}

/// `uri` is a URI of `item`: the word `spotify`, the name of the item's type and the item's id,
/// with the same separator between them.
pub open spec fn denotes(uri: Seq<char>, item: Item<Seq<char>>) -> bool {
    spells(uri, ':', item) || spells(uri, '/', item)
}

/// The item that `uri` denotes, where there is one. There is never more than one, as
/// `uri_denotes_one_item` shows.
pub open spec fn item_of(uri: Seq<char>) -> Option<Item<Seq<char>>> {
    if exists|item: Item<Seq<char>>| denotes(uri, item) {
        Some(choose|item: Item<Seq<char>>| denotes(uri, item))
    } else {
        None
    }
}

/// The `FromStr` impl of `rspotify::model::Type`: the type whose name is exactly `name`, where
/// there is one.
#[verifier::external_body]
fn parse_type(name: &str) -> (r: Option<UriType>)
    ensures
        r matches Some(t) ==> name@ == t.name(),
        r is None ==> forall|t: UriType| name@ != #[trigger] t.name(),
{
    match name.parse::<Type>() {
        Ok(Type::Artist) => Some(UriType::Artist),
        Ok(Type::Album) => Some(UriType::Album),
        Ok(Type::Track) => Some(UriType::Track),
        Ok(Type::Playlist) => Some(UriType::Playlist),
        Ok(Type::User) => Some(UriType::User),
        Ok(Type::Show) => Some(UriType::Show),
        Ok(Type::Episode) => Some(UriType::Episode),
        Ok(Type::Collection) => Some(UriType::Collection),
        Ok(Type::Collectionyourepisodes) => Some(UriType::CollectionYourEpisodes),
        Err(_) => None,
    }
}

/// `rspotify::model::TrackId::from_id`: accepts exactly the texts that are made up of ASCII
/// letters and digits, the empty one among them, and keeps them as they are.
#[verifier::external_body]
fn track_id(id: &str) -> (r: Option<String>)
    ensures
        r is Some <==> valid_id(id@),
        r matches Some(s) ==> s@ == id@,
{
    TrackId::from_id(id).ok().map(|t| t.id().to_owned())
}

/// `rspotify::model::EpisodeId::from_id`: accepts exactly the texts that are made up of ASCII
/// letters and digits, the empty one among them, and keeps them as they are.
#[verifier::external_body]
fn episode_id(id: &str) -> (r: Option<String>)
    ensures
        r is Some <==> valid_id(id@),
        r matches Some(s) ==> s@ == id@,
{
    EpisodeId::from_id(id).ok().map(|t| t.id().to_owned())
}

/// `rspotify::model::ArtistId::from_id`: accepts exactly the texts that are made up of ASCII
/// letters and digits, the empty one among them, and keeps them as they are.
#[verifier::external_body]
fn artist_id(id: &str) -> (r: Option<String>)
    ensures
        r is Some <==> valid_id(id@),
        r matches Some(s) ==> s@ == id@,
{
    ArtistId::from_id(id).ok().map(|t| t.id().to_owned())
}

/// `rspotify::model::AlbumId::from_id`: accepts exactly the texts that are made up of ASCII
/// letters and digits, the empty one among them, and keeps them as they are.
#[verifier::external_body]
fn album_id(id: &str) -> (r: Option<String>)
    ensures
        r is Some <==> valid_id(id@),
        r matches Some(s) ==> s@ == id@,
{
    AlbumId::from_id(id).ok().map(|t| t.id().to_owned())
}

/// `rspotify::model::PlaylistId::from_id`: accepts exactly the texts that are made up of ASCII
/// letters and digits, the empty one among them, and keeps them as they are.
#[verifier::external_body]
fn playlist_id(id: &str) -> (r: Option<String>)
    ensures
        r is Some <==> valid_id(id@),
        r matches Some(s) ==> s@ == id@,
{
    PlaylistId::from_id(id).ok().map(|t| t.id().to_owned())
}

/// `rspotify::model::ShowId::from_id`: accepts exactly the texts that are made up of ASCII
/// letters and digits, the empty one among them, and keeps them as they are.
#[verifier::external_body]
fn show_id(id: &str) -> (r: Option<String>)
    ensures
        r is Some <==> valid_id(id@),
        r matches Some(s) ==> s@ == id@,
{
    ShowId::from_id(id).ok().map(|t| t.id().to_owned())
}

fn chars_of(text: &str) -> (r: Vec<char>)
    ensures
        r@ == text@,
{
    let mut r: Vec<char> = Vec::new();
    for c in it: text.chars()
        invariant
            r@ == text@.take(it.index()),
            it.seq() == text@,
    {
        r.push(c);
    }
    r
}

impl Item<String> {
    /// The item with the given type and id.
    pub fn from_id(id_type: UriType, id: &str) -> (r: Result<Item<String>, IdError>)
        ensures
            match r {
                Ok(item) => id_type.opens() && valid_id(id@) && item@ == (Item {
                    item_type: id_type,
                    id: id@,
                }),
                Err(IdError::InvalidType) => !id_type.opens(),
                Err(IdError::InvalidId) => id_type.opens() && !valid_id(id@),
            },
    {
        let id = match id_type {
            UriType::Track => track_id(id),
            UriType::Episode => episode_id(id),
            UriType::Artist => artist_id(id),
            UriType::Album => album_id(id),
            UriType::Playlist => playlist_id(id),
            UriType::Show => show_id(id),
            UriType::User | UriType::Collection | UriType::CollectionYourEpisodes => {
                return Err(IdError::InvalidType);
            },
        };
        match id {
            Some(id) => Ok(Item { item_type: id_type, id }),
            None => Err(IdError::InvalidId),
        }
    }

    /// The item that `uri` denotes.
    pub fn from_uri(uri: &str) -> (r: Option<Item<String>>)
        ensures
            match r {
                Some(item) => item_of(uri@) == Some(item@),
                None => item_of(uri@) is None,
            },
    {
        let ghost text = uri@;
        proof {
            reveal_strlit("spotify");
            lemma_prefix(text);
        }
        let chars = chars_of(uri);
        let len: usize = chars.len();
        if len < 8 {
            return None;
        }
        if uri.substring_char(0, 7).to_owned() != "spotify".to_owned() {
            return None;
        }
        let sep = chars[7];
        if sep != '/' && sep != ':' {
            return None;
        }
        let mut end: usize = len;
        while end > 8 && chars[end - 1] != sep
            invariant
                8 <= end <= len,
                len == chars@.len(),
                chars@ == uri@,
                forall|j: int| end <= j < len ==> #[trigger] uri@[j] != sep,
            decreases end,
        {
            end -= 1;
        }
        if end == 8 {
            proof {
                lemma_no_separator(text);
            }
            return None;
        }
        let at: usize = end - 1;
        let (name, id) = (uri.substring_char(8, at), uri.substring_char(end, len));
        proof {
            lemma_parts(text, at as int);
        }
        let id_type = match parse_type(name) {
            Some(t) => t,
            None => {
                return None;
            },
        };
        proof {
            lemma_type_names(id_type);
        }
        match Item::from_id(id_type, id) {
            Ok(item) => {
                proof {
                    lemma_spelled(text, at as int, item@);
                    uri_denotes_one_item(text, item@, item_of(text)->0);
                }
                Some(item)
            },
            Err(_) => None,
        }
    }
}

/// A URI begins with the word `spotify` and a separator.
proof fn lemma_prefix(uri: Seq<char>)
    ensures
        item_of(uri) is Some ==> {
            &&& uri.len() >= 8
            &&& uri.subrange(0, 7) == "spotify"@
            &&& is_separator(uri[7])
        },
{
    reveal_strlit("spotify");
    if let Some(item) = item_of(uri) {
        assert(denotes(uri, item));
        assert(uri.subrange(0, 7) =~= "spotify"@);
    }
}

/// `at` is the place of the last separator behind the prefix.
spec fn last_separator(uri: Seq<char>, at: int) -> bool {
    &&& 8 <= at < uri.len()
    &&& uri[at] == uri[7]
    &&& forall|j: int| at < j < uri.len() ==> #[trigger] uri[j] != uri[7]
}

/// The last separator parts the name of the type from the id.
proof fn lemma_spells(uri: Seq<char>, sep: char, item: Item<Seq<char>>)
    requires
        spells(uri, sep, item),
    ensures
        ({
            let at = 8 + item.item_type.name().len() as int;
            &&& uri.len() >= 8
            &&& uri[7] == sep
            &&& last_separator(uri, at)
            &&& uri.subrange(8, at) == item.item_type.name()
            &&& uri.subrange(at + 1, uri.len() as int) == item.id
        }),
{
    reveal_strlit("spotify");
    let at = 8 + item.item_type.name().len() as int;
    assert(uri[7] == sep);
    assert(uri[at] == sep);
    assert(uri.subrange(8, at) =~= item.item_type.name());
    assert(uri.subrange(at + 1, uri.len() as int) =~= item.id);
    assert forall|j: int| at < j < uri.len() implies #[trigger] uri[j] != uri[7] by {
        assert(uri[j] == item.id[j - at - 1]);
        assert(is_alphanumeric(item.id[j - at - 1]));
    }
}

proof fn lemma_no_separator(uri: Seq<char>)
    requires
        uri.len() >= 8,
        forall|j: int| 8 <= j < uri.len() ==> #[trigger] uri[j] != uri[7],
    ensures
        item_of(uri) is None,
{
    if let Some(item) = item_of(uri) {
        assert(denotes(uri, item));
        let sep = if spells(uri, ':', item) {
            ':'
        } else {
            '/'
        };
        lemma_spells(uri, sep, item);
    }
}

/// What a URI with the last separator at `at` can denote.
proof fn lemma_parts(uri: Seq<char>, at: int)
    requires
        last_separator(uri, at),
    ensures
        forall|item: Item<Seq<char>>| #[trigger]
            denotes(uri, item) ==> {
                &&& item.item_type.opens()
                &&& valid_id(item.id)
                &&& item.item_type.name() == uri.subrange(8, at)
                &&& item.id == uri.subrange(at + 1, uri.len() as int)
            },
{
    assert forall|item: Item<Seq<char>>| #[trigger] denotes(uri, item) implies {
        &&& item.item_type.opens()
        &&& valid_id(item.id)
        &&& item.item_type.name() == uri.subrange(8, at)
        &&& item.id == uri.subrange(at + 1, uri.len() as int)
    } by {
        let sep = if spells(uri, ':', item) {
            ':'
        } else {
            '/'
        };
        lemma_spells(uri, sep, item);
    }
}

/// Putting the parts together again.
proof fn lemma_spelled(uri: Seq<char>, at: int, item: Item<Seq<char>>)
    requires
        last_separator(uri, at),
        is_separator(uri[7]),
        uri.subrange(0, 7) == "spotify"@,
        item.item_type.opens(),
        valid_id(item.id),
        item.item_type.name() == uri.subrange(8, at),
        item.id == uri.subrange(at + 1, uri.len() as int),
    ensures
        denotes(uri, item),
        item_of(uri) is Some,
        denotes(uri, item_of(uri)->0),
{
    reveal_strlit("spotify");
    let sep = uri[7];
    assert(uri =~= uri.subrange(0, 7) + seq![sep] + uri.subrange(8, at) + seq![sep]
        + uri.subrange(at + 1, uri.len() as int));
    assert(spells(uri, sep, item));
}

/// Different types have different names.
proof fn lemma_type_names(a: UriType)
    ensures
        forall|b: UriType| a.name() == #[trigger] b.name() ==> a == b,
{
    reveal_strlit("artist");
    reveal_strlit("album");
    reveal_strlit("track");
    reveal_strlit("playlist");
    reveal_strlit("user");
    reveal_strlit("show");
    reveal_strlit("episode");
    reveal_strlit("collection");
    reveal_strlit("collectionyourepisodes");
    assert("artist"@.len() == 6 && "album"@.len() == 5 && "track"@.len() == 5);
    assert("playlist"@.len() == 8 && "user"@.len() == 4 && "show"@.len() == 4);
    assert("episode"@.len() == 7 && "collection"@.len() == 10);
    assert("collectionyourepisodes"@.len() == 22);
    assert("album"@[0] == 'a' && "track"@[0] == 't');
    assert("user"@[0] == 'u' && "show"@[0] == 's');
}

/// A text is the URI of one item at most.
pub proof fn uri_denotes_one_item(uri: Seq<char>, a: Item<Seq<char>>, b: Item<Seq<char>>)
    requires
        denotes(uri, a),
        denotes(uri, b),
    ensures
        a == b,
{
    let sep = if spells(uri, ':', a) {
        ':'
    } else {
        '/'
    };
    lemma_spells(uri, sep, a);
    lemma_parts(uri, 8 + a.item_type.name().len() as int);
    lemma_type_names(a.item_type);
}

/// Reading the URI of an item gives back the item, whichever separator it is written with.
pub proof fn uri_of_item_denotes_it(sep: char, item: Item<Seq<char>>)
    requires
        is_separator(sep),
        item.item_type.opens(),
        valid_id(item.id),
    ensures
        item_of("spotify"@ + seq![sep] + item.item_type.name() + seq![sep] + item.id) == Some(item),
{
    let uri = "spotify"@ + seq![sep] + item.item_type.name() + seq![sep] + item.id;
    assert(spells(uri, sep, item));
    assert(denotes(uri, item));
    uri_denotes_one_item(uri, item, item_of(uri)->0);
}

/// A text whose two separators differ is no URI.
pub proof fn separators_agree(uri: Seq<char>, name: Seq<char>, id: Seq<char>, a: char, b: char)
    requires
        is_separator(a),
        is_separator(b),
        a != b,
        !name.contains(a),
        !id.contains(a),
        uri == "spotify"@ + seq![a] + name + seq![b] + id,
    ensures
        item_of(uri) is None,
{
    reveal_strlit("spotify");
    assert forall|j: int| 8 <= j < uri.len() implies #[trigger] uri[j] != uri[7] by {
        assert(uri[7] == a);
        if j < 8 + name.len() {
            assert(uri[j] == name[j - 8]);
        } else if j > 8 + name.len() {
            assert(uri[j] == id[j - 9 - name.len()]);
        }
    }
    lemma_no_separator(uri);
}

/// Which things can be played, and how: a track or an episode by itself, an artist, an album, a
/// playlist or a show as a list, and nothing else.
pub proof fn things_that_can_be_played(t: UriType)
    ensures
        t.opens() <==> t == UriType::Track || t == UriType::Episode || t == UriType::Artist || t
            == UriType::Album || t == UriType::Playlist || t == UriType::Show,
        t.starts_alone() <==> t == UriType::Track || t == UriType::Episode,
        t.starts_as_context() <==> t == UriType::Artist || t == UriType::Album || t
            == UriType::Playlist || t == UriType::Show,
{
}

/// An id is valid exactly where each of its characters is an ASCII letter or digit. The empty
/// one is.
pub proof fn ids_are_letters_and_digits(id: Seq<char>)
    ensures
        valid_id(id) <==> forall|i: int|
            0 <= i < id.len() ==> 'a' <= #[trigger] id[i] <= 'z' || 'A' <= id[i] <= 'Z' || '0'
                <= id[i] <= '9',
{
    if forall|i: int|
        0 <= i < id.len() ==> 'a' <= #[trigger] id[i] <= 'z' || 'A' <= id[i] <= 'Z' || '0' <= id[i]
            <= '9' {
        assert forall|i: int| 0 <= i < id.len() implies is_alphanumeric(#[trigger] id[i]) by {}
    }
    if valid_id(id) {
        assert forall|i: int| 0 <= i < id.len() implies 'a' <= #[trigger] id[i] <= 'z' || 'A'
            <= id[i] <= 'Z' || '0' <= id[i] <= '9' by {
            assert(is_alphanumeric(id[i]));
        }
    }
}

/// Reading a text as a URI, character by character: an item is found exactly where the text is
/// `spotify`, the word for the item's type and its id, with colons or with slashes between them,
/// and the item's type is one of the six that can be played, and its id is made up of letters
/// and digits.
pub proof fn uri_is_read_as_written(uri: Seq<char>, item: Item<Seq<char>>)
    ensures
        item_of(uri) == Some(item) <==> {
            let word = match item.item_type {
                UriType::Track => "track"@,
                UriType::Episode => "episode"@,
                UriType::Artist => "artist"@,
                UriType::Album => "album"@,
                UriType::Playlist => "playlist"@,
                _ => "show"@,
            };
            &&& item.item_type != UriType::User
            &&& item.item_type != UriType::Collection
            &&& item.item_type != UriType::CollectionYourEpisodes
            &&& forall|i: int|
                0 <= i < item.id.len() ==> 'a' <= #[trigger] item.id[i] <= 'z' || 'A' <= item.id[i]
                    <= 'Z' || '0' <= item.id[i] <= '9'
            &&& {
                ||| uri == "spotify"@ + seq![':'] + word + seq![':'] + item.id
                ||| uri == "spotify"@ + seq!['/'] + word + seq!['/'] + item.id
            }
        },
{
    ids_are_letters_and_digits(item.id);
    if item_of(uri) == Some(item) {
        assert(denotes(uri, item));
    }
    if denotes(uri, item) {
        uri_denotes_one_item(uri, item, item_of(uri)->0);
    }
}

/// Contracts speak of an item by its type and the text of its id.
pub proof fn item_view_keeps_fields<S: View>(item: Item<S>)
    ensures
        item@.item_type == item.item_type,
        item@.id == item.id@,
{
}

} // verus!
