use spotifyd_rest::uri::{IdError, Item, UriType};

const ID: &str = "4iV5W9uYEdYUVa79Axb7Rh";

fn item(item_type: UriType, id: &str) -> Option<Item<String>> {
    Some(Item { item_type, id: id.to_string() })
}

#[test]
fn uris_with_either_separator() {
    assert_eq!(Item::from_uri("spotify:track:4iV5W9uYEdYUVa79Axb7Rh"), item(UriType::Track, ID));
    assert_eq!(Item::from_uri("spotify/track/4iV5W9uYEdYUVa79Axb7Rh"), item(UriType::Track, ID));
}

#[test]
fn uris_of_every_type() {
    let types = [
        ("track", UriType::Track),
        ("episode", UriType::Episode),
        ("artist", UriType::Artist),
        ("album", UriType::Album),
        ("playlist", UriType::Playlist),
        ("show", UriType::Show),
    ];
    for (name, item_type) in types {
        for sep in [":", "/"] {
            let uri = format!("spotify{sep}{name}{sep}{ID}");
            assert_eq!(Item::from_uri(&uri), item(item_type, ID));
        }
    }
}

#[test]
fn types_that_cannot_be_played() {
    assert_eq!(Item::from_uri("spotify:user:somebody"), None);
    assert_eq!(Item::from_uri("spotify:collection:x"), None);
    assert_eq!(Item::from_uri("spotify:collectionyourepisodes:x"), None);
}

#[test]
fn separators_have_to_agree() {
    assert_eq!(Item::from_uri("spotify/track:4iV5W9uYEdYUVa79Axb7Rh"), None);
    assert_eq!(Item::from_uri("spotify:track/4iV5W9uYEdYUVa79Axb7Rh"), None);
}

#[test]
fn texts_that_are_no_uris() {
    let texts = [
        "",
        "spotify",
        "spotify:",
        "spotify::",
        "spotify:track",
        "spotify-track-x",
        "Spotify:track:x",
        "track:4iV5W9uYEdYUVa79Axb7Rh",
        "4iV5W9uYEdYUVa79Axb7Rh",
        "spotify::4iV5W9uYEdYUVa79Axb7Rh",
        "spotify:unknown:4iV5W9uYEdYUVa79Axb7Rh",
        "spotify:Track:4iV5W9uYEdYUVa79Axb7Rh",
        "spotify:user:me:playlist:4iV5W9uYEdYUVa79Axb7Rh",
        "spotify:track:a-b",
        "spotify:track:\u{e9}",
        "spotif\u{e9}:track:a",
        " spotify:track:a",
        "spotify:track:a ",
    ];
    for text in texts {
        assert_eq!(Item::from_uri(text), None);
    }
}

#[test]
fn empty_id_is_accepted() {
    assert_eq!(Item::from_uri("spotify:album:"), item(UriType::Album, ""));
}

#[test]
fn ids_and_types_are_checked() {
    for item_type in [
        UriType::Track,
        UriType::Episode,
        UriType::Artist,
        UriType::Album,
        UriType::Playlist,
        UriType::Show,
    ] {
        assert_eq!(
            Item::from_id(item_type, "aZ09"),
            Ok(Item { item_type, id: "aZ09".to_string() })
        );
        assert_eq!(Item::from_id(item_type, "a_b"), Err(IdError::InvalidId));
    }
    for item_type in [UriType::User, UriType::Collection, UriType::CollectionYourEpisodes] {
        assert_eq!(Item::from_id(item_type, "a"), Err(IdError::InvalidType));
        assert_eq!(Item::from_id(item_type, "_"), Err(IdError::InvalidType));
    }
}
