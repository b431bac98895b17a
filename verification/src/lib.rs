//! A REST interface to a Spotify player, and the programs that the player runs when something
//! happens.
//!
//! Nothing here talks to the outside. The server (`server`) and its requests (`handlers`) say,
//! step by step, what is to be done next, and go on with what came of it; programs (`process`)
//! are described before they are started, and judged after they have ended.
pub mod api;
pub mod environment;
pub mod error;
pub mod handlers;
pub mod player_event;
pub mod process;
pub mod response;
pub mod routes;
pub mod server;
pub mod spotify_id;
pub mod text;
pub mod token;
pub mod uri;
