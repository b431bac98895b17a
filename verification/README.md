# spotifyd_rest

A REST interface to a Spotify player, and the programs that the player runs when something
happens.

- `src/` is the verified library: what each request leads to and is answered, when a token of the
  Web API is asked for and put to use, which URIs can be played, and how programs are started and
  their output is dealt with. Every function has a contract, and the properties that span
  functions stand beside them as public proof functions.
- `app/` is what does the work that the library decides on: sockets, clients, processes.
- `tests/` runs the library.

| module         | what it holds                                                         |
| -------------- | --------------------------------------------------------------------- |
| `server`       | the life of the server, step by step                                  |
| `token`        | access tokens and their times                                         |
| `routes`       | where requests are made, and what comes with them                     |
| `handlers`     | what each request leads to, a call at a time                          |
| `api`          | the calls, what comes of them, and the search for a device            |
| `response`     | what requests are answered                                            |
| `uri`          | Spotify URIs of things that can be played                             |
| `process`      | programs, and what becomes of their output                            |
| `player_event` | reports of the player, and the variables that describe them           |
| `environment`  | variables of a program                                                |
| `error`        | what can go wrong with a program                                      |
| `spotify_id`   | Spotify ids as text                                                   |
| `text`         | numbers as text                                                       |
