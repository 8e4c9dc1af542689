# pinepods_activity

The activity centre of a podcast server, as a verified library.

It decides what happens to background tasks and durable notifications, to the sockets and
replicas that carry them, to the drawer and the toasts that show them, to the playback of a
user's other devices, and to the yt-dlp binary that the server keeps up to date. Reading the
store, talking to sockets, running programs and drawing widgets is done around it.

## Layout

- `src/` is the library. Verus verifies every item but those taken on trust (see below).
  - `task_manager`, `task_laws`, `store`: the life of tasks and notifications, the commands
    that the store is given, and what holds of the store's contents afterwards.
  - `notifications`, `access`, `websocket`: requests and who may make them, sockets, and the
    bridge between replicas.
  - `progress`, `notification_center`, `toasts`, `notify`: what the client shows of tasks and
    messages, and the requests by which it manages them.
  - `now_playing`, `remote_devices`: remote control between devices.
  - `ytdlp`, `ytdlp_settings`: upkeep of the yt-dlp binary, and the panel for it.
  - `text`, `double`, `moment`, `json`, `ident`, `order`, `lists`: texts, numbers of double
    precision by their bit patterns, instants, JSON values, fresh identifiers, stable sorting
    and picking items out of lists.
- `tests/` runs the library on concrete values.
- `app/` is the ordinary Rust around the library: handlers and sockets on the server's side,
  widgets on the client's.

## Reading the contracts

A function that would have to wait for the outside world takes what came back as an argument
and returns what is to be done next: commands for the store, signals for sockets, a call to the
medium, a view to draw. Functions that ask for the time or for a fresh identifier state what
holds whatever came back, and stand beside ones that are given the instant and the identifier.

Laws that span several functions are public proof functions whose names begin with `law_`.

What is taken on trust is marked `external_body` or `assume_specification`, with a comment on
the outside function and on what is claimed of it.
