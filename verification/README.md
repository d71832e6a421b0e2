# punchtop

punchtop runs a power hour: it plays a track from a local music directory on
a Chromecast for each round of a game, moving to the next track when a round
ends.

The library under `src/` holds the logic and is verified with Verus:

- `cast`: the cast protocol. `proto` and `wire` encode and decode the
  `CastMessage` protobuf; `codec` frames messages with a 4-byte big-endian
  length; `payload` and `message` build the JSON requests of each channel;
  `worker` decides how to answer what the device reports; `provider` holds
  the commands, statuses and errors.
- `playlist::fs`: which files make a game, in which order tracks play, and
  the registry of tracks by id.
- `app`: the game controller, a state machine from device statuses to view
  events and device actions.
- `backend`: device discovery from mDNS records, TXT record parsing, media
  server routes, and the name of the local device.

`app/` is the program around it: mDNS discovery, reading the music
directory, the TLS connection to the device, the media server, and a
console view that writes the events for the web front end.

Tags and cover art are not read from the music files: the view and the
device show each track by its id, without artist, title or cover.
