# chatroom

A small chatroom protocol with its core verified by Verus.

- `src/` is the verified library: the packet model (`packet`), the packet
  builders (`packethelper`), the length-prefixed framing of packets on the wire
  (`framing`), error texts and kinds (`errors`), frontend event names
  (`consts`), and the decisions of the client (`client`) and of the server
  (`server`) for every packet and command, with the server's registry of users.
- `app/` is the server program and the client's connection task around the
  library: sockets, tokio tasks and channels, bincode encoding, and the tauri
  frontend glue.
- `tests/` runs the library on concrete values.
