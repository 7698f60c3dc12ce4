# jobsched

A small job scheduler. A daemon takes requests over a Unix socket, runs the commands
that its clients ask for, and remembers how each of them ended; a client asks for a
command to be run, or how a job stands, and shows the answers.

The library in `src/` is verified with Verus:

- `text`: decimal numbers and joined lists.
- `protocol`: requests and responses.
- `frame`: messages on the wire.
- `job`, `table`: a job, what is said of it, and the jobs by number.
- `session`: the daemon's side of a connection, as a machine that says what to do next
  and is told how it went.
- `client`, `cli`: the client's side, and what its command line asks for.
- `socket`: where the two meet.
- `conversation`, `system`: what one client sees of the daemon, and what holds of the
  daemon with all its connections.

`app/` is the program around it: sockets, processes, JSON and logging. Started under the
name `jobschedd` the binary is the daemon, under any other name the client.
