# Air hockey

A two-player air hockey game over UDP. One player hosts and decides; the other
connects, sends where its paddle is and follows what the host tells.

- `src/` is the verified library.
  - `scalar`: binary32 numbers as bit patterns, with their exact value and order.
  - `rink`: the measures of the rink, steering, walls, goals, contact.
  - `packet`: the packets and their bytes, through `bincode`.
  - `session`: one player's side of a match: packets in, frames, packets out.
  - `menu`: the choice between hosting and connecting, and the address field.
  - `hud`: the lines of text over the rink.
  - `laws`: what holds over several steps, or between the two sides.
- `tests/` runs the library on concrete values, against floating point.
- `app/` is the window, the socket and the arithmetic that rounds.
