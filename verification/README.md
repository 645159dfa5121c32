# trixter

Network conditions for byte streams, and a chaos proxy for TCP that puts them around live
connections and lets a REST interface change them while it runs.

## Library (`src/`)

The library is written in Verus. Its functions carry contracts, and Verus proves that
the code meets them.

| module | what it holds |
| --- | --- |
| `delayer` | latency: before every write, or before the first byte of each burst that is read |
| `slicer` | writes cut into segments, with a flush after each |
| `iovec` | vectored writes cut off after a number of bytes |
| `shutdowner` | streams that can be failed from the outside |
| `probability`, `binary64` | how likely a failure is, and the threshold for a random draw |
| `throttler` | the bandwidth knob |
| `io` | extension methods, and abortive close |
| `utils` | byte counting |
| `proxy` | configuration, tracked connections, requests, and the life of a connection |
| `cell`, `rate`, `clock`, `poll` | shared cells, time, and what a poll comes back with |

The adapters decide and never wait: each one says which operation of the inner stream to poll next
and takes what the operation came back with. This keeps sockets, timers and tasks out of the
library.

Functions named `law_...` are proofs of what holds of the library as a whole, such as that a burst
is delayed exactly once, or that the segments of a message put together are the message.

Probabilities are handed over as the bits of a binary64 number (`f64::to_bits`).

A knob is shared between tasks. What is proved of a read is that it returns a value that the knob
was set to at one time or another. A probability knob takes and gives out nothing but rates from 0
to 1, and gives a rate together with its own threshold.

## Program (`app/`)

`app/` performs what the library decides: it owns the sockets, the timers, the command line and the
HTTP server.

```
trixter --listen 0.0.0.0:8080 --upstream 127.0.0.1:8181 --api 127.0.0.1:8888 --delay-ms 250
```
