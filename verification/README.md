# homebased_daemon

The rules of a daemon that runs long tasks for coding agents on a small fleet of machines, written
and proved in Verus. A machine accepts tasks, starts workers for them, tells the thread that asked
when something happens, forwards work and messages to the other machines, and lends a shared
resource from a background trainer to queued requests and back.

## How it is built

The library decides; it never waits, reads a file or opens a socket. Where a decision needs an
answer from outside, a function returns a *step*: the question, and a value that waits for the
answer. The caller performs the question and hands the answer to the waiting value, whose method
returns the next step. Each method states which step follows each answer, so a whole exchange is
the chain of its contracts.

- `src/` is the library.
  - `ids`, `time`, `text`, `path`, `json`, `table`, `keyed_locks`: values and small structures.
  - `domain`, `error`, `events`, `message`, `resource`, `submission`, `cancellation`, `fleet`: the
    data that the rules speak of.
  - `actors`: the store's error rules, the task watch, callback delivery, the supervisor, and the
    resource actor with its loans, release watchers and return windows.
  - `api`, `cluster`, `fleet_api`, `fleet_tasks`, `inspection`, `peer_read`, `content`,
    `release_watcher_api`: what the daemon answers to its callers and peers.
  - `origin_submit`, `event_sender`, `cancel_delivery`, `message_sender`, `message_receiver`,
    `reconcile`, `serve`: what the daemon does on its own.
- `app/` performs the questions: actors, loops, routes and file access. Storage, transport, worker
  processes and agent programs are the traits in `app/ports.rs`.
- `tests/` runs the library on concrete values, together with the crates that it calls.

## What is trusted

A few functions call other crates or the standard library and are believed as their doc comments
describe them: whitespace and path comparison, another pointer to a shared command, the text of an
HTTP status, UUID text and parsing, and the reading and writing of JSON. Everything else is proved
from their contracts.
