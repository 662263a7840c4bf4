# spidermonkey

A verified control core for running JavaScript actors on the SpiderMonkey
engine. Each actor is one global object running one page or script; scripts
talk to their actor through messages, open TCP connections and set timers;
a supervisor starts the actors named on the command line and those that
scripts spawn, prints what they print, and stops once all are done.

The engine and the network are outside the library. The library states what
to ask of them, as plain values, and decides what to do with each answer.

Layout:

- `src/engine.rs`: the engine binding as calls (`EngineCall`) and checks of
  the replies; `src/options.rs`: the context option bits.
- `src/boot.rs`: the order in which an actor sets up its engine.
- `src/actor.rs`: an actor's message loop as a step function from message to
  actions, with the loading of its prelude and first page or script.
- `src/children.rs`: the relays that turn script messages and I/O events into
  messages for the actor.
- `src/supervisor.rs`: starting actors, their registry, and the count of
  running actors.
- `src/messages.rs`, `src/decimal.rs`, `src/text.rs`: messages, decimal
  rendering of numbers, UTF-8 conversions.
- `app/`: the program around the library: engine calls through the C API,
  threads and channels, file reads, sockets and timers.
- `tests/`: tests of the library on concrete values.
