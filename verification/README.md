# siphon-ai-telemetry

HEP3 (Homer) shipping for a voice node, in Verus.

A node ships short `key=value` lines about its calls and about its own health
as HEP3 log packets, next to caller-identity verdicts. `src/` composes the lines
and the packets and takes every decision around them; each function there has a
contract that Verus proves. `app/` is ordinary Rust around it: sockets, tasks,
timers, the metrics registry and the log.

Proved of the lines: whatever the values hold, and some come off the wire, a
line stays one line, and a reader gets back the event name and every value.
Proved of the reporter: over any run it starts and stops once, reports every
change once, never misses a drain, and never takes a drain for lost readiness.

What is taken on trust is in two places: how the standard library quotes a
string (`src/text.rs`), and the system's clock (`src/packet.rs`).
