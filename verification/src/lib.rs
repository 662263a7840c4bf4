//! A verified control core for running JavaScript actors on the SpiderMonkey
//! engine: the engine binding as a protocol of plain calls and checked
//! replies, the per-actor message loop, the relays that feed it, and the
//! supervisor that starts actors and waits for them to finish.
pub mod decimal;
pub mod engine;
pub mod options;
pub mod messages;
pub mod text;
pub mod children;
pub mod supervisor;
pub mod actor;
pub mod boot;
