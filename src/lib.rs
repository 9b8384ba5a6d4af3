// Decisions of a two-process camera streaming pipeline: a capture agent that
// publishes compressed frames without ever blocking on its consumer, and an
// inference agent that receives them and runs a model on each. Each agent is
// a state machine: the caller performs the operation it asks for (bind,
// open, read, send, receive, sleep) and hands the outcome back.
pub mod capture;
pub mod config;
pub mod inference;
pub mod retry;
