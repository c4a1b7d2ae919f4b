//! The decision logic of a token faucet that is driven through a chat service.
//!
//! Users ask for funds in chat messages. Each ask passes a per-user rate
//! limiter, waits in a bounded first-in first-out queue, and is served by a
//! single responder that hands addresses one at a time to a transfer worker and
//! collects the outcomes into a reply. Backlog scanners feed the same queue
//! from message history.
//!
//! Every module here is a pure model of one of those parts: it takes plain
//! values, decides, and returns plain values. Talking to the chat service and
//! to the funds issuer is the caller's business.

pub mod catchup;
pub mod duration;
pub mod handler;
pub mod limiter;
pub mod queue;
pub mod request;
pub mod responder;
pub mod response;
pub mod roles;
pub mod serve;
pub mod supervisor;
pub mod text;
pub mod value;
pub mod words;
pub mod worker;
