//! Process and terminal session bridge: readiness detection over a child's
//! output, pseudo-terminal session bookkeeping, and the loopback OAuth
//! callback receiver.
pub mod auth_token;
pub mod bridge;
pub mod oauth;
pub mod pty;
pub mod text;
