//! A small scripting-extension core: reversing a text value by Unicode scalar
//! values, plus the pure decision logic behind the host engine's lifecycle and
//! event callbacks (which message to log, at which level, and what to report
//! back to the host).

pub mod event;
pub mod lifecycle;
pub mod reverse;
