//! Bounded-retry login flow for a browser-driven portal: the decisions of the
//! flow (which step comes next, when a gated step gives up, when the browser
//! session is released) as verified functions from state and event to next
//! state and action.

pub mod retry;
pub mod session;
pub mod site;
pub mod flow;
pub mod laws;
