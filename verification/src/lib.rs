//! Command relay core: classification of incoming commands, the bounded retry
//! schedule of the backend forwarder, and the prompt-delimited exchange.

pub mod allow_list;
pub mod dispatch;
pub mod exchange;
pub mod forwarder;
pub mod framing;
pub mod local_action;
pub mod log_level;
pub mod retry;
pub mod text;
