//! The h2 bridge of a terminal: panes that show h2 graphs and boards, the
//! node-rpc messages that announce panes to an h2 node, and the status line that
//! is polled from an h2 socket.

pub mod frame;
pub mod json;
pub mod pane;
pub mod rpc;
pub mod status;
pub mod text;
