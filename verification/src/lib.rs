//! The native-shell core of a desktop document editor: localized menu labels,
//! the fixed menu tree, and the mapping from invoked menu commands to the
//! actions the shell performs.

pub mod builder;
pub mod command;
pub mod controller;
pub mod dispatch;
pub mod labels;
pub mod locale;
pub mod menu;
pub mod probe;
pub mod structure;
pub mod text;
