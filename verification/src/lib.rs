//! Chart-library rules for the UNCHARTABLE chart manager: folder naming,
//! archive screening, chart-text parsing and library bookkeeping.

pub mod text;
pub mod names;
pub mod paths;
pub mod archive;
pub mod chart;
pub mod ids;
pub mod links;
pub mod order;
pub mod library;
pub mod matching;
pub mod placement;
pub mod digest;
pub mod records;
pub mod catalog;
pub mod pack;
pub mod replace;
pub mod install;
pub mod rollback;
pub mod adopt;
