use vstd::prelude::*;

pub mod text;
pub mod error;
pub mod config;
pub mod state;
pub mod output;
pub mod ytdlp;
pub mod args;
pub mod deps;
pub mod downloads;
pub mod logs;
pub mod archive;
pub mod install;

verus! {

} // verus!
