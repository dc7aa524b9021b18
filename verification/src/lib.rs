//! A flow-graph virtual machine: it compiles node graphs into linear
//! execution orders and interprets them one step or one batch at a time.
//!
//! [`compile`] and [`program`] turn a program description ([`ast`]) into
//! execution orders, with [`graph`] for the topological sort. [`value`] is
//! the store of values, [`convert`] and [`roundtrip`] relate values to
//! interchange documents ([`document`]). [`event`], [`step`], [`call`] and
//! [`run`] execute the nodes of one event, and [`vm`] is the machine that
//! the host talks to, with [`batch`] for what one call of it does to all
//! running events. Beside the machine stand the state of a fetch process
//! ([`fetch`]) and the record of a game's state ([`game_state_info`]).

pub mod ast;
pub mod batch;
pub mod call;
pub mod compile;
pub mod convert;
pub mod document;
pub mod error;
pub mod event;
pub mod fetch;
pub mod game_state_info;
pub mod graph;
mod guid;
pub mod lookup;
pub mod operation;
pub mod program;
pub mod roundtrip;
pub mod run;
pub mod step;
pub mod value;
pub mod vm;
