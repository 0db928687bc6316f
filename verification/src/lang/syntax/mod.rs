pub mod atoms;
pub mod blocks;
pub mod cases;
pub mod conditions;
pub mod exprs;
pub mod follow;
pub mod grammar;
pub mod lists;
pub mod matches;
pub mod ops;
pub mod parser;
pub mod reader;
pub mod stats;
pub mod tree;
