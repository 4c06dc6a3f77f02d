//! A small perceptron that learns, from rows of two vote counts, which of
//! two classes a row belongs to.
//!
//! The numbers are crunched by `candle`; this crate holds the rules around
//! them and proves that they are kept: what a valid dataset is, which shapes
//! flow through the layers, how test rows are counted, when an attempt to
//! train stops and with what verdict, and that a search for a trained model
//! hands back only a model that got every test row right.

pub mod accuracy;
pub mod backend;
pub mod dataset;
pub mod model;
pub mod retry;
pub mod training;
