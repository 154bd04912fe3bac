//! Ownership and callback bridge between native code and a reference-counted
//! foreign runtime: object handles, closure records, a one-shot result cell and
//! task queues.
pub mod blocks;
pub mod comp;
pub mod arc;
pub mod dispatch;
pub mod mtl;
pub mod av;
