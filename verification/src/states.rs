pub mod proposal;
pub mod vote;
