pub mod create_proposal;
pub mod vote;
