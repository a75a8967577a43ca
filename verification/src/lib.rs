//! Statistics over a log of bread posts: how many there are, how many whole
//! days lie between the two most recent ones, and how often they come.

pub mod clock;
pub mod filter;
pub mod stats;
pub mod wording;
