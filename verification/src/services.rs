pub mod balance;
pub mod dice;
