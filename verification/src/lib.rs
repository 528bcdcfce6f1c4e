pub mod agent;
pub mod coordinator;
pub mod payoff;
pub mod run;
pub mod strategy;
