//! Decision logic of the prediction-market agent.
pub mod text;
pub mod json;
pub mod llm;
pub mod crypto;
pub mod output;
pub mod worker;
pub mod prediction;
pub mod auth;
pub mod wallet;
pub mod client;
pub mod register;
pub mod context;
pub mod commands;
pub mod prompt;
pub mod tools;
