pub mod combat;
pub mod eilish;
