pub mod error;
pub mod instruction;
pub mod iswap;
pub mod oracle;
pub mod pool;
pub mod processor;
