//! Re-exports: `X` lives in the nested module `y`, but the re-export lets
//! callers reach it one level up.
pub use self::y::X;

pub mod y;
