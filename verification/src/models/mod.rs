pub mod flows;
pub mod shared;
