pub mod flows;
