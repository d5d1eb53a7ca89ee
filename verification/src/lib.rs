pub mod text;
pub mod abbr;
pub mod num;
pub mod tables;
pub mod numerals;
pub mod normalize;
pub mod stress;
pub mod wordwise;
pub mod server;
