pub mod text;
pub mod syntax;
pub mod treesitter;
pub mod parser;
