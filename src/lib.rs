pub mod laws;
pub mod lexical;
pub mod scanner;
pub mod token;
