/// packed sequences of bits and double bits
pub mod bit;
/// octet strings
pub mod bytes;
/// counted sequences of objects
pub mod count;
/// errors associated with parsing the application layer
pub mod error;
/// objects preceded by their index
pub mod prefix;
/// ranges of indices and ranged sequences of objects
pub mod range;
/// traits of fixed-size objects and index types
pub mod traits;
/// parsing of fragments and their object headers
pub mod parser;
