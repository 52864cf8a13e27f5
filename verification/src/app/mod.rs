/// protocol enumerations and object variations
pub mod gen;
/// application layer sequence number
pub mod sequence;
/// types used in various other application layer objects
pub mod types;
/// application layer header types
pub mod header;
/// measurement flags (aka quality)
pub mod flags;
/// measurement types, e.g. Binary, Counter, etc
pub mod measurement;
/// measurement types of the older interface
pub mod meas;
/// application layer parser
pub mod parse;
/// writing of request fragments
pub mod format;
/// packed bits of the older interface
pub mod bit;
/// octet strings of the older interface
pub mod bytes;
/// counted sequences of objects of the older interface
pub mod count;
/// header parsing types of the older interface
pub mod parser;
/// ranges of indices of the older interface
pub mod range;
/// objects of the older interface
pub mod variations;
/// constructors of command objects
pub mod extend;
