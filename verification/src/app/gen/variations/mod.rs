/// fixed-size objects of the protocol variations
pub mod fixed;
/// enumeration of all variations
pub mod variation;
/// objects of headers with a range qualifier
pub mod ranged;
/// the all-objects variations
pub mod all;
/// objects of headers with a count qualifier
pub mod count;
/// objects of headers with a count-and-prefix qualifier
pub mod prefixed;
/// the measurements that the objects of a header stand for
pub mod measurements;
/// the byte layout of each fixed-size object
pub mod layout;
