pub mod cursor;
/// facts about writes made one after the other
pub mod writes;
