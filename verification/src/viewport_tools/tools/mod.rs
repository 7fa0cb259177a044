pub mod crop;
pub mod line;
pub mod path;
pub mod shared;
