pub mod weather;

pub use weather::City;
pub use weather::Coord;
