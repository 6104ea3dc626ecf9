pub mod graph;
pub mod interaction;
pub mod location;
pub mod menu;
pub mod selection;
pub mod stars;
pub mod style;
