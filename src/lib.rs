pub mod composition;
pub mod direction;
pub mod grid;
pub mod message;
pub mod position;

pub use crate::composition::RowGroup;
pub use crate::direction::Direction;
pub use crate::grid::Grid;
pub use crate::message::Message;
pub use crate::position::Position;
