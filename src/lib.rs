pub mod button;
pub mod column;
pub mod element;
pub mod event;
pub mod geometry;
pub mod hasher;
pub mod node;
pub mod style;

pub use button::{Button, DrawCommand, State};
pub use column::Column;
pub use element::Element;
pub use event::{ButtonState, Event, MouseCursor};
pub use geometry::{Point, Rectangle};
pub use hasher::Hasher;
pub use node::{Layout, Node};
pub use style::{Align, Dimension, FlexDirection, Justify, Length, Style};
