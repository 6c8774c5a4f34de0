//! Context and state layer for a lightweight 2D game framework: an input
//! handler that folds browser-style mouse and keyboard events into simple
//! set-based per-frame state, and a canvas drawing layer that translates
//! drawing attribute lists into an explicit sequence of canvas operations.

pub mod canvas;
pub mod input;
pub mod text;

pub use canvas::ArcAttr;
pub use canvas::ArcStart;
pub use canvas::CanvasContext;
pub use canvas::CanvasError;
pub use canvas::CanvasOp;
pub use canvas::Rect;
pub use canvas::RectAttr;
pub use canvas::Transform;
pub use canvas::Vec2;
pub use input::InputHandler;
pub use input::InputState;
pub use input::KeyCode;
pub use input::MouseButton;
pub use text::split_lines;
