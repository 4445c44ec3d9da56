//! The items most clients need, for a single import.

pub use crate::ButtonState;
pub use crate::FontInformation;
pub use crate::Layout;
pub use crate::LayoutDirection;
pub use crate::Rect;
pub use crate::UIContext;
pub use crate::UIDrawRole;
pub use crate::UIInputState;
pub use crate::UIState;
pub use crate::Vec2;
