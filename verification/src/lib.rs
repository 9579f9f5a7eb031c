//! A component-based core for terminal user interfaces in the
//! Model-View-Update discipline: a property model describing each widget's
//! configuration, a uniform component interface, a view that owns mounted
//! components and routes events to the focused one, and a bounded trampoline
//! for chained message dispatch.

pub mod builder;
pub mod components;
pub mod events;
pub mod msg;
pub mod keylist;
pub mod props;
pub mod update;
pub mod view;

pub use builder::PropsBuilder;
pub use components::{Input, Label};
pub use events::{Event, KeyCode, KeyEvent};
pub use msg::{Msg, Payload, Value};
pub use update::{dispatch, Update};
pub use view::{Component, Rect, Render, View};
pub use props::{
    BorderType, Borders, BordersProps, Color, InputType, Modifiers, PropPayload, PropValue, Props,
    TextParts, TextSpan,
};
