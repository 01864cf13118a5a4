//! A minimal desktop GUI runtime: normalized input events, a translator from
//! platform events, a widget contract with dispatch, and the bookkeeping of a
//! GPU render surface bound to a window.
pub mod canvas;
pub mod dispatch;
pub mod event;
pub mod panel;
pub mod surface;
pub mod translate;
pub mod widget;
pub mod window;

pub use canvas::{Canvas, Color, DrawCmd, Rect};
pub use dispatch::Dispatcher;
pub use event::{Event, Modifiers, MouseButton};
pub use panel::{Panel, PanelModel};
pub use surface::{present_outcome, DrawError, Frame, GpuSkiaRenderer, SurfaceAction};
pub use translate::{translate_event, ElementState, NativeEvent, Translator};
pub use widget::{Button, Widget};
pub use window::{Reaction, Window};
