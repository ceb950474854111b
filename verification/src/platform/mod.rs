mod surface;

pub use surface::{key_index_m, mouse_button_index_m, Keycode, MouseButton, Surface, SurfaceEvent};
