//! Core graphics bindings: window enumeration.

pub mod window;

pub use window::copy_window_info;
pub use window::Id as WindowId;
pub use window::ListOption as WindowListOption;
pub use window::WindowInfo;
pub use window::LIST_OPTION_ALL as WINDOW_LIST_OPTION_ALL;
pub use window::LIST_OPTION_EXCLUDE_DESKTOP_ELEMENTS as WINDOW_LIST_OPTION_EXCLUDE_DESKTOP_ELEMENTS;
pub use window::LIST_OPTION_INCLUDING_WINDOW as WINDOW_LIST_OPTION_INCLUDING_WINDOW;
pub use window::LIST_OPTION_ON_SCREEN_ABOVE_WINDOW as WINDOW_LIST_OPTION_ON_SCREEN_ABOVE_WINDOW;
pub use window::LIST_OPTION_ON_SCREEN_BELOW_WINDOW as WINDOW_LIST_OPTION_ON_SCREEN_BELOW_WINDOW;
pub use window::LIST_OPTION_ON_SCREEN_ONLY as WINDOW_LIST_OPTION_ON_SCREEN_ONLY;
