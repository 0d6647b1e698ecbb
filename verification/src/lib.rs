//! Layout, scrolling and stream planning for a terminal transcript that is shown either as one
//! combined column or, on wide terminals, as a conversation pane beside an activity pane.
pub mod rect;
pub mod layout;
pub mod scroll;
pub mod stream;
pub mod surface;
pub mod transcript;
pub mod frame;
pub mod viewport;
