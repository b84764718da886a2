//! Frame-timing rules, GIF re-encoding and the viewer's state machine for a
//! tool that lengthens short looping GIFs by repeating their frames.

pub mod gif_codec;
pub mod gif_unfuck;
pub mod model;
pub mod paths;
pub mod preview;
pub mod preview_codec;
pub mod text;
pub mod timing;
pub mod url;
pub mod viewer;
