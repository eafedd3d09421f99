use vstd::prelude::*;

pub mod actions;
pub mod chrome;
pub mod eof;
pub mod fullscreen;
pub mod keys;
pub mod load;
pub mod media_keys;
pub mod nav;
pub mod now_playing;
pub mod paths;
pub mod playback;
pub mod seek;
pub mod smooth;
pub mod text;
pub mod transport;
pub mod undo;
pub mod volume;
pub mod window_input;

verus! {

} // verus!
