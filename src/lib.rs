//! A terminal audio player's decisions: which key does what to playback,
//! volume and the running flag, and where the three panes of the screen go.
//! The terminal, the key reader and the audio device stay with the caller,
//! who performs the actions that this library hands back.

pub mod layout;
pub mod player;
