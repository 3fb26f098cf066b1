//! A status indicator for a node in a graphical editor: a rounded ring drawn
//! around the node's body whose fill color reflects the node's version-control
//! state (unchanged, added or edited), and which can be shown or hidden
//! independently of that state.
//!
//! The indicator is modelled as an explicit, synchronous event network: input
//! events (`set_status`, `set_size`, `set_visibility`) and animation ticks are
//! applied one at a time to a single owner state, and every transition is a
//! pure function of the previous state and the event.

pub mod anim;
pub mod color;
pub mod indicator;
pub mod model;
pub mod scene;
pub mod shape;
pub mod state;
pub mod status;
