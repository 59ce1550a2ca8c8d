//! A pull-based driver for suspendable sequential computations.
//!
//! A caller writes a single sequential "blueprint" computation that, at
//! points of its own choosing, either requests a value from the outside
//! world and suspends until it is supplied, or hands a value to the outside
//! world and checkpoints before continuing. Running the blueprint is exposed
//! as an ordered, finite, single-pass sequence of events: each pull advances
//! the blueprint exactly until its next suspension point (or completion) and
//! hands back what happened.

mod driver;
mod handle;
mod responder;
mod sequence;
mod slot;

pub use driver::run;
pub use driver::Act;
pub use driver::Blueprint;
pub use driver::Event;
pub use driver::Executor;
pub use driver::Step;
pub use handle::Handle;
pub use handle::InnerEvent;
pub use responder::Reply;
pub use responder::Responder;
pub use sequence::events_of;
pub use sequence::lemma_longer_script;
pub use sequence::lemma_one_more_pull;
pub use sequence::lemma_return_is_last;
pub use sequence::lemma_zero_suspension_points;
pub use sequence::run_to;
pub use sequence::EventView;
pub use sequence::Run;
pub use slot::Slot;
