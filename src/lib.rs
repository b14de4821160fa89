//! Morse code (CW) keying: text to elements, elements to a keying envelope
//! handed out in bounded chunks, and the bookkeeping of the sink that stores
//! the keyed samples.
pub mod alphabet;
pub mod envelope;
pub mod naming;
pub mod session;
pub mod source;
pub mod timing;

pub use alphabet::{morse, CWAlphabet};
pub use envelope::{encode, encode_text, sample_count};
pub use session::{Action, RunError, Session, SinkState, SinkStatus};
pub use source::Envelope;
pub use timing::{ConfigurationError, Timing, DOTS_PER_SECOND, SAMPLE_RATE};
pub use naming::{file_names, strip_spoiler};
