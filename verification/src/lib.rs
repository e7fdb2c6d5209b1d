//! Input capture for a compositor: clients open sessions, place barriers along the edges of the
//! outputs and enable them; when the cursor crosses a barrier of an enabled session, the input goes
//! to that client until it gives it back.
//!
//! The crate holds the rules of this service. It keeps the shared state, answers the requests of
//! clients, finds the barrier that a movement of the cursor crosses and orders the signals on their
//! way to the bus. The bus itself, the channels to the compositor's event loop, the sockets and the
//! geometry of the screen are left to the program around it, so the types of cursor positions, file
//! descriptors and connections are parameters here.

pub mod barrier;
pub mod channel;
pub mod crossing;
pub mod effects;
pub mod error;
pub mod event;
pub mod ident;
pub mod laws;
pub mod session;
pub mod signal;
pub mod state;
pub mod table;

pub use barrier::{Barrier, BarrierRequest, Zone, ZoneReport};
pub use error::CaptureError;
pub use event::{InputCaptureEvent, SignalEvent};
pub use ident::uuid_simple;
pub use session::{CaptureSession, CaptureSessionState};
pub use signal::{PumpStep, SignalDelivery};
pub use state::{connect_to_eis, InputCaptureState};
pub use table::SessionTable;
