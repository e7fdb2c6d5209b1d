//! One capture session.

use vstd::prelude::*;

use crate::barrier::Barrier;

verus! {

/// State of an input capture session
#[derive(Debug, Clone, Copy, PartialEq, Eq, Structural)]
pub enum CaptureSessionState {
    Created,
    Disabled,
    Enabled,
    Activated,
}

impl CaptureSessionState {
    /// The state's name.
    pub open spec fn spec_name(self) -> Seq<char> {
        match self {
            CaptureSessionState::Created => "Created"@,
            CaptureSessionState::Disabled => "Disabled"@,
            CaptureSessionState::Enabled => "Enabled"@,
            CaptureSessionState::Activated => "Activated"@,
        }
    }

    /// The state's name.
    pub fn name(self) -> (name: &'static str)
        ensures
            name@ == self.spec_name(),
    {
        match self {
            CaptureSessionState::Created => "Created",
            CaptureSessionState::Disabled => "Disabled",
            CaptureSessionState::Enabled => "Enabled",
            CaptureSessionState::Activated => "Activated",
        }
    }

    /// A session may be enabled when it is new or disabled, and in no other state.
    pub open spec fn may_enable(self) -> bool {
        self == CaptureSessionState::Created || self == CaptureSessionState::Disabled
    }
}

/// Per-session capture data
///
/// `F` is the type of a file descriptor, `E` that of a connection to an emulated-input client; the
/// session only carries them.
#[derive(Debug)]
pub struct CaptureSession<F, E> {
    pub state: CaptureSessionState,
    pub capabilities: u32,
    pub barriers: Vec<Barrier>,
    pub zone_set: u32,
    pub activation_id: u32,
    pub eis_fd: Option<F>,
    pub eis_connection: Option<E>,
}

/// What a session holds.
#[verifier::ext_equal]
pub struct SessionModel<F, E> {
    pub state: CaptureSessionState,
    pub capabilities: u32,
    pub barriers: Seq<Barrier>,
    pub zone_set: u32,
    pub activation_id: u32,
    pub eis_fd: Option<F>,
    pub eis_connection: Option<E>,
}

impl<F, E> View for CaptureSession<F, E> {
    type V = SessionModel<F, E>;

    open spec fn view(&self) -> SessionModel<F, E> {
        SessionModel {
            state: self.state,
            capabilities: self.capabilities,
            barriers: self.barriers@,
            zone_set: self.zone_set,
            activation_id: self.activation_id,
            eis_fd: self.eis_fd,
            eis_connection: self.eis_connection,
        }
    }
}

impl<F, E> SessionModel<F, E> {
    /// A session as it is created: without barriers, never activated and not connected.
    pub open spec fn fresh(capabilities: u32, zone_set: u32) -> Self {
        SessionModel {
            state: CaptureSessionState::Created,
            capabilities,
            barriers: Seq::empty(),
            zone_set,
            activation_id: 0,
            eis_fd: None,
            eis_connection: None,
        }
    }

    /// Every barrier lies along an axis and is no point.
    pub open spec fn barriers_along_axis(self) -> bool {
        forall|i: int| 0 <= i < self.barriers.len() ==> (#[trigger] self.barriers[i]).along_axis()
    }
}

impl<F, E> CaptureSession<F, E> {
    /// A session as it is created.
    pub fn fresh(capabilities: u32, zone_set: u32) -> (session: Self)
        ensures
            session@ == SessionModel::<F, E>::fresh(capabilities, zone_set),
    {
        CaptureSession {
            state: CaptureSessionState::Created,
            capabilities,
            barriers: Vec::new(),
            zone_set,
            activation_id: 0,
            eis_fd: None,
            eis_connection: None,
        }
    }
}

} // verus!
