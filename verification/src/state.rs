//! What a viewer starts with: its configuration, its session and its main
//! window.

use vstd::prelude::*;
use crate::session::{fresh, opening, Action, Session, TrackPlan};
use crate::window::{provide_window, MainWindow};

verus! {

/// The configuration of a viewer.
#[derive(Clone, Debug, PartialEq, Eq)]
pub struct LindowsConfig {
    /// The signaling address of the server that answers.
    pub answer_addr: String,
}

impl LindowsConfig {
    /// The configuration a viewer starts with: the server is looked for on
    /// this machine, at port 11111.
    pub fn new() -> (config: LindowsConfig)
        ensures
            config.answer_addr@ == "ws://127.0.0.1:11111"@,
    {
        LindowsConfig { answer_addr: "ws://127.0.0.1:11111".to_owned() }
    }
}

impl Default for LindowsConfig {
    fn default() -> (config: LindowsConfig)
        ensures
            config.answer_addr@ == "ws://127.0.0.1:11111"@,
    {
        LindowsConfig::new()
    }
}

/// A viewer's side of the connection: the address its signaling socket goes
/// to, and its peer session.
#[derive(Debug)]
pub struct Viewer {
    pub address: String,
    pub session: Session,
}

/// All that a viewer starts with.
#[derive(Debug)]
pub struct ViewerState {
    pub config: LindowsConfig,
    pub viewer: Viewer,
    pub window: MainWindow,
}

/// The configuration a viewer starts with.
pub fn provide_config() -> (config: LindowsConfig)
    ensures
        config.answer_addr@ == "ws://127.0.0.1:11111"@,
{
    LindowsConfig::new()
}

/// The viewer for a configuration: its socket goes to the configured
/// address, its session is new and never adds a track. Returned with it is
/// what the new session asks for: the three data channels.
pub fn provide_session(config: &LindowsConfig) -> (made: (Viewer, Vec<Action>))
    ensures
        made.0.address@ == config.answer_addr@,
        made.0.session@ == fresh(TrackPlan::Never),
        made.1.deep_view() == opening(TrackPlan::Never),
{
    let (session, actions) = Session::new(TrackPlan::Never);
    (Viewer { address: config.answer_addr.clone(), session }, actions)
}

/// All that a viewer starts with: the default configuration, a viewer for
/// it, and a main window that is not maximized. Returned with it is what the
/// new session asks for.
pub fn provide_state() -> (made: (ViewerState, Vec<Action>))
    ensures
        made.0.config.answer_addr@ == "ws://127.0.0.1:11111"@,
        made.0.viewer.address@ == "ws://127.0.0.1:11111"@,
        made.0.viewer.session@ == fresh(TrackPlan::Never),
        !made.0.window.is_maximized,
        made.1.deep_view() == opening(TrackPlan::Never),
{
    let config = provide_config();
    let (viewer, actions) = provide_session(&config);
    let window = provide_window();
    (ViewerState { config, viewer, window }, actions)
}

impl Viewer {
    /// Points the viewer at another signaling address. The socket in use is
    /// to be closed and a new one opened there; the peer session stays.
    pub fn connect(&mut self, address: &str)
        ensures
            final(self).address@ == address@,
            final(self).session == old(self).session,
    {
        self.address = address.to_owned();
    }
}

} // verus!
