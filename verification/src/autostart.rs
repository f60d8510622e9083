//! Autostart control: an idempotent toggle over the OS launch-at-login
//! registration.
//!
//! The OS entry is the single source of truth: nothing is cached, every
//! query re-reads it. The registration itself lives in the `auto-launch`
//! crate behind the trusted wrappers below; what is verified here is the
//! toggle logic around them, and the round-trip law of the registration
//! model.

use vstd::prelude::*;

verus! {

#[verifier::external_type_specification]
#[verifier::external_body]
pub struct ExAutoLaunch(auto_launch::AutoLaunch);

/// Relies on `auto_launch::AutoLaunchBuilder::build`: a launcher for this
/// application name and executable path, or an error when a field is
/// missing or the platform is unsupported.
#[verifier::external_body]
fn build_launcher(app_name: &str, app_path: &str) -> (r: Result<auto_launch::AutoLaunch, String>) {
    let mut builder = auto_launch::AutoLaunchBuilder::new();
    builder.set_app_name(app_name);
    builder.set_app_path(app_path);
    builder.build().map_err(|e| e.to_string())
}

/// Relies on `auto_launch::AutoLaunch::enable`: registers the application
/// with the OS launch-at-login mechanism; the outcome depends on the OS
/// state, so nothing more is assumed of it.
#[verifier::external_body]
fn launcher_enable(launcher: &auto_launch::AutoLaunch) -> (r: Result<(), String>) {
    launcher.enable().map_err(|e| e.to_string())
}

/// Relies on `auto_launch::AutoLaunch::disable`: removes the OS
/// launch-at-login registration; the outcome depends on the OS state.
#[verifier::external_body]
fn launcher_disable(launcher: &auto_launch::AutoLaunch) -> (r: Result<(), String>) {
    launcher.disable().map_err(|e| e.to_string())
}

/// Relies on `auto_launch::AutoLaunch::is_enabled`: reads whether the OS
/// launch-at-login registration currently exists.
#[verifier::external_body]
fn launcher_is_enabled(launcher: &auto_launch::AutoLaunch) -> (r: Result<bool, String>) {
    launcher.is_enabled().map_err(|e| e.to_string())
}

/// The OS registration as this controller models it: one boolean, owned
/// by the OS.
#[derive(Clone, Copy, Debug, PartialEq, Eq, Structural)]
pub struct AutostartState {
    pub enabled: bool,
}

/// What a successful `enable` leaves registered.
pub open spec fn spec_autostart_enable(s: AutostartState) -> AutostartState {
    (AutostartState { enabled: true })
}

/// What a successful `disable` leaves registered.
pub open spec fn spec_autostart_disable(s: AutostartState) -> AutostartState {
    (AutostartState { enabled: false })
}

/// What a query reads back: the registration itself, never a cache.
pub open spec fn spec_autostart_query(s: AutostartState) -> bool {
    s.enabled
}

/// Autostart round trip: from any prior registration state — and so
/// independently of the order of earlier calls or of process restarts — a
/// successful `enable` makes the next query read true, and a successful
/// `disable` makes it read false.
pub proof fn lemma_autostart_round_trip(s: AutostartState)
    ensures
        spec_autostart_query(spec_autostart_enable(s)),
        !spec_autostart_query(spec_autostart_disable(s)),
{
}

/// Idempotent toggle over the OS launch-at-login registration.
pub struct AutoStartManager {
    launcher: auto_launch::AutoLaunch,
}

impl AutoStartManager {
    /// A manager for the given application name and executable path, or
    /// the OS-layer error when no launcher can be built.
    pub fn new(app_name: &str, app_path: &str) -> (r: Result<AutoStartManager, String>) {
        match build_launcher(app_name, app_path) {
            Ok(launcher) => Ok(AutoStartManager { launcher }),
            Err(e) => Err(e),
        }
    }

    /// One-shot startup check: queries the registration so a failure
    /// surfaces early, and succeeds regardless of what the query read.
    pub fn initialize(&self) -> (r: Result<(), String>)
        ensures
            r is Ok,
    {
        let _status = self.is_enabled();
        Ok(())
    }

    /// Registers launch-at-login. Reports true on success; on failure the
    /// OS state is left as it was and the error is handed to the caller.
    pub fn enable_autostart(&self) -> (r: Result<bool, String>)
        ensures
            r matches Ok(b) ==> b,
    {
        match launcher_enable(&self.launcher) {
            Ok(()) => Ok(true),
            Err(e) => Err(e),
        }
    }

    /// Removes the launch-at-login registration. Reports false on
    /// success; on failure the OS state is left as it was.
    pub fn disable_autostart(&self) -> (r: Result<bool, String>)
        ensures
            r matches Ok(b) ==> !b,
    {
        match launcher_disable(&self.launcher) {
            Ok(()) => Ok(false),
            Err(e) => Err(e),
        }
    }

    /// Drives the registration to the requested state: a successful
    /// toggle reports back exactly the state that was asked for.
    pub fn toggle_autostart(&self, enable: bool) -> (r: Result<bool, String>)
        ensures
            r matches Ok(b) ==> b == enable,
    {
        if enable {
            self.enable_autostart()
        } else {
            self.disable_autostart()
        }
    }

    /// Reads the registration from the OS source of truth; no cached
    /// state is consulted.
    pub fn is_enabled(&self) -> (r: Result<bool, String>) {
        launcher_is_enabled(&self.launcher)
    }
}

} // verus!
