//! Which applications are kept out of the tunnel, as the tunnel state
//! machine is told when the daemon starts.

use vstd::prelude::*;
use crate::redact::string_views;

verus! {

/// An application that may be excluded from the tunnel, named by its path.
#[derive(Debug, PartialEq, Eq)]
pub struct SplitApp {
    pub path: String,
}

impl Clone for SplitApp {
    fn clone(&self) -> (copy: Self)
        ensures
            copy == *self,
    {
        SplitApp { path: self.path.clone() }
    }
}

impl SplitApp {
    /// The application in the form in which the tunnel state machine takes
    /// it: its path.
    pub fn to_tunnel_command_repr(self) -> (path: String)
        ensures
            path@ == self.path@,
    {
        self.path
    }
}

/// The split tunnelling part of the settings.
#[derive(Debug, PartialEq, Eq)]
pub struct SplitTunnelSettings {
    /// Whether the listed applications are excluded at all.
    pub enable_exclusions: bool,
    /// The applications to exclude.
    pub apps: Vec<SplitApp>,
}

/// The settings of the daemon, as far as split tunnelling reads them.
#[derive(Debug, PartialEq, Eq)]
pub struct SettingsManager {
    pub split_tunnel: SplitTunnelSettings,
}

/// The paths of a sequence of applications.
pub open spec fn app_paths(apps: Seq<SplitApp>) -> Seq<Seq<char>> {
    apps.map_values(|app: SplitApp| app.path@)
}

/// The paths that are excluded from the tunnel under `settings`: those of
/// all listed applications where exclusions are enabled, and none where they
/// are not.
pub open spec fn tunnel_paths(settings: SplitTunnelSettings) -> Seq<Seq<char>> {
    if settings.enable_exclusions {
        app_paths(settings.apps@)
    } else {
        Seq::empty()
    }
}

/// Keeps the split tunnel state of the tunnel state machine in step with
/// the settings.
pub struct SplitTunnelManager<'a> {
    settings: &'a SettingsManager,
}

impl<'a> SplitTunnelManager<'a> {
    /// The settings that the manager reads.
    pub closed spec fn settings(&self) -> SettingsManager {
        *self.settings
    }

    /// Makes a manager over `settings` and returns it together with the
    /// paths that the tunnel has to exclude from the start.
    pub fn new(settings: &'a SettingsManager) -> (made: (Self, Vec<String>))
        ensures
            made.0.settings() == *settings,
            string_views(made.1@) == tunnel_paths(settings.split_tunnel),
    {
        let manager = Self { settings };
        let initial_paths = manager.get_tunnel_paths();
        (manager, initial_paths)
    }

    /// The paths that the tunnel has to exclude under the current settings.
    pub fn get_tunnel_paths(&self) -> (paths: Vec<String>)
        ensures
            string_views(paths@) == tunnel_paths(self.settings().split_tunnel),
    {
        let mut paths: Vec<String> = Vec::new();
        if self.settings.split_tunnel.enable_exclusions {
            let apps = &self.settings.split_tunnel.apps;
            let mut at: usize = 0;
            assert(string_views(paths@) =~= app_paths(apps@).take(0));
            while at < apps.len()
                invariant
                    at <= apps.len(),
                    string_views(paths@) == app_paths(apps@).take(at as int),
                decreases apps.len() - at,
            {
                let ghost before = paths@;
                paths.push(apps[at].clone().to_tunnel_command_repr());
                assert(string_views(paths@) =~= string_views(before).push(apps@[at as int].path@));
                assert(app_paths(apps@).take(at + 1) =~= app_paths(apps@).take(at as int).push(
                    apps@[at as int].path@,
                ));
                at += 1;
            }
            assert(app_paths(apps@).take(at as int) =~= app_paths(apps@));
        } else {
            assert(string_views(paths@) =~= Seq::<Seq<char>>::empty());
        }
        paths
    }
}

} // verus!
