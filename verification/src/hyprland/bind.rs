//! Key bindings (`bind = MODS, key, dispatcher`).
use vstd::prelude::*;
use crate::hyprland::context::{HyprlandConfig, HyprlandRenderContext};
use crate::text::{cat2, cat3, is_empty_str, nat_str, owned, push_char, u64_str};

verus! {

/// Hyprland dispatcher commands used as the action of a [`Bind`].
#[derive(Debug, Clone)]
pub enum Dispatcher {
    /// Run a shell command: `exec, $terminal`
    Exec(String),
    /// Kill the focused window gracefully.
    KillActive,
    /// Force-close the focused window.
    ForceCloseActive,
    /// Toggle floating mode for the focused window.
    ToggleFloating,
    /// Toggle fullscreen. 0 = real fullscreen, 1 = maximised, 2 = fullscreen (no bar).
    FullScreen(u8),
    /// Toggle fake-fullscreen.
    FakeFullScreen,
    /// Toggle pseudo-tiling (dwindle layout).
    TogglePseudo,
    /// Toggle the split direction (dwindle layout).
    ToggleSplit,
    /// Move keyboard focus: `l`, `r`, `u`, `d`.
    MoveFocus(String),
    /// Swap the focused window with a neighbour.
    SwapWindow(String),
    /// Move the focused window in a direction.
    MoveWindow(String),
    /// Resize the active window, e.g. `exact 800 600`.
    ResizeActive(String),
    /// Switch to a workspace by id or name.
    Workspace(String),
    /// Move the focused window to a workspace.
    MoveToWorkspace(String),
    /// Move the focused window to a workspace without following it.
    MoveToWorkspaceSilent(String),
    /// Toggle the named special workspace, or the default one.
    ToggleSpecialWorkspace(Option<String>),
    /// Move the active window to a special workspace.
    MoveToSpecialWorkspace(Option<String>),
    /// Move the current workspace to a monitor by name.
    MoveCurrentWorkspaceToMonitor(String),
    /// Change the dwindle split ratio, e.g. `"+0.1"`.
    SplitRatio(String),
    /// Focus the next window on the current workspace.
    CycleNext,
    /// Focus the previous window on the current workspace.
    CyclePrev,
    /// Swap with the next window.
    SwapNext,
    /// Pin the active window.
    Pin,
    /// Pass the keybind through to a window.
    Pass(String),
    /// Any other dispatcher: `(name, optional parameters)`.
    Custom(String, Option<String>),
}

/// `name` alone, or `name, arg` with an argument.
pub open spec fn with_opt_arg(name: Seq<char>, arg: Option<String>) -> Seq<char> {
    match arg {
        Some(a) => name + ", "@ + a@,
        None => name,
    }
}

impl Dispatcher {
    /// The dispatcher text of a bind line.
    pub open spec fn spec_dispatch(&self) -> Seq<char> {
        match self {
            Dispatcher::Exec(cmd) => "exec, "@ + cmd@,
            Dispatcher::KillActive => "killactive"@,
            Dispatcher::ForceCloseActive => "forcecloseactive"@,
            Dispatcher::ToggleFloating => "togglefloating"@,
            Dispatcher::FullScreen(n) => "fullscreen, "@ + nat_str(*n as nat),
            Dispatcher::FakeFullScreen => "fakefullscreen"@,
            Dispatcher::TogglePseudo => "pseudo"@,
            Dispatcher::ToggleSplit => "togglesplit"@,
            Dispatcher::MoveFocus(d) => "movefocus, "@ + d@,
            Dispatcher::SwapWindow(d) => "swapwindow, "@ + d@,
            Dispatcher::MoveWindow(d) => "movewindow, "@ + d@,
            Dispatcher::ResizeActive(a) => "resizeactive, "@ + a@,
            Dispatcher::Workspace(id) => "workspace, "@ + id@,
            Dispatcher::MoveToWorkspace(id) => "movetoworkspace, "@ + id@,
            Dispatcher::MoveToWorkspaceSilent(id) => "movetoworkspacesilent, "@ + id@,
            Dispatcher::ToggleSpecialWorkspace(n) => with_opt_arg("togglespecialworkspace"@, *n),
            Dispatcher::MoveToSpecialWorkspace(n) => with_opt_arg("movetospecialworkspace"@, *n),
            Dispatcher::MoveCurrentWorkspaceToMonitor(m) => "movecurrentworkspacetomonitor, "@ + m@,
            Dispatcher::SplitRatio(d) => "splitratio, "@ + d@,
            Dispatcher::CycleNext => "cyclenext"@,
            Dispatcher::CyclePrev => "cyclenext, prev"@,
            Dispatcher::SwapNext => "swapnext"@,
            Dispatcher::Pin => "pin"@,
            Dispatcher::Pass(n) => "pass, "@ + n@,
            Dispatcher::Custom(name, params) => with_opt_arg(name@, *params),
        }
    }

    pub fn to_dispatch_str(&self) -> (r: String)
        ensures
            r@ == self.spec_dispatch(),
    {
        match self {
            Dispatcher::Exec(cmd) => cat2("exec, ", cmd.as_str()),
            Dispatcher::KillActive => owned("killactive"),
            Dispatcher::ForceCloseActive => owned("forcecloseactive"),
            Dispatcher::ToggleFloating => owned("togglefloating"),
            Dispatcher::FullScreen(n) => {
                let d = u64_str(*n as u64);
                cat2("fullscreen, ", d.as_str())
            },
            Dispatcher::FakeFullScreen => owned("fakefullscreen"),
            Dispatcher::TogglePseudo => owned("pseudo"),
            Dispatcher::ToggleSplit => owned("togglesplit"),
            Dispatcher::MoveFocus(d) => cat2("movefocus, ", d.as_str()),
            Dispatcher::SwapWindow(d) => cat2("swapwindow, ", d.as_str()),
            Dispatcher::MoveWindow(d) => cat2("movewindow, ", d.as_str()),
            Dispatcher::ResizeActive(a) => cat2("resizeactive, ", a.as_str()),
            Dispatcher::Workspace(id) => cat2("workspace, ", id.as_str()),
            Dispatcher::MoveToWorkspace(id) => cat2("movetoworkspace, ", id.as_str()),
            Dispatcher::MoveToWorkspaceSilent(id) => cat2("movetoworkspacesilent, ", id.as_str()),
            Dispatcher::ToggleSpecialWorkspace(n) => match n {
                Some(x) => cat3("togglespecialworkspace", ", ", x.as_str()),
                None => owned("togglespecialworkspace"),
            },
            Dispatcher::MoveToSpecialWorkspace(n) => match n {
                Some(x) => cat3("movetospecialworkspace", ", ", x.as_str()),
                None => owned("movetospecialworkspace"),
            },
            Dispatcher::MoveCurrentWorkspaceToMonitor(m) => cat2(
                "movecurrentworkspacetomonitor, ",
                m.as_str(),
            ),
            Dispatcher::SplitRatio(d) => cat2("splitratio, ", d.as_str()),
            Dispatcher::CycleNext => owned("cyclenext"),
            Dispatcher::CyclePrev => owned("cyclenext, prev"),
            Dispatcher::SwapNext => owned("swapnext"),
            Dispatcher::Pin => owned("pin"),
            Dispatcher::Pass(n) => cat2("pass, ", n.as_str()),
            Dispatcher::Custom(name, params) => match params {
                Some(p) => cat3(name.as_str(), ", ", p.as_str()),
                None => owned(name.as_str()),
            },
        }
    }
}

impl Dispatcher {
    /// Which dispatcher this is, by variant (`Custom` last).
    pub open spec fn kind(&self) -> nat {
        match self {
            Dispatcher::Exec(..) => 0nat,
            Dispatcher::KillActive => 1nat,
            Dispatcher::ForceCloseActive => 2nat,
            Dispatcher::ToggleFloating => 3nat,
            Dispatcher::FullScreen(..) => 4nat,
            Dispatcher::FakeFullScreen => 5nat,
            Dispatcher::TogglePseudo => 6nat,
            Dispatcher::ToggleSplit => 7nat,
            Dispatcher::MoveFocus(..) => 8nat,
            Dispatcher::SwapWindow(..) => 9nat,
            Dispatcher::MoveWindow(..) => 10nat,
            Dispatcher::ResizeActive(..) => 11nat,
            Dispatcher::Workspace(..) => 12nat,
            Dispatcher::MoveToWorkspace(..) => 13nat,
            Dispatcher::MoveToWorkspaceSilent(..) => 14nat,
            Dispatcher::ToggleSpecialWorkspace(..) => 15nat,
            Dispatcher::MoveToSpecialWorkspace(..) => 16nat,
            Dispatcher::MoveCurrentWorkspaceToMonitor(..) => 17nat,
            Dispatcher::SplitRatio(..) => 18nat,
            Dispatcher::CycleNext => 19nat,
            Dispatcher::CyclePrev => 20nat,
            Dispatcher::SwapNext => 21nat,
            Dispatcher::Pin => 22nat,
            Dispatcher::Pass(..) => 23nat,
            Dispatcher::Custom(..) => 24nat,
        }
    }
}

/// The kind of named dispatcher whose text `text` is: its exact text, or its
/// name followed by `, ` and an argument.
pub open spec fn dispatch_kind_of(text: Seq<char>) -> Option<nat> {
    if false {
        None
    } else if "exec, "@.is_prefix_of(text) {
        Some(0nat)
    } else if text == "killactive"@ {
        Some(1nat)
    } else if text == "forcecloseactive"@ {
        Some(2nat)
    } else if text == "togglefloating"@ {
        Some(3nat)
    } else if "fullscreen, "@.is_prefix_of(text) {
        Some(4nat)
    } else if text == "fakefullscreen"@ {
        Some(5nat)
    } else if text == "pseudo"@ {
        Some(6nat)
    } else if text == "togglesplit"@ {
        Some(7nat)
    } else if "movefocus, "@.is_prefix_of(text) {
        Some(8nat)
    } else if "swapwindow, "@.is_prefix_of(text) {
        Some(9nat)
    } else if "movewindow, "@.is_prefix_of(text) {
        Some(10nat)
    } else if "resizeactive, "@.is_prefix_of(text) {
        Some(11nat)
    } else if "workspace, "@.is_prefix_of(text) {
        Some(12nat)
    } else if "movetoworkspace, "@.is_prefix_of(text) {
        Some(13nat)
    } else if "movetoworkspacesilent, "@.is_prefix_of(text) {
        Some(14nat)
    } else if text == "togglespecialworkspace"@ || "togglespecialworkspace, "@.is_prefix_of(text) {
        Some(15nat)
    } else if text == "movetospecialworkspace"@ || "movetospecialworkspace, "@.is_prefix_of(text) {
        Some(16nat)
    } else if "movecurrentworkspacetomonitor, "@.is_prefix_of(text) {
        Some(17nat)
    } else if "splitratio, "@.is_prefix_of(text) {
        Some(18nat)
    } else if text == "cyclenext"@ {
        Some(19nat)
    } else if text == "cyclenext, prev"@ {
        Some(20nat)
    } else if text == "swapnext"@ {
        Some(21nat)
    } else if text == "pin"@ {
        Some(22nat)
    } else if "pass, "@.is_prefix_of(text) {
        Some(23nat)
    } else {
        None
    }
}

/// The kind of every dispatcher but `Custom` is read back from its text.
#[verifier::rlimit(100)]
proof fn lemma_dispatch_kind(d: Dispatcher)
    requires
        !(d is Custom),
    ensures
        dispatch_kind_of(d.spec_dispatch()) == Some(d.kind()),
{
    match d {
        Dispatcher::Exec(_) => {
            let t = d.spec_dispatch();
            assert(dispatch_kind_of(t) == Some(0nat)) by {
                reveal_strlit("exec, ");
                assert("exec, "@.len() == 6);
                assert(t.len() >= 6);
                assert("exec, "@.is_prefix_of(t)) by { assert(t.subrange(0, 6) =~= "exec, "@); }
                assert(dispatch_kind_of(t) == Some(0nat));
            }
        },
        Dispatcher::KillActive => {
            let t = d.spec_dispatch();
            assert(dispatch_kind_of(t) == Some(1nat)) by {
                reveal_strlit("killactive");
                assert("killactive"@.len() == 10);
                assert(t.len() == 10);
                reveal_strlit("exec, ");
                assert(t[0] != "exec, "@[0]);
                assert(t == "killactive"@);
                assert(dispatch_kind_of(t) == Some(1nat));
            }
        },
        Dispatcher::ForceCloseActive => {
            let t = d.spec_dispatch();
            assert(dispatch_kind_of(t) == Some(2nat)) by {
                reveal_strlit("forcecloseactive");
                assert("forcecloseactive"@.len() == 16);
                assert(t.len() == 16);
                reveal_strlit("exec, ");
                assert(t[0] != "exec, "@[0]);
                reveal_strlit("killactive");
                assert(t[0] != "killactive"@[0]);
                assert(t == "forcecloseactive"@);
                assert(dispatch_kind_of(t) == Some(2nat));
            }
        },
        Dispatcher::ToggleFloating => {
            let t = d.spec_dispatch();
            assert(dispatch_kind_of(t) == Some(3nat)) by {
                reveal_strlit("togglefloating");
                assert("togglefloating"@.len() == 14);
                assert(t.len() == 14);
                reveal_strlit("exec, ");
                assert(t[0] != "exec, "@[0]);
                reveal_strlit("killactive");
                assert(t[0] != "killactive"@[0]);
                reveal_strlit("forcecloseactive");
                assert(t[0] != "forcecloseactive"@[0]);
                assert(t == "togglefloating"@);
                assert(dispatch_kind_of(t) == Some(3nat));
            }
        },
        Dispatcher::FullScreen(_) => {
            let t = d.spec_dispatch();
            assert(dispatch_kind_of(t) == Some(4nat)) by {
                reveal_strlit("fullscreen, ");
                assert("fullscreen, "@.len() == 12);
                assert(t.len() >= 12);
                reveal_strlit("exec, ");
                assert(t[0] != "exec, "@[0]);
                reveal_strlit("killactive");
                assert(t[0] != "killactive"@[0]);
                reveal_strlit("forcecloseactive");
                assert(t[1] != "forcecloseactive"@[1]);
                reveal_strlit("togglefloating");
                assert(t[0] != "togglefloating"@[0]);
                assert("fullscreen, "@.is_prefix_of(t)) by { assert(t.subrange(0, 12) =~= "fullscreen, "@); }
                assert(dispatch_kind_of(t) == Some(4nat));
            }
        },
        Dispatcher::FakeFullScreen => {
            let t = d.spec_dispatch();
            assert(dispatch_kind_of(t) == Some(5nat)) by {
                reveal_strlit("fakefullscreen");
                assert("fakefullscreen"@.len() == 14);
                assert(t.len() == 14);
                reveal_strlit("exec, ");
                assert(t[0] != "exec, "@[0]);
                reveal_strlit("killactive");
                assert(t[0] != "killactive"@[0]);
                reveal_strlit("forcecloseactive");
                assert(t[1] != "forcecloseactive"@[1]);
                reveal_strlit("togglefloating");
                assert(t[0] != "togglefloating"@[0]);
                reveal_strlit("fullscreen, ");
                assert(t[1] != "fullscreen, "@[1]);
                assert(t == "fakefullscreen"@);
                assert(dispatch_kind_of(t) == Some(5nat));
            }
        },
        Dispatcher::TogglePseudo => {
            let t = d.spec_dispatch();
            assert(dispatch_kind_of(t) == Some(6nat)) by {
                reveal_strlit("pseudo");
                assert("pseudo"@.len() == 6);
                assert(t.len() == 6);
                reveal_strlit("exec, ");
                assert(t[0] != "exec, "@[0]);
                reveal_strlit("killactive");
                assert(t[0] != "killactive"@[0]);
                reveal_strlit("forcecloseactive");
                assert(t[0] != "forcecloseactive"@[0]);
                reveal_strlit("togglefloating");
                assert(t[0] != "togglefloating"@[0]);
                reveal_strlit("fullscreen, ");
                assert(t[0] != "fullscreen, "@[0]);
                reveal_strlit("fakefullscreen");
                assert(t[0] != "fakefullscreen"@[0]);
                assert(t == "pseudo"@);
                assert(dispatch_kind_of(t) == Some(6nat));
            }
        },
        Dispatcher::ToggleSplit => {
            let t = d.spec_dispatch();
            assert(dispatch_kind_of(t) == Some(7nat)) by {
                reveal_strlit("togglesplit");
                assert("togglesplit"@.len() == 11);
                assert(t.len() == 11);
                reveal_strlit("exec, ");
                assert(t[0] != "exec, "@[0]);
                reveal_strlit("killactive");
                assert(t[0] != "killactive"@[0]);
                reveal_strlit("forcecloseactive");
                assert(t[0] != "forcecloseactive"@[0]);
                reveal_strlit("togglefloating");
                assert(t[6] != "togglefloating"@[6]);
                reveal_strlit("fullscreen, ");
                assert(t[0] != "fullscreen, "@[0]);
                reveal_strlit("fakefullscreen");
                assert(t[0] != "fakefullscreen"@[0]);
                reveal_strlit("pseudo");
                assert(t[0] != "pseudo"@[0]);
                assert(t == "togglesplit"@);
                assert(dispatch_kind_of(t) == Some(7nat));
            }
        },
        Dispatcher::MoveFocus(_) => {
            let t = d.spec_dispatch();
            assert(dispatch_kind_of(t) == Some(8nat)) by {
                reveal_strlit("movefocus, ");
                assert("movefocus, "@.len() == 11);
                assert(t.len() >= 11);
                reveal_strlit("exec, ");
                assert(t[0] != "exec, "@[0]);
                reveal_strlit("killactive");
                assert(t[0] != "killactive"@[0]);
                reveal_strlit("forcecloseactive");
                assert(t[0] != "forcecloseactive"@[0]);
                reveal_strlit("togglefloating");
                assert(t[0] != "togglefloating"@[0]);
                reveal_strlit("fullscreen, ");
                assert(t[0] != "fullscreen, "@[0]);
                reveal_strlit("fakefullscreen");
                assert(t[0] != "fakefullscreen"@[0]);
                reveal_strlit("pseudo");
                assert(t[0] != "pseudo"@[0]);
                reveal_strlit("togglesplit");
                assert(t[0] != "togglesplit"@[0]);
                assert("movefocus, "@.is_prefix_of(t)) by { assert(t.subrange(0, 11) =~= "movefocus, "@); }
                assert(dispatch_kind_of(t) == Some(8nat));
            }
        },
        Dispatcher::SwapWindow(_) => {
            let t = d.spec_dispatch();
            assert(dispatch_kind_of(t) == Some(9nat)) by {
                reveal_strlit("swapwindow, ");
                assert("swapwindow, "@.len() == 12);
                assert(t.len() >= 12);
                reveal_strlit("exec, ");
                assert(t[0] != "exec, "@[0]);
                reveal_strlit("killactive");
                assert(t[0] != "killactive"@[0]);
                reveal_strlit("forcecloseactive");
                assert(t[0] != "forcecloseactive"@[0]);
                reveal_strlit("togglefloating");
                assert(t[0] != "togglefloating"@[0]);
                reveal_strlit("fullscreen, ");
                assert(t[0] != "fullscreen, "@[0]);
                reveal_strlit("fakefullscreen");
                assert(t[0] != "fakefullscreen"@[0]);
                reveal_strlit("pseudo");
                assert(t[0] != "pseudo"@[0]);
                reveal_strlit("togglesplit");
                assert(t[0] != "togglesplit"@[0]);
                reveal_strlit("movefocus, ");
                assert(t[0] != "movefocus, "@[0]);
                assert("swapwindow, "@.is_prefix_of(t)) by { assert(t.subrange(0, 12) =~= "swapwindow, "@); }
                assert(dispatch_kind_of(t) == Some(9nat));
            }
        },
        Dispatcher::MoveWindow(_) => {
            let t = d.spec_dispatch();
            assert(dispatch_kind_of(t) == Some(10nat)) by {
                reveal_strlit("movewindow, ");
                assert("movewindow, "@.len() == 12);
                assert(t.len() >= 12);
                reveal_strlit("exec, ");
                assert(t[0] != "exec, "@[0]);
                reveal_strlit("killactive");
                assert(t[0] != "killactive"@[0]);
                reveal_strlit("forcecloseactive");
                assert(t[0] != "forcecloseactive"@[0]);
                reveal_strlit("togglefloating");
                assert(t[0] != "togglefloating"@[0]);
                reveal_strlit("fullscreen, ");
                assert(t[0] != "fullscreen, "@[0]);
                reveal_strlit("fakefullscreen");
                assert(t[0] != "fakefullscreen"@[0]);
                reveal_strlit("pseudo");
                assert(t[0] != "pseudo"@[0]);
                reveal_strlit("togglesplit");
                assert(t[0] != "togglesplit"@[0]);
                reveal_strlit("movefocus, ");
                assert(t[4] != "movefocus, "@[4]);
                reveal_strlit("swapwindow, ");
                assert(t[0] != "swapwindow, "@[0]);
                assert("movewindow, "@.is_prefix_of(t)) by { assert(t.subrange(0, 12) =~= "movewindow, "@); }
                assert(dispatch_kind_of(t) == Some(10nat));
            }
        },
        Dispatcher::ResizeActive(_) => {
            let t = d.spec_dispatch();
            assert(dispatch_kind_of(t) == Some(11nat)) by {
                reveal_strlit("resizeactive, ");
                assert("resizeactive, "@.len() == 14);
                assert(t.len() >= 14);
                reveal_strlit("exec, ");
                assert(t[0] != "exec, "@[0]);
                reveal_strlit("killactive");
                assert(t[0] != "killactive"@[0]);
                reveal_strlit("forcecloseactive");
                assert(t[0] != "forcecloseactive"@[0]);
                reveal_strlit("togglefloating");
                assert(t[0] != "togglefloating"@[0]);
                reveal_strlit("fullscreen, ");
                assert(t[0] != "fullscreen, "@[0]);
                reveal_strlit("fakefullscreen");
                assert(t[0] != "fakefullscreen"@[0]);
                reveal_strlit("pseudo");
                assert(t[0] != "pseudo"@[0]);
                reveal_strlit("togglesplit");
                assert(t[0] != "togglesplit"@[0]);
                reveal_strlit("movefocus, ");
                assert(t[0] != "movefocus, "@[0]);
                reveal_strlit("swapwindow, ");
                assert(t[0] != "swapwindow, "@[0]);
                reveal_strlit("movewindow, ");
                assert(t[0] != "movewindow, "@[0]);
                assert("resizeactive, "@.is_prefix_of(t)) by { assert(t.subrange(0, 14) =~= "resizeactive, "@); }
                assert(dispatch_kind_of(t) == Some(11nat));
            }
        },
        Dispatcher::Workspace(_) => {
            let t = d.spec_dispatch();
            assert(dispatch_kind_of(t) == Some(12nat)) by {
                reveal_strlit("workspace, ");
                assert("workspace, "@.len() == 11);
                assert(t.len() >= 11);
                reveal_strlit("exec, ");
                assert(t[0] != "exec, "@[0]);
                reveal_strlit("killactive");
                assert(t[0] != "killactive"@[0]);
                reveal_strlit("forcecloseactive");
                assert(t[0] != "forcecloseactive"@[0]);
                reveal_strlit("togglefloating");
                assert(t[0] != "togglefloating"@[0]);
                reveal_strlit("fullscreen, ");
                assert(t[0] != "fullscreen, "@[0]);
                reveal_strlit("fakefullscreen");
                assert(t[0] != "fakefullscreen"@[0]);
                reveal_strlit("pseudo");
                assert(t[0] != "pseudo"@[0]);
                reveal_strlit("togglesplit");
                assert(t[0] != "togglesplit"@[0]);
                reveal_strlit("movefocus, ");
                assert(t[0] != "movefocus, "@[0]);
                reveal_strlit("swapwindow, ");
                assert(t[0] != "swapwindow, "@[0]);
                reveal_strlit("movewindow, ");
                assert(t[0] != "movewindow, "@[0]);
                reveal_strlit("resizeactive, ");
                assert(t[0] != "resizeactive, "@[0]);
                assert("workspace, "@.is_prefix_of(t)) by { assert(t.subrange(0, 11) =~= "workspace, "@); }
                assert(dispatch_kind_of(t) == Some(12nat));
            }
        },
        Dispatcher::MoveToWorkspace(_) => {
            let t = d.spec_dispatch();
            assert(dispatch_kind_of(t) == Some(13nat)) by {
                reveal_strlit("movetoworkspace, ");
                assert("movetoworkspace, "@.len() == 17);
                assert(t.len() >= 17);
                reveal_strlit("exec, ");
                assert(t[0] != "exec, "@[0]);
                reveal_strlit("killactive");
                assert(t[0] != "killactive"@[0]);
                reveal_strlit("forcecloseactive");
                assert(t[0] != "forcecloseactive"@[0]);
                reveal_strlit("togglefloating");
                assert(t[0] != "togglefloating"@[0]);
                reveal_strlit("fullscreen, ");
                assert(t[0] != "fullscreen, "@[0]);
                reveal_strlit("fakefullscreen");
                assert(t[0] != "fakefullscreen"@[0]);
                reveal_strlit("pseudo");
                assert(t[0] != "pseudo"@[0]);
                reveal_strlit("togglesplit");
                assert(t[0] != "togglesplit"@[0]);
                reveal_strlit("movefocus, ");
                assert(t[4] != "movefocus, "@[4]);
                reveal_strlit("swapwindow, ");
                assert(t[0] != "swapwindow, "@[0]);
                reveal_strlit("movewindow, ");
                assert(t[4] != "movewindow, "@[4]);
                reveal_strlit("resizeactive, ");
                assert(t[0] != "resizeactive, "@[0]);
                reveal_strlit("workspace, ");
                assert(t[0] != "workspace, "@[0]);
                assert("movetoworkspace, "@.is_prefix_of(t)) by { assert(t.subrange(0, 17) =~= "movetoworkspace, "@); }
                assert(dispatch_kind_of(t) == Some(13nat));
            }
        },
        Dispatcher::MoveToWorkspaceSilent(_) => {
            let t = d.spec_dispatch();
            assert(dispatch_kind_of(t) == Some(14nat)) by {
                reveal_strlit("movetoworkspacesilent, ");
                assert("movetoworkspacesilent, "@.len() == 23);
                assert(t.len() >= 23);
                reveal_strlit("exec, ");
                assert(t[0] != "exec, "@[0]);
                reveal_strlit("killactive");
                assert(t[0] != "killactive"@[0]);
                reveal_strlit("forcecloseactive");
                assert(t[0] != "forcecloseactive"@[0]);
                reveal_strlit("togglefloating");
                assert(t[0] != "togglefloating"@[0]);
                reveal_strlit("fullscreen, ");
                assert(t[0] != "fullscreen, "@[0]);
                reveal_strlit("fakefullscreen");
                assert(t[0] != "fakefullscreen"@[0]);
                reveal_strlit("pseudo");
                assert(t[0] != "pseudo"@[0]);
                reveal_strlit("togglesplit");
                assert(t[0] != "togglesplit"@[0]);
                reveal_strlit("movefocus, ");
                assert(t[4] != "movefocus, "@[4]);
                reveal_strlit("swapwindow, ");
                assert(t[0] != "swapwindow, "@[0]);
                reveal_strlit("movewindow, ");
                assert(t[4] != "movewindow, "@[4]);
                reveal_strlit("resizeactive, ");
                assert(t[0] != "resizeactive, "@[0]);
                reveal_strlit("workspace, ");
                assert(t[0] != "workspace, "@[0]);
                reveal_strlit("movetoworkspace, ");
                assert(t[15] != "movetoworkspace, "@[15]);
                assert("movetoworkspacesilent, "@.is_prefix_of(t)) by { assert(t.subrange(0, 23) =~= "movetoworkspacesilent, "@); }
                assert(dispatch_kind_of(t) == Some(14nat));
            }
        },
        Dispatcher::ToggleSpecialWorkspace(None) => {
            let t = d.spec_dispatch();
            assert(dispatch_kind_of(t) == Some(15nat)) by {
                reveal_strlit("togglespecialworkspace");
                assert("togglespecialworkspace"@.len() == 22);
                assert(t.len() == 22);
                reveal_strlit("exec, ");
                assert(t[0] != "exec, "@[0]);
                reveal_strlit("killactive");
                assert(t[0] != "killactive"@[0]);
                reveal_strlit("forcecloseactive");
                assert(t[0] != "forcecloseactive"@[0]);
                reveal_strlit("togglefloating");
                assert(t[6] != "togglefloating"@[6]);
                reveal_strlit("fullscreen, ");
                assert(t[0] != "fullscreen, "@[0]);
                reveal_strlit("fakefullscreen");
                assert(t[0] != "fakefullscreen"@[0]);
                reveal_strlit("pseudo");
                assert(t[0] != "pseudo"@[0]);
                reveal_strlit("togglesplit");
                assert(t[8] != "togglesplit"@[8]);
                reveal_strlit("movefocus, ");
                assert(t[0] != "movefocus, "@[0]);
                reveal_strlit("swapwindow, ");
                assert(t[0] != "swapwindow, "@[0]);
                reveal_strlit("movewindow, ");
                assert(t[0] != "movewindow, "@[0]);
                reveal_strlit("resizeactive, ");
                assert(t[0] != "resizeactive, "@[0]);
                reveal_strlit("workspace, ");
                assert(t[0] != "workspace, "@[0]);
                reveal_strlit("movetoworkspace, ");
                assert(t[0] != "movetoworkspace, "@[0]);
                reveal_strlit("movetoworkspacesilent, ");
                assert(t[0] != "movetoworkspacesilent, "@[0]);
                assert(t == "togglespecialworkspace"@);
                assert(dispatch_kind_of(t) == Some(15nat));
            }
        },
        Dispatcher::ToggleSpecialWorkspace(Some(_)) => {
            let t = d.spec_dispatch();
            assert(dispatch_kind_of(t) == Some(15nat)) by {
                reveal_strlit(", ");
                reveal_strlit("togglespecialworkspace");
                reveal_strlit("togglespecialworkspace, ");
                assert("togglespecialworkspace, "@.len() == 24);
                assert(t.len() >= 24);
                reveal_strlit("exec, ");
                assert(t[0] != "exec, "@[0]);
                reveal_strlit("killactive");
                assert(t[0] != "killactive"@[0]);
                reveal_strlit("forcecloseactive");
                assert(t[0] != "forcecloseactive"@[0]);
                reveal_strlit("togglefloating");
                assert(t[6] != "togglefloating"@[6]);
                reveal_strlit("fullscreen, ");
                assert(t[0] != "fullscreen, "@[0]);
                reveal_strlit("fakefullscreen");
                assert(t[0] != "fakefullscreen"@[0]);
                reveal_strlit("pseudo");
                assert(t[0] != "pseudo"@[0]);
                reveal_strlit("togglesplit");
                assert(t[8] != "togglesplit"@[8]);
                reveal_strlit("movefocus, ");
                assert(t[0] != "movefocus, "@[0]);
                reveal_strlit("swapwindow, ");
                assert(t[0] != "swapwindow, "@[0]);
                reveal_strlit("movewindow, ");
                assert(t[0] != "movewindow, "@[0]);
                reveal_strlit("resizeactive, ");
                assert(t[0] != "resizeactive, "@[0]);
                reveal_strlit("workspace, ");
                assert(t[0] != "workspace, "@[0]);
                reveal_strlit("movetoworkspace, ");
                assert(t[0] != "movetoworkspace, "@[0]);
                reveal_strlit("movetoworkspacesilent, ");
                assert(t[0] != "movetoworkspacesilent, "@[0]);
                assert("togglespecialworkspace, "@.is_prefix_of(t)) by { assert(t.subrange(0, 24) =~= "togglespecialworkspace, "@); }
                assert(dispatch_kind_of(t) == Some(15nat));
            }
        },
        Dispatcher::MoveToSpecialWorkspace(None) => {
            let t = d.spec_dispatch();
            assert(dispatch_kind_of(t) == Some(16nat)) by {
                reveal_strlit("movetospecialworkspace");
                assert("movetospecialworkspace"@.len() == 22);
                assert(t.len() == 22);
                reveal_strlit("exec, ");
                assert(t[0] != "exec, "@[0]);
                reveal_strlit("killactive");
                assert(t[0] != "killactive"@[0]);
                reveal_strlit("forcecloseactive");
                assert(t[0] != "forcecloseactive"@[0]);
                reveal_strlit("togglefloating");
                assert(t[0] != "togglefloating"@[0]);
                reveal_strlit("fullscreen, ");
                assert(t[0] != "fullscreen, "@[0]);
                reveal_strlit("fakefullscreen");
                assert(t[0] != "fakefullscreen"@[0]);
                reveal_strlit("pseudo");
                assert(t[0] != "pseudo"@[0]);
                reveal_strlit("togglesplit");
                assert(t[0] != "togglesplit"@[0]);
                reveal_strlit("movefocus, ");
                assert(t[4] != "movefocus, "@[4]);
                reveal_strlit("swapwindow, ");
                assert(t[0] != "swapwindow, "@[0]);
                reveal_strlit("movewindow, ");
                assert(t[4] != "movewindow, "@[4]);
                reveal_strlit("resizeactive, ");
                assert(t[0] != "resizeactive, "@[0]);
                reveal_strlit("workspace, ");
                assert(t[0] != "workspace, "@[0]);
                reveal_strlit("movetoworkspace, ");
                assert(t[6] != "movetoworkspace, "@[6]);
                reveal_strlit("movetoworkspacesilent, ");
                assert(t[6] != "movetoworkspacesilent, "@[6]);
                reveal_strlit("togglespecialworkspace");
                assert(t[0] != "togglespecialworkspace"@[0]);
                reveal_strlit("togglespecialworkspace, ");
                assert(t[0] != "togglespecialworkspace, "@[0]);
                assert(t == "movetospecialworkspace"@);
                assert(dispatch_kind_of(t) == Some(16nat));
            }
        },
        Dispatcher::MoveToSpecialWorkspace(Some(_)) => {
            let t = d.spec_dispatch();
            assert(dispatch_kind_of(t) == Some(16nat)) by {
                reveal_strlit(", ");
                reveal_strlit("movetospecialworkspace");
                reveal_strlit("movetospecialworkspace, ");
                assert("movetospecialworkspace, "@.len() == 24);
                assert(t.len() >= 24);
                reveal_strlit("exec, ");
                assert(t[0] != "exec, "@[0]);
                reveal_strlit("killactive");
                assert(t[0] != "killactive"@[0]);
                reveal_strlit("forcecloseactive");
                assert(t[0] != "forcecloseactive"@[0]);
                reveal_strlit("togglefloating");
                assert(t[0] != "togglefloating"@[0]);
                reveal_strlit("fullscreen, ");
                assert(t[0] != "fullscreen, "@[0]);
                reveal_strlit("fakefullscreen");
                assert(t[0] != "fakefullscreen"@[0]);
                reveal_strlit("pseudo");
                assert(t[0] != "pseudo"@[0]);
                reveal_strlit("togglesplit");
                assert(t[0] != "togglesplit"@[0]);
                reveal_strlit("movefocus, ");
                assert(t[4] != "movefocus, "@[4]);
                reveal_strlit("swapwindow, ");
                assert(t[0] != "swapwindow, "@[0]);
                reveal_strlit("movewindow, ");
                assert(t[4] != "movewindow, "@[4]);
                reveal_strlit("resizeactive, ");
                assert(t[0] != "resizeactive, "@[0]);
                reveal_strlit("workspace, ");
                assert(t[0] != "workspace, "@[0]);
                reveal_strlit("movetoworkspace, ");
                assert(t[6] != "movetoworkspace, "@[6]);
                reveal_strlit("movetoworkspacesilent, ");
                assert(t[6] != "movetoworkspacesilent, "@[6]);
                reveal_strlit("togglespecialworkspace");
                assert(t[0] != "togglespecialworkspace"@[0]);
                reveal_strlit("togglespecialworkspace, ");
                assert(t[0] != "togglespecialworkspace, "@[0]);
                assert("movetospecialworkspace, "@.is_prefix_of(t)) by { assert(t.subrange(0, 24) =~= "movetospecialworkspace, "@); }
                assert(dispatch_kind_of(t) == Some(16nat));
            }
        },
        Dispatcher::MoveCurrentWorkspaceToMonitor(_) => {
            let t = d.spec_dispatch();
            assert(dispatch_kind_of(t) == Some(17nat)) by {
                reveal_strlit("movecurrentworkspacetomonitor, ");
                assert("movecurrentworkspacetomonitor, "@.len() == 31);
                assert(t.len() >= 31);
                reveal_strlit("exec, ");
                assert(t[0] != "exec, "@[0]);
                reveal_strlit("killactive");
                assert(t[0] != "killactive"@[0]);
                reveal_strlit("forcecloseactive");
                assert(t[0] != "forcecloseactive"@[0]);
                reveal_strlit("togglefloating");
                assert(t[0] != "togglefloating"@[0]);
                reveal_strlit("fullscreen, ");
                assert(t[0] != "fullscreen, "@[0]);
                reveal_strlit("fakefullscreen");
                assert(t[0] != "fakefullscreen"@[0]);
                reveal_strlit("pseudo");
                assert(t[0] != "pseudo"@[0]);
                reveal_strlit("togglesplit");
                assert(t[0] != "togglesplit"@[0]);
                reveal_strlit("movefocus, ");
                assert(t[4] != "movefocus, "@[4]);
                reveal_strlit("swapwindow, ");
                assert(t[0] != "swapwindow, "@[0]);
                reveal_strlit("movewindow, ");
                assert(t[4] != "movewindow, "@[4]);
                reveal_strlit("resizeactive, ");
                assert(t[0] != "resizeactive, "@[0]);
                reveal_strlit("workspace, ");
                assert(t[0] != "workspace, "@[0]);
                reveal_strlit("movetoworkspace, ");
                assert(t[4] != "movetoworkspace, "@[4]);
                reveal_strlit("movetoworkspacesilent, ");
                assert(t[4] != "movetoworkspacesilent, "@[4]);
                reveal_strlit("togglespecialworkspace");
                assert(t[0] != "togglespecialworkspace"@[0]);
                reveal_strlit("togglespecialworkspace, ");
                assert(t[0] != "togglespecialworkspace, "@[0]);
                reveal_strlit("movetospecialworkspace");
                assert(t[4] != "movetospecialworkspace"@[4]);
                reveal_strlit("movetospecialworkspace, ");
                assert(t[4] != "movetospecialworkspace, "@[4]);
                assert("movecurrentworkspacetomonitor, "@.is_prefix_of(t)) by { assert(t.subrange(0, 31) =~= "movecurrentworkspacetomonitor, "@); }
                assert(dispatch_kind_of(t) == Some(17nat));
            }
        },
        Dispatcher::SplitRatio(_) => {
            let t = d.spec_dispatch();
            assert(dispatch_kind_of(t) == Some(18nat)) by {
                reveal_strlit("splitratio, ");
                assert("splitratio, "@.len() == 12);
                assert(t.len() >= 12);
                reveal_strlit("exec, ");
                assert(t[0] != "exec, "@[0]);
                reveal_strlit("killactive");
                assert(t[0] != "killactive"@[0]);
                reveal_strlit("forcecloseactive");
                assert(t[0] != "forcecloseactive"@[0]);
                reveal_strlit("togglefloating");
                assert(t[0] != "togglefloating"@[0]);
                reveal_strlit("fullscreen, ");
                assert(t[0] != "fullscreen, "@[0]);
                reveal_strlit("fakefullscreen");
                assert(t[0] != "fakefullscreen"@[0]);
                reveal_strlit("pseudo");
                assert(t[0] != "pseudo"@[0]);
                reveal_strlit("togglesplit");
                assert(t[0] != "togglesplit"@[0]);
                reveal_strlit("movefocus, ");
                assert(t[0] != "movefocus, "@[0]);
                reveal_strlit("swapwindow, ");
                assert(t[1] != "swapwindow, "@[1]);
                reveal_strlit("movewindow, ");
                assert(t[0] != "movewindow, "@[0]);
                reveal_strlit("resizeactive, ");
                assert(t[0] != "resizeactive, "@[0]);
                reveal_strlit("workspace, ");
                assert(t[0] != "workspace, "@[0]);
                reveal_strlit("movetoworkspace, ");
                assert(t[0] != "movetoworkspace, "@[0]);
                reveal_strlit("movetoworkspacesilent, ");
                assert(t[0] != "movetoworkspacesilent, "@[0]);
                reveal_strlit("togglespecialworkspace");
                assert(t[0] != "togglespecialworkspace"@[0]);
                reveal_strlit("togglespecialworkspace, ");
                assert(t[0] != "togglespecialworkspace, "@[0]);
                reveal_strlit("movetospecialworkspace");
                assert(t[0] != "movetospecialworkspace"@[0]);
                reveal_strlit("movetospecialworkspace, ");
                assert(t[0] != "movetospecialworkspace, "@[0]);
                reveal_strlit("movecurrentworkspacetomonitor, ");
                assert(t[0] != "movecurrentworkspacetomonitor, "@[0]);
                assert("splitratio, "@.is_prefix_of(t)) by { assert(t.subrange(0, 12) =~= "splitratio, "@); }
                assert(dispatch_kind_of(t) == Some(18nat));
            }
        },
        Dispatcher::CycleNext => {
            let t = d.spec_dispatch();
            assert(dispatch_kind_of(t) == Some(19nat)) by {
                reveal_strlit("cyclenext");
                assert("cyclenext"@.len() == 9);
                assert(t.len() == 9);
                reveal_strlit("exec, ");
                assert(t[0] != "exec, "@[0]);
                reveal_strlit("killactive");
                assert(t[0] != "killactive"@[0]);
                reveal_strlit("forcecloseactive");
                assert(t[0] != "forcecloseactive"@[0]);
                reveal_strlit("togglefloating");
                assert(t[0] != "togglefloating"@[0]);
                reveal_strlit("fullscreen, ");
                assert(t[0] != "fullscreen, "@[0]);
                reveal_strlit("fakefullscreen");
                assert(t[0] != "fakefullscreen"@[0]);
                reveal_strlit("pseudo");
                assert(t[0] != "pseudo"@[0]);
                reveal_strlit("togglesplit");
                assert(t[0] != "togglesplit"@[0]);
                reveal_strlit("movefocus, ");
                assert(t[0] != "movefocus, "@[0]);
                reveal_strlit("swapwindow, ");
                assert(t[0] != "swapwindow, "@[0]);
                reveal_strlit("movewindow, ");
                assert(t[0] != "movewindow, "@[0]);
                reveal_strlit("resizeactive, ");
                assert(t[0] != "resizeactive, "@[0]);
                reveal_strlit("workspace, ");
                assert(t[0] != "workspace, "@[0]);
                reveal_strlit("movetoworkspace, ");
                assert(t[0] != "movetoworkspace, "@[0]);
                reveal_strlit("movetoworkspacesilent, ");
                assert(t[0] != "movetoworkspacesilent, "@[0]);
                reveal_strlit("togglespecialworkspace");
                assert(t[0] != "togglespecialworkspace"@[0]);
                reveal_strlit("togglespecialworkspace, ");
                assert(t[0] != "togglespecialworkspace, "@[0]);
                reveal_strlit("movetospecialworkspace");
                assert(t[0] != "movetospecialworkspace"@[0]);
                reveal_strlit("movetospecialworkspace, ");
                assert(t[0] != "movetospecialworkspace, "@[0]);
                reveal_strlit("movecurrentworkspacetomonitor, ");
                assert(t[0] != "movecurrentworkspacetomonitor, "@[0]);
                reveal_strlit("splitratio, ");
                assert(t[0] != "splitratio, "@[0]);
                assert(t == "cyclenext"@);
                assert(dispatch_kind_of(t) == Some(19nat));
            }
        },
        Dispatcher::CyclePrev => {
            let t = d.spec_dispatch();
            assert(dispatch_kind_of(t) == Some(20nat)) by {
                reveal_strlit("cyclenext, prev");
                assert("cyclenext, prev"@.len() == 15);
                assert(t.len() == 15);
                reveal_strlit("exec, ");
                assert(t[0] != "exec, "@[0]);
                reveal_strlit("killactive");
                assert(t[0] != "killactive"@[0]);
                reveal_strlit("forcecloseactive");
                assert(t[0] != "forcecloseactive"@[0]);
                reveal_strlit("togglefloating");
                assert(t[0] != "togglefloating"@[0]);
                reveal_strlit("fullscreen, ");
                assert(t[0] != "fullscreen, "@[0]);
                reveal_strlit("fakefullscreen");
                assert(t[0] != "fakefullscreen"@[0]);
                reveal_strlit("pseudo");
                assert(t[0] != "pseudo"@[0]);
                reveal_strlit("togglesplit");
                assert(t[0] != "togglesplit"@[0]);
                reveal_strlit("movefocus, ");
                assert(t[0] != "movefocus, "@[0]);
                reveal_strlit("swapwindow, ");
                assert(t[0] != "swapwindow, "@[0]);
                reveal_strlit("movewindow, ");
                assert(t[0] != "movewindow, "@[0]);
                reveal_strlit("resizeactive, ");
                assert(t[0] != "resizeactive, "@[0]);
                reveal_strlit("workspace, ");
                assert(t[0] != "workspace, "@[0]);
                reveal_strlit("movetoworkspace, ");
                assert(t[0] != "movetoworkspace, "@[0]);
                reveal_strlit("movetoworkspacesilent, ");
                assert(t[0] != "movetoworkspacesilent, "@[0]);
                reveal_strlit("togglespecialworkspace");
                assert(t[0] != "togglespecialworkspace"@[0]);
                reveal_strlit("togglespecialworkspace, ");
                assert(t[0] != "togglespecialworkspace, "@[0]);
                reveal_strlit("movetospecialworkspace");
                assert(t[0] != "movetospecialworkspace"@[0]);
                reveal_strlit("movetospecialworkspace, ");
                assert(t[0] != "movetospecialworkspace, "@[0]);
                reveal_strlit("movecurrentworkspacetomonitor, ");
                assert(t[0] != "movecurrentworkspacetomonitor, "@[0]);
                reveal_strlit("splitratio, ");
                assert(t[0] != "splitratio, "@[0]);
                reveal_strlit("cyclenext");
                assert("cyclenext"@.len() == 9);
                assert(t == "cyclenext, prev"@);
                assert(dispatch_kind_of(t) == Some(20nat));
            }
        },
        Dispatcher::SwapNext => {
            let t = d.spec_dispatch();
            assert(dispatch_kind_of(t) == Some(21nat)) by {
                reveal_strlit("swapnext");
                assert("swapnext"@.len() == 8);
                assert(t.len() == 8);
                reveal_strlit("exec, ");
                assert(t[0] != "exec, "@[0]);
                reveal_strlit("killactive");
                assert(t[0] != "killactive"@[0]);
                reveal_strlit("forcecloseactive");
                assert(t[0] != "forcecloseactive"@[0]);
                reveal_strlit("togglefloating");
                assert(t[0] != "togglefloating"@[0]);
                reveal_strlit("fullscreen, ");
                assert(t[0] != "fullscreen, "@[0]);
                reveal_strlit("fakefullscreen");
                assert(t[0] != "fakefullscreen"@[0]);
                reveal_strlit("pseudo");
                assert(t[0] != "pseudo"@[0]);
                reveal_strlit("togglesplit");
                assert(t[0] != "togglesplit"@[0]);
                reveal_strlit("movefocus, ");
                assert(t[0] != "movefocus, "@[0]);
                reveal_strlit("swapwindow, ");
                assert(t[4] != "swapwindow, "@[4]);
                reveal_strlit("movewindow, ");
                assert(t[0] != "movewindow, "@[0]);
                reveal_strlit("resizeactive, ");
                assert(t[0] != "resizeactive, "@[0]);
                reveal_strlit("workspace, ");
                assert(t[0] != "workspace, "@[0]);
                reveal_strlit("movetoworkspace, ");
                assert(t[0] != "movetoworkspace, "@[0]);
                reveal_strlit("movetoworkspacesilent, ");
                assert(t[0] != "movetoworkspacesilent, "@[0]);
                reveal_strlit("togglespecialworkspace");
                assert(t[0] != "togglespecialworkspace"@[0]);
                reveal_strlit("togglespecialworkspace, ");
                assert(t[0] != "togglespecialworkspace, "@[0]);
                reveal_strlit("movetospecialworkspace");
                assert(t[0] != "movetospecialworkspace"@[0]);
                reveal_strlit("movetospecialworkspace, ");
                assert(t[0] != "movetospecialworkspace, "@[0]);
                reveal_strlit("movecurrentworkspacetomonitor, ");
                assert(t[0] != "movecurrentworkspacetomonitor, "@[0]);
                reveal_strlit("splitratio, ");
                assert(t[1] != "splitratio, "@[1]);
                reveal_strlit("cyclenext");
                assert(t[0] != "cyclenext"@[0]);
                reveal_strlit("cyclenext, prev");
                assert(t[0] != "cyclenext, prev"@[0]);
                assert(t == "swapnext"@);
                assert(dispatch_kind_of(t) == Some(21nat));
            }
        },
        Dispatcher::Pin => {
            let t = d.spec_dispatch();
            assert(dispatch_kind_of(t) == Some(22nat)) by {
                reveal_strlit("pin");
                assert("pin"@.len() == 3);
                assert(t.len() == 3);
                reveal_strlit("exec, ");
                assert(t[0] != "exec, "@[0]);
                reveal_strlit("killactive");
                assert(t[0] != "killactive"@[0]);
                reveal_strlit("forcecloseactive");
                assert(t[0] != "forcecloseactive"@[0]);
                reveal_strlit("togglefloating");
                assert(t[0] != "togglefloating"@[0]);
                reveal_strlit("fullscreen, ");
                assert(t[0] != "fullscreen, "@[0]);
                reveal_strlit("fakefullscreen");
                assert(t[0] != "fakefullscreen"@[0]);
                reveal_strlit("pseudo");
                assert(t[1] != "pseudo"@[1]);
                reveal_strlit("togglesplit");
                assert(t[0] != "togglesplit"@[0]);
                reveal_strlit("movefocus, ");
                assert(t[0] != "movefocus, "@[0]);
                reveal_strlit("swapwindow, ");
                assert(t[0] != "swapwindow, "@[0]);
                reveal_strlit("movewindow, ");
                assert(t[0] != "movewindow, "@[0]);
                reveal_strlit("resizeactive, ");
                assert(t[0] != "resizeactive, "@[0]);
                reveal_strlit("workspace, ");
                assert(t[0] != "workspace, "@[0]);
                reveal_strlit("movetoworkspace, ");
                assert(t[0] != "movetoworkspace, "@[0]);
                reveal_strlit("movetoworkspacesilent, ");
                assert(t[0] != "movetoworkspacesilent, "@[0]);
                reveal_strlit("togglespecialworkspace");
                assert(t[0] != "togglespecialworkspace"@[0]);
                reveal_strlit("togglespecialworkspace, ");
                assert(t[0] != "togglespecialworkspace, "@[0]);
                reveal_strlit("movetospecialworkspace");
                assert(t[0] != "movetospecialworkspace"@[0]);
                reveal_strlit("movetospecialworkspace, ");
                assert(t[0] != "movetospecialworkspace, "@[0]);
                reveal_strlit("movecurrentworkspacetomonitor, ");
                assert(t[0] != "movecurrentworkspacetomonitor, "@[0]);
                reveal_strlit("splitratio, ");
                assert(t[0] != "splitratio, "@[0]);
                reveal_strlit("cyclenext");
                assert(t[0] != "cyclenext"@[0]);
                reveal_strlit("cyclenext, prev");
                assert(t[0] != "cyclenext, prev"@[0]);
                reveal_strlit("swapnext");
                assert(t[0] != "swapnext"@[0]);
                assert(t == "pin"@);
                assert(dispatch_kind_of(t) == Some(22nat));
            }
        },
        Dispatcher::Pass(_) => {
            let t = d.spec_dispatch();
            assert(dispatch_kind_of(t) == Some(23nat)) by {
                reveal_strlit("pass, ");
                assert("pass, "@.len() == 6);
                assert(t.len() >= 6);
                reveal_strlit("exec, ");
                assert(t[0] != "exec, "@[0]);
                reveal_strlit("killactive");
                assert(t[0] != "killactive"@[0]);
                reveal_strlit("forcecloseactive");
                assert(t[0] != "forcecloseactive"@[0]);
                reveal_strlit("togglefloating");
                assert(t[0] != "togglefloating"@[0]);
                reveal_strlit("fullscreen, ");
                assert(t[0] != "fullscreen, "@[0]);
                reveal_strlit("fakefullscreen");
                assert(t[0] != "fakefullscreen"@[0]);
                reveal_strlit("pseudo");
                assert(t[1] != "pseudo"@[1]);
                reveal_strlit("togglesplit");
                assert(t[0] != "togglesplit"@[0]);
                reveal_strlit("movefocus, ");
                assert(t[0] != "movefocus, "@[0]);
                reveal_strlit("swapwindow, ");
                assert(t[0] != "swapwindow, "@[0]);
                reveal_strlit("movewindow, ");
                assert(t[0] != "movewindow, "@[0]);
                reveal_strlit("resizeactive, ");
                assert(t[0] != "resizeactive, "@[0]);
                reveal_strlit("workspace, ");
                assert(t[0] != "workspace, "@[0]);
                reveal_strlit("movetoworkspace, ");
                assert(t[0] != "movetoworkspace, "@[0]);
                reveal_strlit("movetoworkspacesilent, ");
                assert(t[0] != "movetoworkspacesilent, "@[0]);
                reveal_strlit("togglespecialworkspace");
                assert(t[0] != "togglespecialworkspace"@[0]);
                reveal_strlit("togglespecialworkspace, ");
                assert(t[0] != "togglespecialworkspace, "@[0]);
                reveal_strlit("movetospecialworkspace");
                assert(t[0] != "movetospecialworkspace"@[0]);
                reveal_strlit("movetospecialworkspace, ");
                assert(t[0] != "movetospecialworkspace, "@[0]);
                reveal_strlit("movecurrentworkspacetomonitor, ");
                assert(t[0] != "movecurrentworkspacetomonitor, "@[0]);
                reveal_strlit("splitratio, ");
                assert(t[0] != "splitratio, "@[0]);
                reveal_strlit("cyclenext");
                assert(t[0] != "cyclenext"@[0]);
                reveal_strlit("cyclenext, prev");
                assert(t[0] != "cyclenext, prev"@[0]);
                reveal_strlit("swapnext");
                assert(t[0] != "swapnext"@[0]);
                reveal_strlit("pin");
                assert(t[1] != "pin"@[1]);
                assert("pass, "@.is_prefix_of(t)) by { assert(t.subrange(0, 6) =~= "pass, "@); }
                assert(dispatch_kind_of(t) == Some(23nat));
            }
        },
        Dispatcher::Custom(..) => {},
    }
}

/// Dispatchers of different kinds are written differently whatever their
/// arguments (`Custom`, whose name is free, aside): a bind always says which
/// dispatcher it runs, e.g. `movetoworkspace` is never written for
/// `movetoworkspacesilent`.
pub proof fn dispatchers_of_different_kinds_differ(a: Dispatcher, b: Dispatcher)
    requires
        a.kind() != b.kind(),
        !(a is Custom),
        !(b is Custom),
    ensures
        a.spec_dispatch() != b.spec_dispatch(),
{
    lemma_dispatch_kind(a);
    lemma_dispatch_kind(b);
}

/// Modifier flags that change bind behaviour.
#[derive(Debug, Clone, Copy)]
pub struct BindFlags {
    /// Works even when the session is locked.
    pub locked: bool,
    /// Trigger on key release rather than press.
    pub release: bool,
    /// Repeat the action while the key is held.
    pub repeat: bool,
    /// Non-consuming: the key event is also passed to the focused window.
    pub non_consuming: bool,
    /// Transparent: passes through even if the window accepts the key.
    pub transparent: bool,
    /// Inhibit IME while the key is held.
    pub inhibit_ime: bool,
    /// Mouse button binding: the keyword becomes `bindm`.
    pub mouse: bool,
}

/// `c` as a one-character text when `b` holds, the empty text otherwise.
pub open spec fn flag_char(b: bool, c: char) -> Seq<char> {
    if b {
        seq![c]
    } else {
        Seq::empty()
    }
}

impl Default for BindFlags {
    fn default() -> (r: Self)
        ensures
            r == BindFlags::spec_default(),
    {
        BindFlags {
            locked: false,
            release: false,
            repeat: false,
            non_consuming: false,
            transparent: false,
            inhibit_ime: false,
            mouse: false,
        }
    }
}

impl BindFlags {
    /// No flag set.
    pub open spec fn spec_default() -> Self {
        BindFlags {
            locked: false,
            release: false,
            repeat: false,
            non_consuming: false,
            transparent: false,
            inhibit_ime: false,
            mouse: false,
        }
    }

    /// The flag letters appended to `bind`, in the order `l r e n t i`.
    pub open spec fn spec_flags(self) -> Seq<char> {
        flag_char(self.locked, 'l') + flag_char(self.release, 'r') + flag_char(self.repeat, 'e')
            + flag_char(self.non_consuming, 'n') + flag_char(self.transparent, 't') + flag_char(
            self.inhibit_ime,
            'i',
        )
    }

    fn flag_str(&self) -> (r: String)
        ensures
            r@ == self.spec_flags(),
    {
        let mut s = String::new();
        if self.locked {
            push_char(&mut s, 'l');
        }
        if self.release {
            push_char(&mut s, 'r');
        }
        if self.repeat {
            push_char(&mut s, 'e');
        }
        if self.non_consuming {
            push_char(&mut s, 'n');
        }
        if self.transparent {
            push_char(&mut s, 't');
        }
        if self.inhibit_ime {
            push_char(&mut s, 'i');
        }
        assert(s@ =~= self.spec_flags());
        s
    }
}

/// A Hyprland keybind: `bind[flags] = MODIFIERS, key, dispatcher[, params]`.
pub struct Bind {
    pub modifiers: String,
    pub key: String,
    pub dispatcher: Dispatcher,
    pub flags: BindFlags,
}

impl Bind {
    pub fn new(modifiers: &str, key: &str, dispatcher: Dispatcher) -> (r: Self)
        ensures
            r.modifiers@ == modifiers@,
            r.key@ == key@,
            r.dispatcher == dispatcher,
            r.flags == BindFlags::spec_default(),
    {
        Bind {
            modifiers: owned(modifiers),
            key: owned(key),
            dispatcher,
            flags: BindFlags::default(),
        }
    }

    /// Works even when the screen is locked (`bindl`).
    pub fn locked(self) -> (r: Self)
        ensures
            r == (Bind { flags: BindFlags { locked: true, ..self.flags }, ..self }),
    {
        let f = BindFlags { locked: true, ..self.flags };
        Bind { flags: f, ..self }
    }

    /// Trigger on key release (`bindr`).
    pub fn release(self) -> (r: Self)
        ensures
            r == (Bind { flags: BindFlags { release: true, ..self.flags }, ..self }),
    {
        let f = BindFlags { release: true, ..self.flags };
        Bind { flags: f, ..self }
    }

    /// Repeat while held (`binde`).
    pub fn repeat(self) -> (r: Self)
        ensures
            r == (Bind { flags: BindFlags { repeat: true, ..self.flags }, ..self }),
    {
        let f = BindFlags { repeat: true, ..self.flags };
        Bind { flags: f, ..self }
    }

    /// Mouse-button binding: emits `bindm` instead of `bind`.
    pub fn mouse(self) -> (r: Self)
        ensures
            r == (Bind { flags: BindFlags { mouse: true, ..self.flags }, ..self }),
    {
        let f = BindFlags { mouse: true, ..self.flags };
        Bind { flags: f, ..self }
    }

    /// Non-consuming: also passes the key to the window (`bindn`).
    pub fn non_consuming(self) -> (r: Self)
        ensures
            r == (Bind { flags: BindFlags { non_consuming: true, ..self.flags }, ..self }),
    {
        let f = BindFlags { non_consuming: true, ..self.flags };
        Bind { flags: f, ..self }
    }

    /// The keyword of the line: `bindm` for mouse binds, else `bind` and the flags.
    pub open spec fn spec_keyword(&self) -> Seq<char> {
        if self.flags.mouse {
            "bindm"@
        } else {
            "bind"@ + self.flags.spec_flags()
        }
    }
}

/// The message of the error for a bind with an empty key.
pub open spec fn empty_bind_key_message() -> Seq<char> {
    "Bind key cannot be empty"@
}

/// A bind line ends with its modifiers, its key and the text of its
/// dispatcher: `… = MODS, key, <dispatcher>`.
pub proof fn bind_line_ends_with_its_action(b: Bind, ctx: HyprlandRenderContext)
    ensures
        (" = "@ + b.modifiers@ + ", "@ + b.key@ + ", "@ + b.dispatcher.spec_dispatch()).is_suffix_of(
            b.spec_render(ctx),
        ),
{
    let t = " = "@ + b.modifiers@ + ", "@ + b.key@ + ", "@ + b.dispatcher.spec_dispatch();
    let h = ctx.spec_indent() + b.spec_keyword();
    assert(b.spec_render(ctx) =~= h + t);
    assert((h + t).subrange(h.len() as int, (h + t).len() as int) =~= t);
}

impl HyprlandConfig for Bind {
    open spec fn spec_render(&self, ctx: HyprlandRenderContext) -> Seq<char> {
        ctx.spec_indent() + self.spec_keyword() + " = "@ + self.modifiers@ + ", "@ + self.key@
            + ", "@ + self.dispatcher.spec_dispatch()
    }

    open spec fn spec_validate(&self) -> Result<(), Seq<char>> {
        if self.key@.len() == 0 {
            Err(empty_bind_key_message())
        } else {
            Ok(())
        }
    }

    fn render(&self, ctx: &HyprlandRenderContext) -> (r: String) {
        let keyword = if self.flags.mouse {
            owned("bindm")
        } else {
            let flags = self.flags.flag_str();
            cat2("bind", flags.as_str())
        };
        let dispatch = self.dispatcher.to_dispatch_str();
        let ind = ctx.indent();
        let head = cat3(ind.as_str(), keyword.as_str(), " = ");
        let mid = cat3(self.modifiers.as_str(), ", ", self.key.as_str());
        let r = cat3(head.as_str(), mid.as_str(), ", ");
        let r = cat2(r.as_str(), dispatch.as_str());
        assert(r@ =~= self.spec_render(*ctx));
        r
    }

    fn validate(&self) -> (r: Result<(), String>) {
        if is_empty_str(self.key.as_str()) {
            return Err(owned("Bind key cannot be empty"));
        }
        Ok(())
    }
}

} // verus!
