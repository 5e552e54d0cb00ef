//! Start-up decisions of the host process: which session it runs in, where
//! the overlay program and the built frontend are looked for, and what to do
//! with the result.

use vstd::prelude::*;

use crate::protocol::text_eq;

verus! {

/// Output of a finished shell command.
#[derive(Clone, Debug)]
pub struct CommandOutput {
    pub stdout: String,
    pub stderr: String,
    pub exit_code: i32,
}

/// Facts about the machine, for the assistant's prompts.
#[derive(Clone, Debug)]
pub struct SystemInfo {
    pub os: String,
    pub arch: String,
    pub distro: Option<String>,
    pub shell: Option<String>,
    pub package_manager: Option<String>,
}

/// What the host does at start-up.
#[derive(Clone, Copy, Debug, PartialEq, Eq, Structural)]
pub enum Startup {
    /// Start the layer-shell overlay program and leave.
    LaunchOverlay,
    /// A Wayland session without the overlay program: fail.
    OverlayMissing,
    /// Not a Wayland session: fail.
    NotWayland,
}

/// A Wayland session: the session type says so, or a Wayland display is set.
pub open spec fn is_wayland_session(session_type: Option<Seq<char>>, wayland_display_set: bool) -> bool {
    session_type == Some("wayland"@) || wayland_display_set
}

/// Whether the session is a Wayland one, from the session-type variable (if
/// set) and whether a Wayland display variable is set.
pub fn is_wayland(session_type: Option<&str>, wayland_display_set: bool) -> (r: bool)
    ensures
        r == is_wayland_session(
            match session_type {
                Some(s) => Some(s@),
                None => None,
            },
            wayland_display_set,
        ),
{
    let by_type = match session_type {
        Some(s) => text_eq(s, "wayland"),
        None => false,
    };
    by_type || wayland_display_set
}

/// The characters of each string.
pub open spec fn views(v: Seq<String>) -> Seq<Seq<char>> {
    v.map_values(|s: String| s@)
}

/// Where the overlay program is looked for, in order: the two build outputs
/// beside the host's directory and below it, the directory of the host's own
/// executable when known, then the system's binary directories.
pub open spec fn overlay_binary_candidates_of(exe_dir: Option<Seq<char>>) -> Seq<Seq<char>> {
    seq![
        "../desktop-waifu-overlay/target/release/desktop-waifu-overlay"@,
        "../desktop-waifu-overlay/target/debug/desktop-waifu-overlay"@,
        "desktop-waifu-overlay/target/release/desktop-waifu-overlay"@,
        "desktop-waifu-overlay/target/debug/desktop-waifu-overlay"@,
    ] + match exe_dir {
        Some(d) => seq![d + "/desktop-waifu-overlay"@],
        None => seq![],
    } + seq!["/usr/bin/desktop-waifu-overlay"@, "/usr/local/bin/desktop-waifu-overlay"@]
}

/// Where the built frontend is looked for, in order.
pub open spec fn dist_dir_candidates_of(exe_dir: Option<Seq<char>>) -> Seq<Seq<char>> {
    seq!["../dist"@, "dist"@] + match exe_dir {
        Some(d) => seq![d + "/dist"@],
        None => seq![],
    } + seq!["/usr/share/desktop-waifu/dist"@, "/usr/local/share/desktop-waifu/dist"@]
}

/// Lists the paths where the overlay program is looked for, in order.
pub fn overlay_binary_candidates(exe_dir: Option<String>) -> (r: Vec<String>)
    ensures
        views(r@) == overlay_binary_candidates_of(
            match exe_dir {
                Some(d) => Some(d@),
                None => None,
            },
        ),
{
    let mut r: Vec<String> = Vec::new();
    r.push(String::from_str("../desktop-waifu-overlay/target/release/desktop-waifu-overlay"));
    r.push(String::from_str("../desktop-waifu-overlay/target/debug/desktop-waifu-overlay"));
    r.push(String::from_str("desktop-waifu-overlay/target/release/desktop-waifu-overlay"));
    r.push(String::from_str("desktop-waifu-overlay/target/debug/desktop-waifu-overlay"));
    match exe_dir {
        Some(d) => r.push(d.concat("/desktop-waifu-overlay")),
        None => {},
    }
    r.push(String::from_str("/usr/bin/desktop-waifu-overlay"));
    r.push(String::from_str("/usr/local/bin/desktop-waifu-overlay"));
    assert(views(r@) =~= overlay_binary_candidates_of(
        match exe_dir {
            Some(d) => Some(d@),
            None => None,
        },
    ));
    r
}

/// Lists the directories where the built frontend is looked for, in order.
pub fn dist_dir_candidates(exe_dir: Option<String>) -> (r: Vec<String>)
    ensures
        views(r@) == dist_dir_candidates_of(
            match exe_dir {
                Some(d) => Some(d@),
                None => None,
            },
        ),
{
    let mut r: Vec<String> = Vec::new();
    r.push(String::from_str("../dist"));
    r.push(String::from_str("dist"));
    match exe_dir {
        Some(d) => r.push(d.concat("/dist")),
        None => {},
    }
    r.push(String::from_str("/usr/share/desktop-waifu/dist"));
    r.push(String::from_str("/usr/local/share/desktop-waifu/dist"));
    assert(views(r@) =~= dist_dir_candidates_of(
        match exe_dir {
            Some(d) => Some(d@),
            None => None,
        },
    ));
    r
}

/// The first candidate that passed its check, given one result per candidate.
pub fn first_usable(usable: &Vec<bool>) -> (r: Option<usize>)
    ensures
        r matches Some(i) ==> i < usable@.len() && usable@[i as int] && forall|j: int|
            0 <= j < i ==> !usable@[j],
        r is None ==> forall|j: int| 0 <= j < usable@.len() ==> !usable@[j],
{
    let mut i: usize = 0;
    while i < usable.len()
        invariant
            i <= usable@.len(),
            forall|j: int| 0 <= j < i ==> !usable@[j],
        decreases usable@.len() - i,
    {
        if usable[i] {
            return Some(i);
        }
        i += 1;
    }
    None
}

/// Whether the overlay program was found, given for each candidate whether it
/// is an executable file.
pub fn is_overlay_available(usable: &Vec<bool>) -> (r: bool)
    ensures
        r == exists|j: int| 0 <= j < usable@.len() && usable@[j],
{
    first_usable(usable).is_some()
}

/// What to do at start-up.
pub fn startup(wayland: bool, overlay_available: bool) -> (r: Startup)
    ensures
        !wayland ==> r == Startup::NotWayland,
        wayland && overlay_available ==> r == Startup::LaunchOverlay,
        wayland && !overlay_available ==> r == Startup::OverlayMissing,
{
    if !wayland {
        Startup::NotWayland
    } else if overlay_available {
        Startup::LaunchOverlay
    } else {
        Startup::OverlayMissing
    }
}

} // verus!
