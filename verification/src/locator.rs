//! Window discovery: finding the simulator's main window among all
//! top-level windows and collecting the pop-out instrument windows it owns.
//!
//! Enumerating the OS windows is platform work done by the caller; this
//! module classifies an already-enumerated list.

use vstd::prelude::*;

verus! {

use crate::strutil::{contains_seq, contains_str, str_eq};

/// Canonical width of a pop-out window when repositioned.
pub const POPOUT_WIDTH: i32 = 700;

/// Canonical height of a pop-out window when repositioned.
pub const POPOUT_HEIGHT: i32 = 700;

/// The title prefix of the simulator's main window.
pub fn msfs_title() -> (r: &'static str)
    ensures
        r@ == "Microsoft Flight Simulator - "@,
{
    "Microsoft Flight Simulator - "
}

/// The default title the simulator gives an instrument pop-out window.
pub fn default_title() -> (r: &'static str)
    ensures
        r@ == "WASMINSTRUMENT"@,
{
    "WASMINSTRUMENT"
}

/// The placeholder kind for a pop-out whose instrument is not yet known.
pub fn unknown_title() -> (r: &'static str)
    ensures
        r@ == "UNKNOWN"@,
{
    "UNKNOWN"
}

/// The kind tag of the primary control-display unit.
pub fn mcdu_title() -> (r: &'static str)
    ensures
        r@ == "FMS"@,
{
    "FMS"
}

/// One enumerated OS top-level window: its handle, its title, and the
/// handle of its owner window (zero when it has none).
pub struct WindowInfo {
    pub hwnd: isize,
    pub title: String,
    pub owner: isize,
}

/// One pop-out instrument window: its handle and its instrument kind, the
/// "unknown" placeholder when the window still carries the default title.
pub struct PopOutWindow {
    pub title: String,
    pub hwnd: isize,
}

/// Discovery failure: no window belongs to the simulator's main pattern.
#[derive(Clone, Copy, PartialEq, Eq, Structural, Debug)]
pub enum LocateError {
    NotFound,
}

/// Whether a window is the simulator's main window: its title carries the
/// simulator's title prefix.
pub open spec fn is_sim_window(w: WindowInfo) -> bool {
    contains_seq(w.title@, "Microsoft Flight Simulator - "@)
}

/// The handle of the first window in the list that is the simulator's main
/// window, or zero when there is none.
pub open spec fn spec_sim_hwnd(ls: Seq<WindowInfo>) -> isize
    decreases ls.len(),
{
    if ls.len() == 0 {
        0isize
    } else if is_sim_window(ls[0]) {
        ls[0].hwnd
    } else {
        spec_sim_hwnd(ls.drop_first())
    }
}

/// The handle of the simulator's main window within an enumerated list,
/// zero when the simulator is not running.
pub fn get_sim_hwnd(window_ls: &Vec<WindowInfo>) -> (r: isize)
    ensures
        r == spec_sim_hwnd(window_ls@),
{
    let n: usize = window_ls.len();
    let mut i: usize = 0;
    proof {
        assert(window_ls@.skip(0) =~= window_ls@);
    }
    while i < n
        invariant
            n == window_ls@.len(),
            0 <= i <= n,
            spec_sim_hwnd(window_ls@) == spec_sim_hwnd(window_ls@.skip(i as int)),
            forall|k: int| 0 <= k < i ==> !is_sim_window(#[trigger] window_ls@[k]),
        decreases n - i,
    {
        proof {
            assert(window_ls@.skip(i as int)[0] == window_ls@[i as int]);
            assert(window_ls@.skip(i as int).drop_first() =~= window_ls@.skip(i + 1));
        }
        if contains_str(window_ls[i].title.as_str(), msfs_title()) {
            return window_ls[i].hwnd;
        }
        i = i + 1;
    }
    proof {
        assert(window_ls@.skip(n as int) =~= Seq::<WindowInfo>::empty());
    }
    0
}

/// Whether an enumerated window is a pop-out instrument of the simulator:
/// it either carries the default instrument title or is owned by the
/// simulator's main window.
pub open spec fn is_popout(w: WindowInfo, sim: isize) -> bool {
    w.title@ == "WASMINSTRUMENT"@ || w.owner == sim
}

/// The instrument kind recorded for a pop-out: the default title maps to
/// the "unknown" placeholder, any other title is kept.
pub open spec fn popout_title(w: WindowInfo) -> Seq<char> {
    if w.title@ == "WASMINSTRUMENT"@ {
        "UNKNOWN"@
    } else {
        w.title@
    }
}

/// A ghost record of one pop-out entry: handle and kind characters.
pub struct PopoutRec {
    pub hwnd: int,
    pub title: Seq<char>,
}

/// The ghost record of one concrete pop-out entry.
pub open spec fn popout_rec(p: PopOutWindow) -> PopoutRec {
    PopoutRec { hwnd: p.hwnd as int, title: p.title@ }
}

/// The pop-out entries of an enumerated window list, in enumeration order:
/// every window classified as a pop-out of `sim`, with its mapped kind.
pub open spec fn spec_popouts(ls: Seq<WindowInfo>, sim: isize) -> Seq<PopoutRec>
    decreases ls.len(),
{
    if ls.len() == 0 {
        Seq::empty()
    } else {
        let front = spec_popouts(ls.drop_last(), sim);
        if is_popout(ls.last(), sim) {
            front.push(PopoutRec { hwnd: ls.last().hwnd as int, title: popout_title(ls.last()) })
        } else {
            front
        }
    }
}

/// Collects the simulator's pop-out instrument windows from an enumerated
/// window list. Fails with `NotFound` exactly when no enumerated window is
/// the simulator's main window; finding zero pop-outs is a valid empty
/// result.
pub fn find_popup_windows(window_ls: &Vec<WindowInfo>) -> (r: Result<
    Vec<PopOutWindow>,
    LocateError,
>)
    ensures
        r is Err <==> spec_sim_hwnd(window_ls@) == 0,
        r matches Ok(v) ==> v@.map_values(|p: PopOutWindow| popout_rec(p)) == spec_popouts(
            window_ls@,
            spec_sim_hwnd(window_ls@),
        ),
{
    let fs_hwnd: isize = get_sim_hwnd(window_ls);
    if fs_hwnd == 0 {
        return Err(LocateError::NotFound);
    }
    let n: usize = window_ls.len();
    let mut process_ls: Vec<PopOutWindow> = Vec::new();
    let mut i: usize = 0;
    while i < n
        invariant
            n == window_ls@.len(),
            0 <= i <= n,
            fs_hwnd == spec_sim_hwnd(window_ls@),
            process_ls@.map_values(|p: PopOutWindow| popout_rec(p)) == spec_popouts(
                window_ls@.subrange(0, i as int),
                fs_hwnd,
            ),
        decreases n - i,
    {
        let w: &WindowInfo = &window_ls[i];
        proof {
            let sub1 = window_ls@.subrange(0, i + 1);
            assert(sub1.drop_last() =~= window_ls@.subrange(0, i as int));
            assert(sub1.last() == window_ls@[i as int]);
        }
        let ghost prev = process_ls@;
        if str_eq(w.title.as_str(), default_title()) || w.owner == fs_hwnd {
            let title: String = if str_eq(w.title.as_str(), default_title()) {
                String::from_str(unknown_title())
            } else {
                w.title.clone()
            };
            let entry = PopOutWindow { hwnd: w.hwnd, title };
            process_ls.push(entry);
            proof {
                assert(process_ls@.map_values(|p: PopOutWindow| popout_rec(p)) =~= prev.map_values(
                    |p: PopOutWindow| popout_rec(p),
                ).push(popout_rec(process_ls@.last())));
            }
        }
        i = i + 1;
    }
    proof {
        assert(window_ls@.subrange(0, n as int) =~= window_ls@);
    }
    Ok(process_ls)
}

} // verus!
