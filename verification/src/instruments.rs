//! Instrument capture records and the decisions taken over them: building
//! the per-window record, marking the selected instrument, and planning the
//! window repositioning and click synthesis that the platform layer carries
//! out.

use vstd::prelude::*;

verus! {

use crate::crop::CropRect;
use crate::crop::find_crop_for_instruments;
use crate::locator::{PopOutWindow, PopoutRec, WindowInfo, spec_popouts, spec_sim_hwnd};
use crate::locator::{POPOUT_HEIGHT, POPOUT_WIDTH, get_sim_hwnd, mcdu_title, unknown_title};
use crate::strutil::str_eq;

/// One raw captured client area: encoded bytes and pixel dimensions.
pub struct WindowCapture {
    pub buf: Vec<u8>,
    pub width: u16,
    pub height: u16,
}

/// One instrument capture result: the window it came from, its dimensions,
/// its kind tag, the encoded frame, the crop chosen for it, and the
/// per-window flags.
pub struct InstrumentRgb {
    pub hwnd: isize,
    pub height: u16,
    pub width: u16,
    pub instrument: String,
    pub jpeg_bytes: Vec<u8>,
    pub excluded: bool,
    pub auto_hide: bool,
    pub selected: bool,
    pub crop: CropRect,
}

/// The wire form of one instrument record: the same fields minus the crop.
pub struct InstrumentResponse {
    pub hwnd: isize,
    pub height: u16,
    pub width: u16,
    pub instrument: String,
    pub excluded: bool,
    pub auto_hide: bool,
    pub selected: bool,
    pub jpeg_bytes: Vec<u8>,
}

/// One window repositioning the platform layer must carry out.
#[derive(Clone, Copy, PartialEq, Eq, Structural, Debug)]
pub enum WindowAction {
    /// Park the window off-screen.
    Hide(isize),
    /// Move the window to an explicit rectangle.
    Move { hwnd: isize, top: i32, left: i32, width: i32, height: i32 },
    /// Resize the window to the given size, keeping its current origin.
    ResizeInPlace { hwnd: isize, width: i32, height: i32 },
}

/// Builds the capture record of one pop-out window: the centered square
/// crop of its capture, hiding on, not excluded, not selected.
pub fn make_instrument(hw: &PopOutWindow, capture: WindowCapture) -> (r: InstrumentRgb)
    ensures
        r.hwnd == hw.hwnd,
        r.height == capture.height,
        r.width == capture.width,
        r.instrument@ == hw.title@,
        r.jpeg_bytes == capture.buf,
        r.auto_hide == true,
        r.excluded == false,
        r.selected == false,
        r.crop == crate::crop::square_crop_spec(capture.width as int, capture.height as int),
        r.crop.fits(capture.width as int, capture.height as int),
        r.crop.width == r.crop.height,
{
    let crop: CropRect = find_crop_for_instruments(capture.width as u32, capture.height as u32);
    InstrumentRgb {
        hwnd: hw.hwnd,
        height: capture.height,
        width: capture.width,
        crop,
        instrument: hw.title.clone(),
        jpeg_bytes: capture.buf,
        auto_hide: true,
        excluded: false,
        selected: false,
    }
}

/// A byte-for-byte copy of an encoded frame.
pub fn copy_bytes(v: &Vec<u8>) -> (r: Vec<u8>)
    ensures
        r@ == v@,
{
    let mut out: Vec<u8> = Vec::new();
    let n: usize = v.len();
    let mut i: usize = 0;
    while i < n
        invariant
            n == v@.len(),
            0 <= i <= n,
            out@ == v@.subrange(0, i as int),
        decreases n - i,
    {
        out.push(v[i]);
        proof {
            assert(out@ =~= v@.subrange(0, i + 1));
        }
        i = i + 1;
    }
    proof {
        assert(v@.subrange(0, n as int) =~= v@);
    }
    out
}

/// Strips the capture records down to their wire form, one response per
/// record, with every field carried over and the crop dropped.
pub fn to_responses(input: &Vec<InstrumentRgb>) -> (r: Vec<InstrumentResponse>)
    ensures
        r@.len() == input@.len(),
        forall|k: int|
            0 <= k < input@.len() ==> {
                let src = #[trigger] input@[k];
                let dst = r@[k];
                &&& dst.hwnd == src.hwnd
                &&& dst.height == src.height
                &&& dst.width == src.width
                &&& dst.instrument == src.instrument
                &&& dst.auto_hide == src.auto_hide
                &&& dst.excluded == src.excluded
                &&& dst.jpeg_bytes@ == src.jpeg_bytes@
                &&& dst.selected == src.selected
            },
{
    let mut out: Vec<InstrumentResponse> = Vec::new();
    let n: usize = input.len();
    let mut i: usize = 0;
    while i < n
        invariant
            n == input@.len(),
            0 <= i <= n,
            out@.len() == i,
            forall|k: int|
                0 <= k < i ==> {
                    let src = #[trigger] input@[k];
                    let dst = out@[k];
                    &&& dst.hwnd == src.hwnd
                    &&& dst.height == src.height
                    &&& dst.width == src.width
                    &&& dst.instrument == src.instrument
                    &&& dst.auto_hide == src.auto_hide
                    &&& dst.excluded == src.excluded
                    &&& dst.jpeg_bytes@ == src.jpeg_bytes@
                    &&& dst.selected == src.selected
                },
        decreases n - i,
    {
        let src: &InstrumentRgb = &input[i];
        out.push(
            InstrumentResponse {
                hwnd: src.hwnd,
                height: src.height,
                width: src.width,
                instrument: src.instrument.clone(),
                auto_hide: src.auto_hide,
                excluded: src.excluded,
                jpeg_bytes: copy_bytes(&src.jpeg_bytes),
                selected: src.selected,
            },
        );
        i = i + 1;
    }
    out
}

/// The pop-out the selection step acts on: the only one when a single
/// pop-out was found, the explicitly selected handle otherwise.
pub open spec fn selection_target(list: Seq<InstrumentRgb>, selected_hwnd: Option<isize>) -> isize {
    if list.len() == 1 {
        list[0].hwnd
    } else if selected_hwnd is Some {
        selected_hwnd->0
    } else {
        0isize
    }
}

/// Whether the selection step acts at all: only when a single pop-out was
/// found or one was explicitly selected, and a hiding preference was given.
pub open spec fn selection_applies(
    list: Seq<InstrumentRgb>,
    auto_hide: Option<bool>,
    selected_hwnd: Option<isize>,
) -> bool {
    (list.len() == 1 || selected_hwnd is Some) && auto_hide is Some
}

/// How one record is rewritten when it is the selection target: it becomes
/// selected, and an unknown kind is pinned to the control-display unit.
pub open spec fn selected_form(r: InstrumentRgb, old_r: InstrumentRgb) -> bool {
    &&& r.hwnd == old_r.hwnd
    &&& r.height == old_r.height
    &&& r.width == old_r.width
    &&& r.jpeg_bytes == old_r.jpeg_bytes
    &&& r.excluded == old_r.excluded
    &&& r.auto_hide == old_r.auto_hide
    &&& r.crop == old_r.crop
    &&& r.selected == true
    &&& r.instrument@ == (if old_r.instrument@ == "UNKNOWN"@ {
        "FMS"@
    } else {
        old_r.instrument@
    })
}

/// Marks the selected instrument in a freshly built capture list and plans
/// the repositioning of its window: hidden off-screen when hiding is on,
/// resized to the canonical pop-out size in place otherwise. Acts only when
/// a single pop-out was found or one was explicitly selected, and only with
/// an explicit hiding preference; otherwise the list is left untouched.
pub fn apply_selection(
    rgb_list: &mut Vec<InstrumentRgb>,
    auto_hide: Option<bool>,
    selected_hwnd: Option<isize>,
) -> (actions: Vec<WindowAction>)
    ensures
        final(rgb_list)@.len() == old(rgb_list)@.len(),
        !selection_applies(old(rgb_list)@, auto_hide, selected_hwnd) ==> final(rgb_list)@ == old(
            rgb_list)@ && actions@ == Seq::<WindowAction>::empty(),
        selection_applies(old(rgb_list)@, auto_hide, selected_hwnd) ==> {
            let target = selection_target(old(rgb_list)@, selected_hwnd);
            let act = if auto_hide->0 {
                WindowAction::Hide(target)
            } else {
                WindowAction::ResizeInPlace { hwnd: target, width: 700, height: 700 }
            };
            &&& forall|i: int|
                0 <= i < old(rgb_list)@.len() && old(rgb_list)@[i].hwnd != target ==> final(
                    rgb_list)@[i] == old(rgb_list)@[i]
            &&& forall|i: int|
                0 <= i < old(rgb_list)@.len() && old(rgb_list)@[i].hwnd == target
                    ==> selected_form(#[trigger] final(rgb_list)@[i], old(rgb_list)@[i])
            &&& actions@.len() == old(rgb_list)@.filter(
                |r: InstrumentRgb| r.hwnd == target,
            ).len()
            &&& forall|j: int| 0 <= j < actions@.len() ==> actions@[j] == act
        },
{
    let mut actions: Vec<WindowAction> = Vec::new();
    let applies: bool = (rgb_list.len() == 1 || selected_hwnd.is_some()) && auto_hide.is_some();
    if !applies {
        return actions;
    }
    let hide_res: bool = match auto_hide {
        Some(b) => b,
        None => false,
    };
    let target: isize = if rgb_list.len() == 1 {
        rgb_list[0].hwnd
    } else {
        match selected_hwnd {
            Some(h) => h,
            None => 0,
        }
    };
    let act: WindowAction = if hide_res {
        WindowAction::Hide(target)
    } else {
        WindowAction::ResizeInPlace { hwnd: target, width: POPOUT_WIDTH, height: POPOUT_HEIGHT }
    };
    let ghost orig = rgb_list@;
    let n: usize = rgb_list.len();
    let mut i: usize = 0;
    while i < n
        invariant
            n == rgb_list@.len(),
            rgb_list@.len() == orig.len(),
            0 <= i <= n,
            forall|k: int| i <= k < n ==> rgb_list@[k] == orig[k],
            forall|k: int|
                0 <= k < i && orig[k].hwnd != target ==> rgb_list@[k] == orig[k],
            forall|k: int|
                0 <= k < i && orig[k].hwnd == target ==> selected_form(
                    #[trigger] rgb_list@[k],
                    orig[k],
                ),
            actions@.len() == orig.subrange(0, i as int).filter(
                |r: InstrumentRgb| r.hwnd == target,
            ).len(),
            forall|j: int| 0 <= j < actions@.len() ==> actions@[j] == act,
        decreases n - i,
    {
        proof {
            let sub1 = orig.subrange(0, i + 1);
            assert(sub1.drop_last() =~= orig.subrange(0, i as int));
            assert(sub1.last() == orig[i as int]);
            reveal(Seq::filter);
        }
        if rgb_list[i].hwnd == target {
            if str_eq(rgb_list[i].instrument.as_str(), unknown_title()) {
                rgb_list[i].instrument = String::from_str(mcdu_title());
            }
            rgb_list[i].selected = true;
            actions.push(act);
        }
        i = i + 1;
    }
    proof {
        assert(orig.subrange(0, n as int) =~= orig);
    }
    actions
}

/// The repositioning plan that restores every pop-out window to the
/// canonical on-screen rectangle. The flag is false, with no actions, when
/// the simulator's main window cannot be found.
pub fn restore_all(window_ls: &Vec<WindowInfo>) -> (r: (bool, Vec<WindowAction>))
    ensures
        r.0 == (spec_sim_hwnd(window_ls@) != 0),
        !r.0 ==> r.1@ == Seq::<WindowAction>::empty(),
        r.0 ==> {
            let pops = spec_popouts(window_ls@, spec_sim_hwnd(window_ls@));
            &&& r.1@.len() == pops.len()
            &&& forall|j: int|
                0 <= j < pops.len() ==> r.1@[j] == (WindowAction::Move {
                    hwnd: (#[trigger] pops[j]).hwnd as isize,
                    top: 0,
                    left: 0,
                    width: 700,
                    height: 700,
                })
        },
{
    plan_for_all_popouts(window_ls, false)
}

/// The repositioning plan that parks every pop-out window off-screen. The
/// flag is false, with no actions, when the simulator's main window cannot
/// be found.
pub fn hide_all(window_ls: &Vec<WindowInfo>) -> (r: (bool, Vec<WindowAction>))
    ensures
        r.0 == (spec_sim_hwnd(window_ls@) != 0),
        !r.0 ==> r.1@ == Seq::<WindowAction>::empty(),
        r.0 ==> {
            let pops = spec_popouts(window_ls@, spec_sim_hwnd(window_ls@));
            &&& r.1@.len() == pops.len()
            &&& forall|j: int|
                0 <= j < pops.len() ==> r.1@[j] == WindowAction::Hide(
                    (#[trigger] pops[j]).hwnd as isize,
                )
        },
{
    plan_for_all_popouts(window_ls, true)
}

/// One repositioning action per pop-out of the enumerated list: parking it
/// off-screen, or moving it to the canonical on-screen rectangle.
fn plan_for_all_popouts(window_ls: &Vec<WindowInfo>, hide: bool) -> (r: (bool, Vec<WindowAction>))
    ensures
        r.0 == (spec_sim_hwnd(window_ls@) != 0),
        !r.0 ==> r.1@ == Seq::<WindowAction>::empty(),
        r.0 ==> {
            let pops = spec_popouts(window_ls@, spec_sim_hwnd(window_ls@));
            &&& r.1@.len() == pops.len()
            &&& forall|j: int|
                0 <= j < pops.len() ==> r.1@[j] == action_for(#[trigger] pops[j], hide)
        },
{
    let sim: isize = get_sim_hwnd(window_ls);
    let mut actions: Vec<WindowAction> = Vec::new();
    if sim == 0 {
        return (false, actions);
    }
    let n: usize = window_ls.len();
    let mut i: usize = 0;
    while i < n
        invariant
            n == window_ls@.len(),
            0 <= i <= n,
            sim == spec_sim_hwnd(window_ls@),
            sim != 0,
            ({
                let pops = spec_popouts(window_ls@.subrange(0, i as int), sim);
                &&& actions@.len() == pops.len()
                &&& forall|j: int|
                    0 <= j < pops.len() ==> actions@[j] == action_for(#[trigger] pops[j], hide)
            }),
        decreases n - i,
    {
        proof {
            let sub1 = window_ls@.subrange(0, i + 1);
            assert(sub1.drop_last() =~= window_ls@.subrange(0, i as int));
            assert(sub1.last() == window_ls@[i as int]);
        }
        let w: &WindowInfo = &window_ls[i];
        if str_eq(w.title.as_str(), crate::locator::default_title()) || w.owner == sim {
            if hide {
                actions.push(WindowAction::Hide(w.hwnd));
            } else {
                actions.push(
                    WindowAction::Move {
                        hwnd: w.hwnd,
                        top: 0,
                        left: 0,
                        width: POPOUT_WIDTH,
                        height: POPOUT_HEIGHT,
                    },
                );
            }
        }
        i = i + 1;
    }
    proof {
        assert(window_ls@.subrange(0, n as int) =~= window_ls@);
    }
    (true, actions)
}

/// The action planned for one pop-out record.
pub open spec fn action_for(p: PopoutRec, hide: bool) -> WindowAction {
    if hide {
        WindowAction::Hide(p.hwnd as isize)
    } else {
        WindowAction::Move { hwnd: p.hwnd as isize, top: 0, left: 0, width: 700, height: 700 }
    }
}

/// The cursor motion and normalized click coordinates for one synthesized
/// touch on the selected window.
#[derive(Clone, Copy, PartialEq, Eq, Structural, Debug)]
pub struct TouchPlan {
    pub move_x: i32,
    pub move_y: i32,
    pub abs_x: i32,
    pub abs_y: i32,
}

/// Plans a synthesized click at window-relative coordinates: the cursor
/// target in screen coordinates, and the click position normalized to the
/// 0..65536 range the input synthesis expects. No click is planned when no
/// window is pinned.
pub fn plan_touch(
    x_pos: u16,
    y_pos: u16,
    hwnd: isize,
    rect_left: i32,
    rect_top: i32,
    click_x: i32,
    click_y: i32,
    screen_w: i32,
    screen_h: i32,
) -> (r: Option<TouchPlan>)
    requires
        rect_left + x_pos <= i32::MAX,
        rect_top + y_pos <= i32::MAX,
        0 <= click_x <= 32767,
        0 <= click_y <= 32767,
        1 <= screen_w,
        1 <= screen_h,
    ensures
        r is Some <==> hwnd != 0,
        r matches Some(p) ==> p == (TouchPlan {
            move_x: (rect_left + x_pos) as i32,
            move_y: (rect_top + y_pos) as i32,
            abs_x: ((click_x * 65536) / (screen_w as int)) as i32,
            abs_y: ((click_y * 65536) / (screen_h as int)) as i32,
        }),
{
    if hwnd == 0 {
        return None;
    }
    let abs_x: i32 = (click_x * 65536) / screen_w;
    let abs_y: i32 = (click_y * 65536) / screen_h;
    proof {
        vstd::arithmetic::div_mod::lemma_div_is_ordered(0, (click_x * 65536) as int, screen_w as int);
        vstd::arithmetic::div_mod::lemma_div_is_ordered(0, (click_y * 65536) as int, screen_h as int);
        vstd::arithmetic::div_mod::lemma_div_is_ordered_by_denominator(
            (click_x * 65536) as int,
            1,
            screen_w as int,
        );
        vstd::arithmetic::div_mod::lemma_div_is_ordered_by_denominator(
            (click_y * 65536) as int,
            1,
            screen_h as int,
        );
    }
    Some(
        TouchPlan {
            move_x: rect_left + x_pos as i32,
            move_y: rect_top + y_pos as i32,
            abs_x,
            abs_y,
        },
    )
}

} // verus!
