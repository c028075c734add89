//! The discovery-driven selection of the streamed instrument: how a fresh
//! window scan pins one window and its crop in the shared subscription
//! state, how an explicit handle choice does the same, and how per-window
//! flags are edited.

use vstd::prelude::*;

verus! {

use crate::actor::SubscriptionState;
use crate::addon::{AddonConfig, contains_string, spec_crop_for, wf_addon_config};
use crate::instruments::InstrumentRgb;
use crate::strutil::str_eq;

/// Whether one discovered instrument pins itself during a scan: its kind
/// is the control-display unit's early tag, or one of the table's custom
/// pop-out titles, or it is the only window found.
pub open spec fn discovery_matches(
    img: InstrumentRgb,
    popout_titles: Seq<Seq<char>>,
    total: int,
) -> bool {
    img.instrument@ == "MCDU"@ || popout_titles.contains(img.instrument@) || total == 1
}

/// The instrument-search key a pinned window sets: its own kind when that
/// is a concrete one, the aircraft name when the kind is still the unknown
/// placeholder or the generic control-display tag.
pub open spec fn search_of(img: InstrumentRgb, aircraft: Seq<char>) -> Seq<char> {
    if img.instrument@ != "UNKNOWN"@ && img.instrument@ != "FMS"@ {
        img.instrument@
    } else {
        aircraft
    }
}

/// The window a scan pins, scanning in order with the last match winning:
/// its handle and the search key it sets, or nothing when no window
/// matches.
pub open spec fn last_selection(
    ws: Seq<InstrumentRgb>,
    popout_titles: Seq<Seq<char>>,
    total: int,
    aircraft: Seq<char>,
) -> Option<(isize, Seq<char>)>
    decreases ws.len(),
{
    if ws.len() == 0 {
        None
    } else if discovery_matches(ws.last(), popout_titles, total) {
        Some((ws.last().hwnd, search_of(ws.last(), aircraft)))
    } else {
        last_selection(ws.drop_last(), popout_titles, total, aircraft)
    }
}

/// Applies a fresh window scan to the shared subscription state: every
/// discovered instrument that is the control-display unit's early tag, a
/// custom pop-out of the table, or the only window found, pins itself —
/// the last such window wins. Pinning sets the window handle, the
/// table-derived crop at the canonical pop-out size, and the
/// instrument-search key. Without a match everything is left as it was;
/// the roster and the broadcaster flag are never touched.
pub fn update_selection_from_discovery(
    sub: &mut SubscriptionState,
    instrument_search: &mut String,
    addon: &AddonConfig,
    wndows: &Vec<InstrumentRgb>,
    aircraft: &str,
    popout_lst: &Vec<String>,
)
    requires
        wf_addon_config(*addon),
    ensures
        final(sub).roster@ == old(sub).roster@,
        final(sub).broadcast_started == old(sub).broadcast_started,
        ({
            let sel = last_selection(
                wndows@,
                popout_lst@.map_values(|s: String| s@),
                wndows@.len() as int,
                aircraft@,
            );
            match sel {
                None => final(sub).selected_hwnd == old(sub).selected_hwnd && final(sub).active_crop == old(sub).active_crop && final(instrument_search)@ == old(instrument_search)@,
                Some(s) => final(sub).selected_hwnd == s.0 && final(instrument_search)@ == s.1
                    && final(sub).active_crop == spec_crop_for(*addon, aircraft@, 700, 700),
            }
        }),
{
    proof {
        reveal_strlit("MCDU");
        reveal_strlit("UNKNOWN");
        reveal_strlit("FMS");
    }
    let total: usize = wndows.len();
    let crop = addon.calculate_crop(aircraft, 700, 700);
    let n: usize = wndows.len();
    let mut i: usize = 0;
    while i < n
        invariant
            n == wndows@.len(),
            total == n,
            0 <= i <= n,
            wf_addon_config(*addon),
            crop == spec_crop_for(*addon, aircraft@, 700, 700),
            sub.roster@ == old(sub).roster@,
            sub.broadcast_started == old(sub).broadcast_started,
            ({
                let sel = last_selection(
                    wndows@.subrange(0, i as int),
                    popout_lst@.map_values(|s: String| s@),
                    wndows@.len() as int,
                    aircraft@,
                );
                match sel {
                    None => sub.selected_hwnd == old(sub).selected_hwnd && sub.active_crop == old(sub).active_crop && instrument_search@ == old(instrument_search)@,
                    Some(s) => sub.selected_hwnd == s.0 && instrument_search@ == s.1
                        && sub.active_crop == spec_crop_for(*addon, aircraft@, 700, 700),
                }
            }),
        decreases n - i,
    {
        proof {
            reveal_strlit("MCDU");
            reveal_strlit("UNKNOWN");
            reveal_strlit("FMS");
            let sub1 = wndows@.subrange(0, i + 1);
            assert(sub1.drop_last() =~= wndows@.subrange(0, i as int));
            assert(sub1.last() == wndows@[i as int]);
        }
        let img: &InstrumentRgb = &wndows[i];
        if str_eq(img.instrument.as_str(), "MCDU") || contains_string(
            popout_lst,
            img.instrument.as_str(),
        ) || total == 1 {
            if !str_eq(img.instrument.as_str(), "UNKNOWN") && !str_eq(
                img.instrument.as_str(),
                "FMS",
            ) {
                *instrument_search = img.instrument.clone();
            } else {
                *instrument_search = String::from_str(aircraft);
            }
            sub.select_window(img.hwnd, crop);
        }
        i = i + 1;
    }
    proof {
        assert(wndows@.subrange(0, n as int) =~= wndows@);
    }
}

/// The index of the first discovered window at or after `i` with the
/// given handle, or minus one.
pub open spec fn first_hwnd_index(ws: Seq<InstrumentRgb>, hwnd: isize, i: int) -> int
    decreases ws.len() - i,
{
    if i < 0 || i >= ws.len() {
        -1
    } else if ws[i].hwnd == hwnd {
        i
    } else {
        first_hwnd_index(ws, hwnd, i + 1)
    }
}

/// Pins an explicitly chosen window handle: the first discovered window
/// with that handle sets the selection, its crop, and the search key, and
/// the call reports success; an unknown handle changes nothing and
/// reports failure. The roster and the broadcaster flag are never
/// touched.
pub fn select_by_hwnd(
    sub: &mut SubscriptionState,
    instrument_search: &mut String,
    addon: &AddonConfig,
    wndows: &Vec<InstrumentRgb>,
    aircraft: &str,
    hw_id: isize,
) -> (r: bool)
    requires
        wf_addon_config(*addon),
    ensures
        final(sub).roster@ == old(sub).roster@,
        final(sub).broadcast_started == old(sub).broadcast_started,
        r == (first_hwnd_index(wndows@, hw_id, 0) >= 0),
        ({
            let fi = first_hwnd_index(wndows@, hw_id, 0);
            if fi < 0 {
                final(sub).selected_hwnd == old(sub).selected_hwnd && final(sub).active_crop
                    == old(sub).active_crop && final(instrument_search)@ == old(instrument_search)@
            } else {
                final(sub).selected_hwnd == hw_id && final(instrument_search)@ == search_of(
                    wndows@[fi],
                    aircraft@,
                ) && final(sub).active_crop == spec_crop_for(*addon, aircraft@, 700, 700)
            }
        }),
{
    proof {
        reveal_strlit("UNKNOWN");
        reveal_strlit("FMS");
    }
    let n: usize = wndows.len();
    let mut i: usize = 0;
    while i < n
        invariant
            n == wndows@.len(),
            0 <= i <= n,
            wf_addon_config(*addon),
            *sub == *old(sub),
            instrument_search@ == old(instrument_search)@,
            first_hwnd_index(wndows@, hw_id, 0) == first_hwnd_index(wndows@, hw_id, i as int),
        decreases n - i,
    {
        let img: &InstrumentRgb = &wndows[i];
        if img.hwnd == hw_id {
            proof {
                reveal_strlit("UNKNOWN");
                reveal_strlit("FMS");
                assert(first_hwnd_index(wndows@, hw_id, i as int) == i);
            }
            if !str_eq(img.instrument.as_str(), "UNKNOWN") && !str_eq(
                img.instrument.as_str(),
                "FMS",
            ) {
                *instrument_search = img.instrument.clone();
            } else {
                *instrument_search = String::from_str(aircraft);
            }
            let crop = addon.calculate_crop(aircraft, 700, 700);
            sub.select_window(img.hwnd, crop);
            return true;
        }
        i = i + 1;
    }
    false
}

/// Edits the per-window flags of one discovered instrument: the first
/// list entry with the handle takes whichever of the two flags were
/// given, the rest stay as they are; an unknown handle changes nothing
/// and reports failure.
pub fn update_instrument_flags(
    list: &mut Vec<InstrumentRgb>,
    hwnd: isize,
    auto_hide: Option<bool>,
    excluded: Option<bool>,
) -> (r: bool)
    ensures
        final(list)@.len() == old(list)@.len(),
        r == (first_hwnd_index(old(list)@, hwnd, 0) >= 0),
        ({
            let fi = first_hwnd_index(old(list)@, hwnd, 0);
            if fi < 0 {
                final(list)@ == old(list)@
            } else {
                (forall|k: int|
                    0 <= k < old(list)@.len() && k != fi ==> final(list)@[k] == old(list)@[k])
                    && final(list)@[fi].auto_hide == (match auto_hide {
                    Some(b) => b,
                    None => old(list)@[fi].auto_hide,
                }) && final(list)@[fi].excluded == (match excluded {
                    Some(b) => b,
                    None => old(list)@[fi].excluded,
                }) && final(list)@[fi].hwnd == old(list)@[fi].hwnd && final(list)@[fi].instrument
                    == old(list)@[fi].instrument && final(list)@[fi].selected == old(list)@[fi].selected && final(list)@[fi].width == old(list)@[fi].width && final(list)@[fi].height == old(list)@[fi].height && final(list)@[fi].crop == old(list)@[fi].crop && final(list)@[fi].jpeg_bytes == old(list)@[fi].jpeg_bytes
            }
        }),
{
    let n: usize = list.len();
    let mut i: usize = 0;
    while i < n
        invariant
            n == list@.len(),
            0 <= i <= n,
            list@ == old(list)@,
            first_hwnd_index(old(list)@, hwnd, 0) == first_hwnd_index(old(list)@, hwnd, i as int),
        decreases n - i,
    {
        if list[i].hwnd == hwnd {
            proof {
                assert(first_hwnd_index(old(list)@, hwnd, i as int) == i);
            }
            match auto_hide {
                Some(b) => {
                    list[i].auto_hide = b;
                },
                None => {},
            }
            match excluded {
                Some(b) => {
                    list[i].excluded = b;
                },
                None => {},
            }
            return true;
        }
        i = i + 1;
    }
    false
}

} // verus!
