//! The per-aircraft add-on table, consumed as a read-only lookup: which
//! aircraft entry an aircraft name selects, which wire variable a button
//! maps to, how a button command is framed for the bridge, the crop the
//! entry's bezel ratio yields, and the choice between the stored and the
//! freshly fetched table.

use vstd::prelude::*;

verus! {

use crate::crop::{CropRect, aspect_crop, aspect_crop_spec};
use crate::strutil::{contains_seq, contains_str, lower_of, str_eq, strip_spec,
    strip_tag_or_self, to_lowercase};

/// One button of an instrument and the wire variable it drives.
#[derive(Clone, Debug)]
pub struct ButtonAction {
    pub button: String,
    pub lvar: String,
}

/// One aircraft's entry in the add-on table. The bezel proportion is kept
/// in thousandths of the width, as the crop arithmetic uses it.
#[derive(Clone, Debug)]
pub struct AircraftAddon {
    pub title: String,
    pub display: String,
    pub button_actions: Vec<ButtonAction>,
    pub svg_image: String,
    pub output_vars: Vec<String>,
    pub fms_aspect_milli: u32,
    pub display_width: u16,
    pub display_top: i16,
    pub display_left: i16,
    pub custom_popout: Vec<String>,
    pub touch_enabled: bool,
    pub last_updated: String,
}

/// The add-on table: the aircraft entries and the table's own versioning.
#[derive(Clone, Debug)]
pub struct AddonConfig {
    pub aircraft_addons: Vec<AircraftAddon>,
    pub version: u32,
    pub app_version: u32,
    pub updated: String,
}

/// The index of the first aircraft entry at or after `i` whose title
/// occurs in the lowercased aircraft name, or minus one.
pub open spec fn first_matching_addon(
    addons: Seq<AircraftAddon>,
    lowered: Seq<char>,
    i: int,
) -> int
    decreases addons.len() - i,
{
    if i < 0 || i >= addons.len() {
        -1
    } else if contains_seq(lowered, addons[i].title@) {
        i
    } else {
        first_matching_addon(addons, lowered, i + 1)
    }
}

/// A found aircraft entry lies within the table and matches.
pub proof fn lemma_first_addon_in_range(addons: Seq<AircraftAddon>, lowered: Seq<char>, from: int)
    requires
        first_matching_addon(addons, lowered, from) >= 0,
    ensures
        from <= first_matching_addon(addons, lowered, from) < addons.len(),
        contains_seq(lowered, addons[first_matching_addon(addons, lowered, from)].title@),
    decreases addons.len() - from,
{
    if 0 <= from < addons.len() && !contains_seq(lowered, addons[from].title@) {
        lemma_first_addon_in_range(addons, lowered, from + 1);
    }
}

/// The index of the first button action at or after `i` whose button name
/// equals `btn`, or minus one.
pub open spec fn first_matching_action(actions: Seq<ButtonAction>, btn: Seq<char>, i: int) -> int
    decreases actions.len() - i,
{
    if i < 0 || i >= actions.len() {
        -1
    } else if actions[i].button@ == btn {
        i
    } else {
        first_matching_action(actions, btn, i + 1)
    }
}

/// The wire variable the table maps a button to for an aircraft name
/// already lowercased: empty when no entry matches the aircraft or the
/// entry has no such button.
pub open spec fn spec_var_of(cfg: AddonConfig, btn: Seq<char>, lowered: Seq<char>) -> Seq<char> {
    let ai = first_matching_addon(cfg.aircraft_addons@, lowered, 0);
    if ai < 0 {
        Seq::empty()
    } else {
        let actions = cfg.aircraft_addons@[ai].button_actions@;
        let bi = first_matching_action(actions, btn, 0);
        if bi < 0 {
            Seq::empty()
        } else {
            actions[bi].lvar@
        }
    }
}

/// A table whose bezel proportions lie in the unit range, as the design
/// constant does: at most one thousand thousandths.
pub open spec fn wf_addon_config(cfg: AddonConfig) -> bool {
    forall|i: int|
        0 <= i < cfg.aircraft_addons@.len() ==> (#[trigger] cfg.aircraft_addons@[i]).fms_aspect_milli
            <= 1000
}

impl AddonConfig {
    /// The empty table, used when neither a stored nor a fetched one can
    /// be had.
    pub fn fallback() -> (r: AddonConfig)
        ensures
            r.aircraft_addons@ == Seq::<AircraftAddon>::empty(),
            r.version == 0,
            r.app_version == 0,
            r.updated@ == Seq::<char>::empty(),
            wf_addon_config(r),
    {
        let r = AddonConfig {
            aircraft_addons: Vec::new(),
            version: 0,
            app_version: 0,
            updated: String::new(),
        };
        r
    }

    /// The first aircraft entry whose (lowercase) title occurs in the
    /// lowercased aircraft name, or nothing.
    pub fn get_aircraft_config(&self, aircraft_filename: &str) -> (r: Option<&AircraftAddon>)
        ensures
            ({
                let ai = first_matching_addon(self.aircraft_addons@, lower_of(aircraft_filename@), 0);
                &&& (r is Some <==> ai >= 0)
                &&& (r matches Some(a) ==> *a == self.aircraft_addons@[ai])
            }),
    {
        let lowered: String = to_lowercase(aircraft_filename);
        let n: usize = self.aircraft_addons.len();
        let mut i: usize = 0;
        while i < n
            invariant
                n == self.aircraft_addons@.len(),
                0 <= i <= n,
                lowered@ == lower_of(aircraft_filename@),
                first_matching_addon(self.aircraft_addons@, lowered@, 0) == first_matching_addon(
                    self.aircraft_addons@,
                    lowered@,
                    i as int,
                ),
            decreases n - i,
        {
            if contains_str(lowered.as_str(), self.aircraft_addons[i].title.as_str()) {
                return Some(&self.aircraft_addons[i]);
            }
            i = i + 1;
        }
        None
    }

    /// The wire variable for one button of the current aircraft: empty
    /// when the aircraft has no entry or the entry no such button.
    pub fn get_var(&self, btn: &str, aircraft_filename: &str) -> (r: String)
        ensures
            r@ == spec_var_of(*self, btn@, lower_of(aircraft_filename@)),
    {
        match self.get_aircraft_config(aircraft_filename) {
            None => String::new(),
            Some(aircraft_addon) => {
                let n: usize = aircraft_addon.button_actions.len();
                let mut i: usize = 0;
                while i < n
                    invariant
                        n == aircraft_addon.button_actions@.len(),
                        0 <= i <= n,
                        ({
                            let ai = first_matching_addon(
                                self.aircraft_addons@,
                                lower_of(aircraft_filename@),
                                0,
                            );
                            ai >= 0 && *aircraft_addon == self.aircraft_addons@[ai]
                        }),
                        first_matching_action(aircraft_addon.button_actions@, btn@, 0)
                            == first_matching_action(aircraft_addon.button_actions@, btn@, i as int),
                    decreases n - i,
                {
                    if str_eq(aircraft_addon.button_actions[i].button.as_str(), btn) {
                        proof {
                            assert(first_matching_action(aircraft_addon.button_actions@, btn@, i as int)
                                == i);
                        }
                        return aircraft_addon.button_actions[i].lvar.clone();
                    }
                    i = i + 1;
                }
                String::new()
            },
        }
    }

    /// Every custom pop-out title the table names, across all entries, in
    /// table order.
    pub fn popout_list(&self) -> (r: Vec<String>)
        ensures
            r@.map_values(|s: String| s@) == spec_popout_titles(self.aircraft_addons@),
    {
        let mut out: Vec<String> = Vec::new();
        let n: usize = self.aircraft_addons.len();
        let mut i: usize = 0;
        while i < n
            invariant
                n == self.aircraft_addons@.len(),
                0 <= i <= n,
                out@.map_values(|s: String| s@) == spec_popout_titles(
                    self.aircraft_addons@.subrange(0, i as int),
                ),
            decreases n - i,
        {
            let addon: &AircraftAddon = &self.aircraft_addons[i];
            let m: usize = addon.custom_popout.len();
            let mut j: usize = 0;
            while j < m
                invariant
                    m == addon.custom_popout@.len(),
                    0 <= j <= m,
                    0 <= i < self.aircraft_addons@.len(),
                    *addon == self.aircraft_addons@[i as int],
                    out@.map_values(|s: String| s@) == spec_popout_titles(
                        self.aircraft_addons@.subrange(0, i as int),
                    ) + addon.custom_popout@.map_values(|s: String| s@).take(j as int),
                decreases m - j,
            {
                let ghost prev = out@;
                out.push(addon.custom_popout[j].clone());
                proof {
                    let f = |s: String| s@;
                    let views = addon.custom_popout@.map_values(f);
                    assert(out@.last()@ == views[j as int]);
                    assert(out@.map_values(f) =~= prev.map_values(f).push(out@.last()@));
                    assert(views.take(j + 1) =~= views.take(j as int).push(views[j as int]));
                }
                j = j + 1;
            }
            proof {
                let f = |s: String| s@;
                let views = addon.custom_popout@.map_values(f);
                assert(views.take(m as int) =~= views);
                let sub1 = self.aircraft_addons@.subrange(0, i + 1);
                assert(sub1.drop_last() =~= self.aircraft_addons@.subrange(0, i as int));
                assert(sub1.last() == self.aircraft_addons@[i as int]);
            }
            i = i + 1;
        }
        proof {
            assert(self.aircraft_addons@.subrange(0, n as int) =~= self.aircraft_addons@);
        }
        out
    }

    /// The crop for the current aircraft at the given source size: the
    /// entry's bezel-ratio crop, or the no-crop sentinel when the aircraft
    /// has no entry.
    pub fn calculate_crop(&self, aircraft_filename: &str, width: u32, height: u32) -> (r: CropRect)
        requires
            width <= i32::MAX,
            height <= i32::MAX,
            wf_addon_config(*self),
        ensures
            r == spec_crop_for(*self, aircraft_filename@, width as int, height as int),
    {
        match self.get_aircraft_config(aircraft_filename) {
            None => CropRect::zero(),
            Some(aircraft_addon) => {
                proof {
                    let lowered = lower_of(aircraft_filename@);
                    lemma_first_addon_in_range(self.aircraft_addons@, lowered, 0);
                    let ai = first_matching_addon(self.aircraft_addons@, lowered, 0);
                    assert(self.aircraft_addons@[ai].fms_aspect_milli <= 1000);
                }
                aspect_crop(aircraft_addon.fms_aspect_milli, width, height)
            },
        }
    }
}

/// The crop the table yields for an aircraft name at a source size: the
/// matching entry's bezel-ratio crop, the no-crop sentinel when no entry
/// matches.
pub open spec fn spec_crop_for(cfg: AddonConfig, aircraft: Seq<char>, w: int, h: int) -> CropRect {
    let ai = first_matching_addon(cfg.aircraft_addons@, lower_of(aircraft), 0);
    if ai < 0 {
        CropRect::spec_zero()
    } else {
        aspect_crop_spec(cfg.aircraft_addons@[ai].fms_aspect_milli as int, w, h)
    }
}

/// The concatenation of every entry's custom pop-out titles, in order.
pub open spec fn spec_popout_titles(addons: Seq<AircraftAddon>) -> Seq<Seq<char>>
    decreases addons.len(),
{
    if addons.len() == 0 {
        Seq::empty()
    } else {
        spec_popout_titles(addons.drop_last()) + addons.last().custom_popout@.map_values(
            |s: String| s@,
        )
    }
}

/// Whether a wire variable asks for custom-event framing: it carries an
/// event marker (an arrow, or a key- or hardware-event prefix anywhere in
/// it).
pub open spec fn is_custom_var(v: Seq<char>) -> bool {
    contains_seq(v, ">"@) || contains_seq(v, "K:"@) || contains_seq(v, "H:"@)
}

/// The bridge request that presses a wire variable: custom-event framing
/// for a marked variable, plain command framing otherwise.
pub open spec fn spec_route(v: Seq<char>) -> Seq<char> {
    if is_custom_var(v) {
        "SM_SEND:CUSTOM_WASM:"@ + v
    } else {
        "SM_SEND:CMD_BTN:"@ + v
    }
}

/// Frames one wire variable as the bridge request that presses it.
pub fn route_button(var: &str) -> (r: String)
    ensures
        r@ == spec_route(var@),
{
    if contains_str(var, ">") || contains_str(var, "K:") || contains_str(var, "H:") {
        String::from_str("SM_SEND:CUSTOM_WASM:").concat(var)
    } else {
        String::from_str("SM_SEND:CMD_BTN:").concat(var)
    }
}

/// The request a button press sends, looked up through the add-on table:
/// the button id is stripped of its marker, mapped to the aircraft's wire
/// variable, and framed; nothing when the table has no mapping — the
/// bridge is then never contacted.
pub fn press_button(cfg: &AddonConfig, btn_id: &str, instrument: &str) -> (r: Option<String>)
    ensures
        ({
            let var = spec_var_of(*cfg, strip_spec(btn_id@, "BTN:"@), lower_of(instrument@));
            &&& (r is None <==> var == Seq::<char>::empty())
            &&& (r matches Some(cmd) ==> cmd@ == spec_route(var))
        }),
{
    let btn: String = strip_tag_or_self(btn_id, "BTN:");
    let var: String = cfg.get_var(btn.as_str(), instrument);
    if var.as_str().unicode_len() == 0 {
        proof {
            assert(var@ =~= Seq::<char>::empty());
        }
        None
    } else {
        Some(route_button(var.as_str()))
    }
}

/// Looks a button up and, when the table maps it, sends the framed request
/// out on the command channel; reports whether anything was sent. An
/// unmapped button sends nothing.
pub fn press_and_forward(
    cfg: &AddonConfig,
    btn_id: &str,
    instrument: &str,
    command_sender: &crossbeam_channel::Sender<String>,
) -> (sent: bool)
    ensures
        sent <==> spec_var_of(*cfg, strip_spec(btn_id@, "BTN:"@), lower_of(instrument@))
            != Seq::<char>::empty(),
{
    match press_button(cfg, btn_id, instrument) {
        Some(cmd) => {
            let _ = crate::link::send_timeout_ms(command_sender, cmd, crate::link::SHORT_TIMEOUT_MS);
            true
        },
        None => false,
    }
}

/// Frames a raw variable name (no table lookup) and sends it out on the
/// command channel, returning the request that went out.
pub fn forward_var_command(
    btn_id: &str,
    command_sender: &crossbeam_channel::Sender<String>,
) -> (r: String)
    ensures
        r@ == spec_route(btn_id@),
{
    let cmd: String = route_button(btn_id);
    let out: String = cmd.clone();
    let _ = crate::link::send_timeout_ms(command_sender, cmd, crate::link::SHORT_TIMEOUT_MS);
    out
}

/// Which add-on table the process adopts at start.
#[derive(Clone, Copy, PartialEq, Eq, Structural, Debug)]
pub enum LoadChoice {
    /// Adopt the freshly fetched table and persist it.
    UseServer,
    /// Keep the stored table; warn when the fetched one needs a newer
    /// application.
    UseStored { warn_update: bool },
    /// Neither table can be had: fall back to the empty one.
    Fallback,
}

/// The choice between the fetched and the stored add-on table, given each
/// table's version, the application version the fetched one requires, and
/// the running application's own version: a fetched table is adopted when
/// it is newer than the stored one and does not need a newer application,
/// or when nothing is stored; otherwise the stored one is kept, with a
/// warning when the fetched table needs a newer application.
pub fn choose_addon_source(
    server: Option<(u32, u32)>,
    stored_version: Option<u32>,
    app_version: u32,
) -> (r: LoadChoice)
    ensures
        server is None && stored_version is None ==> r == LoadChoice::Fallback,
        server is None && stored_version is Some ==> r == (LoadChoice::UseStored {
            warn_update: false,
        }),
        server is Some && stored_version is None ==> r == LoadChoice::UseServer,
        server is Some && stored_version is Some ==> r == (if (server->0).0 > stored_version->0
            && (server->0).1 <= app_version {
            LoadChoice::UseServer
        } else {
            LoadChoice::UseStored { warn_update: (server->0).1 > app_version }
        }),
{
    match server {
        None => match stored_version {
            None => LoadChoice::Fallback,
            Some(_) => LoadChoice::UseStored { warn_update: false },
        },
        Some(sn) => match stored_version {
            None => LoadChoice::UseServer,
            Some(sv) => {
                if sn.0 > sv && sn.1 <= app_version {
                    LoadChoice::UseServer
                } else {
                    LoadChoice::UseStored { warn_update: sn.1 > app_version }
                }
            },
        },
    }
}

/// Ten to the given power.
pub open spec fn pow10(e: int) -> int
    decreases e,
{
    if e <= 0 {
        1
    } else {
        10 * pow10(e - 1)
    }
}

/// The packed numeric form of a dotted version: each segment takes two
/// decimal digits, the last segment the lowest two.
pub open spec fn version_combine(parts: Seq<u32>, i: int) -> int
    decreases parts.len() - i,
{
    if i < 0 || i >= parts.len() {
        0
    } else {
        parts[i] * pow10(parts.len() + 1 - 2 * i) + version_combine(parts, i + 1)
    }
}

/// Ten to any power is at least one.
proof fn lemma_pow10_pos(e: int)
    ensures
        pow10(e) >= 1,
    decreases (if e > 0 {
        e
    } else {
        0
    }),
{
    if e > 0 {
        lemma_pow10_pos(e - 1);
    }
}

/// Ten to a power is monotone in the exponent.
proof fn lemma_pow10_mono(a: int, b: int)
    requires
        a <= b,
    ensures
        pow10(a) <= pow10(b),
    decreases (if b > 0 {
        b
    } else {
        0
    }),
{
    if b > 0 && a < b {
        lemma_pow10_mono(a, b - 1);
        lemma_pow10_pos(b - 1);
    }
}

/// Ten to a small power, for the version packing.
fn pow10_u32(e: u32) -> (r: u32)
    requires
        e <= 4,
    ensures
        r == pow10(e as int),
        1 <= r <= 10000,
{
    proof {
        reveal_with_fuel(pow10, 6);
    }
    if e == 0 {
        1
    } else if e == 1 {
        10
    } else if e == 2 {
        100
    } else if e == 3 {
        1000
    } else {
        10000
    }
}

/// Packs the numeric segments of a dotted version into one number: two
/// decimal digits per segment, the last segment lowest.
pub fn get_app_version(parts: &Vec<u32>) -> (r: u32)
    requires
        parts@.len() <= 3,
        forall|i: int| 0 <= i < parts@.len() ==> #[trigger] parts@[i] <= 99,
    ensures
        r == version_combine(parts@, 0),
{
    let n: usize = parts.len();
    let mut acc: u32 = 0;
    let mut i: usize = 0;
    proof {
        lemma_version_combine_bound(parts@, 0);
    }
    while i < n
        invariant
            n == parts@.len(),
            n <= 3,
            0 <= i <= n,
            forall|k: int| 0 <= k < n ==> #[trigger] parts@[k] <= 99,
            acc + version_combine(parts@, i as int) == version_combine(parts@, 0),
            0 <= acc <= version_combine(parts@, 0),
            version_combine(parts@, 0) <= 3 * 990000,
        decreases n - i,
    {
        let e: u32 = (n as u32) + 1 - 2 * (i as u32);
        let p: u32 = pow10_u32(e);
        proof {
            lemma_version_combine_bound(parts@, i + 1);
            assert(0 <= parts@[i as int] * pow10(e as int) <= 99 * 10000) by (nonlinear_arith)
                requires
                    0 <= parts@[i as int] <= 99,
                    1 <= pow10(e as int) <= 10000,
            ;
            assert(version_combine(parts@, i as int) == parts@[i as int] * pow10(
                parts@.len() + 1 - 2 * i,
            ) + version_combine(parts@, i + 1));
        }
        let term: u32 = parts[i] * p;
        acc = acc + term;
        i = i + 1;
    }
    acc
}

/// The packed version is small: each of at most three two-digit segments
/// contributes at most `99 * 10000`, so the whole fits well within
/// thirty-two bits.
proof fn lemma_version_combine_bound(parts: Seq<u32>, i: int)
    requires
        parts.len() <= 3,
        forall|k: int| 0 <= k < parts.len() ==> #[trigger] parts[k] <= 99,
    ensures
        0 <= version_combine(parts, i),
        i <= parts.len() ==> version_combine(parts, i) <= (parts.len() - i) * 990000,
        i > parts.len() ==> version_combine(parts, i) == 0,
    decreases parts.len() - i,
{
    if 0 <= i < parts.len() {
        lemma_version_combine_bound(parts, i + 1);
        let e = parts.len() + 1 - 2 * i;
        lemma_pow10_pos(e);
        lemma_pow10_mono(e, 4);
        assert(pow10(4) == 10000) by {
            reveal_with_fuel(pow10, 6);
        }
        assert(0 <= parts[i] * pow10(e) <= 99 * 10000) by (nonlinear_arith)
            requires
                0 <= parts[i] <= 99,
                1 <= pow10(e) <= 10000,
        ;
    }
}

/// The distinct image names of the table's entries, first occurrences
/// kept, in order: what a fresh table adoption downloads, each image once.
pub open spec fn spec_dedup(names: Seq<Seq<char>>) -> Seq<Seq<char>>
    decreases names.len(),
{
    if names.len() == 0 {
        Seq::empty()
    } else {
        let front = spec_dedup(names.drop_last());
        if front.contains(names.last()) {
            front
        } else {
            front.push(names.last())
        }
    }
}

/// Whether one of the strings has the given characters.
pub fn contains_string(v: &Vec<String>, s: &str) -> (r: bool)
    ensures
        r == v@.map_values(|x: String| x@).contains(s@),
{
    let n: usize = v.len();
    let mut i: usize = 0;
    while i < n
        invariant
            n == v@.len(),
            0 <= i <= n,
            forall|k: int| 0 <= k < i ==> (#[trigger] v@[k])@ != s@,
        decreases n - i,
    {
        if str_eq(v[i].as_str(), s) {
            proof {
                let mapped = v@.map_values(|x: String| x@);
                assert(0 <= i < mapped.len() && mapped[i as int] == s@);
            }
            return true;
        }
        i = i + 1;
    }
    proof {
        let mapped = v@.map_values(|x: String| x@);
        if mapped.contains(s@) {
            let j = choose|j: int| 0 <= j < mapped.len() && mapped[j] == s@;
            assert(v@[j]@ == s@);
        }
    }
    false
}

/// The image files a freshly adopted table requires, each named once, in
/// table order.
pub fn svgs_to_download(cfg: &AddonConfig) -> (r: Vec<String>)
    ensures
        r@.map_values(|s: String| s@) == spec_dedup(
            cfg.aircraft_addons@.map_values(|a: AircraftAddon| a.svg_image@),
        ),
{
    let mut out: Vec<String> = Vec::new();
    let n: usize = cfg.aircraft_addons.len();
    let mut i: usize = 0;
    while i < n
        invariant
            n == cfg.aircraft_addons@.len(),
            0 <= i <= n,
            out@.map_values(|s: String| s@) == spec_dedup(
                cfg.aircraft_addons@.subrange(0, i as int).map_values(
                    |a: AircraftAddon| a.svg_image@,
                ),
            ),
        decreases n - i,
    {
        proof {
            let names1 = cfg.aircraft_addons@.subrange(0, i + 1).map_values(
                |a: AircraftAddon| a.svg_image@,
            );
            let names0 = cfg.aircraft_addons@.subrange(0, i as int).map_values(
                |a: AircraftAddon| a.svg_image@,
            );
            assert(names1.drop_last() =~= names0);
            assert(names1.last() == cfg.aircraft_addons@[i as int].svg_image@);
        }
        let name: &String = &cfg.aircraft_addons[i].svg_image;
        if !contains_string(&out, name.as_str()) {
            out.push(name.clone());
            proof {
                let prev = out@.drop_last();
                assert(out@.map_values(|s: String| s@) =~= prev.map_values(|s: String| s@).push(
                    out@.last()@,
                ));
            }
        }
        i = i + 1;
    }
    proof {
        assert(cfg.aircraft_addons@.subrange(0, n as int) =~= cfg.aircraft_addons@);
    }
    out
}

} // verus!
