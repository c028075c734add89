//! The file locations the process uses, built from the folder the
//! executable lives in, and the parse of the simulator's user
//! configuration that yields the community folder. Reading the disk is
//! left to one trusted existence check; everything else is string work.

use vstd::prelude::*;

verus! {

use crate::strutil::matches_at;

/// The folder, relative to the executable, where the bridge process
/// lives.
pub fn simconnector_relative_dir() -> (r: &'static str)
    ensures
        r@ == "SimConnector"@,
{
    "SimConnector"
}

/// The joined path `base \ part` with the platform's separator.
pub open spec fn spec_join(base: Seq<char>, part: Seq<char>) -> Seq<char> {
    base + "\\"@ + part
}

/// Joins one path component onto a folder.
pub fn join_path(base: &str, part: &str) -> (r: String)
    ensures
        r@ == spec_join(base@, part@),
{
    String::from_str(base).concat("\\").concat(part)
}

/// The path of a file under the executable's folder: the folder with each
/// component appended in turn.
pub open spec fn spec_join_all(base: Seq<char>, parts: Seq<Seq<char>>) -> Seq<char>
    decreases parts.len(),
{
    if parts.len() == 0 {
        base
    } else {
        spec_join(spec_join_all(base, parts.drop_last()), parts.last())
    }
}

/// Builds the path of a file inside the executable's folder from its
/// components.
pub fn get_file_in_exe_folder(exe_dir: &str, path_inside: &Vec<String>) -> (r: String)
    ensures
        r@ == spec_join_all(exe_dir@, path_inside@.map_values(|s: String| s@)),
{
    let mut cur: String = String::from_str(exe_dir);
    let n: usize = path_inside.len();
    let mut i: usize = 0;
    while i < n
        invariant
            n == path_inside@.len(),
            0 <= i <= n,
            cur@ == spec_join_all(
                exe_dir@,
                path_inside@.map_values(|s: String| s@).take(i as int),
            ),
        decreases n - i,
    {
        cur.append("\\");
        cur.append(path_inside[i].as_str());
        proof {
            let views = path_inside@.map_values(|s: String| s@);
            assert(views.take(i + 1).drop_last() =~= views.take(i as int));
            assert(views.take(i + 1).last() == views[i as int]);
        }
        i = i + 1;
    }
    proof {
        let views = path_inside@.map_values(|s: String| s@);
        assert(views.take(n as int) =~= views);
    }
    cur
}

/// The static-assets folder beside the executable.
pub fn get_static_folder(exe_dir: &str) -> (r: String)
    ensures
        r@ == spec_join(exe_dir@, "static"@),
{
    join_path(exe_dir, "static")
}

/// The add-on metadata file inside the static folder.
pub fn get_addon_config(exe_dir: &str) -> (r: String)
    ensures
        r@ == spec_join(spec_join(exe_dir@, "static"@), "addon_config.json"@),
{
    let folder: String = get_static_folder(exe_dir);
    join_path(folder.as_str(), "addon_config.json")
}

/// The bridge executable beside this one.
pub fn get_simconnector_exe(exe_dir: &str) -> (r: String)
    ensures
        r@ == spec_join(spec_join(exe_dir@, "SimConnector"@), "SimConnector.exe"@),
{
    let folder: String = get_simconnector_folder(exe_dir);
    join_path(folder.as_str(), "SimConnector.exe")
}

/// The bridge's folder beside the executable.
pub fn get_simconnector_folder(exe_dir: &str) -> (r: String)
    ensures
        r@ == spec_join(exe_dir@, "SimConnector"@),
{
    join_path(exe_dir, simconnector_relative_dir())
}

/// The data folder beside the executable.
pub fn get_data_folder(exe_dir: &str) -> (r: String)
    ensures
        r@ == spec_join(exe_dir@, "data"@),
{
    join_path(exe_dir, "data")
}

/// The settings file inside the data folder.
pub fn get_config_file(exe_dir: &str) -> (r: String)
    ensures
        r@ == spec_join(spec_join(exe_dir@, "data"@), "config.json"@),
{
    let folder: String = get_data_folder(exe_dir);
    join_path(folder.as_str(), "config.json")
}

/// The rendered QR-code image inside the data folder.
pub fn get_qr_file(exe_dir: &str) -> (r: String)
    ensures
        r@ == spec_join(spec_join(exe_dir@, "data"@), "qr.png"@),
{
    let folder: String = get_data_folder(exe_dir);
    join_path(folder.as_str(), "qr.png")
}

/// The log file beside the executable.
pub fn get_log_file(exe_dir: &str) -> (r: String)
    ensures
        r@ == spec_join(exe_dir@, "reachfms.log"@),
{
    join_path(exe_dir, "reachfms.log")
}

/// Relies on std::path::Path::exists: whether the path points at an
/// existing entity on disk right now. Disk-dependent, so nothing is
/// promised of the answer.
#[verifier::external_body]
pub(crate) fn path_exists(p: &str) -> (r: bool) {
    std::path::Path::new(p).exists()
}

/// Whether the simulator companion module is present in the community
/// folder.
pub fn mobiflight_installed(community_folder: &str) -> bool {
    let module: String = join_path(community_folder, "mobiflight-event-module");
    path_exists(module.as_str())
}

/// The first index at or after `from` where `pat` occurs in `s`, or minus
/// one when it occurs nowhere at or after `from`.
pub open spec fn first_match_from(s: Seq<char>, pat: Seq<char>, from: int) -> int
    decreases s.len() - from,
{
    if pat.len() <= 0 || from < 0 || from + pat.len() > s.len() {
        -1
    } else if matches_at(s, pat, from) {
        from
    } else {
        first_match_from(s, pat, from + 1)
    }
}

/// The first occurrence of `pat` in `s` at or after `from`, or nothing.
pub fn find_from(s: &str, pat: &str, from: usize) -> (r: Option<usize>)
    requires
        pat@.len() > 0,
    ensures
        r matches Some(i) ==> i == first_match_from(s@, pat@, from as int) && i >= from,
        r is None ==> first_match_from(s@, pat@, from as int) == -1,
{
    let slen: usize = s.unicode_len();
    let plen: usize = pat.unicode_len();
    if plen > slen || from > slen - plen {
        proof {
            lemma_first_match_none(s@, pat@, from as int);
        }
        return None;
    }
    let last: usize = slen - plen;
    let mut i: usize = from;
    while i <= last
        invariant
            slen == s@.len(),
            plen == pat@.len(),
            1 <= plen <= slen,
            last == slen - plen,
            from <= i <= last + 1,
            first_match_from(s@, pat@, from as int) == first_match_from(s@, pat@, i as int),
        decreases last + 1 - i,
    {
        if crate::strutil::matches_at_exec(s, pat, i) {
            return Some(i);
        }
        i = i + 1;
    }
    proof {
        lemma_first_match_none(s@, pat@, i as int);
    }
    None
}

/// Past the last possible position, no occurrence remains.
proof fn lemma_first_match_none(s: Seq<char>, pat: Seq<char>, from: int)
    requires
        from + pat.len() > s.len() || from < 0 || pat.len() <= 0,
    ensures
        first_match_from(s, pat, from) == -1,
{
}

/// The community folder named by the simulator's user configuration: the
/// first quoted value after the installed-packages key, with the
/// community subfolder appended. Nothing when the key or its quoted value
/// is missing.
pub open spec fn spec_community(content: Seq<char>) -> Option<Seq<char>> {
    let ki = first_match_from(content, "InstalledPackagesPath"@, 0);
    if ki < 0 {
        None
    } else {
        let q1 = first_match_from(content, "\""@, ki);
        if q1 < 0 {
            None
        } else {
            let q2 = first_match_from(content, "\""@, q1 + 1);
            if q2 < 0 {
                None
            } else {
                Some(content.subrange(q1 + 1, q2) + "\\Community"@)
            }
        }
    }
}

/// Extracts the community folder from the text of the simulator's user
/// configuration.
pub fn community_from_usercfg(content: &str) -> (r: Option<String>)
    ensures
        r is Some <==> spec_community(content@) is Some,
        r matches Some(p) ==> Some(p@) == spec_community(content@),
{
    // Binding the character count into a machine word keeps the index
    // arithmetic below within bounds.
    let _clen: usize = content.unicode_len();
    proof {
        reveal_strlit("InstalledPackagesPath");
        reveal_strlit("\"");
        assert("InstalledPackagesPath"@.len() == 21);
        assert("\""@.len() == 1);
    }
    let ki: usize = match find_from(content, "InstalledPackagesPath", 0) {
        Some(i) => i,
        None => {
            return None;
        },
    };
    let q1: usize = match find_from(content, "\"", ki) {
        Some(i) => i,
        None => {
            return None;
        },
    };
    proof {
        lemma_first_match_in_range(content@, "\""@, ki as int);
    }
    let q2: usize = match find_from(content, "\"", q1 + 1) {
        Some(i) => i,
        None => {
            return None;
        },
    };
    proof {
        lemma_first_match_in_range(content@, "\""@, q1 + 1);
    }
    let inner: &str = content.substring_char(q1 + 1, q2);
    Some(String::from_str(inner).concat("\\Community"))
}

/// A found occurrence lies within the text.
proof fn lemma_first_match_in_range(s: Seq<char>, pat: Seq<char>, from: int)
    requires
        first_match_from(s, pat, from) >= 0,
    ensures
        first_match_from(s, pat, from) + pat.len() <= s.len(),
        matches_at(s, pat, first_match_from(s, pat, from)),
        first_match_from(s, pat, from) >= from,
    decreases s.len() - from,
{
    if pat.len() > 0 && from >= 0 && from + pat.len() <= s.len() && !matches_at(s, pat, from) {
        lemma_first_match_in_range(s, pat, from + 1);
    }
}

} // verus!
