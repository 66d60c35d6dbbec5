//! Windows integration decisions: Secure Boot text, the logon task and old
//! Run-key entries, theme colours, and the UTF-16 buffers Win32 calls take.
//! The registry and process calls themselves are made by the caller.
use vstd::prelude::*;
use crate::harden::{eq_ignore_case, trim_char, trim_char_chars};
use crate::text::{
    ascii_lower, chars_of, contains, contains_chars, dec, is_trimmed, lower_chars, owned,
    push_chars, push_dec, push_str, seq_eq, trim, trimmed_chars,
};

verus! {

pub const ALREADY_RUNNING: &'static str = "ALREADY_RUNNING";
pub const INSTANCE_MUTEX_NAME: &'static str = "Global\\EVOX2-Control";
pub const RELOAD_FANS_EVENT_NAME: &'static str = "Global\\EVOX2-Control-ReloadFans";
pub const RUN_KEY: &'static str = "Software\\Microsoft\\Windows\\CurrentVersion\\Run";
pub const RUN_VALUE: &'static str = "EVO-X2 Control";
pub const STARTUP_TASK_NAME: &'static str = "EVO-X2 Control";
pub const STARTUP_APPROVED_KEY: &'static str =
    "Software\\Microsoft\\Windows\\CurrentVersion\\Explorer\\StartupApproved\\Run";
/// Win32 `ERROR_SUCCESS`.
pub const ERROR_SUCCESS: i32 = 0;
/// Win32 `ERROR_FILE_NOT_FOUND`.
pub const ERROR_FILE_NOT_FOUND: i32 = 2;

pub open spec fn secure_boot_spec(value: Option<u32>) -> Seq<char> {
    match value {
        Some(v) => if v == 1 {
            "Enabled"@
        } else if v == 0 {
            "Disabled"@
        } else {
            "Unknown ("@ + dec(v as nat) + ")"@
        },
        None => "Unknown"@,
    }
}

/// Secure Boot state from the `UEFISecureBootEnabled` registry value.
/// Informational only.
pub fn secure_boot_status(value: Option<u32>) -> (r: String)
    ensures
        r@ == secure_boot_spec(value),
{
    match value {
        Some(1) => owned("Enabled"),
        Some(0) => owned("Disabled"),
        Some(v) => {
            let mut out = owned("Unknown (");
            push_dec(&mut out, v);
            push_str(&mut out, ")");
            out
        },
        None => owned("Unknown"),
    }
}

/// A stored Run-key command line: trimmed and without outer quotes.
pub open spec fn run_path_spec(value: Seq<char>) -> Seq<char> {
    trim_char(trim(value), '"')
}

pub fn normalize_run_path(value: &str) -> (r: String)
    ensures
        r@ == run_path_spec(value@),
{
    let t = trimmed_chars(value);
    let u = trim_char_chars(t.as_slice(), '"');
    let mut out = String::new();
    push_chars(&mut out, u.as_slice());
    out
}

/// Whether a Run-key value starts this executable.
pub fn run_value_matches(stored: &str, exe_path: &str) -> (r: bool)
    ensures
        r == eq_ignore_case(run_path_spec(stored@), run_path_spec(exe_path@)),
{
    let a = normalize_run_path(stored);
    let b = normalize_run_path(exe_path);
    let ca = chars_of(a.as_str());
    let cb = chars_of(b.as_str());
    let la = lower_chars(ca.as_slice());
    let lb = lower_chars(cb.as_slice());
    seq_eq(la.as_slice(), lb.as_slice())
}

/// A registry delete succeeded, or the value was not there.
pub fn registry_delete_succeeded(status: i32) -> (r: bool)
    ensures
        r == (status == ERROR_SUCCESS || status == ERROR_FILE_NOT_FOUND),
{
    status == ERROR_SUCCESS || status == ERROR_FILE_NOT_FOUND
}

pub open spec fn string_views(v: Seq<String>) -> Seq<Seq<char>> {
    v.map_values(|s: String| s@)
}

/// `schtasks` arguments registering the elevated logon task.
pub fn schtasks_create_args(exe_path: &str) -> (r: Vec<String>)
    ensures
        string_views(r@) == seq![
            "/Create"@, "/TN"@, STARTUP_TASK_NAME@, "/TR"@, "\""@ + exe_path@ + "\""@,
            "/SC"@, "ONLOGON"@, "/RL"@, "HIGHEST"@, "/F"@,
        ],
{
    let mut quoted = owned("\"");
    push_str(&mut quoted, exe_path);
    push_str(&mut quoted, "\"");
    let r = vec![
        owned("/Create"),
        owned("/TN"),
        owned(STARTUP_TASK_NAME),
        owned("/TR"),
        quoted,
        owned("/SC"),
        owned("ONLOGON"),
        owned("/RL"),
        owned("HIGHEST"),
        owned("/F"),
    ];
    assert(string_views(r@) =~= seq![
        "/Create"@, "/TN"@, STARTUP_TASK_NAME@, "/TR"@, "\""@ + exe_path@ + "\""@,
        "/SC"@, "ONLOGON"@, "/RL"@, "HIGHEST"@, "/F"@,
    ]);
    r
}

/// `schtasks` arguments removing the logon task.
pub fn schtasks_delete_args() -> (r: Vec<String>)
    ensures
        string_views(r@) == seq!["/Delete"@, "/TN"@, STARTUP_TASK_NAME@, "/F"@],
{
    let r = vec![owned("/Delete"), owned("/TN"), owned(STARTUP_TASK_NAME), owned("/F")];
    assert(string_views(r@) =~= seq!["/Delete"@, "/TN"@, STARTUP_TASK_NAME@, "/F"@]);
    r
}

/// `schtasks` arguments asking whether the logon task exists.
pub fn schtasks_query_args() -> (r: Vec<String>)
    ensures
        string_views(r@) == seq!["/Query"@, "/TN"@, STARTUP_TASK_NAME@],
{
    let r = vec![owned("/Query"), owned("/TN"), owned(STARTUP_TASK_NAME)];
    assert(string_views(r@) =~= seq!["/Query"@, "/TN"@, STARTUP_TASK_NAME@]);
    r
}

/// Removing the logon task failed exactly when it is still registered,
/// whatever `schtasks /Delete` answered.
pub fn should_report_logon_remove_failure(delete_ok: bool, still_registered: bool) -> (r: bool)
    ensures
        r == still_registered,
{
    still_registered
}

/// `schtasks` output saying the task does not exist, in English or Chinese.
pub open spec fn missing_task_spec(message: Seq<char>) -> bool {
    let lower = ascii_lower(message);
    ||| contains(lower, "cannot find"@)
    ||| contains(lower, "the system cannot find"@)
    ||| contains(lower, "does not exist"@)
    ||| contains(lower, "cannot find the path"@)
    ||| contains(message, "找不到"@)
    ||| contains(message, "系统找不到"@)
    ||| contains(message, "不存在"@)
}

fn has(hay: &[char], needle: &str) -> (r: bool)
    ensures
        r == contains(hay@, needle@),
{
    let n = chars_of(needle);
    contains_chars(hay, n.as_slice())
}

pub fn schtasks_missing_task(message: &str) -> (r: bool)
    ensures
        r == missing_task_spec(message@),
{
    let chars = chars_of(message);
    let lower = lower_chars(chars.as_slice());
    has(lower.as_slice(), "cannot find") || has(lower.as_slice(), "the system cannot find") || has(
        lower.as_slice(),
        "does not exist",
    ) || has(lower.as_slice(), "cannot find the path") || has(chars.as_slice(), "找不到") || has(
        chars.as_slice(),
        "系统找不到",
    ) || has(chars.as_slice(), "不存在")
}

/// One message from a `schtasks` run: standard output, then standard error
/// on a line of its own when there is any, all trimmed.
pub open spec fn schtasks_message_spec(stdout: Seq<char>, stderr: Seq<char>) -> Seq<char> {
    if trim(stderr).len() > 0 {
        if trim(stdout).len() > 0 {
            trim(stdout + "\n"@ + trim(stderr))
        } else {
            trim(stdout + trim(stderr))
        }
    } else {
        trim(stdout)
    }
}

pub fn schtasks_message(stdout: &str, stderr: &str) -> (r: String)
    ensures
        r@ == schtasks_message_spec(stdout@, stderr@),
{
    let err = trimmed_chars(stderr);
    let mut message = owned(stdout);
    if err.len() > 0 {
        let out_trimmed = trimmed_chars(stdout);
        if out_trimmed.len() > 0 {
            push_str(&mut message, "\n");
        }
        push_chars(&mut message, err.as_slice());
    }
    let t = trimmed_chars(message.as_str());
    let mut out = String::new();
    push_chars(&mut out, t.as_slice());
    out
}

/// What registering the logon task reports.
pub open spec fn logon_create_spec(created: bool, message: Seq<char>, registered: bool) -> Result<(), Seq<char>> {
    if !created {
        Err("Failed to register logon task ("@ + message + ")"@)
    } else if !registered {
        Err("Logon task was not registered"@)
    } else {
        Ok(())
    }
}

pub fn logon_create_outcome(created: bool, message: &str, registered: bool) -> (r: Result<(), String>)
    ensures
        r is Ok <==> logon_create_spec(created, message@, registered) is Ok,
        r matches Err(e) ==> logon_create_spec(created, message@, registered) == Err::<(), Seq<char>>(e@),
{
    if !created {
        let mut e = owned("Failed to register logon task (");
        push_str(&mut e, message);
        push_str(&mut e, ")");
        return Err(e);
    }
    if !registered {
        return Err(owned("Logon task was not registered"));
    }
    Ok(())
}

/// What removing the logon task reports: only a task that is still there is
/// a failure.
pub open spec fn logon_remove_spec(deleted: bool, message: Seq<char>, still_registered: bool) -> Result<(), Seq<char>> {
    if still_registered {
        if deleted {
            Err("Logon task is still registered"@)
        } else {
            Err("Failed to remove logon task ("@ + message + ")"@)
        }
    } else {
        Ok(())
    }
}

pub fn logon_remove_outcome(deleted: bool, message: &str, still_registered: bool) -> (r: Result<(), String>)
    ensures
        r is Ok <==> logon_remove_spec(deleted, message@, still_registered) is Ok,
        r matches Err(e) ==> logon_remove_spec(deleted, message@, still_registered) == Err::<(), Seq<char>>(e@),
{
    if should_report_logon_remove_failure(deleted, still_registered) {
        if deleted {
            return Err(owned("Logon task is still registered"));
        }
        let mut e = owned("Failed to remove logon task (");
        push_str(&mut e, message);
        push_str(&mut e, ")");
        return Err(e);
    }
    Ok(())
}

/// Whether the program starts with Windows: the logon task exists, or a Run
/// value (current user first, then machine) starts this executable.
pub open spec fn start_with_windows_spec(task_registered: bool, exe: Option<Seq<char>>, stored: Seq<Seq<char>>) -> bool {
    task_registered || match exe {
        None => false,
        Some(e) => exists|i: int| 0 <= i < stored.len() && eq_ignore_case(run_path_spec(#[trigger] stored[i]), run_path_spec(e)),
    }
}

pub fn start_with_windows_detected(task_registered: bool, exe: Option<&str>, stored: &[String]) -> (r: bool)
    ensures
        r == start_with_windows_spec(
            task_registered,
            match exe { Some(e) => Some(e@), None => None },
            stored@.map_values(|s: String| s@),
        ),
{
    if task_registered {
        return true;
    }
    let e = match exe {
        None => return false,
        Some(e) => e,
    };
    let ghost ss = stored@.map_values(|s: String| s@);
    let mut i: usize = 0;
    while i < stored.len()
        invariant
            i <= stored@.len(),
            ss == stored@.map_values(|s: String| s@),
            exe == Some(e),
            !task_registered,
            forall|j: int| 0 <= j < i ==> !eq_ignore_case(run_path_spec(#[trigger] ss[j]), run_path_spec(e@)),
        decreases stored@.len() - i,
    {
        if run_value_matches(stored[i].as_str(), e) {
            assert(ss[i as int] == stored@[i as int]@);
            assert(eq_ignore_case(run_path_spec(ss[i as int]), run_path_spec(e@)));
            assert(exists|k: int| 0 <= k < ss.len() && eq_ignore_case(run_path_spec(#[trigger] ss[k]), run_path_spec(e@)));
            return true;
        }
        i = i + 1;
    }
    false
}

/// The `schtasks.exe` inside the system directory (the one Windows reports,
/// not one named by the environment).
pub fn schtasks_exe(system_dir: &str) -> (r: String)
    ensures
        r@ == system_dir@ + "\\schtasks.exe"@,
{
    let mut out = owned(system_dir);
    push_str(&mut out, "\\schtasks.exe");
    out
}

/// What a "start with Windows" request does.
#[derive(Debug, Clone, Copy, PartialEq, Eq, Structural)]
pub enum AutostartAction {
    /// Register the elevated logon task.
    Register,
    /// Remove the logon task.
    Remove,
    /// Refuse the request and remove any logon task already there: a copy
    /// outside Program Files must not start elevated at logon.
    RefuseAndRemove,
}

/// Turning the setting off removes the task; turning it on registers the
/// task only for a program under Program Files, and otherwise refuses and
/// removes an existing task.
pub fn autostart_plan(exe_under_program_files: bool, enable: bool) -> (r: AutostartAction)
    ensures
        !enable ==> r == AutostartAction::Remove,
        enable && exe_under_program_files ==> r == AutostartAction::Register,
        enable && !exe_under_program_files ==> r == AutostartAction::RefuseAndRemove,
{
    if !enable {
        AutostartAction::Remove
    } else if exe_under_program_files {
        AutostartAction::Register
    } else {
        AutostartAction::RefuseAndRemove
    }
}

/// Red, green and blue of a colour stored as `0xAABBGGRR`.
pub open spec fn abgr_spec(abgr: u32) -> (u8, u8, u8) {
    ((abgr % 256) as u8, ((abgr / 256) % 256) as u8, ((abgr / 65536) % 256) as u8)
}

pub fn accent_from_abgr(abgr: u32) -> (r: (u8, u8, u8))
    ensures
        r == abgr_spec(abgr),
{
    ((abgr % 256) as u8, ((abgr / 256) % 256) as u8, ((abgr / 65536) % 256) as u8)
}

/// Apps use the light theme unless the setting says 0; light when unset.
pub fn apps_use_light_theme(value: Option<u32>) -> (r: bool)
    ensures
        r == (match value { Some(v) => v != 0, None => true }),
{
    match value {
        Some(v) => v != 0,
        None => true,
    }
}

/// The accent colour: `AccentColor`, else `ColorizationColor`; black counts
/// as no colour.
pub open spec fn accent_spec(accent: Option<u32>, colorization: Option<u32>) -> Option<(u8, u8, u8)> {
    let v = match accent {
        Some(a) => Some(a),
        None => colorization,
    };
    match v {
        Some(x) => {
            let c = abgr_spec(x);
            if c.0 != 0 || c.1 != 0 || c.2 != 0 { Some(c) } else { None }
        },
        None => None,
    }
}

pub fn accent_color_rgb(accent: Option<u32>, colorization: Option<u32>) -> (r: Option<(u8, u8, u8)>)
    ensures
        r == accent_spec(accent, colorization),
{
    let v = match accent {
        Some(a) => Some(a),
        None => colorization,
    };
    match v {
        Some(x) => {
            let c = accent_from_abgr(x);
            if c.0 != 0 || c.1 != 0 || c.2 != 0 {
                Some(c)
            } else {
                None
            }
        },
        None => None,
    }
}

/// Window colours taken from the Windows theme.
#[derive(Clone, Copy, Debug, PartialEq, Eq)]
pub struct UiChrome {
    pub dark: bool,
    pub accent: (u8, u8, u8),
}

/// Dark unless apps use the light theme; Windows blue when no accent is set.
pub fn ui_chrome(light_theme: Option<u32>, accent: Option<u32>, colorization: Option<u32>) -> (r: UiChrome)
    ensures
        r.dark == !(match light_theme { Some(v) => v != 0, None => true }),
        r.accent == (match accent_spec(accent, colorization) {
            Some(c) => c,
            None => (0u8, 120u8, 212u8),
        }),
{
    let light = apps_use_light_theme(light_theme);
    let accent = match accent_color_rgb(accent, colorization) {
        Some(c) => c,
        None => (0, 120, 212),
    };
    UiChrome { dark: !light, accent }
}

/// UTF-16 code units of one character.
pub open spec fn utf16_char(c: char) -> Seq<u16> {
    let u = c as u32;
    if u < 0x10000 {
        seq![u as u16]
    } else {
        let v = (u - 0x10000) as u32;
        seq![(0xD800 + v / 1024) as u16, (0xDC00 + v % 1024) as u16]
    }
}

/// UTF-16 encoding of a character sequence (as `str::encode_utf16`).
pub open spec fn utf16(s: Seq<char>) -> Seq<u16>
    decreases s.len(),
{
    if s.len() == 0 {
        Seq::empty()
    } else {
        utf16(s.drop_last()) + utf16_char(s.last())
    }
}

fn push_utf16(out: &mut Vec<u16>, s: &str)
    ensures
        final(out)@ == old(out)@ + utf16(s@),
{
    let chars = chars_of(s);
    let ghost start = out@;
    let mut i: usize = 0;
    while i < chars.len()
        invariant
            chars@ == s@,
            i <= chars@.len(),
            out@ == start + utf16(chars@.subrange(0, i as int)),
        decreases chars@.len() - i,
    {
        let c = chars[i];
        let u = c as u32;
        proof {
            assert(chars@.subrange(0, i as int + 1).drop_last() =~= chars@.subrange(0, i as int));
        }
        if u < 0x10000 {
            out.push(u as u16);
        } else {
            let v = u - 0x10000;
            out.push((0xD800 + v / 1024) as u16);
            out.push((0xDC00 + v % 1024) as u16);
        }
        i = i + 1;
        assert(out@ =~= start + utf16(chars@.subrange(0, i as int)));
    }
    assert(chars@.subrange(0, chars@.len() as int) =~= s@);
}

/// A NUL-terminated UTF-16 string for Win32 calls.
pub fn wide(value: &str) -> (r: Vec<u16>)
    ensures
        r@ == utf16(value@).push(0u16),
{
    let mut out: Vec<u16> = Vec::new();
    push_utf16(&mut out, value);
    out.push(0);
    out
}

/// The open/save dialog filter: `JSON`, `*.json`, `All files`, `*.*`, each
/// NUL-terminated, and a final NUL.
pub fn json_file_filter() -> (r: Vec<u16>)
    ensures
        r@ == utf16("JSON"@).push(0u16) + utf16("*.json"@).push(0u16) + utf16("All files"@).push(0u16)
            + utf16("*.*"@).push(0u16) + seq![0u16],
{
    let mut out: Vec<u16> = Vec::new();
    push_utf16(&mut out, "JSON");
    out.push(0);
    push_utf16(&mut out, "*.json");
    out.push(0);
    push_utf16(&mut out, "All files");
    out.push(0);
    push_utf16(&mut out, "*.*");
    out.push(0);
    out.push(0);
    assert(out@ =~= utf16("JSON"@).push(0u16) + utf16("*.json"@).push(0u16) + utf16("All files"@).push(0u16)
        + utf16("*.*"@).push(0u16) + seq![0u16]);
    out
}

/// Copies `text` into a fixed buffer, cut to leave room for the final NUL.
pub fn copy_wide_buf(dest: &mut Vec<u16>, text: &str)
    requires
        old(dest)@.len() > 0,
    ensures
        ({
            let enc = utf16(text@);
            let n = if enc.len() < old(dest)@.len() - 1 { enc.len() as int } else { old(dest)@.len() - 1 };
            &&& final(dest)@.len() == old(dest)@.len()
            &&& final(dest)@.subrange(0, n) == enc.subrange(0, n)
            &&& final(dest)@[n] == 0u16
            &&& final(dest)@.subrange(n + 1, final(dest)@.len() as int) == old(dest)@.subrange(n + 1, old(dest)@.len() as int)
        }),
{
    let mut enc: Vec<u16> = Vec::new();
    push_utf16(&mut enc, text);
    assert(enc@ =~= utf16(text@));
    let room = dest.len() - 1;
    let n = if enc.len() < room { enc.len() } else { room };
    let mut i: usize = 0;
    while i < n
        invariant
            n <= enc@.len(),
            n < dest@.len(),
            dest@.len() == old(dest)@.len(),
            i <= n,
            forall|j: int| 0 <= j < i ==> dest@[j] == enc@[j],
            forall|j: int| n <= j < dest@.len() ==> dest@[j] == old(dest)@[j],
        decreases n - i,
    {
        dest.set(i, enc[i]);
        i = i + 1;
    }
    dest.set(n, 0);
    assert(dest@.subrange(0, n as int) =~= enc@.subrange(0, n as int));
    assert(dest@.subrange(n as int + 1, dest@.len() as int) =~= old(dest)@.subrange(n as int + 1, old(dest)@.len() as int));
}

} // verus!
