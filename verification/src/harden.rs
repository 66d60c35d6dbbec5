//! Path checks that keep the program from loading or trusting files outside
//! the places it expects: system-directory DLL names, and whether an
//! executable lies under Program Files. Paths are Windows paths; a drive
//! letter with its colon is the only prefix recognised.
use vstd::prelude::*;
use crate::fan::split_on;
use crate::text::{
    ascii_lower, chars_of, lower_chars, owned, push_chars, push_str, seq_eq, slice_to_vec_range,
    trim, trimmed_chars, contains, contains_chars,
};

verus! {

pub open spec fn is_safe_name_char(c: char) -> bool {
    ('a' <= c && c <= 'z') || ('A' <= c && c <= 'Z') || ('0' <= c && c <= '9') || c == '.' || c == '_'
        || c == '-'
}

/// A bare DLL file name: not empty, no path separator, no `..`, and only
/// ASCII letters, digits, `.`, `_` and `-`.
pub open spec fn safe_library_name(s: Seq<char>) -> bool {
    &&& s.len() > 0
    &&& !s.contains('\\')
    &&& !s.contains('/')
    &&& !contains(s, ".."@)
    &&& forall|i: int| 0 <= i < s.len() ==> is_safe_name_char(#[trigger] s[i])
}

pub fn is_safe_library_file_name(file_name: &str) -> (r: bool)
    ensures
        r == safe_library_name(file_name@),
{
    let chars = chars_of(file_name);
    if chars.len() == 0 {
        return false;
    }
    let mut i: usize = 0;
    while i < chars.len()
        invariant
            chars@ == file_name@,
            i <= chars@.len(),
            forall|j: int| 0 <= j < i ==> is_safe_name_char(#[trigger] chars@[j]),
        decreases chars@.len() - i,
    {
        let c = chars[i];
        if !(('a' <= c && c <= 'z') || ('A' <= c && c <= 'Z') || ('0' <= c && c <= '9') || c == '.'
            || c == '_' || c == '-') {
            assert(!is_safe_name_char(chars@[i as int]));
            return false;
        }
        i = i + 1;
    }
    proof {
        if file_name@.contains('\\') {
            let k = choose|k: int| 0 <= k < file_name@.len() && file_name@[k] == '\\';
            assert(is_safe_name_char(file_name@[k]));
        }
        if file_name@.contains('/') {
            let k = choose|k: int| 0 <= k < file_name@.len() && file_name@[k] == '/';
            assert(is_safe_name_char(file_name@[k]));
        }
    }
    let dots = chars_of("..");
    !contains_chars(chars.as_slice(), dots.as_slice())
}

/// `<system dir>\<file name>` for a safe bare file name.
pub fn system32_library_path(system_dir: &str, file_name: &str) -> (r: Option<String>)
    ensures
        r is Some <==> safe_library_name(file_name@),
        r matches Some(p) ==> p@ == system_dir@ + "\\"@ + file_name@,
{
    if !is_safe_library_file_name(file_name) {
        return None;
    }
    let mut out = owned(system_dir);
    push_str(&mut out, "\\");
    push_str(&mut out, file_name);
    Some(out)
}

/// Number of leading copies of `c`.
pub open spec fn lead_count(s: Seq<char>, c: char) -> nat
    decreases s.len(),
{
    if s.len() > 0 && s[0] == c {
        1 + lead_count(s.drop_first(), c)
    } else {
        0
    }
}

/// Number of trailing copies of `c`.
pub open spec fn trail_count(s: Seq<char>, c: char) -> nat
    decreases s.len(),
{
    if s.len() > 0 && s.last() == c {
        1 + trail_count(s.drop_last(), c)
    } else {
        0
    }
}

/// `s` without trailing copies of `c` (as `str::trim_end_matches`).
pub open spec fn trim_end_char(s: Seq<char>, c: char) -> Seq<char> {
    s.take(s.len() - trail_count(s, c))
}

/// `s` without copies of `c` at either end (as `str::trim_matches`).
pub open spec fn trim_char(s: Seq<char>, c: char) -> Seq<char> {
    trim_end_char(s.skip(lead_count(s, c) as int), c)
}

proof fn lemma_lead_count(s: Seq<char>, c: char)
    ensures
        lead_count(s, c) <= s.len(),
        forall|j: int| 0 <= j < lead_count(s, c) ==> #[trigger] s[j] == c,
        lead_count(s, c) < s.len() ==> s[lead_count(s, c) as int] != c,
    decreases s.len(),
{
    if s.len() > 0 && s[0] == c {
        lemma_lead_count(s.drop_first(), c);
        assert forall|j: int| 0 <= j < lead_count(s, c) implies #[trigger] s[j] == c by {
            if j > 0 {
                assert(s[j] == s.drop_first()[j - 1]);
            }
        }
    }
}

proof fn lemma_lead_count_unique(s: Seq<char>, c: char, k: int)
    requires
        0 <= k <= s.len(),
        forall|j: int| 0 <= j < k ==> #[trigger] s[j] == c,
        k < s.len() ==> s[k] != c,
    ensures
        lead_count(s, c) == k,
    decreases s.len(),
{
    if k > 0 {
        assert(s[0] == c);
        assert forall|j: int| 0 <= j < k - 1 implies #[trigger] s.drop_first()[j] == c by {
            assert(s.drop_first()[j] == s[j + 1]);
        }
        if k - 1 < s.drop_first().len() {
            assert(s.drop_first()[k - 1] == s[k]);
        }
        lemma_lead_count_unique(s.drop_first(), c, k - 1);
    } else if s.len() > 0 {
        assert(s[0] != c);
    }
}

proof fn lemma_trail_count_unique(s: Seq<char>, c: char, k: int)
    requires
        0 <= k <= s.len(),
        forall|j: int| s.len() - k <= j < s.len() ==> #[trigger] s[j] == c,
        k < s.len() ==> s[s.len() - k - 1] != c,
    ensures
        trail_count(s, c) == k,
    decreases s.len(),
{
    if k > 0 {
        assert(s[s.len() - 1] == c);
        let t = s.drop_last();
        assert forall|j: int| t.len() - (k - 1) <= j < t.len() implies #[trigger] t[j] == c by {
            assert(t[j] == s[j]);
        }
        if k - 1 < t.len() {
            assert(t[t.len() - (k - 1) - 1] == s[s.len() - k - 1]);
        }
        lemma_trail_count_unique(t, c, k - 1);
    } else if s.len() > 0 {
        assert(s.last() != c);
    }
}

/// Bounds of `trim_end_char(v[from..], c)`'s end.
fn trailing_end(v: &[char], from: usize, c: char) -> (end: usize)
    requires
        from <= v@.len(),
    ensures
        from <= end <= v@.len(),
        v@.subrange(from as int, end as int) == trim_end_char(v@.subrange(from as int, v@.len() as int), c),
{
    let n = v.len();
    let mut end: usize = n;
    while end > from && v[end - 1] == c
        invariant
            n == v@.len(),
            from <= end <= n,
            forall|j: int| end <= j < n ==> #[trigger] v@[j] == c,
        decreases end,
    {
        end = end - 1;
    }
    proof {
        let s = v@.subrange(from as int, n as int);
        let k = (n - end) as int;
        assert forall|j: int| s.len() - k <= j < s.len() implies #[trigger] s[j] == c by {
            assert(s[j] == v@[j + from]);
        }
        if k < s.len() {
            assert(s[s.len() - k - 1] == v@[end - 1]);
        }
        lemma_trail_count_unique(s, c, k);
        assert(v@.subrange(from as int, end as int) =~= trim_end_char(s, c));
    }
    end
}

/// `v` without copies of `c` at either end.
pub fn trim_char_chars(v: &[char], c: char) -> (r: Vec<char>)
    ensures
        r@ == trim_char(v@, c),
{
    let n = v.len();
    let mut start: usize = 0;
    while start < n && v[start] == c
        invariant
            n == v@.len(),
            start <= n,
            forall|j: int| 0 <= j < start ==> #[trigger] v@[j] == c,
        decreases n - start,
    {
        start = start + 1;
    }
    proof {
        lemma_lead_count_unique(v@, c, start as int);
        assert(v@.skip(start as int) =~= v@.subrange(start as int, n as int));
    }
    let end = trailing_end(v, start, c);
    slice_to_vec_range(v, start, end)
}

/// `v` without trailing copies of `c`.
pub fn trim_end_char_chars(v: &[char], c: char) -> (r: Vec<char>)
    ensures
        r@ == trim_end_char(v@, c),
{
    let end = trailing_end(v, 0, c);
    assert(v@.subrange(0, v@.len() as int) =~= v@);
    slice_to_vec_range(v, 0, end)
}

/// Forward slashes become backslashes.
pub open spec fn to_backslashes(s: Seq<char>) -> Seq<char> {
    s.map_values(|c: char| if c == '/' { '\\' } else { c })
}

pub open spec fn is_ascii_alpha(c: char) -> bool {
    ('a' <= c && c <= 'z') || ('A' <= c && c <= 'Z')
}

/// A drive prefix such as `C:`.
pub open spec fn has_drive(s: Seq<char>) -> bool {
    s.len() >= 2 && is_ascii_alpha(s[0]) && s[1] == ':'
}

pub open spec fn prefix_len(s: Seq<char>) -> int {
    if has_drive(s) { 2 } else { 0 }
}

/// A root separator right after the prefix.
pub open spec fn has_root(s: Seq<char>) -> bool {
    s.len() > prefix_len(s) && s[prefix_len(s)] == '\\'
}

/// What follows the prefix and the root.
pub open spec fn path_body(s: Seq<char>) -> Seq<char> {
    s.skip(prefix_len(s) + if has_root(s) { 1int } else { 0int })
}

/// The named components left after resolving `.` and `..` in order; a `..`
/// with nothing before it is dropped, and empty pieces are skipped.
pub open spec fn resolve_components(segs: Seq<Seq<char>>) -> Seq<Seq<char>>
    decreases segs.len(),
{
    if segs.len() == 0 {
        seq![]
    } else {
        let prev = resolve_components(segs.drop_last());
        let c = segs.last();
        if c.len() == 0 || c == "."@ {
            prev
        } else if c == ".."@ {
            if prev.len() > 0 {
                prev.drop_last()
            } else {
                prev
            }
        } else {
            prev.push(c)
        }
    }
}

/// Resolving leaves only named components: no empty piece, no `.` and no
/// `..`, so a normalised path cannot climb out of its prefix.
pub proof fn lemma_resolved_components_are_named(segs: Seq<Seq<char>>)
    ensures
        forall|i: int| 0 <= i < resolve_components(segs).len() ==> {
            let c = #[trigger] resolve_components(segs)[i];
            c.len() > 0 && c != "."@ && c != ".."@
        },
    decreases segs.len(),
{
    if segs.len() > 0 {
        lemma_resolved_components_are_named(segs.drop_last());
        let prev = resolve_components(segs.drop_last());
        let r = resolve_components(segs);
        assert forall|i: int| 0 <= i < r.len() implies {
            let c = #[trigger] r[i];
            c.len() > 0 && c != "."@ && c != ".."@
        } by {
            if i < prev.len() {
                assert(r[i] == prev[i]);
            }
        }
    }
}

/// Pieces joined with a backslash between each two.
pub open spec fn join_backslash(parts: Seq<Seq<char>>) -> Seq<char>
    decreases parts.len(),
{
    if parts.len() == 0 {
        Seq::empty()
    } else if parts.len() == 1 {
        parts[0]
    } else {
        join_backslash(parts.drop_last()) + "\\"@ + parts.last()
    }
}

/// An executable path in canonical form: trimmed, outer quotes removed,
/// slashes turned into backslashes, and `.`/`..` resolved.
pub open spec fn normalize_path_spec(value: Seq<char>) -> Seq<char> {
    let p = to_backslashes(trim_char(trim(value), '"'));
    p.take(prefix_len(p)) + (if has_root(p) { "\\"@ } else { Seq::empty() }) + join_backslash(
        resolve_components(split_on(path_body(p), '\\')),
    )
}

fn backslashes(v: &[char]) -> (r: Vec<char>)
    ensures
        r@ == to_backslashes(v@),
{
    let mut r: Vec<char> = Vec::new();
    let mut i: usize = 0;
    while i < v.len()
        invariant
            i <= v@.len(),
            r@ == to_backslashes(v@.subrange(0, i as int)),
        decreases v@.len() - i,
    {
        let c = v[i];
        r.push(if c == '/' { '\\' } else { c });
        i = i + 1;
        assert(r@ =~= to_backslashes(v@.subrange(0, i as int)));
    }
    assert(v@.subrange(0, v@.len() as int) =~= v@);
    r
}

pub open spec fn vec_views(v: Seq<Vec<char>>) -> Seq<Seq<char>> {
    v.map_values(|x: Vec<char>| x@)
}

/// Applies one finished piece to the resolved components.
fn resolve_step(parts: &mut Vec<Vec<char>>, piece: Vec<char>)
    ensures
        vec_views(final(parts)@) == ({
            let prev = vec_views(old(parts)@);
            let c = piece@;
            if c.len() == 0 || c == "."@ {
                prev
            } else if c == ".."@ {
                if prev.len() > 0 { prev.drop_last() } else { prev }
            } else {
                prev.push(c)
            }
        }),
{
    let is_dot = crate::text::chars_eq_str(piece.as_slice(), ".");
    let is_dotdot = crate::text::chars_eq_str(piece.as_slice(), "..");
    if piece.len() == 0 || is_dot {
    } else if is_dotdot {
        if parts.len() > 0 {
            parts.pop();
            assert(vec_views(parts@) =~= vec_views(old(parts)@).drop_last());
        }
    } else {
        parts.push(piece);
        assert(vec_views(parts@) =~= vec_views(old(parts)@).push(piece@));
    }
}

fn join_parts(out: &mut String, parts: &Vec<Vec<char>>)
    ensures
        final(out)@ == old(out)@ + join_backslash(vec_views(parts@)),
{
    let ghost start = out@;
    let mut i: usize = 0;
    while i < parts.len()
        invariant
            i <= parts@.len(),
            out@ == start + join_backslash(vec_views(parts@).subrange(0, i as int)),
        decreases parts@.len() - i,
    {
        let ghost before = out@;
        if i > 0 {
            push_str(out, "\\");
        }
        push_chars(out, parts[i].as_slice());
        proof {
            let s = vec_views(parts@).subrange(0, i as int + 1);
            assert(s.drop_last() =~= vec_views(parts@).subrange(0, i as int));
            assert(s.last() == parts@[i as int]@);
            if i == 0 {
                assert(join_backslash(vec_views(parts@).subrange(0, 0)) =~= Seq::<char>::empty());
                assert(out@ =~= start + join_backslash(s));
            } else {
                assert(out@ =~= start + join_backslash(s));
            }
        }
        i = i + 1;
    }
    assert(vec_views(parts@).subrange(0, parts@.len() as int) =~= vec_views(parts@));
}

/// Canonical form of an executable path.
pub fn normalize_exe_path(value: &str) -> (r: String)
    ensures
        r@ == normalize_path_spec(value@),
{
    let trimmed = trimmed_chars(value);
    let unquoted = trim_char_chars(trimmed.as_slice(), '"');
    let p = backslashes(unquoted.as_slice());
    let ghost pv = p@;
    let n = p.len();
    let drive = n >= 2 && (('a' <= p[0] && p[0] <= 'z') || ('A' <= p[0] && p[0] <= 'Z')) && p[1] == ':';
    let plen: usize = if drive { 2 } else { 0 };
    let root = n > plen && p[plen] == '\\';
    let body_start: usize = if root { plen + 1 } else { plen };
    let mut out = String::new();
    let pre = slice_to_vec_range(p.as_slice(), 0, plen);
    push_chars(&mut out, pre.as_slice());
    if root {
        push_str(&mut out, "\\");
    }
    proof {
        assert(pre@ =~= pv.take(prefix_len(pv)));
    }
    let ghost head = out@;
    let ghost body = path_body(pv);
    assert(body =~= pv.subrange(body_start as int, n as int));

    let mut parts: Vec<Vec<char>> = Vec::new();
    let mut cur: Vec<char> = Vec::new();
    let ghost mut completed: Seq<Seq<char>> = seq![];
    let mut i: usize = body_start;
    while i < n
        invariant
            n == p@.len(),
            body_start <= i <= n,
            body == p@.subrange(body_start as int, n as int),
            split_on(body.subrange(0, i - body_start), '\\') == completed.push(cur@),
            vec_views(parts@) == resolve_components(completed),
        decreases n - i,
    {
        let c = p[i];
        proof {
            let k = i - body_start;
            assert(body.subrange(0, k + 1).drop_last() =~= body.subrange(0, k));
            assert(body.subrange(0, k + 1).last() == c);
        }
        if c == '\\' {
            let piece = cur;
            cur = Vec::new();
            let ghost old_completed = completed;
            resolve_step(&mut parts, piece);
            proof {
                completed = completed.push(piece@);
                assert(completed.drop_last() =~= old_completed);
                assert(split_on(body.subrange(0, i - body_start + 1), '\\') =~= completed.push(cur@));
            }
        } else {
            proof {
                let prev = completed.push(cur@);
                assert(prev.last() == cur@);
            }
            cur.push(c);
            proof {
                assert(split_on(body.subrange(0, i - body_start + 1), '\\') =~= completed.push(cur@));
            }
        }
        i = i + 1;
    }
    assert(body.subrange(0, n - body_start) =~= body);
    let ghost last = cur@;
    resolve_step(&mut parts, cur);
    proof {
        let all = completed.push(last);
        assert(all.drop_last() =~= completed);
        assert(vec_views(parts@) =~= resolve_components(all));
    }
    join_parts(&mut out, &parts);
    out
}

/// `a` and `b` equal up to ASCII case (as `str::eq_ignore_ascii_case`).
pub open spec fn eq_ignore_case(a: Seq<char>, b: Seq<char>) -> bool {
    ascii_lower(a) == ascii_lower(b)
}

/// Whether an executable lies inside a prefix directory, after normalising
/// both: the path equals the prefix or continues it after a backslash.
pub open spec fn under_prefix(exe: Seq<char>, prefix: Seq<char>) -> bool {
    let n = normalize_path_spec(exe);
    let p = trim_end_char(normalize_path_spec(prefix), '\\');
    let with_sep = p + "\\"@;
    &&& p.len() > 0
    &&& (eq_ignore_case(n, p) || (n.len() > with_sep.len() && eq_ignore_case(
        n.take(with_sep.len() as int),
        with_sep,
    )))
}

pub open spec fn under_any_prefix(exe: Seq<char>, prefixes: Seq<Seq<char>>) -> bool {
    normalize_path_spec(exe).len() > 0 && exists|i: int| 0 <= i < prefixes.len() && under_prefix(exe, #[trigger] prefixes[i])
}

fn eq_ignore_case_chars(a: &[char], b: &[char]) -> (r: bool)
    ensures
        r == eq_ignore_case(a@, b@),
{
    let la = lower_chars(a);
    let lb = lower_chars(b);
    seq_eq(la.as_slice(), lb.as_slice())
}

fn is_under_prefix(normalized: &[char], exe: Ghost<Seq<char>>, prefix: &str) -> (r: bool)
    requires
        normalized@ == normalize_path_spec(exe@),
    ensures
        r == under_prefix(exe@, prefix@),
{
    let pn = normalize_exe_path(prefix);
    let pc = chars_of(pn.as_str());
    let p = trim_end_char_chars(pc.as_slice(), '\\');
    if p.len() == 0 {
        return false;
    }
    if eq_ignore_case_chars(normalized, p.as_slice()) {
        return true;
    }
    let mut with_sep = p.clone();
    with_sep.push('\\');
    assert(with_sep@ =~= p@ + "\\"@) by {
        reveal_strlit("\\");
    }
    if normalized.len() > with_sep.len() {
        let head = slice_to_vec_range(normalized, 0, with_sep.len());
        assert(head@ =~= normalized@.take(with_sep@.len() as int));
        eq_ignore_case_chars(head.as_slice(), with_sep.as_slice())
    } else {
        false
    }
}

/// Whether `exe` lies inside one of the `prefixes` directories.
pub fn path_is_under_prefixes(exe: &str, prefixes: &[String]) -> (r: bool)
    ensures
        r == under_any_prefix(exe@, prefixes@.map_values(|s: String| s@)),
{
    let normalized = normalize_exe_path(exe);
    let nc = chars_of(normalized.as_str());
    let ghost ps = prefixes@.map_values(|s: String| s@);
    if nc.len() == 0 {
        return false;
    }
    let mut i: usize = 0;
    while i < prefixes.len()
        invariant
            i <= prefixes@.len(),
            nc@ == normalize_path_spec(exe@),
            nc@.len() > 0,
            ps == prefixes@.map_values(|s: String| s@),
            forall|j: int| 0 <= j < i ==> !under_prefix(exe@, #[trigger] ps[j]),
        decreases prefixes@.len() - i,
    {
        if is_under_prefix(nc.as_slice(), Ghost(exe@), prefixes[i].as_str()) {
            assert(under_prefix(exe@, ps[i as int]));
            return true;
        }
        i = i + 1;
    }
    false
}

/// A directory reported by Windows: trailing NULs and backslashes removed,
/// and the fallback when nothing is left.
pub open spec fn clean_dir_spec(raw: Seq<char>, fallback: Seq<char>) -> Seq<char> {
    let t = trim_end_char(trim_end_char(raw, '\0'), '\\');
    if t.len() == 0 { fallback } else { t }
}

pub fn clean_windows_dir(raw: &str, fallback: &str) -> (r: String)
    ensures
        r@ == clean_dir_spec(raw@, fallback@),
{
    let chars = chars_of(raw);
    let a = trim_end_char_chars(chars.as_slice(), '\0');
    let b = trim_end_char_chars(a.as_slice(), '\\');
    if b.len() == 0 {
        owned(fallback)
    } else {
        let mut out = String::new();
        push_chars(&mut out, b.as_slice());
        out
    }
}

/// A known folder's path without trailing backslashes; nothing when empty.
pub fn clean_known_folder(raw: &str) -> (r: Option<String>)
    ensures
        r is Some <==> trim_end_char(raw@, '\\').len() > 0,
        r matches Some(p) ==> p@ == trim_end_char(raw@, '\\'),
{
    let chars = chars_of(raw);
    let t = trim_end_char_chars(chars.as_slice(), '\\');
    if t.len() == 0 {
        None
    } else {
        let mut out = String::new();
        push_chars(&mut out, t.as_slice());
        Some(out)
    }
}

} // verus!
