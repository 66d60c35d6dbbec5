//! Fan identifiers, labels, user-given names and the textual curve format
//! (`"20,60,83,95,97"`).
use vstd::prelude::*;
use crate::text::{
    ascii_lower, chars_eq_str, chars_of, is_trimmed, lemma_trim_is_trimmed,
    lemma_trim_keeps_visible_start, lemma_trimmed_fixed, lower_chars, owned, push_chars, push_str,
    slice_to_vec_range, str_eq, string_from_chars, trim, trim_bounds, trimmed_chars,
};

verus! {

/// Longest custom fan or processor name kept, in characters.
pub const NAME_MAX_CHARS: usize = 32;

/// The fan a (trimmed, case-insensitive) specifier names.
pub open spec fn fan_id_spec(s: Seq<char>) -> Option<u8> {
    let k = ascii_lower(trim(s));
    if k == "1"@ || k == "cpu"@ {
        Some(1u8)
    } else if k == "2"@ || k == "secondary"@ {
        Some(2u8)
    } else if k == "3"@ || k == "system"@ {
        Some(3u8)
    } else {
        None
    }
}

pub open spec fn unknown_fan_msg(s: Seq<char>) -> Seq<char> {
    "Unknown fan '"@ + s + "'. Use 1|2|3 or cpu|secondary|system."@
}

/// Parses `1|2|3` or `cpu|secondary|system`.
pub fn parse_fan_id(spec: &str) -> (r: Result<u8, String>)
    ensures
        r is Ok <==> fan_id_spec(spec@) is Some,
        r matches Ok(id) ==> fan_id_spec(spec@) == Some(id),
        r matches Err(e) ==> e@ == unknown_fan_msg(spec@),
{
    let t = trimmed_chars(spec);
    let k = lower_chars(t.as_slice());
    if chars_eq_str(k.as_slice(), "1") || chars_eq_str(k.as_slice(), "cpu") {
        Ok(1)
    } else if chars_eq_str(k.as_slice(), "2") || chars_eq_str(k.as_slice(), "secondary") {
        Ok(2)
    } else if chars_eq_str(k.as_slice(), "3") || chars_eq_str(k.as_slice(), "system") {
        Ok(3)
    } else {
        let mut e = String::new();
        push_str(&mut e, "Unknown fan '");
        push_str(&mut e, spec);
        push_str(&mut e, "'. Use 1|2|3 or cpu|secondary|system.");
        Err(e)
    }
}

/// Translation key of a fan's title in the window.
pub fn title_key(fan_id: u8) -> (r: &'static str)
    ensures
        r@ == (if fan_id == 1 { "fan_cpu"@ } else if fan_id == 2 { "fan_secondary"@ } else { "fan_system"@ }),
{
    match fan_id {
        1 => "fan_cpu",
        2 => "fan_secondary",
        _ => "fan_system",
    }
}

/// Translation key of a fan's label on the command line.
pub fn cli_label_key(fan_id: u8) -> (r: &'static str)
    ensures
        r@ == (if fan_id == 1 { "cpu_fan"@ } else if fan_id == 2 { "secondary_fan"@ } else { "system_fan"@ }),
{
    match fan_id {
        1 => "cpu_fan",
        2 => "secondary_fan",
        _ => "system_fan",
    }
}

pub open spec fn alias_spec(fan_id: u8) -> Seq<char> {
    if fan_id == 1 {
        "cpu"@
    } else if fan_id == 2 {
        "secondary"@
    } else {
        "system"@
    }
}

/// The short name of a fan, as `parse_fan_id` accepts it.
pub fn alias(fan_id: u8) -> (r: &'static str)
    ensures
        r@ == alias_spec(fan_id),
{
    match fan_id {
        1 => "cpu",
        2 => "secondary",
        _ => "system",
    }
}

/// The alias of every fan names that fan again.
pub proof fn lemma_alias_parses_back(fan_id: u8)
    requires
        1 <= fan_id <= 3,
    ensures
        fan_id_spec(alias_spec(fan_id)) == Some(fan_id),
{
    reveal_strlit("cpu");
    reveal_strlit("secondary");
    reveal_strlit("system");
    reveal_strlit("1");
    reveal_strlit("2");
    reveal_strlit("3");
    let a = alias_spec(fan_id);
    assert(trim(a) =~= a) by {
        assert(crate::text::lead_ws(a) == 0);
        assert(crate::text::trail_ws(a) == 0);
    }
    assert(ascii_lower(a) =~= a);
}

/// A user-given name: trimmed, `None` when nothing is left, and cut to
/// `NAME_MAX_CHARS` characters (trimmed again after the cut).
pub open spec fn sanitize_name_spec(s: Seq<char>) -> Option<Seq<char>> {
    let t = trim(s);
    if t.len() == 0 {
        None
    } else if t.len() > NAME_MAX_CHARS {
        Some(trim(t.subrange(0, NAME_MAX_CHARS as int)))
    } else {
        Some(t)
    }
}

pub fn sanitize_name(name: &str) -> (r: Option<String>)
    ensures
        r is Some <==> sanitize_name_spec(name@) is Some,
        r matches Some(s) ==> sanitize_name_spec(name@) == Some(s@),
{
    let t = trimmed_chars(name);
    if t.len() == 0 {
        None
    } else if t.len() > NAME_MAX_CHARS {
        let cut = slice_to_vec_range(t.as_slice(), 0, NAME_MAX_CHARS);
        let (a, b) = trim_bounds(cut.as_slice());
        let kept = slice_to_vec_range(cut.as_slice(), a, b);
        Some(string_from_chars(kept.as_slice()))
    } else {
        Some(string_from_chars(t.as_slice()))
    }
}

/// The name shown for a fan or the processor: the custom one when there is
/// one, else the default.
pub fn display_name(custom: Option<&str>, default_name: &str) -> (r: String)
    ensures
        r@ == (match custom {
            Some(c) => c@,
            None => default_name@,
        }),
{
    match custom {
        Some(c) => owned(c),
        None => owned(default_name),
    }
}

/// What a rename stores: the sanitised name, or nothing when it sanitises to
/// nothing or to the default name itself.
pub open spec fn stored_name_spec(name: Option<Seq<char>>, default_name: Seq<char>) -> Option<Seq<char>> {
    match name {
        None => None,
        Some(n) => match sanitize_name_spec(n) {
            Some(s) => if s == default_name { None } else { Some(s) },
            None => None,
        },
    }
}

/// The characters of an optional string slice.
pub open spec fn opt_str_view(o: Option<&str>) -> Option<Seq<char>> {
    match o {
        Some(n) => Some(n@),
        None => None,
    }
}

/// The custom name to store after a rename (`None` restores the default).
pub fn stored_custom_name(name: Option<&str>, default_name: &str) -> (r: Option<String>)
    ensures
        r is Some <==> stored_name_spec(opt_str_view(name), default_name@) is Some,
        r matches Some(s) ==> stored_name_spec(opt_str_view(name), default_name@) == Some(s@),
{
    match name {
        None => None,
        Some(n) => match sanitize_name(n) {
            Some(s) => {
                if str_eq(s.as_str(), default_name) {
                    None
                } else {
                    Some(s)
                }
            },
            None => None,
        },
    }
}

/// A kept name is never empty, never longer than the limit, and has no
/// white space at either end.
pub proof fn lemma_sanitized_name_shape(s: Seq<char>)
    requires
        sanitize_name_spec(s) is Some,
    ensures
        sanitize_name_spec(s)->0.len() > 0,
        sanitize_name_spec(s)->0.len() <= NAME_MAX_CHARS,
        is_trimmed(sanitize_name_spec(s)->0),
{
    let t = trim(s);
    lemma_trim_is_trimmed(s);
    if t.len() > NAME_MAX_CHARS {
        let c = t.subrange(0, NAME_MAX_CHARS as int);
        assert(c[0] == t[0]);
        lemma_trim_keeps_visible_start(c);
        lemma_trim_is_trimmed(c);
    }
}

/// Sanitising a sanitised name changes nothing.
pub proof fn lemma_sanitize_name_idempotent(s: Seq<char>)
    requires
        sanitize_name_spec(s) is Some,
    ensures
        sanitize_name_spec(sanitize_name_spec(s)->0) == sanitize_name_spec(s),
{
    let n = sanitize_name_spec(s)->0;
    lemma_sanitized_name_shape(s);
    lemma_trimmed_fixed(n);
}

/// `s` split at every `sep` (as `str::split`): always at least one piece.
pub open spec fn split_on(s: Seq<char>, sep: char) -> Seq<Seq<char>>
    decreases s.len(),
{
    if s.len() == 0 {
        seq![Seq::<char>::empty()]
    } else {
        let prev = split_on(s.drop_last(), sep);
        if s.last() == sep {
            prev.push(Seq::<char>::empty())
        } else {
            prev.update(prev.len() - 1, prev.last().push(s.last()))
        }
    }
}

pub proof fn lemma_split_on_nonempty(s: Seq<char>, sep: char)
    ensures
        split_on(s, sep).len() >= 1,
    decreases s.len(),
{
    if s.len() > 0 {
        lemma_split_on_nonempty(s.drop_last(), sep);
    }
}

/// The trimmed pieces that are not empty, in order.
pub open spec fn keep_nonempty(segs: Seq<Seq<char>>) -> Seq<Seq<char>>
    decreases segs.len(),
{
    if segs.len() == 0 {
        seq![]
    } else {
        let prev = keep_nonempty(segs.drop_last());
        let t = trim(segs.last());
        if t.len() > 0 {
            prev.push(t)
        } else {
            prev
        }
    }
}

/// The values of a curve string: comma-separated, trimmed, empty ones dropped.
pub open spec fn curve_parts(s: Seq<char>) -> Seq<Seq<char>> {
    keep_nonempty(split_on(s, ','))
}

pub open spec fn is_digit(c: char) -> bool {
    '0' <= c && c <= '9'
}

/// The number a string of decimal digits spells.
pub open spec fn digits_value(d: Seq<char>) -> nat
    decreases d.len(),
{
    if d.len() == 0 {
        0
    } else {
        digits_value(d.drop_last()) * 10 + ((d.last() as nat) - ('0' as nat)) as nat
    }
}

/// The digits of a decimal number: the text after an optional leading `+`.
pub open spec fn unsigned_digits(p: Seq<char>) -> Seq<char> {
    if p.len() > 0 && p[0] == '+' {
        p.subrange(1, p.len() as int)
    } else {
        p
    }
}

pub open spec fn all_digits(d: Seq<char>) -> bool {
    forall|i: int| 0 <= i < d.len() ==> is_digit(#[trigger] d[i])
}

/// Decimal `u8` as `str::parse::<u8>` reads it: an optional `+`, then one or
/// more digits, worth at most 255.
pub open spec fn parse_u8_spec(p: Seq<char>) -> Option<u8> {
    let d = unsigned_digits(p);
    if d.len() > 0 && all_digits(d) && digits_value(d) <= 255 {
        Some(digits_value(d) as u8)
    } else {
        None
    }
}

/// Index of the first part that does not parse, if any.
pub open spec fn first_bad_part(parts: Seq<Seq<char>>) -> Option<int>
    decreases parts.len(),
{
    if parts.len() == 0 {
        None
    } else {
        match first_bad_part(parts.drop_last()) {
            Some(i) => Some(i),
            None => if parse_u8_spec(parts.last()) is None {
                Some(parts.len() - 1)
            } else {
                None
            },
        }
    }
}

pub open spec fn curve_count_msg() -> Seq<char> {
    "Fan curve must have exactly 5 comma-separated values"@
}

pub open spec fn curve_value_msg(part: Seq<char>) -> Seq<char> {
    "Invalid fan curve value: "@ + part
}

/// What `parse_curve` answers for a string: the count is checked first, then
/// the values in order.
pub open spec fn parse_curve_spec(s: Seq<char>) -> Result<Seq<u8>, Seq<char>> {
    let parts = curve_parts(s);
    if parts.len() != 5 {
        Err(curve_count_msg())
    } else {
        match first_bad_part(parts) {
            Some(i) => Err(curve_value_msg(parts[i])),
            None => Ok(Seq::new(5, |i: int| parse_u8_spec(parts[i])->0)),
        }
    }
}

proof fn lemma_digits_value_prefix_monotone(d: Seq<char>, k: int)
    requires
        0 <= k <= d.len(),
        forall|i: int| 0 <= i < d.len() ==> is_digit(#[trigger] d[i]),
    ensures
        digits_value(d.subrange(0, k)) <= digits_value(d),
    decreases d.len() - k,
{
    if k < d.len() {
        let a = d.subrange(0, k);
        let b = d.subrange(0, k + 1);
        assert(b.drop_last() =~= a);
        assert(is_digit(d[k]));
        lemma_digits_value_prefix_monotone(d, k + 1);
    } else {
        assert(d.subrange(0, k) =~= d);
    }
}

/// Parses one decimal `u8`.
pub fn parse_u8(p: &[char]) -> (r: Option<u8>)
    ensures
        r == parse_u8_spec(p@),
{
    let start: usize = if p.len() > 0 && p[0] == '+' { 1 } else { 0 };
    let ghost d = unsigned_digits(p@);
    assert(d =~= p@.subrange(start as int, p@.len() as int));
    if start >= p.len() {
        return None;
    }
    let mut value: u32 = 0;
    let mut i: usize = start;
    while i < p.len()
        invariant
            start <= i <= p@.len(),
            start < p@.len(),
            d == unsigned_digits(p@),
            d =~= p@.subrange(start as int, p@.len() as int),
            forall|j: int| 0 <= j < i - start ==> is_digit(#[trigger] d[j]),
            value == digits_value(d.subrange(0, i - start)),
            value <= 255,
        decreases p@.len() - i,
    {
        let c = p[i];
        assert(d[i - start] == c);
        if !('0' <= c && c <= '9') {
            assert(!is_digit(d[i - start]));
            assert(!all_digits(d));
            return None;
        }
        let digit = (c as u32) - ('0' as u32);
        let next = value * 10 + digit;
        proof {
            let k = i - start;
            assert(d.subrange(0, k + 1).drop_last() =~= d.subrange(0, k));
            assert(d.subrange(0, k + 1).last() == c);
        }
        if next > 255 {
            proof {
                let k = i - start;
                assert(digits_value(d.subrange(0, k + 1)) == next);
                if all_digits(d) {
                    lemma_digits_value_prefix_monotone(d, k + 1);
                    assert(digits_value(d) > 255);
                }
            }
            assert(parse_u8_spec(p@) is None);
            return None;
        }
        value = next;
        i = i + 1;
    }
    assert(d.subrange(0, d.len() as int) =~= d);
    Some(value as u8)
}

proof fn lemma_split_step(s: Seq<char>, i: int, sep: char)
    requires
        0 <= i < s.len(),
    ensures
        s.subrange(0, i + 1).drop_last() == s.subrange(0, i),
        s.subrange(0, i + 1).last() == s[i],
{
    assert(s.subrange(0, i + 1).drop_last() =~= s.subrange(0, i));
}

/// Views of a vector of character vectors.
pub open spec fn views(v: Seq<Vec<char>>) -> Seq<Seq<char>> {
    v.map_values(|x: Vec<char>| x@)
}

/// The trimmed non-empty comma-separated parts of `s`.
pub fn split_curve_parts(s: &str) -> (r: Vec<Vec<char>>)
    ensures
        views(r@) == curve_parts(s@),
{
    let chars = chars_of(s);
    let n = chars.len();
    let mut done: Vec<Vec<char>> = Vec::new();
    let mut cur: Vec<char> = Vec::new();
    let ghost mut completed: Seq<Seq<char>> = seq![];
    let mut i: usize = 0;
    while i < n
        invariant
            n == chars@.len(),
            chars@ == s@,
            i <= n,
            split_on(chars@.subrange(0, i as int), ',') == completed.push(cur@),
            views(done@) == keep_nonempty(completed),
        decreases n - i,
    {
        let c = chars[i];
        proof {
            lemma_split_step(chars@, i as int, ',');
        }
        if c == ',' {
            let (a, b) = trim_bounds(cur.as_slice());
            if a < b {
                let piece = slice_to_vec_range(cur.as_slice(), a, b);
                done.push(piece);
            }
            proof {
                let old_completed = completed;
                completed = completed.push(cur@);
                assert(completed.drop_last() =~= old_completed);
                assert(views(done@) =~= keep_nonempty(completed));
            }
            cur = Vec::new();
            proof {
                assert(split_on(chars@.subrange(0, i as int + 1), ',') =~= completed.push(cur@));
            }
        } else {
            proof {
                let prev = completed.push(cur@);
                assert(prev.last() == cur@);
            }
            cur.push(c);
            proof {
                assert(split_on(chars@.subrange(0, i as int + 1), ',') =~= completed.push(cur@));
            }
        }
        i = i + 1;
    }
    assert(chars@.subrange(0, n as int) =~= s@);
    let (a, b) = trim_bounds(cur.as_slice());
    if a < b {
        let piece = slice_to_vec_range(cur.as_slice(), a, b);
        done.push(piece);
    }
    proof {
        let all = completed.push(cur@);
        assert(all.drop_last() =~= completed);
        assert(views(done@) =~= keep_nonempty(all));
    }
    done
}

/// Parses a five-value curve such as `"20,60,83,95,97"`.
pub fn parse_curve(spec: &str) -> (r: Result<[u8; 5], String>)
    ensures
        r is Ok <==> parse_curve_spec(spec@) is Ok,
        r matches Ok(c) ==> parse_curve_spec(spec@) == Ok::<Seq<u8>, Seq<char>>(c@),
        r matches Err(e) ==> parse_curve_spec(spec@) == Err::<Seq<u8>, Seq<char>>(e@),
{
    let parts = split_curve_parts(spec);
    let ghost ps = curve_parts(spec@);
    if parts.len() != 5 {
        assert(views(parts@).len() == parts@.len());
        let mut e = String::new();
        push_str(&mut e, "Fan curve must have exactly 5 comma-separated values");
        return Err(e);
    }
    let mut curve: [u8; 5] = [0u8; 5];
    let mut i: usize = 0;
    while i < 5
        invariant
            parts@.len() == 5,
            views(parts@) == ps,
            ps == curve_parts(spec@),
            ps.len() == 5,
            i <= 5,
            first_bad_part(ps.subrange(0, i as int)) is None,
            forall|j: int| 0 <= j < i ==> parse_u8_spec(ps[j]) == Some(#[trigger] curve@[j]),
        decreases 5 - i,
    {
        assert(views(parts@)[i as int] == parts@[i as int]@);
        let v = parse_u8(parts[i].as_slice());
        proof {
            assert(ps.subrange(0, i as int + 1).drop_last() =~= ps.subrange(0, i as int));
        }
        match v {
            Some(x) => {
                curve[i] = x;
            },
            None => {
                proof {
                    lemma_first_bad_extends(ps, i as int);
                }
                let mut e = String::new();
                push_str(&mut e, "Invalid fan curve value: ");
                push_chars(&mut e, parts[i].as_slice());
                assert(e@ == curve_value_msg(ps[i as int]));
                assert(parse_curve_spec(spec@) == Err::<Seq<u8>, Seq<char>>(curve_value_msg(ps[i as int])));
                return Err(e);
            },
        }
        i = i + 1;
    }
    proof {
        assert(ps.subrange(0, 5) =~= ps);
        assert(curve@ =~= Seq::new(5, |j: int| parse_u8_spec(ps[j])->0));
    }
    Ok(curve)
}

proof fn lemma_first_bad_extends(ps: Seq<Seq<char>>, i: int)
    requires
        0 <= i < ps.len(),
        first_bad_part(ps.subrange(0, i)) is None,
        parse_u8_spec(ps[i]) is None,
    ensures
        first_bad_part(ps) == Some(i),
    decreases ps.len() - i,
{
    lemma_first_bad_prefix(ps, i + 1);
    assert(ps.subrange(0, i + 1).drop_last() =~= ps.subrange(0, i));
    assert(first_bad_part(ps.subrange(0, i + 1)) == Some(i));
}

/// Once the first bad part lies in a prefix, longer prefixes agree on it.
proof fn lemma_first_bad_prefix(ps: Seq<Seq<char>>, k: int)
    requires
        0 <= k <= ps.len(),
        first_bad_part(ps.subrange(0, k)) is Some,
    ensures
        first_bad_part(ps) == first_bad_part(ps.subrange(0, k)),
    decreases ps.len() - k,
{
    if k == ps.len() {
        assert(ps.subrange(0, k) =~= ps);
    } else {
        assert(ps.subrange(0, k + 1).drop_last() =~= ps.subrange(0, k));
        lemma_first_bad_prefix(ps, k + 1);
    }
}

} // verus!
