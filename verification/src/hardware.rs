//! Identification of the board that the EC belongs to.
use vstd::prelude::*;

use crate::text::{
    ascii_lower, chars_of, contains, contains_chars, lower_chars, occurs_at, owned, push_str, trim,
    trimmed_chars, string_from_chars,
};

verus! {

/// The BIOS strings that identify the machine.
#[derive(Debug, Clone)]
pub struct HardwareIdentity {
    pub system_manufacturer: String,
    pub system_product: String,
    pub board_manufacturer: String,
    pub board_product: String,
}

/// The first of two values that is non-empty after trimming, trimmed; empty if neither is.
pub open spec fn first_non_empty_spec(a: Seq<char>, b: Seq<char>) -> Seq<char> {
    if trim(a).len() > 0 {
        trim(a)
    } else {
        trim(b)
    }
}

/// Human-readable summary: manufacturer and product, or `unknown`.
pub open spec fn summary_spec(h: HardwareIdentity) -> Seq<char> {
    let product = first_non_empty_spec(h.system_product@, h.board_product@);
    let manufacturer = first_non_empty_spec(h.system_manufacturer@, h.board_manufacturer@);
    if manufacturer.len() == 0 && product.len() == 0 {
        "unknown"@
    } else if product.len() == 0 {
        manufacturer
    } else if manufacturer.len() == 0 {
        product
    } else {
        manufacturer + " "@ + product
    }
}

/// All four BIOS strings joined by spaces and lower-cased.
pub open spec fn haystack_spec(h: HardwareIdentity) -> Seq<char> {
    ascii_lower(
        h.system_manufacturer@ + " "@ + h.system_product@ + " "@ + h.board_manufacturer@ + " "@
            + h.board_product@,
    )
}

/// The board is a Sixunited AXB35 / GMKtec EVO-X2.
pub open spec fn supported_spec(h: HardwareIdentity) -> bool {
    let hay = haystack_spec(h);
    ||| contains(hay, "axb35"@)
    ||| contains(hay, "su_axb35"@)
    ||| contains(hay, "evo-x2"@)
    ||| contains(hay, "evox2"@)
    ||| contains(hay, "sixunited"@)
}

/// A BIOS string that names the board family: it holds `axb35`, `sixunited`,
/// `evo-x2` or `evox2`, in any letter case.
pub open spec fn names_board(s: Seq<char>) -> bool {
    let l = ascii_lower(s);
    ||| contains(l, "axb35"@)
    ||| contains(l, "sixunited"@)
    ||| contains(l, "evo-x2"@)
    ||| contains(l, "evox2"@)
}

/// Text found in the middle part is found in the whole.
proof fn lemma_contains_in_middle(p: Seq<char>, x: Seq<char>, q: Seq<char>, n: Seq<char>)
    requires
        contains(x, n),
    ensures
        contains(p + x + q, n),
{
    let i = choose|i: int| occurs_at(x, n, i);
    assert((p + x + q).subrange(p.len() + i, p.len() + i + n.len()) =~= x.subrange(i, i + n.len()));
    assert(occurs_at(p + x + q, n, p.len() + i));
}

/// Text without a space found in `x + " " + y` is found in `x` or in `y`.
proof fn lemma_contains_across_space(x: Seq<char>, y: Seq<char>, n: Seq<char>)
    requires
        contains(x + " "@ + y, n),
        n.len() >= 1,
        forall|k: int| 0 <= k < n.len() ==> n[k] != ' ',
    ensures
        contains(x, n) || contains(y, n),
{
    reveal_strlit(" ");
    let h = x + " "@ + y;
    let i = choose|i: int| occurs_at(h, n, i);
    let w = h.subrange(i, i + n.len());
    let a = x.len() as int;
    if i + n.len() <= a {
        assert(x.subrange(i, i + n.len()) =~= w);
        assert(occurs_at(x, n, i));
    } else if i <= a {
        assert(w[a - i] == h[a]);
    } else {
        assert(y.subrange(i - a - 1, i - a - 1 + n.len()) =~= w);
        assert(occurs_at(y, n, i - a - 1));
    }
}

/// Supported hardware has a BIOS string that names the board family: the
/// names are looked for in each string, never across two of them.
pub proof fn lemma_supported_needs_a_board_name(h: HardwareIdentity)
    ensures
        supported_spec(h) ==> names_board(h.system_manufacturer@) || names_board(h.system_product@)
            || names_board(h.board_manufacturer@) || names_board(h.board_product@),
{
    reveal_strlit(" ");
    reveal_strlit("axb35");
    reveal_strlit("su_axb35");
    reveal_strlit("sixunited");
    reveal_strlit("evo-x2");
    reveal_strlit("evox2");
    let a = ascii_lower(h.system_manufacturer@);
    let b = ascii_lower(h.system_product@);
    let c = ascii_lower(h.board_manufacturer@);
    let d = ascii_lower(h.board_product@);
    let sp = " "@;
    assert(ascii_lower(sp) =~= sp);
    let hay = haystack_spec(h);
    assert(hay =~= ((a + sp + b) + sp + c) + sp + d);
    let markers = seq!["axb35"@, "sixunited"@, "evo-x2"@, "evox2"@];
    assert forall|k: int| 0 <= k < 4 && contains(hay, #[trigger] markers[k]) implies contains(a, markers[k])
        || contains(b, markers[k]) || contains(c, markers[k]) || contains(d, markers[k]) by {
        let n = markers[k];
        lemma_contains_across_space((a + sp + b) + sp + c, d, n);
        if contains((a + sp + b) + sp + c, n) {
            lemma_contains_across_space(a + sp + b, c, n);
            if contains(a + sp + b, n) {
                lemma_contains_across_space(a, b, n);
            }
        }
    }
    if contains(hay, "su_axb35"@) {
        let i = choose|i: int| occurs_at(hay, "su_axb35"@, i);
        let w = hay.subrange(i, i + 8);
        assert(w == "su_axb35"@);
        assert forall|k: int| 0 <= k < 5 implies #[trigger] hay.subrange(i + 3, i + 8)[k] == "axb35"@[k] by {
            assert(hay.subrange(i + 3, i + 8)[k] == w[k + 3]);
        }
        assert(hay.subrange(i + 3, i + 8) =~= "axb35"@);
        assert(occurs_at(hay, "axb35"@, i + 3));
    }
    assert(markers[0] == "axb35"@);
    assert(markers[1] == "sixunited"@);
    assert(markers[2] == "evo-x2"@);
    assert(markers[3] == "evox2"@);
}

/// Any one of the four BIOS strings naming the board family (the Sixunited
/// AXB35 board or the GMKtec EVO-X2 built on it) makes the hardware
/// supported, whatever the other strings say.
pub proof fn lemma_board_names_are_supported(h: HardwareIdentity)
    ensures
        names_board(h.system_manufacturer@) ==> supported_spec(h),
        names_board(h.system_product@) ==> supported_spec(h),
        names_board(h.board_manufacturer@) ==> supported_spec(h),
        names_board(h.board_product@) ==> supported_spec(h),
{
    let sp = " "@;
    let a = ascii_lower(h.system_manufacturer@);
    let b = ascii_lower(h.system_product@);
    let c = ascii_lower(h.board_manufacturer@);
    let d = ascii_lower(h.board_product@);
    let ls = ascii_lower(sp);
    let hay = haystack_spec(h);
    assert(hay =~= a + ls + b + ls + c + ls + d);
    let e = Seq::<char>::empty();
    assert(hay =~= e + a + (ls + b + ls + c + ls + d));
    assert(hay =~= (a + ls) + b + (ls + c + ls + d));
    assert(hay =~= (a + ls + b + ls) + c + (ls + d));
    assert(hay =~= (a + ls + b + ls + c + ls) + d + e);
    let markers = seq!["axb35"@, "sixunited"@, "evo-x2"@, "evox2"@];
    assert forall|k: int| 0 <= k < 4 implies (contains(a, #[trigger] markers[k]) || contains(b, markers[k])
        || contains(c, markers[k]) || contains(d, markers[k])) ==> contains(hay, markers[k]) by {
        let n = markers[k];
        if contains(a, n) {
            lemma_contains_in_middle(e, a, ls + b + ls + c + ls + d, n);
        }
        if contains(b, n) {
            lemma_contains_in_middle(a + ls, b, ls + c + ls + d, n);
        }
        if contains(c, n) {
            lemma_contains_in_middle(a + ls + b + ls, c, ls + d, n);
        }
        if contains(d, n) {
            lemma_contains_in_middle(a + ls + b + ls + c + ls, d, e, n);
        }
    }
    assert(markers[0] == "axb35"@);
    assert(markers[1] == "sixunited"@);
    assert(markers[2] == "evo-x2"@);
    assert(markers[3] == "evox2"@);
}

impl Default for HardwareIdentity {
    fn default() -> (r: Self)
        ensures
            r.system_manufacturer@.len() == 0,
            r.system_product@.len() == 0,
            r.board_manufacturer@.len() == 0,
            r.board_product@.len() == 0,
    {
        HardwareIdentity {
            system_manufacturer: String::new(),
            system_product: String::new(),
            board_manufacturer: String::new(),
            board_product: String::new(),
        }
    }
}

impl HardwareIdentity {
    /// A fresh copy with the same four strings.
    pub fn duplicate(&self) -> (r: Self)
        ensures
            r.system_manufacturer@ == self.system_manufacturer@,
            r.system_product@ == self.system_product@,
            r.board_manufacturer@ == self.board_manufacturer@,
            r.board_product@ == self.board_product@,
    {
        HardwareIdentity {
            system_manufacturer: owned(self.system_manufacturer.as_str()),
            system_product: owned(self.system_product.as_str()),
            board_manufacturer: owned(self.board_manufacturer.as_str()),
            board_product: owned(self.board_product.as_str()),
        }
    }

    /// `Manufacturer Product`, whichever of the two is known, or `unknown`.
    pub fn summary(&self) -> (r: String)
        ensures
            r@ == summary_spec(*self),
    {
        let product = first_non_empty(self.system_product.as_str(), self.board_product.as_str());
        let manufacturer = first_non_empty(
            self.system_manufacturer.as_str(),
            self.board_manufacturer.as_str(),
        );
        if manufacturer.len() == 0 && product.len() == 0 {
            owned("unknown")
        } else if product.len() == 0 {
            string_from_chars(manufacturer.as_slice())
        } else if manufacturer.len() == 0 {
            string_from_chars(product.as_slice())
        } else {
            let mut out = string_from_chars(manufacturer.as_slice());
            push_str(&mut out, " ");
            let p = string_from_chars(product.as_slice());
            push_str(&mut out, p.as_str());
            out
        }
    }

    /// Whether the BIOS strings name a supported AXB35 / EVO-X2 board.
    pub fn is_supported_axb35(&self) -> (r: bool)
        ensures
            r == supported_spec(*self),
    {
        let mut joined = owned(self.system_manufacturer.as_str());
        push_str(&mut joined, " ");
        push_str(&mut joined, self.system_product.as_str());
        push_str(&mut joined, " ");
        push_str(&mut joined, self.board_manufacturer.as_str());
        push_str(&mut joined, " ");
        push_str(&mut joined, self.board_product.as_str());
        let raw = chars_of(joined.as_str());
        let hay = lower_chars(raw.as_slice());
        contains_token(hay.as_slice(), "axb35") || contains_token(hay.as_slice(), "su_axb35")
            || contains_token(hay.as_slice(), "evo-x2") || contains_token(hay.as_slice(), "evox2")
            || contains_token(hay.as_slice(), "sixunited")
    }
}

/// The first of two strings that is non-empty after trimming, trimmed.
pub fn first_non_empty(a: &str, b: &str) -> (r: Vec<char>)
    ensures
        r@ == first_non_empty_spec(a@, b@),
{
    let ta = trimmed_chars(a);
    if ta.len() > 0 {
        ta
    } else {
        trimmed_chars(b)
    }
}

/// Whether `token` occurs in `haystack`.
pub fn contains_token(haystack: &[char], token: &str) -> (r: bool)
    ensures
        r == contains(haystack@, token@),
{
    let t = chars_of(token);
    contains_chars(haystack, t.as_slice())
}

} // verus!
