//! Reading the `listitem` field out of a form-encoded request body.
//!
//! The body is split on `&` into segments; the first segment that starts
//! with `listitem=` holds the value. An empty value counts as absent. In a
//! present value every `+` becomes a space, and the result is then
//! percent-decoded.
use vstd::prelude::*;

verus! {

/// The text that introduces the wanted field in a segment.
pub open spec fn field_key() -> Seq<char> {
    seq!['l', 'i', 's', 't', 'i', 't', 'e', 'm', '=']
}

/// Position `p` begins a `&`-separated segment of `s`.
pub open spec fn segment_start(s: Seq<char>, p: int) -> bool {
    p == 0 || (0 < p <= s.len() && s[p - 1] == '&')
}

/// The segment that begins at `p` starts with the field key.
pub open spec fn is_field_at(s: Seq<char>, p: int) -> bool {
    &&& segment_start(s, p)
    &&& p + field_key().len() <= s.len()
    &&& s.subrange(p, p + field_key().len()) == field_key()
}

/// `p` is the first segment of `s` that starts with the field key.
pub open spec fn is_first_field_at(s: Seq<char>, p: int) -> bool {
    &&& is_field_at(s, p)
    &&& forall|q: int| 0 <= q < p ==> !is_field_at(s, q)
}

/// Index of the first `&` at or after `p`, or the length of `s` if none.
pub open spec fn segment_end(s: Seq<char>, p: int) -> int
    decreases s.len() - p,
{
    if p >= s.len() {
        s.len() as int
    } else if s[p] == '&' {
        p
    } else {
        segment_end(s, p + 1)
    }
}

/// The text after the key in the first segment that starts with it, if any
/// segment does.
pub open spec fn raw_field(s: Seq<char>) -> Option<Seq<char>> {
    if exists|p: int| is_first_field_at(s, p) {
        let p = choose|p: int| is_first_field_at(s, p);
        let v = p + field_key().len();
        Some(s.subrange(v, segment_end(s, v)))
    } else {
        None
    }
}

/// Every `+` of `v` replaced by a space.
pub open spec fn plus_to_space(v: Seq<char>) -> Seq<char> {
    v.map_values(|c: char| if c == '+' { ' ' } else { c })
}

/// The field's value with `+` turned into spaces, before percent-decoding;
/// `None` when the field is missing or empty.
pub open spec fn field_text(s: Seq<char>) -> Option<Seq<char>> {
    match raw_field(s) {
        Some(v) => if v.len() > 0 {
            Some(plus_to_space(v))
        } else {
            None
        },
        None => None,
    }
}

/// The value a body submits: the field text, percent-decoded.
pub open spec fn form_value(s: Seq<char>) -> Option<Seq<char>> {
    match field_text(s) {
        Some(t) => Some(percent_decoded(t)),
        None => None,
    }
}

/// What percent-decoding followed by lossy UTF-8 decoding makes of a text.
pub uninterp spec fn percent_decoded(s: Seq<char>) -> Seq<char>;

/// Relies on `url_escape::decode`: each `%` with two hex digits becomes the
/// byte they spell, the bytes are read as UTF-8 with invalid sequences
/// replaced, and a text holding no `%` comes back as it was.
#[verifier::external_body]
fn decode_percent(s: &str) -> (r: String)
    ensures
        r@ == percent_decoded(s@),
        (forall|i: int| 0 <= i < s@.len() ==> s@[i] != '%') ==> r@ == s@,
{
    url_escape::decode(s).into_owned()
}

proof fn lemma_segment_end_at(s: Seq<char>, p: int, e: int)
    requires
        0 <= p <= e <= s.len(),
        forall|k: int| p <= k < e ==> s[k] != '&',
        e == s.len() || s[e] == '&',
    ensures
        segment_end(s, p) == e,
    decreases e - p,
{
    if p < e {
        lemma_segment_end_at(s, p + 1, e);
    }
}

/// Tests whether the field key stands in `s` at character index `p`.
fn key_at(s: &str, p: usize, n: usize) -> (r: bool)
    requires
        n == s@.len(),
        p <= n,
    ensures
        r == (p + field_key().len() <= n && s@.subrange(p as int, p + field_key().len())
            == field_key()),
{
    let key = "listitem=";
    proof {
        reveal_strlit("listitem=");
    }
    assert(key@ == field_key());
    if n - p < 9 {
        return false;
    }
    let mut m: usize = 0;
    while m < 9
        invariant
            m <= 9,
            p + 9 <= n,
            n == s@.len(),
            key@ == field_key(),
            forall|k: int| 0 <= k < m ==> s@[p + k] == field_key()[k],
        decreases 9 - m,
    {
        if s.get_char(p + m) != key.get_char(m) {
            assert(s@.subrange(p as int, p + 9)[m as int] != field_key()[m as int]);
            return false;
        }
        m += 1;
    }
    assert(s@.subrange(p as int, p + 9) =~= field_key());
    true
}

/// The value of the `listitem` field with `+` turned into spaces, not yet
/// percent-decoded; `None` when no segment starts with `listitem=` or the
/// first such segment has nothing after the key.
pub fn listitem_field(data: &str) -> (r: Option<String>)
    ensures
        r matches Some(t) ==> field_text(data@) == Some(t@),
        r is None ==> field_text(data@) is None,
{
    let n = data.unicode_len();
    let ghost s = data@;
    let mut i: usize = 0;
    let mut at_start = true;
    while i < n
        invariant
            i <= n,
            n == s.len(),
            s == data@,
            at_start == segment_start(s, i as int),
            forall|q: int| 0 <= q < i ==> !is_field_at(s, q),
        decreases n - i,
    {
        if at_start && key_at(data, i, n) {
            assert(is_first_field_at(s, i as int));
            let start = i + 9;
            let mut out = String::new();
            let mut k: usize = start;
            while k < n && data.get_char(k) != '&'
                invariant
                    start <= k <= n,
                    n == s.len(),
                    s == data@,
                    forall|j: int| start <= j < k ==> s[j] != '&',
                    out@ == plus_to_space(s.subrange(start as int, k as int)),
                decreases n - k,
            {
                let c = data.get_char(k);
                if c == '+' {
                    let space = " ";
                    proof {
                        reveal_strlit(" ");
                    }
                    out.append(space);
                } else {
                    out.append(data.substring_char(k, k + 1));
                }
                assert(out@ =~= plus_to_space(s.subrange(start as int, k + 1)));
                k += 1;
            }
            proof {
                lemma_segment_end_at(s, start as int, k as int);
                assert forall|p: int| is_first_field_at(s, p) implies p == i by {
                    if p < i {
                    } else if p > i {
                        assert(!is_field_at(s, i as int));
                    }
                }
            }
            if k == start {
                return None;
            }
            return Some(out);
        }
        at_start = data.get_char(i) == '&';
        i += 1;
    }
    proof {
        assert forall|p: int| !is_first_field_at(s, p) by {
            if p >= n {
            }
        }
    }
    None
}

/// The value a form body submits for `listitem`: the text after the key in
/// the first segment that starts with `listitem=`, with `+` turned into
/// spaces and then percent-decoded. `None` when there is no such segment or
/// nothing follows the key.
pub fn format_data(data: String) -> (r: Option<String>)
    ensures
        r matches Some(v) ==> form_value(data@) == Some(v@),
        r is None ==> form_value(data@) is None,
{
    match listitem_field(data.as_str()) {
        Some(text) => Some(decode_percent(text.as_str())),
        None => None,
    }
}

} // verus!
