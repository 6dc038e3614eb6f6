//! Slug derivation: lowercase, collapse every run of bytes outside
//! `[a-z0-9]` to a single hyphen, and trim leading and trailing hyphens.
//!
//! The derivation works on the UTF-8 bytes of the input, so a multi-byte
//! character is a run of separator bytes and collapses to one hyphen, like
//! any other separator run.  Only ASCII letters are lowercased: this
//! differs from a Unicode case mapping, under which the rare characters
//! whose lowercase form is ASCII — the Kelvin sign to `k`, the dotted
//! capital I to an `i` — would contribute a letter, where here they are
//! separators.  The result is always ASCII.  Nothing makes the result
//! unique across titles, and an input with no ASCII letter or digit
//! yields the empty slug, which the engine accepts.

use vstd::prelude::*;
use vstd::string::StrSliceExecFns;
use vstd::utf8::encode_utf8;

verus! {

/// The byte value of `-`.
pub const HYPHEN: u8 = 45;

/// Does a slug keep this byte as it stands: a lowercase ASCII letter or digit?
pub open spec fn spec_is_keep(b: u8) -> bool {
    (97 <= b && b <= 122) || (48 <= b && b <= 57)
}

/// Lowercase an ASCII letter; leave every other byte alone.
pub open spec fn spec_lower(b: u8) -> u8 {
    if 65 <= b && b <= 90 {
        (b + 32) as u8
    } else {
        b
    }
}

/// One step of the collapse: append the lowercased byte if it is kept,
/// else append a hyphen unless one was just appended.
pub open spec fn spec_collapse_step(acc: Seq<u8>, b: u8) -> Seq<u8> {
    let lb = spec_lower(b);
    if spec_is_keep(lb) {
        acc.push(lb)
    } else if acc.len() > 0 && acc.last() == HYPHEN {
        acc
    } else {
        acc.push(HYPHEN)
    }
}

/// Lowercase and collapse separator runs, left to right.
pub open spec fn spec_collapse(s: Seq<u8>) -> Seq<u8>
    decreases s.len(),
{
    if s.len() == 0 {
        Seq::empty()
    } else {
        spec_collapse_step(spec_collapse(s.drop_last()), s.last())
    }
}

/// Drop every leading hyphen.
pub open spec fn spec_trim_leading(s: Seq<u8>) -> Seq<u8>
    decreases s.len(),
{
    if s.len() > 0 && s[0] == HYPHEN {
        spec_trim_leading(s.subrange(1, s.len() as int))
    } else {
        s
    }
}

/// Drop every trailing hyphen.
pub open spec fn spec_trim_trailing(s: Seq<u8>) -> Seq<u8>
    decreases s.len(),
{
    if s.len() > 0 && s.last() == HYPHEN {
        spec_trim_trailing(s.drop_last())
    } else {
        s
    }
}

/// The slug of a byte sequence.
pub open spec fn spec_slug_bytes(s: Seq<u8>) -> Seq<u8> {
    spec_trim_trailing(spec_trim_leading(spec_collapse(s)))
}

/// The slug of a title, as the character sequence of the returned string.
/// Every slug byte is ASCII, so each byte is one character.
pub open spec fn spec_slugify(title: Seq<char>) -> Seq<char> {
    spec_slug_bytes(encode_utf8(title)).map_values(|b: u8| b as char)
}

/// No two adjacent bytes of a collapse result are both hyphens.
pub open spec fn no_adjacent_hyphens(s: Seq<u8>) -> bool {
    forall|i: int| 0 < i < s.len() ==> !(#[trigger] s[i] == HYPHEN && s[i - 1] == HYPHEN)
}

proof fn lemma_collapse_no_adjacent(s: Seq<u8>)
    ensures
        no_adjacent_hyphens(spec_collapse(s)),
    decreases s.len(),
{
    if s.len() > 0 {
        lemma_collapse_no_adjacent(s.drop_last());
    }
}

/// On a sequence with no adjacent hyphens, trimming the front removes at
/// most the first byte.
proof fn lemma_trim_leading_once(s: Seq<u8>)
    requires
        no_adjacent_hyphens(s),
    ensures
        spec_trim_leading(s) == if s.len() > 0 && s[0] == HYPHEN {
            s.subrange(1, s.len() as int)
        } else {
            s
        },
{
    if s.len() > 0 && s[0] == HYPHEN {
        let t = s.subrange(1, s.len() as int);
        assert(spec_trim_leading(s) == spec_trim_leading(t));
        if t.len() > 0 {
            assert(t[0] == s[1]);
            assert(!(s[1] == HYPHEN && s[0] == HYPHEN));
        }
        assert(spec_trim_leading(t) == t);
    }
}

/// Likewise at the back.
proof fn lemma_trim_trailing_once(s: Seq<u8>)
    requires
        no_adjacent_hyphens(s),
    ensures
        spec_trim_trailing(s) == if s.len() > 0 && s.last() == HYPHEN {
            s.drop_last()
        } else {
            s
        },
{
    if s.len() > 0 && s.last() == HYPHEN {
        let t = s.drop_last();
        assert(spec_trim_trailing(s) == spec_trim_trailing(t));
        if t.len() > 0 {
            assert(t.last() == s[s.len() - 2]);
            assert(!(s[s.len() - 1] == HYPHEN && s[s.len() - 2] == HYPHEN));
        }
        assert(spec_trim_trailing(t) == t);
    }
}

/// Converts ASCII bytes into the string holding the same code points.
/// Relies on `String::from_utf8` of std: ASCII bytes are valid UTF-8 and
/// decode to one character per byte.
#[verifier::external_body]
fn ascii_string_from_bytes(v: Vec<u8>) -> (r: String)
    requires
        all_ascii(v@),
    ensures
        r@ == v@.map_values(|b: u8| b as char),
{
    String::from_utf8(v).unwrap()
}

/// Derive the URL-safe slug of a title.
pub fn slugify(title: &str) -> (r: String)
    ensures
        r@ == spec_slugify(title@),
{
    let bytes: Vec<u8> = title.as_bytes_vec();
    let ghost all: Seq<u8> = bytes@;
    let mut out: Vec<u8> = Vec::new();
    let mut i: usize = 0;
    while i < bytes.len()
        invariant
            0 <= i <= bytes@.len(),
            bytes@ == all,
            out@ == spec_collapse(all.subrange(0, i as int)),
        decreases bytes@.len() - i,
    {
        let b = bytes[i];
        let lb = if 65 <= b && b <= 90 {
            b + 32
        } else {
            b
        };
        let keep = (97 <= lb && lb <= 122) || (48 <= lb && lb <= 57);
        if keep {
            out.push(lb);
        } else if !(out.len() > 0 && out[out.len() - 1] == HYPHEN) {
            out.push(HYPHEN);
        }
        proof {
            let pre = all.subrange(0, i as int);
            let cur = all.subrange(0, i + 1 as int);
            assert(cur.drop_last() =~= pre);
            assert(cur.last() == all[i as int]);
        }
        i = i + 1;
    }
    proof {
        assert(all.subrange(0, all.len() as int) =~= all);
        lemma_collapse_no_adjacent(all);
        lemma_trim_leading_once(out@);
    }
    if out.len() > 0 && out[0] == HYPHEN {
        out.remove(0);
        proof {
            assert(out@ =~= spec_trim_leading(spec_collapse(all)));
        }
    }
    proof {
        assert(out@ == spec_trim_leading(spec_collapse(all)));
        lemma_collapse_no_adjacent(all);
        lemma_trim_leading_keeps_no_adjacent(spec_collapse(all));
        lemma_trim_trailing_once(out@);
    }
    if out.len() > 0 && out[out.len() - 1] == HYPHEN {
        out.pop();
        proof {
            assert(out@ =~= spec_trim_trailing(spec_trim_leading(spec_collapse(all))));
        }
    }
    proof {
        assert(out@ == spec_slug_bytes(all));
        lemma_slug_bytes_ascii(all);
    }
    ascii_string_from_bytes(out)
}

/// Trimming the front keeps the no-adjacent-hyphen property.
proof fn lemma_trim_leading_keeps_no_adjacent(s: Seq<u8>)
    requires
        no_adjacent_hyphens(s),
    ensures
        no_adjacent_hyphens(spec_trim_leading(s)),
    decreases s.len(),
{
    if s.len() > 0 && s[0] == HYPHEN {
        let t = s.subrange(1, s.len() as int);
        assert forall|i: int|
            0 < i < t.len() implies !(#[trigger] t[i] == HYPHEN && t[i - 1] == HYPHEN) by {
            assert(t[i] == s[i + 1]);
            assert(t[i - 1] == s[i]);
        }
        lemma_trim_leading_keeps_no_adjacent(t);
    }
}

/// Every byte is below 128.
pub open spec fn all_ascii(s: Seq<u8>) -> bool {
    forall|i: int| 0 <= i < s.len() ==> #[trigger] s[i] < 128
}

/// Every byte of a collapse result is a kept byte or a hyphen, hence ASCII.
proof fn lemma_collapse_ascii(s: Seq<u8>)
    ensures
        all_ascii(spec_collapse(s)),
    decreases s.len(),
{
    if s.len() > 0 {
        lemma_collapse_ascii(s.drop_last());
        let acc = spec_collapse(s.drop_last());
        let c = spec_collapse(s);
        let lb = spec_lower(s.last());
        assert forall|i: int| 0 <= i < c.len() implies #[trigger] c[i] < 128 by {
            if spec_is_keep(lb) {
                assert(c == acc.push(lb));
                if i < acc.len() {
                    assert(c[i] == acc[i]);
                } else {
                    assert(c[i] == lb);
                }
            } else if acc.len() > 0 && acc.last() == HYPHEN {
                assert(c == acc);
            } else {
                assert(c == acc.push(HYPHEN));
                if i < acc.len() {
                    assert(c[i] == acc[i]);
                } else {
                    assert(c[i] == HYPHEN);
                }
            }
        }
    }
}

proof fn lemma_trim_leading_ascii(s: Seq<u8>)
    requires
        all_ascii(s),
    ensures
        all_ascii(spec_trim_leading(s)),
    decreases s.len(),
{
    if s.len() > 0 && s[0] == HYPHEN {
        let t = s.subrange(1, s.len() as int);
        assert forall|i: int| 0 <= i < t.len() implies #[trigger] t[i] < 128 by {
            assert(t[i] == s[i + 1]);
        }
        lemma_trim_leading_ascii(t);
    }
}

proof fn lemma_trim_trailing_ascii(s: Seq<u8>)
    requires
        all_ascii(s),
    ensures
        all_ascii(spec_trim_trailing(s)),
    decreases s.len(),
{
    if s.len() > 0 && s.last() == HYPHEN {
        let t = s.drop_last();
        assert forall|i: int| 0 <= i < t.len() implies #[trigger] t[i] < 128 by {
            assert(t[i] == s[i]);
        }
        lemma_trim_trailing_ascii(t);
    }
}

proof fn lemma_slug_bytes_ascii(s: Seq<u8>)
    ensures
        all_ascii(spec_slug_bytes(s)),
{
    lemma_collapse_ascii(s);
    lemma_trim_leading_ascii(spec_collapse(s));
    lemma_trim_trailing_ascii(spec_trim_leading(spec_collapse(s)));
}

} // verus!
