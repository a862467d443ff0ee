//! UTF-16 text: encoding a string as the nul-terminated wide text that
//! Windows APIs take, and decoding a nul-terminated wide buffer back.

use vstd::prelude::*;
use vstd::slice::slice_subrange;

verus! {

/// The UTF-16 code units of one character: itself below U+10000, else a
/// high and a low surrogate.
pub open spec fn encode_char_utf16(c: char) -> Seq<u16> {
    let u = c as u32;
    if u < 0x10000 {
        seq![u as u16]
    } else {
        seq![
            (0xd800 + (u - 0x10000) / 0x400) as u16,
            (0xdc00 + (u - 0x10000) % 0x400) as u16,
        ]
    }
}

/// The UTF-16 encoding of a sequence of characters.
pub open spec fn encode_utf16(s: Seq<char>) -> Seq<u16>
    decreases s.len(),
{
    if s.len() == 0 {
        seq![]
    } else {
        encode_char_utf16(s[0]) + encode_utf16(s.drop_first())
    }
}

/// Whether a code unit is a high (leading) surrogate.
pub open spec fn is_high_surrogate(u: u16) -> bool {
    0xd800 <= u <= 0xdbff
}

/// Whether a code unit is a low (trailing) surrogate.
pub open spec fn is_low_surrogate(u: u16) -> bool {
    0xdc00 <= u <= 0xdfff
}

/// Decodes UTF-16, replacing each code unit that is an unpaired surrogate
/// with U+FFFD, as `String::from_utf16_lossy` is documented to do.
pub open spec fn decode_utf16_lossy(units: Seq<u16>) -> Seq<char>
    decreases units.len(),
{
    if units.len() == 0 {
        seq![]
    } else {
        let u = units[0];
        if !is_high_surrogate(u) && !is_low_surrogate(u) {
            seq![(u as u32) as char] + decode_utf16_lossy(units.drop_first())
        } else if is_high_surrogate(u) && units.len() > 1 && is_low_surrogate(units[1]) {
            seq![
                (0x10000 + (u - 0xd800) * 0x400 + (units[1] - 0xdc00)) as char,
            ] + decode_utf16_lossy(units.subrange(2, units.len() as int))
        } else {
            seq!['\u{FFFD}'] + decode_utf16_lossy(units.drop_first())
        }
    }
}

/// `String::from_utf16_lossy`: decodes UTF-16, replacing unpaired
/// surrogates with U+FFFD; claimed to give `decode_utf16_lossy`.
#[verifier::external_body]
fn string_from_utf16_lossy(units: &[u16]) -> (s: String)
    ensures
        s@ == decode_utf16_lossy(units@),
{
    String::from_utf16_lossy(units)
}

/// The UTF-16 code units of a character.
fn push_char_utf16(out: &mut Vec<u16>, c: char)
    ensures
        final(out)@ == old(out)@ + encode_char_utf16(c),
{
    let u = c as u32;
    if u < 0x10000 {
        out.push(u as u16);
    } else {
        let v = u - 0x10000;
        assert(v < 0x100000) by {
            vstd::utf8::char_is_scalar(c);
        }
        out.push((0xd800 + v / 0x400) as u16);
        out.push((0xdc00 + v % 0x400) as u16);
    }
}

/// The UTF-16 encoding of `value` followed by a nul code unit, the form of
/// text that wide Windows APIs take.
pub fn wide_null(value: &str) -> (res: Vec<u16>)
    ensures
        res@ == encode_utf16(value@).push(0),
{
    let n = value.unicode_len();
    let mut out: Vec<u16> = Vec::new();
    let mut i: usize = 0;
    proof {
        assert(value@.subrange(0, n as int) =~= value@);
        assert(out@ + encode_utf16(value@) =~= encode_utf16(value@));
    }
    while i < n
        invariant
            n == value@.len(),
            i <= n,
            out@ + encode_utf16(value@.subrange(i as int, n as int)) == encode_utf16(value@),
        decreases n - i,
    {
        let c = value.get_char(i);
        let ghost before = out@;
        let ghost rest = value@.subrange(i as int, n as int);
        let ghost next = value@.subrange(i + 1, n as int);
        proof {
            assert(rest[0] == c);
            assert(rest.drop_first() =~= next);
        }
        push_char_utf16(&mut out, c);
        proof {
            assert(encode_utf16(rest) == encode_char_utf16(c) + encode_utf16(next));
            assert((before + encode_char_utf16(c)) + encode_utf16(next) =~= before + (
            encode_char_utf16(c) + encode_utf16(next)));
        }
        i = i + 1;
    }
    proof {
        assert(value@.subrange(n as int, n as int) =~= Seq::<char>::empty());
        assert(out@ + Seq::<u16>::empty() =~= out@);
    }
    out.push(0);
    out
}


/// The code units before the first nul, or all of them when there is none.
pub open spec fn before_nul(units: Seq<u16>) -> Seq<u16>
    decreases units.len(),
{
    if units.len() == 0 || units[0] == 0 {
        seq![]
    } else {
        seq![units[0]] + before_nul(units.drop_first())
    }
}

proof fn lemma_before_nul_at(units: Seq<u16>, end: int)
    requires
        0 <= end <= units.len(),
        forall|k: int| 0 <= k < end ==> #[trigger] units[k] != 0,
        end == units.len() || units[end] == 0,
    ensures
        before_nul(units) == units.take(end),
    decreases end,
{
    if end == 0 {
        assert(units.take(0) =~= Seq::<u16>::empty());
    } else {
        let t = units.drop_first();
        assert forall|k: int| 0 <= k < end - 1 implies #[trigger] t[k] != 0 by {
            assert(t[k] == units[k + 1]);
        }
        if end < units.len() {
            assert(t[end - 1] == units[end]);
        }
        lemma_before_nul_at(t, end - 1);
        assert(seq![units[0]] + t.take(end - 1) =~= units.take(end));
    }
}

/// Decodes a wide buffer up to its first nul, replacing unpaired surrogates
/// with U+FFFD.
pub fn utf16z_to_string(buffer: &[u16]) -> (res: String)
    ensures
        res@ == decode_utf16_lossy(before_nul(buffer@)),
{
    let n = buffer.len();
    let mut end: usize = 0;
    while end < n && buffer[end] != 0
        invariant
            n == buffer@.len(),
            end <= n,
            forall|k: int| 0 <= k < end ==> #[trigger] buffer@[k] != 0,
        decreases n - end,
    {
        end = end + 1;
    }
    proof {
        lemma_before_nul_at(buffer@, end as int);
    }
    let prefix = slice_subrange(buffer, 0, end);
    assert(prefix@ =~= buffer@.take(end as int));
    string_from_utf16_lossy(prefix)
}

proof fn lemma_char_units(c: char)
    requires
        c != '\0',
    ensures
        forall|k: int| 0 <= k < encode_char_utf16(c).len() ==> #[trigger] encode_char_utf16(c)[k]
            != 0,
        decode_utf16_lossy(encode_char_utf16(c)) == seq![c],
{
    vstd::utf8::char_is_scalar(c);
    let u = c as u32;
    let e = encode_char_utf16(c);
    if u < 0x10000 {
        assert(e.drop_first() =~= Seq::<u16>::empty());
        assert(decode_utf16_lossy(e.drop_first()) =~= Seq::<char>::empty());
        assert(((u as u16) as u32) as char == c);
    } else {
        let v = u - 0x10000;
        let hi = (0xd800 + v / 0x400) as u16;
        let lo = (0xdc00 + v % 0x400) as u16;
        assert(is_high_surrogate(hi));
        assert(is_low_surrogate(lo));
        assert(e.subrange(2, 2) =~= Seq::<u16>::empty());
        assert(decode_utf16_lossy(e.subrange(2, 2)) =~= Seq::<char>::empty());
        assert(0x10000 + (hi - 0xd800) * 0x400 + (lo - 0xdc00) == u);
        assert((u as int) as char == c);
    }
}

proof fn lemma_decode_append_char(c: char, rest: Seq<u16>)
    requires
        c != '\0',
    ensures
        decode_utf16_lossy(encode_char_utf16(c) + rest) == seq![c] + decode_utf16_lossy(rest),
{
    vstd::utf8::char_is_scalar(c);
    lemma_char_units(c);
    let u = c as u32;
    let e = encode_char_utf16(c);
    let all = e + rest;
    if u < 0x10000 {
        assert(all.drop_first() =~= rest);
    } else {
        assert(all.subrange(2, all.len() as int) =~= rest);
        assert(all[0] == e[0] && all[1] == e[1]);
    }
}

proof fn lemma_encode_no_nul(s: Seq<char>)
    requires
        forall|i: int| 0 <= i < s.len() ==> #[trigger] s[i] != '\0',
    ensures
        forall|k: int| 0 <= k < encode_utf16(s).len() ==> #[trigger] encode_utf16(s)[k] != 0,
        decode_utf16_lossy(encode_utf16(s)) == s,
    decreases s.len(),
{
    if s.len() == 0 {
    } else {
        let t = s.drop_first();
        assert forall|i: int| 0 <= i < t.len() implies #[trigger] t[i] != '\0' by {
            assert(t[i] == s[i + 1]);
        }
        lemma_encode_no_nul(t);
        lemma_char_units(s[0]);
        lemma_decode_append_char(s[0], encode_utf16(t));
        let e = encode_char_utf16(s[0]);
        let rest = encode_utf16(t);
        assert forall|k: int| 0 <= k < (e + rest).len() implies #[trigger] (e + rest)[k] != 0 by {
            if k < e.len() {
                assert((e + rest)[k] == e[k]);
            } else {
                assert((e + rest)[k] == rest[k - e.len()]);
            }
        }
        assert(seq![s[0]] + t =~= s);
    }
}

/// A string without nul characters comes back unchanged from its wide,
/// nul-terminated encoding: decoding what `wide_null` produces up to the
/// first nul, as `utf16z_to_string` does, gives the string itself.
pub proof fn lemma_wide_text_round_trip(s: Seq<char>)
    requires
        forall|i: int| 0 <= i < s.len() ==> #[trigger] s[i] != '\0',
    ensures
        decode_utf16_lossy(before_nul(encode_utf16(s).push(0))) == s,
{
    lemma_encode_no_nul(s);
    let w = encode_utf16(s).push(0);
    assert forall|k: int| 0 <= k < encode_utf16(s).len() implies #[trigger] w[k] != 0 by {
        assert(w[k] == encode_utf16(s)[k]);
    }
    lemma_before_nul_at(w, encode_utf16(s).len() as int);
    assert(w.take(encode_utf16(s).len() as int) =~= encode_utf16(s));
}

} // verus!
