//! The `application/x-www-form-urlencoded` text of query strings, as the `url`
//! and `form_urlencoded` crates write and read it: the encoding of names and
//! values, the reading of pairs back out of a query, and the laws that tie the
//! two together.

use vstd::prelude::*;
use vstd::utf8::{
    decode_utf8, encode_utf8, encode_utf8_decode_utf8, encode_utf8_valid_utf8, is_ascii_chars,
    is_ascii_chars_encode_utf8, valid_utf8,
};

verus! {

/// Bytes that the form encoding writes as they are.
pub open spec fn is_form_safe(b: u8) -> bool {
    (0x30 <= b <= 0x39) || (0x41 <= b <= 0x5a) || (0x61 <= b <= 0x7a) || b == 0x2a || b == 0x2d
        || b == 0x2e || b == 0x5f
}

/// The upper-case hexadecimal digit of `n < 16`.
pub open spec fn hex_upper(n: u8) -> char {
    if n < 10 {
        ((n + 48) as u8) as char
    } else {
        ((n + 55) as u8) as char
    }
}

/// The encoding of one byte: itself, `+` for a space, or `%` and two digits.
pub open spec fn form_encode_byte(b: u8) -> Seq<char> {
    if is_form_safe(b) {
        seq![b as char]
    } else if b == 0x20 {
        seq!['+']
    } else {
        seq!['%', hex_upper(b / 16), hex_upper(b % 16)]
    }
}

pub open spec fn form_encode_bytes(bs: Seq<u8>) -> Seq<char>
    decreases bs.len(),
{
    if bs.len() == 0 {
        seq![]
    } else {
        form_encode_bytes(bs.drop_last()) + form_encode_byte(bs.last())
    }
}

/// The form encoding of the UTF-8 bytes of `s`.
pub open spec fn form_encode(s: Seq<char>) -> Seq<char> {
    form_encode_bytes(encode_utf8(s))
}

/// `name=value`, both encoded.
pub open spec fn pair_text(p: (Seq<char>, Seq<char>)) -> Seq<char> {
    form_encode(p.0) + seq!['='] + form_encode(p.1)
}

/// The encoded pairs joined by `&`, in order.
pub open spec fn query_string(pairs: Seq<(Seq<char>, Seq<char>)>) -> Seq<char>
    decreases pairs.len(),
{
    if pairs.len() == 0 {
        seq![]
    } else if pairs.len() == 1 {
        pair_text(pairs[0])
    } else {
        query_string(pairs.drop_last()) + seq!['&'] + pair_text(pairs.last())
    }
}

/// Whether `c` is a hexadecimal digit.
pub open spec fn is_hex(c: char) -> bool {
    ('0' <= c <= '9') || ('A' <= c <= 'F') || ('a' <= c <= 'f')
}

/// The value of the hexadecimal digit `c`.
pub open spec fn hex_value(c: char) -> u8 {
    if '0' <= c <= '9' {
        (c as u32 - 48) as u8
    } else if 'A' <= c <= 'F' {
        (c as u32 - 55) as u8
    } else {
        (c as u32 - 87) as u8
    }
}

/// The bytes that the encoded text `cs` stands for: `+` is a space, `%` and two
/// hexadecimal digits a byte, any other ASCII character itself. Text with a
/// character beyond ASCII stands for nothing.
pub open spec fn pct_decode(cs: Seq<char>) -> Option<Seq<u8>>
    decreases cs.len(),
{
    if cs.len() == 0 {
        Some(seq![])
    } else {
        let (b, n): (u8, int) = if cs[0] == '+' {
            (0x20u8, 1)
        } else if cs[0] == '%' && cs.len() >= 3 && is_hex(cs[1]) && is_hex(cs[2]) {
            ((hex_value(cs[1]) * 16 + hex_value(cs[2])) as u8, 3)
        } else {
            (cs[0] as u8, 1)
        };
        if (cs[0] as u32) >= 128 {
            None
        } else {
            match pct_decode(cs.skip(n)) {
                Some(rest) => Some(seq![b] + rest),
                None => None,
            }
        }
    }
}

/// The text that the encoded `cs` stands for, where its bytes are UTF-8.
pub open spec fn form_decode(cs: Seq<char>) -> Option<Seq<char>> {
    match pct_decode(cs) {
        Some(b) => if valid_utf8(b) {
            Some(decode_utf8(b))
        } else {
            None
        },
        None => None,
    }
}

/// The pieces of `s` between the occurrences of `sep`.
pub open spec fn split_char(s: Seq<char>, sep: char) -> Seq<Seq<char>>
    decreases s.len(),
{
    if s.len() == 0 {
        seq![seq![]]
    } else {
        let init = split_char(s.drop_last(), sep);
        if s.last() == sep {
            init.push(seq![])
        } else {
            init.update(init.len() - 1, init.last().push(s.last()))
        }
    }
}

/// A piece `name=value` split at its first `=`; a piece without one is a name
/// with an empty value.
pub open spec fn pair_of(seg: Seq<char>) -> (Seq<char>, Seq<char>)
    decreases seg.len(),
{
    if seg.len() == 0 {
        (seq![], seq![])
    } else if seg[0] == '=' {
        (seq![], seg.drop_first())
    } else {
        let (k, v) = pair_of(seg.drop_first());
        (seq![seg[0]] + k, v)
    }
}

/// The decoded pairs of the pieces of a query, empty pieces skipped.
pub open spec fn decode_segments(segs: Seq<Seq<char>>) -> Option<Seq<(Seq<char>, Seq<char>)>>
    decreases segs.len(),
{
    if segs.len() == 0 {
        Some(seq![])
    } else {
        match decode_segments(segs.drop_last()) {
            Some(init) => if segs.last().len() == 0 {
                Some(init)
            } else {
                match (form_decode(pair_of(segs.last()).0), form_decode(pair_of(segs.last()).1)) {
                    (Some(k), Some(v)) => Some(init.push((k, v))),
                    _ => None,
                }
            },
            None => None,
        }
    }
}

/// The text of bytes that are all ASCII.
pub open spec fn ascii_text(b: Seq<u8>) -> Option<Seq<char>> {
    if forall|i: int| 0 <= i < b.len() ==> #[trigger] b[i] < 128 {
        Some(b.map_values(|x: u8| x as char))
    } else {
        None
    }
}

/// The name-value pairs that the query `q` holds, in order.
pub open spec fn decode_query(q: Seq<char>) -> Option<Seq<(Seq<char>, Seq<char>)>> {
    decode_segments(split_char(q, '&'))
}

proof fn lemma_split_nonempty(s: Seq<char>, sep: char)
    ensures
        split_char(s, sep).len() >= 1,
    decreases s.len(),
{
    if s.len() > 0 {
        lemma_split_nonempty(s.drop_last(), sep);
    }
}

proof fn lemma_split_no_sep(s: Seq<char>, sep: char)
    requires
        !s.contains(sep),
    ensures
        split_char(s, sep) == seq![s],
    decreases s.len(),
{
    if s.len() > 0 {
        assert(!s.drop_last().contains(sep)) by {
            if s.drop_last().contains(sep) {
                let i = choose|i: int| 0 <= i < s.drop_last().len() && s.drop_last()[i] == sep;
                assert(s[i] == sep);
            }
        }
        lemma_split_no_sep(s.drop_last(), sep);
        assert(s.last() != sep) by {
            assert(s[s.len() - 1] == s.last());
        }
        assert(s.drop_last().push(s.last()) =~= s);
        assert(seq![s.drop_last()].update(0, s.drop_last().push(s.last())) =~= seq![s]);
    } else {
        assert(s =~= Seq::<char>::empty());
    }
}

proof fn lemma_split_concat(x: Seq<char>, y: Seq<char>, sep: char)
    ensures
        split_char(x + seq![sep] + y, sep) == split_char(x, sep) + split_char(y, sep),
    decreases y.len(),
{
    if y.len() == 0 {
        assert(x + seq![sep] + y =~= x.push(sep));
        assert((x + seq![sep] + y).drop_last() =~= x);
        assert(split_char(y, sep) =~= seq![seq![]]);
        assert(split_char(x, sep).push(seq![]) =~= split_char(x, sep) + seq![seq![]]);
    } else {
        let s = x + seq![sep] + y;
        assert(s.drop_last() =~= x + seq![sep] + y.drop_last());
        assert(s.last() == y.last());
        lemma_split_concat(x, y.drop_last(), sep);
        lemma_split_nonempty(y.drop_last(), sep);
        let a = split_char(x, sep);
        let b = split_char(y.drop_last(), sep);
        if y.last() == sep {
            assert((a + b).push(seq![]) =~= a + b.push(seq![]));
        } else {
            assert((a + b).update((a + b).len() - 1, (a + b).last().push(y.last())) =~= a + b.update(
                b.len() - 1,
                b.last().push(y.last()),
            ));
        }
    }
}

proof fn lemma_pair_of_split(k: Seq<char>, v: Seq<char>)
    requires
        !k.contains('='),
    ensures
        pair_of(k + seq!['='] + v) == (k, v),
    decreases k.len(),
{
    let s = k + seq!['='] + v;
    if k.len() == 0 {
        assert(s[0] == '=');
        assert(s.drop_first() =~= v);
    } else {
        assert(s[0] == k[0]);
        assert(k[0] != '=') by {
            assert(k.contains(k[0]) || k[0] != '=');
        }
        assert(!k.drop_first().contains('=')) by {
            if k.drop_first().contains('=') {
                let i = choose|i: int| 0 <= i < k.drop_first().len() && k.drop_first()[i] == '=';
                assert(k[i + 1] == '=');
            }
        }
        assert(s.drop_first() =~= k.drop_first() + seq!['='] + v);
        lemma_pair_of_split(k.drop_first(), v);
        assert(seq![k[0]] + k.drop_first() =~= k);
    }
}

proof fn lemma_hex_round_trip(n: u8)
    requires
        n < 16,
    ensures
        is_hex(hex_upper(n)),
        hex_value(hex_upper(n)) == n,
{
}

/// The encoding of `bs` read from the front.
proof fn lemma_encode_front(bs: Seq<u8>)
    requires
        bs.len() > 0,
    ensures
        form_encode_bytes(bs) == form_encode_byte(bs[0]) + form_encode_bytes(bs.drop_first()),
    decreases bs.len(),
{
    if bs.len() == 1 {
        assert(bs.drop_last() =~= Seq::<u8>::empty());
        assert(bs.drop_first() =~= Seq::<u8>::empty());
    } else {
        lemma_encode_front(bs.drop_last());
        assert(bs.drop_last().drop_first() =~= bs.drop_first().drop_last());
        assert(bs.drop_first().last() == bs.last());
    }
}

/// Encoded text holds only ASCII letters, digits and `*-._+%`.
pub open spec fn is_encoded_char(c: char) -> bool {
    ('0' <= c <= '9') || ('A' <= c <= 'Z') || ('a' <= c <= 'z') || c == '*' || c == '-' || c == '.'
        || c == '_' || c == '+' || c == '%'
}

proof fn lemma_encoded_chars(bs: Seq<u8>)
    ensures
        forall|i: int|
            0 <= i < form_encode_bytes(bs).len() ==> is_encoded_char(#[trigger] form_encode_bytes(bs)[i]),
    decreases bs.len(),
{
    if bs.len() > 0 {
        lemma_encoded_chars(bs.drop_last());
        let b = bs.last();
        if !is_form_safe(b) && b != 0x20 {
            lemma_hex_round_trip(b / 16);
            lemma_hex_round_trip(b % 16);
        }
        let a = form_encode_bytes(bs.drop_last());
        let e = form_encode_byte(b);
        assert forall|i: int| 0 <= i < (a + e).len() implies is_encoded_char(#[trigger] (a + e)[i]) by {
            if i >= a.len() {
                assert((a + e)[i] == e[i - a.len()]);
            } else {
                assert((a + e)[i] == a[i]);
            }
        }
    }
}

proof fn lemma_decode_encoded(bs: Seq<u8>)
    ensures
        pct_decode(form_encode_bytes(bs)) == Some(bs),
    decreases bs.len(),
{
    if bs.len() > 0 {
        lemma_encode_front(bs);
        lemma_decode_encoded(bs.drop_first());
        let b = bs[0];
        let e = form_encode_byte(b);
        let rest = form_encode_bytes(bs.drop_first());
        let cs = e + rest;
        if is_form_safe(b) {
            assert(cs[0] == b as char);
            assert(cs.skip(1) =~= rest);
        } else if b == 0x20 {
            assert(cs[0] == '+');
            assert(cs.skip(1) =~= rest);
        } else {
            lemma_hex_round_trip(b / 16);
            lemma_hex_round_trip(b % 16);
            assert(cs[0] == '%' && cs[1] == hex_upper(b / 16) && cs[2] == hex_upper(b % 16));
            assert(cs.skip(3) =~= rest);
            assert(((b / 16) * 16 + b % 16) as u8 == b);
        }
        assert(seq![b] + bs.drop_first() =~= bs);
    }
}

/// The encoding of a text is made of encoded characters only.
pub proof fn lemma_form_chars(s: Seq<char>)
    ensures
        forall|i: int| 0 <= i < form_encode(s).len() ==> is_encoded_char(#[trigger] form_encode(s)[i]),
{
    lemma_encoded_chars(encode_utf8(s));
}

/// Decoding the encoding of a text gives the text back.
pub proof fn lemma_form_round_trip(s: Seq<char>)
    ensures
        form_decode(form_encode(s)) == Some(s),
        !form_encode(s).contains('&'),
        !form_encode(s).contains('='),
{
    lemma_decode_encoded(encode_utf8(s));
    encode_utf8_valid_utf8(s);
    encode_utf8_decode_utf8(s);
    lemma_encoded_chars(encode_utf8(s));
    if form_encode(s).contains('&') {
        let i = choose|i: int| 0 <= i < form_encode(s).len() && form_encode(s)[i] == '&';
        assert(is_encoded_char(form_encode(s)[i]));
    }
    if form_encode(s).contains('=') {
        let i = choose|i: int| 0 <= i < form_encode(s).len() && form_encode(s)[i] == '=';
        assert(is_encoded_char(form_encode(s)[i]));
    }
}

proof fn lemma_pair_text(p: (Seq<char>, Seq<char>))
    ensures
        !pair_text(p).contains('&'),
        pair_text(p).len() > 0,
        split_char(pair_text(p), '&') == seq![pair_text(p)],
        form_decode(pair_of(pair_text(p)).0) == Some(p.0),
        form_decode(pair_of(pair_text(p)).1) == Some(p.1),
{
    lemma_form_round_trip(p.0);
    lemma_form_round_trip(p.1);
    let t = pair_text(p);
    assert(t[form_encode(p.0).len() as int] == '=');
    assert(!t.contains('&')) by {
        if t.contains('&') {
            let i = choose|i: int| 0 <= i < t.len() && t[i] == '&';
            if i < form_encode(p.0).len() {
                assert(form_encode(p.0)[i] == '&');
            } else if i > form_encode(p.0).len() {
                assert(form_encode(p.1)[i - form_encode(p.0).len() - 1] == '&');
            }
        }
    }
    lemma_split_no_sep(t, '&');
    lemma_pair_of_split(form_encode(p.0), form_encode(p.1));
}

proof fn lemma_decode_last(segs: Seq<Seq<char>>, init: Seq<(Seq<char>, Seq<char>)>, p: (Seq<char>, Seq<char>))
    requires
        segs.len() > 0,
        decode_segments(segs.drop_last()) == Some(init),
        segs.last() == pair_text(p),
    ensures
        decode_segments(segs) == Some(init.push(p)),
{
    lemma_pair_text(p);
}

/// Reading back the query string of any pairs gives the same pairs, in the
/// same order.
pub proof fn lemma_query_round_trip(pairs: Seq<(Seq<char>, Seq<char>)>)
    ensures
        decode_query(query_string(pairs)) == Some(pairs),
        pairs.len() > 0 ==> split_char(query_string(pairs), '&') == pairs.map_values(
            |p: (Seq<char>, Seq<char>)| pair_text(p),
        ),
    decreases pairs.len(),
{
    let texts = pairs.map_values(|p: (Seq<char>, Seq<char>)| pair_text(p));
    if pairs.len() == 0 {
        assert(split_char(seq![], '&') =~= seq![seq![]]);
        assert(seq![Seq::<char>::empty()].drop_last() =~= Seq::<Seq<char>>::empty());
        assert(pairs =~= Seq::<(Seq<char>, Seq<char>)>::empty());
        let e: Seq<Seq<char>> = seq![seq![]];
        assert(e.drop_last() =~= Seq::<Seq<char>>::empty());
        assert(decode_segments(e.drop_last()) == Some(Seq::<(Seq<char>, Seq<char>)>::empty()));
        assert(e.last().len() == 0);
    } else {
        let p = pairs.last();
        let t = pair_text(p);
        lemma_pair_text(p);
        if pairs.len() == 1 {
            assert(texts =~= seq![t]);
            assert(pairs =~= seq![p]);
            assert(seq![t].drop_last() =~= Seq::<Seq<char>>::empty());
            lemma_decode_last(seq![t], seq![], p);
            assert(seq![].push(p) =~= pairs);
        } else {
            let init = pairs.drop_last();
            lemma_query_round_trip(init);
            lemma_split_concat(query_string(init), t, '&');
            let segs = split_char(query_string(pairs), '&');
            assert(texts =~= init.map_values(|p: (Seq<char>, Seq<char>)| pair_text(p)).push(t));
            assert(segs =~= texts);
            assert(segs.drop_last() =~= split_char(query_string(init), '&'));
            lemma_decode_last(segs, init, p);
            assert(init.push(p) =~= pairs);
        }
    }
}


/// The text of a query string is ASCII.
pub proof fn lemma_query_string_ascii(pairs: Seq<(Seq<char>, Seq<char>)>)
    ensures
        is_ascii_chars(query_string(pairs)),
        ascii_text(encode_utf8(query_string(pairs))) == Some(query_string(pairs)),
    decreases pairs.len(),
{
    let q = query_string(pairs);
    if pairs.len() > 0 {
        lemma_query_string_ascii(pairs.drop_last());
        lemma_form_chars(pairs.last().0);
        lemma_form_chars(pairs.last().1);
        let t = pair_text(pairs.last());
        let a = form_encode(pairs.last().0);
        let b = form_encode(pairs.last().1);
        assert(is_ascii_chars(t)) by {
            assert forall|i: int| 0 <= i < t.len() implies '\0' <= #[trigger] t[i] <= '\u{7f}' by {
                if i < a.len() {
                    assert(t[i] == a[i]);
                    assert(is_encoded_char(a[i]));
                } else if i > a.len() {
                    assert(t[i] == b[i - a.len() - 1]);
                    assert(is_encoded_char(b[i - a.len() - 1]));
                }
            }
        }
        if pairs.len() > 1 {
            let init = query_string(pairs.drop_last());
            assert forall|i: int| 0 <= i < q.len() implies '\0' <= #[trigger] q[i] <= '\u{7f}' by {
                if i < init.len() {
                    assert(q[i] == init[i]);
                } else if i > init.len() {
                    assert(q[i] == t[i - init.len() - 1]);
                }
            }
        }
    }
    let bytes = encode_utf8(q);
    is_ascii_chars_encode_utf8(q);
    assert forall|i: int| 0 <= i < bytes.len() implies #[trigger] bytes[i] < 128 by {
        assert(q[i] as u8 == bytes[i]);
        assert('\0' <= q[i] <= '\u{7f}');
    }
    assert(bytes.map_values(|x: u8| x as char) =~= q) by {
        assert forall|i: int| 0 <= i < q.len() implies bytes[i] as char == #[trigger] q[i] by {
            assert(q[i] as u8 == bytes[i]);
            assert('\0' <= q[i] <= '\u{7f}');
        }
    }
}

} // verus!
