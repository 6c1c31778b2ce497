//! Base64 for group ids: a group is known by the base64 text of its master key.

use vstd::prelude::*;

use crate::text::chars_of;

verus! {

/// The character of the base64 alphabet that stands for a six-bit value.
pub open spec fn sextet_char(v: int) -> char {
    if v < 26 {
        (65 + v) as char
    } else if v < 52 {
        (97 + (v - 26)) as char
    } else if v < 62 {
        (48 + (v - 52)) as char
    } else if v == 62 {
        '+'
    } else {
        '/'
    }
}

/// The six-bit value of a byte of the alphabet.
pub open spec fn sextet_value(b: int) -> Option<u8> {
    if 65 <= b <= 90 {
        Some((b - 65) as u8)
    } else if 97 <= b <= 122 {
        Some((b - 97 + 26) as u8)
    } else if 48 <= b <= 57 {
        Some((b - 48 + 52) as u8)
    } else if b == 43 {
        Some(62u8)
    } else if b == 47 {
        Some(63u8)
    } else {
        None
    }
}

/// The six-bit value of a character: the character is looked up by its lowest byte.
pub open spec fn char_value(c: char) -> Option<u8> {
    sextet_value(c as int % 256)
}

/// The four characters for up to three bytes, of which `count` count; the places
/// that no byte reaches hold `=`.
pub open spec fn quad(b0: int, b1: int, b2: int, count: nat) -> Seq<char> {
    let n = b0 * 65536 + b1 * 256 + b2;
    seq![
        sextet_char(n / 262144),
        sextet_char(n / 4096 % 64),
        if count > 1 { sextet_char(n / 64 % 64) } else { '=' },
        if count > 2 { sextet_char(n % 64) } else { '=' },
    ]
}

/// The base64 text of some bytes.
pub open spec fn encoded(data: Seq<u8>) -> Seq<char>
    decreases data.len(),
{
    if data.len() == 0 {
        Seq::empty()
    } else if data.len() == 1 {
        quad(data[0] as int, 0, 0, 1)
    } else if data.len() == 2 {
        quad(data[0] as int, data[1] as int, 0, 2)
    } else {
        quad(data[0] as int, data[1] as int, data[2] as int, 3) + encoded(data.skip(3))
    }
}

/// A text without the `=` signs at its end.
pub open spec fn without_padding(s: Seq<char>) -> Seq<char>
    decreases s.len(),
{
    if s.len() > 0 && s.last() == '=' {
        without_padding(s.drop_last())
    } else {
        s
    }
}

/// The six-bit values of the characters that have one, in order.
pub open spec fn values_of(s: Seq<char>) -> Seq<u8>
    decreases s.len(),
{
    if s.len() == 0 {
        Seq::empty()
    } else {
        match char_value(s.last()) {
            Some(v) => values_of(s.drop_last()).push(v),
            None => values_of(s.drop_last()),
        }
    }
}

/// The bytes that two to four six-bit values make: one fewer than there are values.
pub open spec fn bytes_of(vals: Seq<u8>) -> Seq<u8> {
    let v2: int = if vals.len() > 2 { vals[2] as int } else { 0 };
    let v3: int = if vals.len() > 3 { vals[3] as int } else { 0 };
    let n = vals[0] * 262144 + vals[1] * 4096 + v2 * 64 + v3;
    let all = seq![(n / 65536 % 256) as u8, (n / 256 % 256) as u8, (n % 256) as u8];
    all.take(vals.len() - 1)
}

/// The bytes of base64 characters, taken four at a time. Characters outside the
/// alphabet are passed over; four of them with fewer than two values are an error.
pub open spec fn decoded_chars(s: Seq<char>) -> Option<Seq<u8>>
    decreases s.len(),
{
    if s.len() == 0 {
        Some(Seq::empty())
    } else {
        let cut: int = if s.len() < 4 { s.len() as int } else { 4 };
        let vals = values_of(s.take(cut));
        if vals.len() < 2 {
            None
        } else {
            match decoded_chars(s.skip(cut)) {
                Some(rest) => Some(bytes_of(vals) + rest),
                None => None,
            }
        }
    }
}

/// The bytes of a base64 text, or nothing where it is not one.
pub open spec fn decoded(s: Seq<char>) -> Option<Seq<u8>> {
    decoded_chars(without_padding(s))
}

/// The alphabet's character for a six-bit value.
fn to_char(v: u32) -> (c: char)
    requires
        v < 64,
    ensures
        c == sextet_char(v as int),
{
    let v: u8 = v as u8;
    if v < 26 {
        (65u8 + v) as char
    } else if v < 52 {
        (97u8 + (v - 26u8)) as char
    } else if v < 62 {
        (48u8 + (v - 52u8)) as char
    } else if v == 62 {
        '+'
    } else {
        '/'
    }
}

/// The six-bit value of a character.
fn char_to_val(c: char) -> (r: Option<u8>)
    ensures
        r == char_value(c),
{
    let b: u32 = c as u32 % 256;
    if 65 <= b && b <= 90 {
        Some((b - 65) as u8)
    } else if 97 <= b && b <= 122 {
        Some((b - 97 + 26) as u8)
    } else if 48 <= b && b <= 57 {
        Some((b - 48 + 52) as u8)
    } else if b == 43 {
        Some(62u8)
    } else if b == 47 {
        Some(63u8)
    } else {
        None
    }
}

/// Encodes bytes in base64, with padding.
pub fn base64_encode(data: &[u8]) -> (result: String)
    ensures
        result@ == encoded(data@),
{
    let mut result = String::new();
    let mut i: usize = 0;
    let len: usize = data.len();
    assert(data@.skip(0) == data@);
    while i < len
        invariant
            i <= len == data@.len(),
            encoded(data@) == result@ + encoded(data@.skip(i as int)),
        decreases len - i,
    {
        let count: usize = if len - i < 3 { len - i } else { 3 };
        let b0: u32 = data[i] as u32;
        let b1: u32 = if count > 1 { data[i + 1] as u32 } else { 0 };
        let b2: u32 = if count > 2 { data[i + 2] as u32 } else { 0 };
        let n: u32 = b0 * 65536 + b1 * 256 + b2;
        let ghost before = result@;
        result.push(to_char(n / 262144));
        result.push(to_char(n / 4096 % 64));
        result.push(if count > 1 { to_char(n / 64 % 64) } else { '=' });
        result.push(if count > 2 { to_char(n % 64) } else { '=' });
        proof {
            let rest = data@.skip(i as int);
            assert(result@ == before + quad(b0 as int, b1 as int, b2 as int, count as nat));
            assert(rest.skip(count as int) == data@.skip(i + count));
            assert(rest[0] == data@[i as int]);
            if count < 3 {
                assert(rest.skip(count as int).len() == 0);
                assert(encoded(rest) == quad(b0 as int, b1 as int, b2 as int, count as nat));
            }
            assert(encoded(rest) == quad(b0 as int, b1 as int, b2 as int, count as nat)
                + encoded(data@.skip(i + count)));
            assert(before + encoded(rest) == result@ + encoded(data@.skip(i + count)));
        }
        i = i + count;
    }
    assert(result@ + encoded(data@.skip(i as int)) == result@);
    result
}

/// The text is not base64.
#[derive(Debug, Clone, Copy, PartialEq, Eq, Structural)]
pub struct InvalidBase64;

/// The six-bit values of the characters from `from` to `to` that have one.
fn chunk_values(chars: &Vec<char>, from: usize, to: usize) -> (vals: Vec<u8>)
    requires
        from <= to <= chars.len(),
    ensures
        vals@ == values_of(chars@.subrange(from as int, to as int)),
{
    let mut vals: Vec<u8> = Vec::new();
    let mut i: usize = from;
    assert(chars@.subrange(from as int, from as int).len() == 0);
    while i < to
        invariant
            from <= i <= to <= chars.len(),
            vals@ == values_of(chars@.subrange(from as int, i as int)),
        decreases to - i,
    {
        proof {
            let next = chars@.subrange(from as int, i + 1);
            assert(next.drop_last() == chars@.subrange(from as int, i as int));
            assert(next.last() == chars@[i as int]);
        }
        if let Some(v) = char_to_val(chars[i]) {
            vals.push(v);
        }
        i = i + 1;
    }
    vals
}

/// Six-bit values are below 64, and there are no more of them than characters.
proof fn lemma_values_bounded(s: Seq<char>)
    ensures
        values_of(s).len() <= s.len(),
        forall|i: int| 0 <= i < values_of(s).len() ==> #[trigger] values_of(s)[i] < 64,
    decreases s.len(),
{
    if s.len() > 0 {
        lemma_values_bounded(s.drop_last());
    }
}

/// Decodes a base64 text. Padding is not needed, and characters outside the
/// alphabet are passed over, as long as each four characters hold two that count.
pub fn base64_decode(data: &str) -> (result: Result<Vec<u8>, InvalidBase64>)
    ensures
        match result {
            Ok(bytes) => decoded(data@) == Some(bytes@),
            Err(_) => decoded(data@) is None,
        },
{
    let chars = chars_of(data);
    let mut len: usize = chars.len();
    assert(chars@.take(len as int) == chars@);
    while len > 0 && chars[len - 1] == '='
        invariant
            len <= chars.len(),
            without_padding(chars@) == without_padding(chars@.take(len as int)),
        ensures
            len <= chars.len(),
            without_padding(chars@) == chars@.take(len as int),
        decreases len,
    {
        proof {
            assert(chars@.take(len as int).drop_last() == chars@.take(len - 1));
        }
        len = len - 1;
    }
    let ghost body = chars@.take(len as int);
    let mut result: Vec<u8> = Vec::new();
    let mut i: usize = 0;
    assert(body.skip(0) == body);
    proof {
        if let Some(rest) = decoded_chars(body) {
            assert(result@ + rest == rest);
        }
    }
    while i < len
        invariant
            i <= len <= chars.len(),
            body == chars@.take(len as int),
            decoded(data@) == decoded_chars(body),
            decoded_chars(body) == (match decoded_chars(body.skip(i as int)) {
                Some(rest) => Some(result@ + rest),
                None => None,
            }),
        decreases len - i,
    {
        let cut: usize = if len - i < 4 { len - i } else { 4 };
        let vals = chunk_values(&chars, i, i + cut);
        let ghost left = body.skip(i as int);
        proof {
            assert(left.take(cut as int) == chars@.subrange(i as int, i + cut));
            assert(left.skip(cut as int) == body.skip(i + cut));
            lemma_values_bounded(left.take(cut as int));
        }
        if vals.len() < 2 {
            return Err(InvalidBase64);
        }
        let v2: u32 = if vals.len() > 2 { vals[2] as u32 } else { 0 };
        let v3: u32 = if vals.len() > 3 { vals[3] as u32 } else { 0 };
        assert(vals@[0] < 64 && vals@[1] < 64 && v2 < 64 && v3 < 64);
        let n: u32 = vals[0] as u32 * 262144 + vals[1] as u32 * 4096 + v2 * 64 + v3;
        let ghost before = result@;
        result.push((n / 65536 % 256) as u8);
        if vals.len() > 2 {
            result.push((n / 256 % 256) as u8);
        }
        if vals.len() > 3 {
            result.push((n % 256) as u8);
        }
        proof {
            assert(result@ == before + bytes_of(vals@));
            if let Some(rest) = decoded_chars(body.skip(i + cut)) {
                assert(before + (bytes_of(vals@) + rest) == result@ + rest);
            }
        }
        i = i + cut;
    }
    assert(body.skip(i as int).len() == 0);
    assert(result@ + Seq::<u8>::empty() == result@);
    Ok(result)
}

/// A character of the alphabet has the value that it stands for, and is no padding.
proof fn lemma_sextet(v: int)
    requires
        0 <= v < 64,
    ensures
        char_value(sextet_char(v)) == Some(v as u8),
        sextet_char(v) != '=',
{
}

/// Three bytes, the number that they make, and its four six-bit parts.
proof fn lemma_parts(b0: int, b1: int, b2: int)
    requires
        0 <= b0 < 256,
        0 <= b1 < 256,
        0 <= b2 < 256,
    ensures
        ({
            let n = b0 * 65536 + b1 * 256 + b2;
            &&& 0 <= n / 262144 < 64
            &&& n == n / 262144 * 262144 + n / 4096 % 64 * 4096 + n / 64 % 64 * 64 + n % 64
            &&& n / 65536 % 256 == b0
            &&& n / 256 % 256 == b1
            &&& n % 256 == b2
            &&& b2 == 0 ==> n % 64 == 0
            &&& b1 == 0 && b2 == 0 ==> n / 64 % 64 == 0
        }),
{
    let n = b0 * 65536 + b1 * 256 + b2;
    lemma_six_bit_parts(n);
    lemma_byte_parts(b0, b1, b2);
}

/// A number below 2^24 is the sum of its four six-bit parts.
proof fn lemma_six_bit_parts(n: int)
    requires
        0 <= n < 16777216,
    ensures
        0 <= n / 262144 < 64,
        n == n / 262144 * 262144 + n / 4096 % 64 * 4096 + n / 64 % 64 * 64 + n % 64,
{
    let m = n / 64;
    let k = m / 64;
    let h = k / 64;
    assert(n == 64 * m + n % 64);
    assert(m == 64 * k + m % 64);
    assert(k == 64 * h + k % 64);
    assert(n / 4096 == k) by {
        vstd::arithmetic::div_mod::lemma_div_denominator(n, 64, 64);
    }
    assert(n / 262144 == h) by {
        vstd::arithmetic::div_mod::lemma_div_denominator(n, 4096, 64);
    }
}

/// The bytes of the number that three bytes make.
proof fn lemma_byte_parts(b0: int, b1: int, b2: int)
    requires
        0 <= b0 < 256,
        0 <= b1 < 256,
        0 <= b2 < 256,
    ensures
        ({
            let n = b0 * 65536 + b1 * 256 + b2;
            &&& n / 65536 % 256 == b0
            &&& n / 256 % 256 == b1
            &&& n % 256 == b2
            &&& b2 == 0 ==> n % 64 == 0
            &&& b1 == 0 && b2 == 0 ==> n / 64 % 64 == 0
        }),
{
    let n = b0 * 65536 + b1 * 256 + b2;
    assert(n / 256 == b0 * 256 + b1);
    assert(n / 65536 == b0);
    if b2 == 0 {
        assert(n == 64 * (b0 * 1024 + b1 * 4));
        if b1 == 0 {
            assert(n / 64 == 64 * (b0 * 16));
        }
    }
}

/// The values of the first characters of a quad are its six-bit parts.
proof fn lemma_quad_values(b0: int, b1: int, b2: int, count: nat)
    requires
        0 <= b0 < 256,
        0 <= b1 < 256,
        0 <= b2 < 256,
        1 <= count <= 3,
    ensures
        ({
            let n = b0 * 65536 + b1 * 256 + b2;
            let parts = seq![
                (n / 262144) as u8,
                (n / 4096 % 64) as u8,
                (n / 64 % 64) as u8,
                (n % 64) as u8,
            ];
            values_of(quad(b0, b1, b2, count).take(count as int + 1)) == parts.take(
                count as int + 1,
            )
        }),
{
    let n = b0 * 65536 + b1 * 256 + b2;
    lemma_parts(b0, b1, b2);
    lemma_sextet(n / 262144);
    lemma_sextet(n / 4096 % 64);
    lemma_sextet(n / 64 % 64);
    lemma_sextet(n % 64);
    let parts = seq![
        (n / 262144) as u8,
        (n / 4096 % 64) as u8,
        (n / 64 % 64) as u8,
        (n % 64) as u8,
    ];
    let q = quad(b0, b1, b2, count);
    assert(values_of(q.take(0)) == parts.take(0));
    lemma_values_step(q, parts, 0);
    lemma_values_step(q, parts, 1);
    if count >= 2 {
        lemma_values_step(q, parts, 2);
    }
    if count >= 3 {
        lemma_values_step(q, parts, 3);
    }
}

/// One more character with a value adds that value.
proof fn lemma_values_step(q: Seq<char>, parts: Seq<u8>, k: int)
    requires
        0 <= k < q.len(),
        k < parts.len(),
        values_of(q.take(k)) == parts.take(k),
        char_value(q[k]) == Some(parts[k]),
    ensures
        values_of(q.take(k + 1)) == parts.take(k + 1),
{
    assert(q.take(k + 1).drop_last() == q.take(k));
    assert(parts.take(k).push(parts[k]) == parts.take(k + 1));
}

/// Up to three bytes come back from their quad.
proof fn lemma_quad_bytes(b0: int, b1: int, b2: int, count: nat)
    requires
        0 <= b0 < 256,
        0 <= b1 < 256,
        0 <= b2 < 256,
        1 <= count <= 3,
        count < 3 ==> b2 == 0,
        count < 2 ==> b1 == 0,
    ensures
        ({
            let vals = values_of(quad(b0, b1, b2, count).take(count as int + 1));
            &&& vals.len() == count + 1
            &&& bytes_of(vals) == seq![b0 as u8, b1 as u8, b2 as u8].take(count as int)
        }),
{
    lemma_parts(b0, b1, b2);
    lemma_quad_values(b0, b1, b2, count);
    let n = b0 * 65536 + b1 * 256 + b2;
    let parts = seq![
        (n / 262144) as u8,
        (n / 4096 % 64) as u8,
        (n / 64 % 64) as u8,
        (n % 64) as u8,
    ];
    let vals = parts.take(count as int + 1);
    let v2: int = if vals.len() > 2 { vals[2] as int } else { 0 };
    let v3: int = if vals.len() > 3 { vals[3] as int } else { 0 };
    assert(vals[0] * 262144 + vals[1] * 4096 + v2 * 64 + v3 == n);
}

/// Padding is only cut from the last part of a text that ends in something else.
proof fn lemma_padding_of_tail(head: Seq<char>, tail: Seq<char>)
    requires
        without_padding(tail).len() > 0,
    ensures
        without_padding(head + tail) == head + without_padding(tail),
    decreases tail.len(),
{
    let all = head + tail;
    assert(all.last() == tail.last());
    if tail.last() == '=' {
        assert(all.drop_last() == head + tail.drop_last());
        lemma_padding_of_tail(head, tail.drop_last());
    }
}

/// The padding of a quad is what no byte reaches.
proof fn lemma_quad_padding(b0: int, b1: int, b2: int, count: nat)
    requires
        0 <= b0 < 256,
        0 <= b1 < 256,
        0 <= b2 < 256,
        1 <= count <= 3,
    ensures
        without_padding(quad(b0, b1, b2, count)) == quad(b0, b1, b2, count).take(count as int + 1),
{
    let n = b0 * 65536 + b1 * 256 + b2;
    let q = quad(b0, b1, b2, count);
    lemma_sextet(n / 4096 % 64);
    lemma_sextet(n / 64 % 64);
    lemma_sextet(n % 64);
    reveal_with_fuel(without_padding, 4);
    assert(q.take(4) == q);
    assert(q.drop_last() == q.take(3));
    assert(q.take(3).drop_last() == q.take(2));
}

/// What the first four characters of a text add to what the others decode to.
proof fn lemma_decode_step(s: Seq<char>, cut: int, rest: Seq<u8>)
    requires
        s.len() > 0,
        cut == (if s.len() < 4 { s.len() as int } else { 4 }),
        values_of(s.take(cut)).len() >= 2,
        decoded_chars(s.skip(cut)) == Some(rest),
    ensures
        decoded_chars(s) == Some(bytes_of(values_of(s.take(cut))) + rest),
{
}

/// Decoding the base64 text of some bytes gives those bytes back.
pub proof fn decode_inverts_encode(data: Seq<u8>)
    ensures
        decoded(encoded(data)) == Some(data),
    decreases data.len(),
{
    if data.len() == 0 {
        assert(data == Seq::<u8>::empty());
    } else {
        let count: nat = if data.len() < 3 { data.len() } else { 3 };
        let b0 = data[0] as int;
        let b1: int = if count > 1 { data[1] as int } else { 0 };
        let b2: int = if count > 2 { data[2] as int } else { 0 };
        let q = quad(b0, b1, b2, count);
        lemma_quad_bytes(b0, b1, b2, count);
        lemma_quad_padding(b0, b1, b2, count);
        if data.len() <= 3 {
            assert(encoded(data) == q) by {
                if data.len() == 3 {
                    assert(data.skip(3).len() == 0);
                    assert(q + encoded(data.skip(3)) == q);
                }
            }
            let s = q.take(count as int + 1);
            assert(s.take(s.len() as int) == s);
            assert(s.skip(s.len() as int).len() == 0);
            lemma_decode_step(s, s.len() as int, Seq::empty());
            assert(seq![b0 as u8, b1 as u8, b2 as u8].take(count as int) + Seq::<u8>::empty()
                == data);
        } else {
            let rest = data.skip(3);
            decode_inverts_encode(rest);
            let e = encoded(rest);
            lemma_encoded_starts(rest);
            lemma_padding_of_tail(q, e);
            let s = q + without_padding(e);
            assert(s.take(4) == q.take(4));
            assert(s.skip(4) == without_padding(e));
            lemma_decode_step(s, 4, rest);
            assert(seq![b0 as u8, b1 as u8, b2 as u8].take(3) + rest == data);
        }
    }
}

/// The text of at least one byte does not consist of padding alone.
proof fn lemma_encoded_starts(data: Seq<u8>)
    requires
        data.len() > 0,
    ensures
        without_padding(encoded(data)).len() > 0,
{
    let e = encoded(data);
    let b1: int = if data.len() > 1 { data[1] as int } else { 0 };
    let b2: int = if data.len() > 2 { data[2] as int } else { 0 };
    lemma_sextet((data[0] as int * 65536 + b1 * 256 + b2) / 262144);
    assert(e[0] != '=');
    lemma_padding_keeps_first(e);
}

/// A text whose first character is no padding keeps that character.
proof fn lemma_padding_keeps_first(s: Seq<char>)
    requires
        s.len() > 0,
        s[0] != '=',
    ensures
        without_padding(s).len() > 0,
    decreases s.len(),
{
    if s.last() == '=' {
        lemma_padding_keeps_first(s.drop_last());
    }
}

/// The alphabet: the capital letters, the small ones and the digits, each in their order, a
/// plus sign and a slash.
pub proof fn the_alphabet_is_in_order(v: int)
    requires
        0 <= v < 64,
    ensures
        sextet_char(0) == 'A',
        sextet_char(25) == 'Z',
        sextet_char(26) == 'a',
        sextet_char(51) == 'z',
        sextet_char(52) == '0',
        sextet_char(61) == '9',
        sextet_char(62) == '+',
        sextet_char(63) == '/',
        v < 61 && v != 25 && v != 51 ==> sextet_char(v + 1) as int == sextet_char(v) as int + 1,
        char_value(sextet_char(v)) == Some(v as u8),
        sextet_char(v) != '=',
{
}

/// Each three bytes become the four characters whose six-bit values make the same number,
/// and the rest follows.
pub proof fn three_bytes_are_four_characters(
    b0: u8,
    b1: u8,
    b2: u8,
    rest: Seq<u8>,
    v: Seq<int>,
)
    requires
        v.len() == 4,
        forall|i: int| 0 <= i < 4 ==> 0 <= #[trigger] v[i] < 64,
        v[0] * 262144 + v[1] * 4096 + v[2] * 64 + v[3] == b0 * 65536 + b1 * 256 + b2,
    ensures
        encoded(seq![b0, b1, b2] + rest) =~= seq![
            sextet_char(v[0]),
            sextet_char(v[1]),
            sextet_char(v[2]),
            sextet_char(v[3]),
        ] + encoded(rest),
        encoded(Seq::empty()).len() == 0,
{
    let data = seq![b0, b1, b2] + rest;
    assert(data.skip(3) =~= rest);
    lemma_six_bit_values(v[0], v[1], v[2], v[3]);
}

/// One byte at the end becomes two characters and two signs of padding, and two become
/// three characters and one: the values make the number that the bytes are with zeros
/// behind.
pub proof fn the_last_bytes_are_padded(b0: u8, b1: u8, v: Seq<int>)
    requires
        v.len() == 3,
        forall|i: int| 0 <= i < 3 ==> 0 <= #[trigger] v[i] < 64,
    ensures
        v[0] * 64 + v[1] == b0 * 16 ==> encoded(seq![b0]) =~= seq![
            sextet_char(v[0]),
            sextet_char(v[1]),
            '=',
            '=',
        ],
        v[0] * 4096 + v[1] * 64 + v[2] == b0 * 1024 + b1 * 4 ==> encoded(seq![b0, b1]) =~= seq![
            sextet_char(v[0]),
            sextet_char(v[1]),
            sextet_char(v[2]),
            '=',
        ],
{
    lemma_six_bit_values(v[0], v[1], 0, 0);
    lemma_six_bit_values(v[0], v[1], v[2], 0);
}

/// The six-bit parts of a number that was made of them.
proof fn lemma_six_bit_values(v0: int, v1: int, v2: int, v3: int)
    requires
        0 <= v0 < 64,
        0 <= v1 < 64,
        0 <= v2 < 64,
        0 <= v3 < 64,
    ensures
        ({
            let n = v0 * 262144 + v1 * 4096 + v2 * 64 + v3;
            &&& n / 262144 == v0
            &&& n / 4096 % 64 == v1
            &&& n / 64 % 64 == v2
            &&& n % 64 == v3
        }),
{
    let n = v0 * 262144 + v1 * 4096 + v2 * 64 + v3;
    assert(n / 64 == v0 * 4096 + v1 * 64 + v2);
    assert(n / 4096 == v0 * 64 + v1);
    assert(n / 262144 == v0);
}

/// Padding at the end of a text does not count.
pub proof fn padding_does_not_count(s: Seq<char>)
    ensures
        decoded(s.push('=')) == decoded(s),
        decoded(Seq::empty()) == Some(Seq::<u8>::empty()),
{
    assert(s.push('=').drop_last() =~= s);
    assert(decoded_chars(Seq::empty()) == Some(Seq::<u8>::empty()));
}

/// Which characters have a value: those of the alphabet and, as only its lowest byte is
/// looked at, any whose lowest byte is one of them.
pub proof fn other_characters_have_no_value(c: char)
    ensures
        char_value(c) matches Some(v) ==> v < 64 && sextet_char(v as int) as int == c as int % 256,
        char_value(c) is None ==> forall|v: int|
            0 <= v < 64 ==> #[trigger] sextet_char(v) as int != c as int % 256,
{
}

/// Four characters with values become the three bytes that make the same number, and what
/// the rest becomes follows; a character alone is an error.
pub proof fn four_characters_are_three_bytes(
    c: Seq<char>,
    v: Seq<u8>,
    b: Seq<u8>,
    rest: Seq<char>,
)
    requires
        c.len() == 4,
        v.len() == 4,
        b.len() == 3,
        forall|i: int| 0 <= i < 4 ==> char_value(#[trigger] c[i]) == Some(v[i]),
        v[0] * 262144 + v[1] * 4096 + v[2] * 64 + v[3] == b[0] * 65536 + b[1] * 256 + b[2],
    ensures
        decoded_chars(c + rest) == (match decoded_chars(rest) {
            Some(more) => Some(b + more),
            None => None::<Seq<u8>>,
        }),
        decoded_chars(seq![c[0]]) is None,
{
    let s = c + rest;
    assert(s.take(4) =~= c);
    assert(s.skip(4) =~= rest);
    assert(c.take(0) =~= Seq::empty());
    assert(v.take(0) =~= Seq::empty());
    lemma_values_step(c, v, 0);
    lemma_values_step(c, v, 1);
    lemma_values_step(c, v, 2);
    lemma_values_step(c, v, 3);
    assert(c.take(4) =~= c);
    assert(v.take(4) =~= v);
    lemma_byte_parts(b[0] as int, b[1] as int, b[2] as int);
    assert(bytes_of(v) =~= b);
    let one = seq![c[0]];
    assert(one.take(1) =~= one);
    lemma_values_bounded(one);
}

/// Two characters at the end become one byte, and three become two: bits that no byte
/// reaches do not count. A character without a value is passed over.
pub proof fn the_last_characters_are_bytes(c: Seq<char>, v: Seq<u8>, other: char)
    requires
        c.len() == 3,
        v.len() == 3,
        forall|i: int| 0 <= i < 3 ==> char_value(#[trigger] c[i]) == Some(v[i]),
        char_value(other) is None,
    ensures
        decoded_chars(c.take(2)) matches Some(bytes) && bytes.len() == 1 && bytes[0] == (v[0] * 64
            + v[1]) / 16,
        decoded_chars(c) matches Some(bytes) && bytes.len() == 2 && bytes[0] * 256 + bytes[1] == (
        v[0] * 4096 + v[1] * 64 + v[2]) / 4,
        decoded_chars(c.push(other)) == decoded_chars(c),
        values_of(c.push(other)) == values_of(c),
{
    lemma_values_bounded(c);
    assert(c.take(0) =~= Seq::empty());
    assert(v.take(0) =~= Seq::empty());
    lemma_values_step(c, v, 0);
    lemma_values_step(c, v, 1);
    lemma_values_step(c, v, 2);
    assert(c.take(3) =~= c);
    assert(v.take(3) =~= v);
    assert(v[0] < 64 && v[1] < 64 && v[2] < 64);
    let two = c.take(2);
    assert(two.take(2) =~= two);
    assert(two.skip(2) =~= Seq::empty());
    assert(c.skip(3) =~= Seq::empty());
    let more = c.push(other);
    assert(more.drop_last() =~= c);
    assert(more.take(4) =~= more);
    assert(more.skip(4) =~= Seq::empty());
    let none = Seq::<u8>::empty();
    assert(decoded_chars(Seq::empty()) == Some(none));
    lemma_decode_step(two, 2, none);
    lemma_decode_step(c, 3, none);
    lemma_decode_step(more, 4, none);
    let pair = v.take(2);
    assert(bytes_of(v) + none =~= bytes_of(v));
    assert(bytes_of(pair) + none =~= bytes_of(pair));
    let m = v[0] * 262144 + v[1] * 4096;
    assert(pair[0] == v[0] && pair[1] == v[1]);
    assert(m / 65536 == (v[0] * 64 + v[1]) / 16);
    assert(bytes_of(pair)[0] == (m / 65536 % 256) as u8);
    let n = m + v[2] * 64;
    assert(n / 256 == (v[0] * 4096 + v[1] * 64 + v[2]) / 4);
    assert(n / 65536 == n / 256 / 256);
    assert(bytes_of(v)[0] == (n / 65536 % 256) as u8);
    assert(bytes_of(v)[1] == (n / 256 % 256) as u8);
}

/// A character adds its value behind those of the characters before it, and nothing where
/// it has none.
pub proof fn values_follow_each_other(s: Seq<char>, c: char)
    ensures
        values_of(Seq::empty()).len() == 0,
        char_value(c) matches Some(v) ==> values_of(s.push(c)) == values_of(s).push(v),
        char_value(c) is None ==> values_of(s.push(c)) == values_of(s),
{
    assert(s.push(c).drop_last() =~= s);
}

/// Four characters of which not all have a value become fewer bytes, as the last ones of a
/// text do, and an error where fewer than two have one; what the rest becomes follows.
pub proof fn characters_without_value_are_passed_over(block: Seq<char>, rest: Seq<char>)
    requires
        block.len() == 4,
    ensures
        values_of(block).len() < 2 ==> decoded_chars(block + rest) is None,
        decoded_chars(rest) is None ==> decoded_chars(block + rest) is None,
        decoded_chars(rest) matches Some(more) ==> {
            let v = values_of(block);
            &&& v.len() == 2 ==> (decoded_chars(block + rest) matches Some(bytes) && bytes.len()
                == 1 + more.len() && bytes.skip(1) =~= more && bytes[0] == (v[0] * 64 + v[1]) / 16)
            &&& v.len() == 3 ==> (decoded_chars(block + rest) matches Some(bytes) && bytes.len()
                == 2 + more.len() && bytes.skip(2) =~= more && bytes[0] * 256 + bytes[1] == (v[0]
                * 4096 + v[1] * 64 + v[2]) / 4)
        },
{
    let s = block + rest;
    assert(s.take(4) =~= block);
    assert(s.skip(4) =~= rest);
    lemma_values_bounded(block);
    let v = values_of(block);
    if let Some(more) = decoded_chars(rest) {
        if v.len() >= 2 {
            lemma_decode_step(s, 4, more);
            let m = v[0] * 262144 + v[1] * 4096;
            assert(v[0] < 64 && v[1] < 64);
            assert(m / 65536 == (v[0] * 64 + v[1]) / 16);
            if v.len() == 2 {
                assert(bytes_of(v)[0] == (m / 65536 % 256) as u8);
            } else if v.len() == 3 {
                assert(v[2] < 64);
                let n = m + v[2] * 64;
                assert(n / 256 == (v[0] * 4096 + v[1] * 64 + v[2]) / 4);
                assert(n / 65536 == n / 256 / 256);
                assert(bytes_of(v)[0] == (n / 65536 % 256) as u8);
                assert(bytes_of(v)[1] == (n / 256 % 256) as u8);
            }
        }
    }
}

} // verus!
