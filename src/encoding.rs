use vstd::prelude::*;

verus! {

/// The digit of the URL-safe base64 alphabet for a value below 64.
pub open spec fn b64url_digit(n: int) -> char {
    if n < 26 {
        ((n + 65) as u8) as char
    } else if n < 52 {
        ((n - 26 + 97) as u8) as char
    } else if n < 62 {
        ((n - 52 + 48) as u8) as char
    } else if n == 62 {
        '-'
    } else {
        '_'
    }
}

/// The unpadded URL-safe base64 text of a byte string: each group of three
/// bytes gives four digits of six bits each; a final group of one or two
/// bytes gives two or three digits, its missing bits zero.
pub open spec fn b64url_of(b: Seq<u8>) -> Seq<char>
    decreases b.len(),
{
    let b0 = if b.len() > 0 { b[0] as int } else { 0 };
    let b1 = if b.len() > 1 { b[1] as int } else { 0 };
    let b2 = if b.len() > 2 { b[2] as int } else { 0 };
    if b.len() == 0 {
        Seq::empty()
    } else if b.len() == 1 {
        seq![b64url_digit(b0 / 4), b64url_digit((b0 % 4) * 16)]
    } else if b.len() == 2 {
        seq![
            b64url_digit(b0 / 4),
            b64url_digit((b0 % 4) * 16 + b1 / 16),
            b64url_digit((b1 % 16) * 4),
        ]
    } else {
        seq![
            b64url_digit(b0 / 4),
            b64url_digit((b0 % 4) * 16 + b1 / 16),
            b64url_digit((b1 % 16) * 4 + b2 / 64),
            b64url_digit(b2 % 64),
        ] + b64url_of(b.subrange(3, b.len() as int))
    }
}

/// The bytes that an unpadded URL-safe base64 text stands for; `None` where the
/// text is not such base64.
pub uninterp spec fn b64url_decoded(text: Seq<char>) -> Option<Seq<u8>>;

/// Relies on `base64::encode_config` with `URL_SAFE_NO_PAD`: the unpadded
/// URL-safe base64 text of the bytes. It panics only where
/// the encoded length overflows `usize`, which no slice (at most `isize::MAX`
/// bytes) reaches.
#[verifier::external_body]
pub(crate) fn b64url_encode(bytes: &[u8]) -> (r: String)
    ensures
        r@ == b64url_of(bytes@),
{
    base64::encode_config(bytes, base64::URL_SAFE_NO_PAD)
}

/// Relies on `base64::decode_config` with `URL_SAFE_NO_PAD`: the decoded bytes,
/// or an error where the text is not URL-safe base64. The unpadded encoding of
/// a byte string decodes to that byte string.
#[verifier::external_body]
pub(crate) fn b64url_decode(text: &str) -> (r: Option<Vec<u8>>)
    ensures
        match r {
            Some(d) => b64url_decoded(text@) == Some(d@) && forall|b: Seq<u8>|
                #[trigger] b64url_of(b) == text@ ==> b == d@,
            None => b64url_decoded(text@) is None && forall|b: Seq<u8>| #[trigger] b64url_of(b) != text@,
        },
{
    base64::decode_config(text, base64::URL_SAFE_NO_PAD).ok()
}

/// The hexadecimal digit of `n` (below 16), in lower case.
pub open spec fn hex_digit(n: u32) -> char {
    if n < 10 {
        ((n + 48) as u8) as char
    } else {
        ((n + 87) as u8) as char
    }
}

/// How one character stands inside a JSON string literal.
pub open spec fn json_escape_char(c: char) -> Seq<char> {
    if c == '"' {
        seq!['\\', '"']
    } else if c == '\\' {
        seq!['\\', '\\']
    } else if (c as u32) < 32 {
        seq!['\\', 'u', '0', '0', hex_digit((c as u32) / 16), hex_digit((c as u32) % 16)]
    } else {
        seq![c]
    }
}

/// The body of a JSON string literal that holds `s` (without the quotes).
pub open spec fn json_escape(s: Seq<char>) -> Seq<char>
    decreases s.len(),
{
    if s.len() == 0 {
        Seq::empty()
    } else {
        json_escape(s.drop_last()) + json_escape_char(s.last())
    }
}

/// The digit of `n` (below 16) as a one-character text.
fn hex_digit_text(n: u32) -> (r: &'static str)
    requires
        n < 16,
    ensures
        r@ == seq![hex_digit(n)],
{
    let r = match n {
        0 => "0",
        1 => "1",
        2 => "2",
        3 => "3",
        4 => "4",
        5 => "5",
        6 => "6",
        7 => "7",
        8 => "8",
        9 => "9",
        10 => "a",
        11 => "b",
        12 => "c",
        13 => "d",
        14 => "e",
        _ => "f",
    };
    proof {
        reveal_strlit("0");
        reveal_strlit("1");
        reveal_strlit("2");
        reveal_strlit("3");
        reveal_strlit("4");
        reveal_strlit("5");
        reveal_strlit("6");
        reveal_strlit("7");
        reveal_strlit("8");
        reveal_strlit("9");
        reveal_strlit("a");
        reveal_strlit("b");
        reveal_strlit("c");
        reveal_strlit("d");
        reveal_strlit("e");
        reveal_strlit("f");
        assert(r@ =~= seq![hex_digit(n)]);
    }
    r
}

/// Appends to `out` how `c`, the character at `i` of `s`, stands in a JSON string.
fn append_escaped_char(out: &mut String, s: &str, i: usize, c: char)
    requires
        i < s@.len() < usize::MAX,
        s@[i as int] == c,
    ensures
        final(out)@ == old(out)@ + json_escape_char(c),
{
    if c == '"' {
        out.append("\\\"");
        proof {
            reveal_strlit("\\\"");
        }
        assert(final(out)@ =~= old(out)@ + json_escape_char(c));
    } else if c == '\\' {
        out.append("\\\\");
        proof {
            reveal_strlit("\\\\");
        }
        assert(final(out)@ =~= old(out)@ + json_escape_char(c));
    } else if (c as u32) < 32 {
        out.append("\\u00");
        out.append(hex_digit_text((c as u32) / 16));
        out.append(hex_digit_text((c as u32) % 16));
        proof {
            reveal_strlit("\\u00");
        }
        assert(final(out)@ =~= old(out)@ + json_escape_char(c));
    } else {
        out.append(s.substring_char(i, i + 1));
        assert(s@.subrange(i as int, i + 1) =~= seq![c]);
    }
}

/// Appends `s`, escaped as inside a JSON string literal, to `out`.
pub fn append_json_escaped(out: &mut String, s: &str)
    requires
        s@.len() < usize::MAX,
    ensures
        final(out)@ == old(out)@ + json_escape(s@),
{
    let n = s.unicode_len();
    let mut i: usize = 0;
    while i < n
        invariant
            n == s@.len(),
            n < usize::MAX,
            i <= n,
            out@ == old(out)@ + json_escape(s@.subrange(0, i as int)),
        decreases n - i,
    {
        let c = s.get_char(i);
        append_escaped_char(out, s, i, c);
        proof {
            let p = s@.subrange(0, i + 1);
            assert(p.drop_last() =~= s@.subrange(0, i as int));
            assert(p.last() == c);
        }
        i = i + 1;
    }
    assert(s@.subrange(0, n as int) =~= s@);
}

} // verus!
