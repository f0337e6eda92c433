//! LSP base-protocol framing: a `Content-Length` header, a blank line, and
//! the JSON body.
use vstd::prelude::*;
use vstd::string::StringSliceAdditionalSpecFns;
use crate::error::RustMethError;
use crate::args::arg_views;
use crate::text::{chars_of, push_str, push_all, string_from, slice, dec_exec, starts_with_exec, trim_exec, parse_usize, dec, has_prefix, trim, usize_literal, digits_value, all_digits, decimal_literal, digit_char, is_ascii_digit, trim_start, trim_end};

verus! {

/// A framed message: the header for a body of `byte_len` bytes, then the
/// body.
pub open spec fn frame_spec(body: Seq<char>, byte_len: nat) -> Seq<char> {
    "Content-Length: "@ + dec(byte_len) + "\r\n\r\n"@ + body
}

/// Frames a JSON body for sending; the length counts the body's UTF-8 bytes.
pub fn frame_message(body: &str) -> (r: String)
    ensures
        r@ == frame_spec(body@, body.len() as nat),
{
    let n = body.len();
    let mut v: Vec<char> = Vec::new();
    push_str(&mut v, "Content-Length: ");
    push_all(&mut v, &dec_exec(n as u64));
    push_str(&mut v, "\r\n\r\n");
    push_str(&mut v, body);
    string_from(&v)
}

/// A header line without its trailing carriage returns and line feeds.
pub open spec fn strip_line_end(s: Seq<char>) -> Seq<char>
    decreases s.len(),
{
    if s.len() > 0 && (s.last() == '\r' || s.last() == '\n') {
        strip_line_end(s.drop_last())
    } else {
        s
    }
}

/// A header line that ends the header block.
pub open spec fn is_header_end_spec(line: Seq<char>) -> bool {
    strip_line_end(line).len() == 0
}

/// Why a header block gives no body length.
pub enum HeaderFault {
    /// A `Content-Length` value is not a number.
    BadLength,
    /// No `Content-Length` header came before the blank line.
    Missing,
}

/// The body length that the header lines announce: the last
/// `Content-Length` before the first blank line (running out of lines ends
/// the block too). `current` is the length announced so far.
pub open spec fn content_length_from(lines: Seq<Seq<char>>, current: Option<usize>) -> Result<usize, HeaderFault>
    decreases lines.len(),
{
    if lines.len() == 0 || is_header_end_spec(lines[0]) {
        match current {
            Some(n) => Ok(n),
            None => Err(HeaderFault::Missing),
        }
    } else {
        let l = strip_line_end(lines[0]);
        if has_prefix(l, "Content-Length: "@) {
            match usize_literal(trim(l.subrange("Content-Length: "@.len() as int, l.len() as int))) {
                Some(n) => content_length_from(lines.drop_first(), Some(n)),
                None => Err(HeaderFault::BadLength),
            }
        } else {
            content_length_from(lines.drop_first(), current)
        }
    }
}

/// The body length announced by a header block.
pub open spec fn content_length_spec(lines: Seq<Seq<char>>) -> Result<usize, HeaderFault> {
    content_length_from(lines, None)
}

fn strip_line_end_exec(s: &Vec<char>) -> (r: Vec<char>)
    ensures
        r@ == strip_line_end(s@),
{
    let mut k = s.len();
    assert(s@.subrange(0, k as int) =~= s@);
    while k > 0 && (s[k - 1] == '\r' || s[k - 1] == '\n')
        invariant
            k <= s@.len(),
            strip_line_end(s@.subrange(0, k as int)) == strip_line_end(s@),
        decreases k,
    {
        assert(s@.subrange(0, k as int).drop_last() =~= s@.subrange(0, k - 1));
        k = k - 1;
    }
    slice(s, 0, k)
}

/// Whether a header line ends the header block.
pub fn is_header_end(line: &str) -> (b: bool)
    ensures
        b == is_header_end_spec(line@),
{
    strip_line_end_exec(&chars_of(line)).len() == 0
}

/// The body length announced by the header lines, each as read, line end
/// included. A value that is not a number fails with `ParseInt`, a block
/// without the header with `NoContentLength`.
pub fn content_length(lines: &Vec<String>) -> (r: Result<usize, RustMethError>)
    ensures
        match r {
            Ok(n) => content_length_spec(arg_views(lines@)) == Ok::<usize, HeaderFault>(n),
            Err(RustMethError::ParseInt(_)) => content_length_spec(arg_views(lines@)) == Err::<
                usize,
                HeaderFault,
            >(HeaderFault::BadLength),
            Err(RustMethError::NoContentLength) => content_length_spec(arg_views(lines@))
                == Err::<usize, HeaderFault>(HeaderFault::Missing),
            Err(_) => false,
        },
{
    let ghost words = arg_views(lines@);
    let prefix = chars_of("Content-Length: ");
    let n = lines.len();
    let mut current: Option<usize> = None;
    let mut i: usize = 0;
    assert(words.subrange(0, n as int) =~= words);
    while i < n
        invariant
            i <= n,
            n == lines@.len(),
            words == arg_views(lines@),
            prefix@ == "Content-Length: "@,
            content_length_from(words.subrange(i as int, n as int), current) == content_length_spec(
                words,
            ),
        decreases n - i,
    {
        let ghost rest = words.subrange(i as int, n as int);
        assert(rest[0] == lines@[i as int]@);
        assert(rest.drop_first() =~= words.subrange(i + 1, n as int));
        let line = strip_line_end_exec(&chars_of(lines[i].as_str()));
        if line.len() == 0 {
            return match current {
                Some(v) => Ok(v),
                None => Err(RustMethError::NoContentLength),
            };
        }
        if starts_with_exec(&line, &prefix) {
            let value = trim_exec(&slice(&line, prefix.len(), line.len()));
            match parse_usize(string_from(&value).as_str()) {
                Ok(v) => {
                    current = Some(v);
                },
                Err(e) => {
                    return Err(RustMethError::ParseInt(e));
                },
            }
        }
        i = i + 1;
    }
    match current {
        Some(v) => Ok(v),
        None => Err(RustMethError::NoContentLength),
    }
}

/// The value that the digits of `n` spell is `n`.
proof fn lemma_digits_value_dec(n: nat)
    ensures
        digits_value(dec(n)) == n,
    decreases n,
{
    if n >= 10 {
        lemma_digits_value_dec(n / 10);
        let s = dec(n);
        assert(s == dec(n / 10).push(digit_char(n % 10)));
        assert(s.drop_last() =~= dec(n / 10));
        assert(s.last() == digit_char(n % 10));
        lemma_digit_char_value(n % 10);
        assert(digits_value(s) == digits_value(s.drop_last()) * 10 + ((s.last() as nat) - (
        '0' as nat)) as nat);
        assert(n == (n / 10) * 10 + n % 10) by (nonlinear_arith);
    } else {
        let s = dec(n);
        lemma_digit_char_value(n);
        assert(s == seq![digit_char(n)]);
        assert(s.drop_last() =~= Seq::<char>::empty());
        assert(digits_value(s.drop_last()) == 0);
        assert(digits_value(s) == digits_value(s.drop_last()) * 10 + ((s.last() as nat) - (
        '0' as nat)) as nat);
    }
}

proof fn lemma_digit_char_value(d: nat)
    requires
        d < 10,
    ensures
        (digit_char(d) as nat) == ('0' as nat) + d,
{
}

/// `dec(n)` is `usize_literal`'s reading of itself, and survives trimming.
proof fn lemma_dec_literal(n: usize)
    ensures
        trim(dec(n as nat)) == dec(n as nat),
        usize_literal(dec(n as nat)) == Some(n),
{
    let d = dec(n as nat);
    crate::text::lemma_dec_shape(n as nat);
    lemma_digits_value_dec(n as nat);
    assert(is_ascii_digit(d[0]) && is_ascii_digit(d.last()));
    assert(trim_start(d) == d);
    assert(trim_end(d) == d);
    assert(all_digits(d));
    assert(decimal_literal(d) == Some(n as nat));
}

/// Law: reading back the header that [`frame_message`] writes gives the
/// length it wrote. The framed text is the header line, a blank line and
/// the body, and the header block made of those two lines announces `n`.
pub proof fn lemma_frame_roundtrip(body: Seq<char>, n: usize)
    ensures
        frame_spec(body, n as nat) == ("Content-Length: "@ + dec(n as nat) + "\r\n"@) + "\r\n"@ + body,
        content_length_spec(seq!["Content-Length: "@ + dec(n as nat) + "\r\n"@, "\r\n"@]) == Ok::<
            usize,
            HeaderFault,
        >(n),
{
    reveal_strlit("Content-Length: ");
    reveal_strlit("\r\n");
    reveal_strlit("\r\n\r\n");
    let p = "Content-Length: "@;
    let d = dec(n as nat);
    lemma_dec_literal(n);
    crate::text::lemma_dec_shape(n as nat);
    assert(frame_spec(body, n as nat) =~= (p + d + "\r\n"@) + "\r\n"@ + body);
    let line = p + d + "\r\n"@;
    assert(line.drop_last() =~= p + d + seq!['\r']);
    assert(line.drop_last().drop_last() =~= p + d);
    assert((p + d).last() == d.last());
    assert(is_ascii_digit(d.last()));
    assert(strip_line_end(p + d) == p + d);
    assert(line.last() == '\n');
    assert(line.drop_last().last() == '\r');
    assert(strip_line_end(line.drop_last()) == strip_line_end(line.drop_last().drop_last()));
    assert(strip_line_end(line) == strip_line_end(line.drop_last()));
    assert(strip_line_end(line) == p + d);
    assert(has_prefix(p + d, p)) by {
        assert((p + d).subrange(0, p.len() as int) =~= p);
    }
    assert((p + d).subrange(p.len() as int, (p + d).len() as int) =~= d);
    let lines = seq![line, "\r\n"@];
    assert(lines.drop_first() =~= seq!["\r\n"@]);
    let blank = "\r\n"@;
    assert(blank.drop_last() =~= seq!['\r']);
    assert(blank.drop_last().drop_last() =~= Seq::<char>::empty());
    assert(strip_line_end(blank.drop_last().drop_last()) == Seq::<char>::empty());
    assert(strip_line_end(blank.drop_last()) == Seq::<char>::empty());
    assert(strip_line_end(blank) == Seq::<char>::empty());
    assert(content_length_from(seq![blank], Some(n)) == Ok::<usize, HeaderFault>(n));
    let l = strip_line_end(line);
    assert(trim(l.subrange(p.len() as int, l.len() as int)) == d);
    assert(usize_literal(d) == Some(n));
    assert(content_length_from(lines, None) == content_length_from(lines.drop_first(), Some(n)));
}

} // verus!
