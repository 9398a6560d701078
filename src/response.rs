use vstd::prelude::*;
use vstd::string::*;
use vstd::utf8::*;

verus! {

/// The ASCII character of a decimal digit.
pub open spec fn digit_char(d: nat) -> char {
    ((d % 10) + 48) as char
}

/// The decimal text of a natural number, without sign or leading zeros.
pub open spec fn decimal(n: nat) -> Seq<char>
    decreases n,
{
    if n < 10 {
        seq![digit_char(n)]
    } else {
        decimal(n / 10).push(digit_char(n % 10))
    }
}

/// The header block of a response, without its final line break.
///
/// The connection is always closed after one exchange, so the headers say so.
pub open spec fn headers_text(
    security_enabled: bool,
    payload_length: nat,
    content_type: Seq<char>,
) -> Seq<char> {
    if security_enabled {
        "Connection: close\r\nContent-Type: "@ + content_type
            + "\r\nAccess-Control-Allow-Origin: *\r\nX-Content-Type-Options: nosniff\r\nX-XSS-Protection: 1; mode=block\r\nContent-Security-Policy: default-src 'self'\r\nContent-Length: "@
            + decimal(payload_length)
    } else {
        "Connection: close\r\nContent-Type: "@ + content_type + "\r\nContent-Length: "@ + decimal(
            payload_length,
        )
    }
}

/// The text that precedes the body: status line, headers and the blank line.
pub open spec fn head_text(status: Seq<char>, payload_length: nat, content_type: Seq<char>) -> Seq<
    char,
> {
    status + "\r\n"@ + headers_text(true, payload_length, content_type) + "\r\n\r\n"@
}

/// The bytes of a complete response: the head in UTF-8, then the body as it is.
pub open spec fn response_bytes(status: Seq<char>, payload: Seq<u8>, content_type: Seq<char>) -> Seq<
    u8,
> {
    encode_utf8(head_text(status, payload.len(), content_type)) + payload
}

/// One decimal digit as a string.
fn digit_str(d: usize) -> (r: &'static str)
    requires
        d < 10,
    ensures
        r@ == seq![digit_char(d as nat)],
{
    proof {
        reveal_strlit("0");
        reveal_strlit("1");
        reveal_strlit("2");
        reveal_strlit("3");
        reveal_strlit("4");
        reveal_strlit("5");
        reveal_strlit("6");
        reveal_strlit("7");
        reveal_strlit("8");
        reveal_strlit("9");
    }
    match d {
        0 => "0",
        1 => "1",
        2 => "2",
        3 => "3",
        4 => "4",
        5 => "5",
        6 => "6",
        7 => "7",
        8 => "8",
        _ => "9",
    }
}

/// Appends the decimal text of `n` to `s`.
pub fn push_decimal(s: &mut String, n: usize)
    ensures
        final(s)@ == old(s)@ + decimal(n as nat),
    decreases n,
{
    if n >= 10 {
        push_decimal(s, n / 10);
    }
    s.append(digit_str(n % 10));
    assert(final(s)@ =~= old(s)@ + decimal(n as nat));
}

/// Renders the header block of a response.
///
/// `Content-Length` is `payload_length`, the body's length in bytes. With
/// `security_enabled` the block also carries the CORS wildcard and the
/// content-type, XSS and content-security policies.
pub fn build_http_headers(security_enabled: bool, payload_length: usize, content_type: &str) -> (r:
    String)
    ensures
        r@ == headers_text(security_enabled, payload_length as nat, content_type@),
{
    let mut headers = String::from_str("Connection: close\r\nContent-Type: ");
    headers.append(content_type);
    if security_enabled {
        headers.append(
            "\r\nAccess-Control-Allow-Origin: *\r\nX-Content-Type-Options: nosniff\r\nX-XSS-Protection: 1; mode=block\r\nContent-Security-Policy: default-src 'self'\r\nContent-Length: ",
        );
    } else {
        headers.append("\r\nContent-Length: ");
    }
    push_decimal(&mut headers, payload_length);
    headers
}

/// Renders a complete response: status line, headers with the security set,
/// a blank line, then the payload's bytes unchanged.
///
/// Text stays readable and binary content stays intact, and `Content-Length`
/// counts bytes, not characters.
pub fn build_http_response(status: &str, payload: &[u8], content_type: &str) -> (r: Vec<u8>)
    ensures
        r@ == response_bytes(status@, payload@, content_type@),
{
    let headers = build_http_headers(true, payload.len(), content_type);
    let mut head = String::from_str(status);
    head.append("\r\n");
    head.append(headers.as_str());
    head.append("\r\n\r\n");
    let head_bytes = head.as_str().as_bytes();
    let mut out: Vec<u8> = Vec::new();
    out.extend_from_slice(head_bytes);
    out.extend_from_slice(payload);
    assert(head@ =~= head_text(status@, payload@.len(), content_type@));
    assert(out@ =~= response_bytes(status@, payload@, content_type@));
    out
}

} // verus!
