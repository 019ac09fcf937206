//! The one response this server ever sends.
use vstd::prelude::*;

verus! {

/// The status line of the response, with its line ending.
pub open spec fn status_line() -> Seq<char> {
    "HTTP/1.1 200 OK\r\n"@
}

/// The single header line of the response, with its line ending.
pub open spec fn content_type_line() -> Seq<char> {
    "Content-Type: text/html; charset=UTF-8\r\n"@
}

/// The empty line that ends the header section.
pub open spec fn header_end() -> Seq<char> {
    "\r\n"@
}

/// The page, with a final line ending.
pub open spec fn body() -> Seq<char> {
    "<html><body>Hello world</body></html>\r\n"@
}

/// The whole response as text.
pub open spec fn response_text() -> Seq<char> {
    status_line() + content_type_line() + header_end() + body()
}

/// The response as it goes on the wire: one byte per character.
pub open spec fn response_bytes() -> Seq<u8> {
    Seq::new(response_text().len(), |i: int| response_text()[i] as u8)
}

/// The bytes written to every client whose request was read.
pub fn response() -> (r: Vec<u8>)
    ensures
        r@ == response_bytes(),
{
    let text = "HTTP/1.1 200 OK\r\nContent-Type: text/html; charset=UTF-8\r\n\r\n<html><body>Hello world</body></html>\r\n";
    proof {
        reveal_strlit("HTTP/1.1 200 OK\r\nContent-Type: text/html; charset=UTF-8\r\n\r\n<html><body>Hello world</body></html>\r\n");
        reveal_strlit("HTTP/1.1 200 OK\r\n");
        reveal_strlit("Content-Type: text/html; charset=UTF-8\r\n");
        reveal_strlit("\r\n");
        reveal_strlit("<html><body>Hello world</body></html>\r\n");
        assert(text@ =~= response_text());
        assert(vstd::string::is_ascii(text));
        vstd::string::is_ascii_spec_bytes(text);
    }
    let bytes = text.as_bytes();
    let r = vstd::slice::slice_to_vec(bytes);
    assert(r@ =~= response_bytes());
    r
}

} // verus!
