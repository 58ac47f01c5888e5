//! HTTP responses: status line, ordered header fields and a buffered body,
//! rendered into wire bytes by one framing function. The content-type table
//! and the gzip negotiation outcome are part of each response's contract.

use vstd::prelude::*;
use vstd::string::StrSliceExecFns;
use vstd::string::StringSliceAdditionalSpecFns;
use vstd::utf8::encode_utf8;
use crate::config::Header;
use crate::headers::{HeaderMap, map_insert, map_get, lemma_insert_get};
use crate::text::{str_eq, dec_chars, dec_string};

verus! {

/// The response status codes this server produces.
#[derive(Clone, Copy, Debug, PartialEq, Eq, Structural)]
pub enum StatusCode {
    _200,
    _301,
    _302,
    _400,
    _401,
    _404,
    _405,
    _500,
}

impl StatusCode {
    pub open spec fn spec_code(self) -> u16 {
        match self {
            StatusCode::_200 => 200,
            StatusCode::_301 => 301,
            StatusCode::_302 => 302,
            StatusCode::_400 => 400,
            StatusCode::_401 => 401,
            StatusCode::_404 => 404,
            StatusCode::_405 => 405,
            StatusCode::_500 => 500,
        }
    }

    /// The numeric status code.
    pub fn code(&self) -> (r: u16)
        ensures
            r == self.spec_code(),
    {
        match self {
            StatusCode::_200 => 200,
            StatusCode::_301 => 301,
            StatusCode::_302 => 302,
            StatusCode::_400 => 400,
            StatusCode::_401 => 401,
            StatusCode::_404 => 404,
            StatusCode::_405 => 405,
            StatusCode::_500 => 500,
        }
    }
}

/// The MIME string served for a file extension; unknown extensions are
/// served as `application/octet-stream`.
pub open spec fn mime_of(e: Seq<char>) -> Seq<char> {
    if e == ("aac")@ { ("audio/aac")@ }
    else if e == ("abw")@ { ("application/x-abiword")@ }
    else if e == ("arc")@ { ("application/x-freearc")@ }
    else if e == ("avi")@ { ("video/x-msvideo")@ }
    else if e == ("azw")@ { ("application/vnd.amazon.ebook")@ }
    else if e == ("bin")@ { ("application/octet-stream")@ }
    else if e == ("bmp")@ { ("image/bmp")@ }
    else if e == ("bz")@ { ("application/x-bzip")@ }
    else if e == ("bz2")@ { ("application/x-bzip2")@ }
    else if e == ("csh")@ { ("application/x-csh")@ }
    else if e == ("css")@ { ("text/css")@ }
    else if e == ("csv")@ { ("text/csv")@ }
    else if e == ("doc")@ { ("application/msword")@ }
    else if e == ("docx")@ { ("application/vnd.openxmlformats-officedocument.wordprocessingml.document")@ }
    else if e == ("eot")@ { ("application/vnd.ms-fontobject")@ }
    else if e == ("epub")@ { ("application/epub+zip")@ }
    else if e == ("gif")@ { ("image/gif")@ }
    else if e == ("htm")@ { ("text/html")@ }
    else if e == ("html")@ { ("text/html")@ }
    else if e == ("ico")@ { ("image/vnd.microsoft.icon")@ }
    else if e == ("ics")@ { ("text/calendar")@ }
    else if e == ("jar")@ { ("application/java-archive")@ }
    else if e == ("jpeg")@ { ("image/jpeg")@ }
    else if e == ("jpg")@ { ("image/jpeg")@ }
    else if e == ("js")@ { ("text/javascript")@ }
    else if e == ("json")@ { ("application/json")@ }
    else if e == ("mjs")@ { ("text/javascript")@ }
    else if e == ("mp3")@ { ("audio/mpeg")@ }
    else if e == ("mpeg")@ { ("video/mpeg")@ }
    else if e == ("mpkg")@ { ("application/vnd.apple.installer+xml")@ }
    else if e == ("odp")@ { ("application/vnd.oasis.opendocument.presentation")@ }
    else if e == ("ods")@ { ("application/vnd.oasis.opendocument.spreadsheet")@ }
    else if e == ("odt")@ { ("application/vnd.oasis.opendocument.text")@ }
    else if e == ("oga")@ { ("audio/ogg")@ }
    else if e == ("ogv")@ { ("video/ogg")@ }
    else if e == ("ogx")@ { ("application/ogg")@ }
    else if e == ("otf")@ { ("font/otf")@ }
    else if e == ("png")@ { ("image/png")@ }
    else if e == ("pdf")@ { ("application/pdf")@ }
    else if e == ("ppt")@ { ("application/vnd.ms-powerpoint")@ }
    else if e == ("pptx")@ { ("application/vnd.openxmlformats-officedocument.presentationml.presentation")@ }
    else if e == ("rar")@ { ("application/x-rar-compressed")@ }
    else if e == ("rtf")@ { ("application/rtf")@ }
    else if e == ("sh")@ { ("application/x-sh")@ }
    else if e == ("svg")@ { ("image/svg+xml")@ }
    else if e == ("swf")@ { ("application/x-shockwave-flash")@ }
    else if e == ("tar")@ { ("application/x-tar")@ }
    else if e == ("tif")@ { ("image/tiff")@ }
    else if e == ("tiff")@ { ("image/tiff")@ }
    else if e == ("ttf")@ { ("font/ttf")@ }
    else if e == ("txt")@ { ("text/plain")@ }
    else if e == ("vsd")@ { ("application/vnd.visio")@ }
    else if e == ("wav")@ { ("audio/wav")@ }
    else if e == ("weba")@ { ("audio/webm")@ }
    else if e == ("webm")@ { ("video/webm")@ }
    else if e == ("webp")@ { ("image/webp")@ }
    else if e == ("woff")@ { ("font/woff")@ }
    else if e == ("woff2")@ { ("font/woff2")@ }
    else if e == ("xhtml")@ { ("application/xhtml+xml")@ }
    else if e == ("xls")@ { ("application/vnd.ms-excel")@ }
    else if e == ("xlsx")@ { ("application/vnd.openxmlformats-officedocument.spreadsheetml.sheet")@ }
    else if e == ("xml")@ { ("text/xml")@ }
    else if e == ("xul")@ { ("application/vnd.mozilla.xul+xml")@ }
    else if e == ("zip")@ { ("application/zip")@ }
    else if e == ("3gp")@ { ("video/3gpp")@ }
    else if e == ("3g2")@ { ("video/3gpp2")@ }
    else if e == ("7z")@ { ("application/x-7z-compressed")@ }
    else { ("application/octet-stream")@ }
}

/// Looks the extension up in the content-type table.
fn mime_lookup(ext: &str) -> (r: &'static str)
    ensures
        r@ == mime_of(ext@),
{
    if str_eq(ext, "aac") {
        "audio/aac"
    } else if str_eq(ext, "abw") {
        "application/x-abiword"
    } else if str_eq(ext, "arc") {
        "application/x-freearc"
    } else if str_eq(ext, "avi") {
        "video/x-msvideo"
    } else if str_eq(ext, "azw") {
        "application/vnd.amazon.ebook"
    } else if str_eq(ext, "bin") {
        "application/octet-stream"
    } else if str_eq(ext, "bmp") {
        "image/bmp"
    } else if str_eq(ext, "bz") {
        "application/x-bzip"
    } else if str_eq(ext, "bz2") {
        "application/x-bzip2"
    } else if str_eq(ext, "csh") {
        "application/x-csh"
    } else if str_eq(ext, "css") {
        "text/css"
    } else if str_eq(ext, "csv") {
        "text/csv"
    } else if str_eq(ext, "doc") {
        "application/msword"
    } else if str_eq(ext, "docx") {
        "application/vnd.openxmlformats-officedocument.wordprocessingml.document"
    } else if str_eq(ext, "eot") {
        "application/vnd.ms-fontobject"
    } else if str_eq(ext, "epub") {
        "application/epub+zip"
    } else if str_eq(ext, "gif") {
        "image/gif"
    } else if str_eq(ext, "htm") {
        "text/html"
    } else if str_eq(ext, "html") {
        "text/html"
    } else if str_eq(ext, "ico") {
        "image/vnd.microsoft.icon"
    } else if str_eq(ext, "ics") {
        "text/calendar"
    } else if str_eq(ext, "jar") {
        "application/java-archive"
    } else if str_eq(ext, "jpeg") {
        "image/jpeg"
    } else if str_eq(ext, "jpg") {
        "image/jpeg"
    } else if str_eq(ext, "js") {
        "text/javascript"
    } else if str_eq(ext, "json") {
        "application/json"
    } else if str_eq(ext, "mjs") {
        "text/javascript"
    } else if str_eq(ext, "mp3") {
        "audio/mpeg"
    } else if str_eq(ext, "mpeg") {
        "video/mpeg"
    } else if str_eq(ext, "mpkg") {
        "application/vnd.apple.installer+xml"
    } else if str_eq(ext, "odp") {
        "application/vnd.oasis.opendocument.presentation"
    } else if str_eq(ext, "ods") {
        "application/vnd.oasis.opendocument.spreadsheet"
    } else if str_eq(ext, "odt") {
        "application/vnd.oasis.opendocument.text"
    } else if str_eq(ext, "oga") {
        "audio/ogg"
    } else if str_eq(ext, "ogv") {
        "video/ogg"
    } else if str_eq(ext, "ogx") {
        "application/ogg"
    } else if str_eq(ext, "otf") {
        "font/otf"
    } else if str_eq(ext, "png") {
        "image/png"
    } else if str_eq(ext, "pdf") {
        "application/pdf"
    } else if str_eq(ext, "ppt") {
        "application/vnd.ms-powerpoint"
    } else if str_eq(ext, "pptx") {
        "application/vnd.openxmlformats-officedocument.presentationml.presentation"
    } else if str_eq(ext, "rar") {
        "application/x-rar-compressed"
    } else if str_eq(ext, "rtf") {
        "application/rtf"
    } else if str_eq(ext, "sh") {
        "application/x-sh"
    } else if str_eq(ext, "svg") {
        "image/svg+xml"
    } else if str_eq(ext, "swf") {
        "application/x-shockwave-flash"
    } else if str_eq(ext, "tar") {
        "application/x-tar"
    } else if str_eq(ext, "tif") {
        "image/tiff"
    } else if str_eq(ext, "tiff") {
        "image/tiff"
    } else if str_eq(ext, "ttf") {
        "font/ttf"
    } else if str_eq(ext, "txt") {
        "text/plain"
    } else if str_eq(ext, "vsd") {
        "application/vnd.visio"
    } else if str_eq(ext, "wav") {
        "audio/wav"
    } else if str_eq(ext, "weba") {
        "audio/webm"
    } else if str_eq(ext, "webm") {
        "video/webm"
    } else if str_eq(ext, "webp") {
        "image/webp"
    } else if str_eq(ext, "woff") {
        "font/woff"
    } else if str_eq(ext, "woff2") {
        "font/woff2"
    } else if str_eq(ext, "xhtml") {
        "application/xhtml+xml"
    } else if str_eq(ext, "xls") {
        "application/vnd.ms-excel"
    } else if str_eq(ext, "xlsx") {
        "application/vnd.openxmlformats-officedocument.spreadsheetml.sheet"
    } else if str_eq(ext, "xml") {
        "text/xml"
    } else if str_eq(ext, "xul") {
        "application/vnd.mozilla.xul+xml"
    } else if str_eq(ext, "zip") {
        "application/zip"
    } else if str_eq(ext, "3gp") {
        "video/3gpp"
    } else if str_eq(ext, "3g2") {
        "video/3gpp2"
    } else if str_eq(ext, "7z") {
        "application/x-7z-compressed"
    } else {
        "application/octet-stream"
    }
}

/// What an uninterpreted gzip stream of the given bytes looks like; the
/// encoder below is configured so that this depends on the input alone.
pub uninterp spec fn gzip_bytes_of(data: Seq<u8>) -> Seq<u8>;

/// Relies on libflate's `gzip::Encoder`: the returned bytes are a gzip
/// stream holding exactly `data`. The header is pinned (modification time
/// zero), so the output is a function of the input alone, and every sink
/// failure is impossible because the sink is an in-memory vector, whose
/// `Write` implementation never errors.
#[verifier::external_body]
fn gzip_compress(data: &[u8]) -> (r: Vec<u8>)
    ensures
        r@ == gzip_bytes_of(data@),
{
    let header = libflate::gzip::HeaderBuilder::new().modification_time(0).finish();
    let options = libflate::gzip::EncodeOptions::new().header(header);
    let mut encoder = libflate::gzip::Encoder::with_options(Vec::new(), options)
        .expect("writing a gzip header to a vector cannot fail");
    std::io::Write::write_all(&mut encoder, data)
        .expect("compressing into a vector cannot fail");
    encoder.finish().into_result()
        .expect("finishing a gzip stream into a vector cannot fail")
}

/// The rendered header lines from position `i` on: `key: value` followed by
/// CRLF, one line per entry, in storage order.
pub open spec fn header_lines_from(es: Seq<(Seq<char>, Seq<char>)>, i: int) -> Seq<u8>
    decreases es.len() - i when 0 <= i <= es.len()
{
    if i >= es.len() {
        Seq::empty()
    } else {
        encode_utf8(es[i].0) + encode_utf8((": ")@) + encode_utf8(es[i].1) + encode_utf8(
            ("\r\n")@,
        ) + header_lines_from(es, i + 1)
    }
}

/// The header block: status line without a reason phrase, the header lines,
/// and the blank line that closes the block.
pub open spec fn head_bytes(code: u16, es: Seq<(Seq<char>, Seq<char>)>) -> Seq<u8> {
    encode_utf8(("HTTP/1.1 ")@) + encode_utf8(dec_chars(code as nat)) + encode_utf8(("\r\n")@)
        + header_lines_from(es, 0) + encode_utf8(("\r\n")@)
}

/// A full wire response: header block, then the body bytes.
pub open spec fn frame_bytes(code: u16, es: Seq<(Seq<char>, Seq<char>)>, body: Seq<u8>) -> Seq<
    u8,
> {
    head_bytes(code, es) + body
}

/// The two bytes CRLF, as the encoding of the `"\r\n"` literal.
pub proof fn lemma_crlf_bytes()
    ensures
        encode_utf8(("\r\n")@) =~= seq![13u8, 10u8],
{
    reveal_strlit("\r\n");
    let cs = ("\r\n")@;
    assert(vstd::utf8::is_ascii_chars(cs));
    vstd::utf8::is_ascii_chars_encode_utf8(cs);
}

/// The rendered header lines are empty or end with CRLF.
proof fn lemma_lines_end_crlf(es: Seq<(Seq<char>, Seq<char>)>, i: int)
    requires
        0 <= i <= es.len(),
    ensures
        ({
            let l = header_lines_from(es, i);
            l.len() == 0 || (l.len() >= 2 && l.subrange(l.len() - 2, l.len() as int)
                =~= encode_utf8(("\r\n")@))
        }),
    decreases es.len() - i,
{
    lemma_crlf_bytes();
    if i < es.len() {
        lemma_lines_end_crlf(es, i + 1);
        let l = header_lines_from(es, i);
        let rest = header_lines_from(es, i + 1);
        if rest.len() == 0 {
            assert(l.subrange(l.len() - 2, l.len() as int) =~= encode_utf8(("\r\n")@));
        } else {
            assert(l.subrange(l.len() - 2, l.len() as int) =~= rest.subrange(
                rest.len() - 2,
                rest.len() as int,
            ));
        }
    }
}

/// Law: every rendered response is the header block followed by the body
/// bytes, and the block closes with an empty line — its last four bytes are
/// CRLF CRLF — before the body starts.
pub proof fn lemma_frame_shape(code: u16, es: Seq<(Seq<char>, Seq<char>)>, body: Seq<u8>)
    ensures
        ({
            let head = head_bytes(code, es);
            &&& frame_bytes(code, es, body) == head + body
            &&& head.len() >= 4
            &&& head.subrange(head.len() - 4, head.len() as int) =~= seq![13u8, 10u8, 13u8, 10u8]
        }),
{
    lemma_crlf_bytes();
    lemma_lines_end_crlf(es, 0);
    let head = head_bytes(code, es);
    let lines = header_lines_from(es, 0);
    if lines.len() == 0 {
        assert(head.subrange(head.len() - 4, head.len() as int) =~= seq![13u8, 10u8, 13u8, 10u8]);
    } else {
        assert(head.subrange(head.len() - 4, head.len() as int) =~= seq![13u8, 10u8, 13u8, 10u8]);
    }
}

/// Law: after a buffered response stores the decimal rendering of its
/// body's byte length — as `text` and `body` do last — looking
/// `Content-Length` up yields exactly that rendering.
pub proof fn lemma_content_length_matches(es: Seq<(Seq<char>, Seq<char>)>, body: Seq<u8>)
    ensures
        map_get(
            map_insert(es, ("Content-Length")@, dec_chars(body.len())),
            ("Content-Length")@,
        ) == Some(dec_chars(body.len())),
{
    lemma_insert_get(es, ("Content-Length")@, dec_chars(body.len()));
}

/// An HTTP response under construction.
pub struct Response {
    status: u16,
    header: HeaderMap,
    gzip: bool,
}

/// The entries after inserting the configured header fields `hs[i..]`.
pub open spec fn insert_headers_from(
    es: Seq<(Seq<char>, Seq<char>)>,
    hs: Seq<Header>,
    i: int,
) -> Seq<(Seq<char>, Seq<char>)>
    decreases hs.len() - i when 0 <= i <= hs.len()
{
    if i >= hs.len() {
        es
    } else {
        insert_headers_from(map_insert(es, hs[i].key@, hs[i].value@), hs, i + 1)
    }
}

/// The initial entries of every response: the server identity header, then
/// the configured header fields in order.
pub open spec fn base_entries(hs: Seq<Header>) -> Seq<(Seq<char>, Seq<char>)> {
    insert_headers_from(map_insert(Seq::empty(), ("Server")@, ("see")@), hs, 0)
}

impl Response {
    pub closed spec fn spec_status(self) -> u16 {
        self.status
    }

    pub closed spec fn spec_entries(self) -> Seq<(Seq<char>, Seq<char>)> {
        self.header.entries()
    }

    pub closed spec fn spec_gzip(self) -> bool {
        self.gzip
    }

    /// A response for `status` carrying the server identity header and the
    /// configured header fields.
    pub fn new(status: StatusCode, headers: &Vec<Header>) -> (r: Response)
        ensures
            r.spec_status() == status.spec_code(),
            r.spec_entries() == base_entries(headers@),
            !r.spec_gzip(),
    {
        let mut hm = HeaderMap::new();
        hm.insert("Server".to_owned(), "see".to_owned());
        assert(hm.entries() =~= map_insert(Seq::empty(), ("Server")@, ("see")@));
        let n = headers.len();
        let mut i: usize = 0;
        while i < n
            invariant
                i <= n,
                n == headers@.len(),
                insert_headers_from(hm.entries(), headers@, i as int) == base_entries(
                    headers@,
                ),
            decreases n - i,
        {
            hm.insert(headers[i].key.clone(), headers[i].value.clone());
            i = i + 1;
        }
        Response { status: status.code(), header: hm, gzip: false }
    }

    /// Stores a header field.
    pub fn header(self, key: &str, value: &str) -> (r: Response)
        ensures
            r.spec_status() == self.spec_status(),
            r.spec_entries() == map_insert(self.spec_entries(), key@, value@),
            r.spec_gzip() == self.spec_gzip(),
    {
        let mut s = self;
        s.header.insert(key.to_owned(), value.to_owned());
        s
    }

    /// Stores the content type derived from a file extension.
    pub fn content_type(self, ext: &str) -> (r: Response)
        ensures
            r.spec_status() == self.spec_status(),
            r.spec_entries() == map_insert(
                self.spec_entries(),
                ("Content-Type")@,
                mime_of(ext@),
            ),
            r.spec_gzip() == self.spec_gzip(),
    {
        let value = mime_lookup(ext);
        let mut s = self;
        s.header.insert("Content-Type".to_owned(), value.to_owned());
        s
    }

    /// Sets whether a buffered body will be gzip-encoded.
    pub fn gzip(self, open: bool) -> (r: Response)
        ensures
            r.spec_status() == self.spec_status(),
            r.spec_entries() == self.spec_entries(),
            r.spec_gzip() == open,
    {
        let mut s = self;
        s.gzip = open;
        s
    }

    /// Renders the header block followed by `body`.
    fn finish(&self, body: &[u8]) -> (r: Vec<u8>)
        ensures
            r@ == frame_bytes(self.spec_status(), self.spec_entries(), body@),
    {
        let ghost es = self.spec_entries();
        let mut out: Vec<u8> = Vec::new();
        out.extend_from_slice("HTTP/1.1 ".as_bytes());
        let code = dec_string(self.status as u64);
        out.extend_from_slice(code.as_str().as_bytes());
        out.extend_from_slice("\r\n".as_bytes());
        let ghost pre = out@;
        let n = self.header.len();
        let mut i: usize = 0;
        while i < n
            invariant
                i <= n,
                n == es.len(),
                es == self.spec_entries(),
                out@ + header_lines_from(es, i as int) == pre + header_lines_from(es, 0),
            decreases n - i,
        {
            let (k, v) = self.header.at(i);
            out.extend_from_slice(k.as_str().as_bytes());
            out.extend_from_slice(": ".as_bytes());
            out.extend_from_slice(v.as_str().as_bytes());
            out.extend_from_slice("\r\n".as_bytes());
            i = i + 1;
        }
        out.extend_from_slice("\r\n".as_bytes());
        out.extend_from_slice(body);
        assert(out@ =~= frame_bytes(self.spec_status(), es, body@));
        out
    }

    /// A redirect: stores the target as the `location` header and renders a
    /// response without a body.
    pub fn rewrite(self, location: String) -> (r: Vec<u8>)
        ensures
            r@ == frame_bytes(
                self.spec_status(),
                map_insert(self.spec_entries(), ("location")@, location@),
                Seq::empty(),
            ),
    {
        let mut s = self;
        s.header.insert("location".to_owned(), location);
        let empty: [u8; 0] = [];
        let out = s.finish(&empty);
        assert(out@ == frame_bytes(s.spec_status(), s.spec_entries(), Seq::empty()));
        out
    }

    /// A plain-text response; the content length states the body's byte
    /// length.
    pub fn text(self, text: &str) -> (r: Vec<u8>)
        ensures
            r@ == frame_bytes(
                self.spec_status(),
                map_insert(
                    map_insert(self.spec_entries(), ("Content-Type")@, ("text/plain")@),
                    ("Content-Length")@,
                    dec_chars(text.spec_bytes().len()),
                ),
                text.spec_bytes(),
            ),
    {
        let body = text.as_bytes();
        let mut s = self;
        s.header.insert("Content-Type".to_owned(), "text/plain".to_owned());
        s.header.insert("Content-Length".to_owned(), dec_string(body.len() as u64));
        s.finish(body)
    }

    /// A buffered-body response. When the gzip flag is set the body is the
    /// gzip stream of `data`, announced by a `Content-Encoding` header; the
    /// content length always states the transmitted body's byte length.
    pub fn body(self, data: &[u8]) -> (r: Vec<u8>)
        ensures
            !self.spec_gzip() ==> r@ == frame_bytes(
                self.spec_status(),
                map_insert(self.spec_entries(), ("Content-Length")@, dec_chars(data@.len())),
                data@,
            ),
            self.spec_gzip() ==> r@ == frame_bytes(
                self.spec_status(),
                map_insert(
                    map_insert(self.spec_entries(), ("Content-Encoding")@, ("gzip")@),
                    ("Content-Length")@,
                    dec_chars(gzip_bytes_of(data@).len()),
                ),
                gzip_bytes_of(data@),
            ),
    {
        let mut s = self;
        if s.gzip {
            let z = gzip_compress(data);
            s.header.insert("Content-Encoding".to_owned(), "gzip".to_owned());
            s.header.insert("Content-Length".to_owned(), dec_string(z.len() as u64));
            s.finish(z.as_slice())
        } else {
            s.header.insert("Content-Length".to_owned(), dec_string(data.len() as u64));
            s.finish(data)
        }
    }

    /// The header block for a streamed file of `length` bytes: the body is
    /// written by the caller afterwards. Streamed deliveries bypass gzip,
    /// so that the announced content length always matches the bytes on the
    /// wire; gzip-eligible files are delivered buffered instead.
    pub fn file_header(self, length: u64) -> (r: Vec<u8>)
        requires
            !self.spec_gzip(),
        ensures
            r@ == frame_bytes(
                self.spec_status(),
                map_insert(
                    self.spec_entries(),
                    ("Content-Length")@,
                    dec_chars(length as nat),
                ),
                Seq::empty(),
            ),
    {
        let mut s = self;
        s.header.insert("Content-Length".to_owned(), dec_string(length));
        let empty: [u8; 0] = [];
        s.finish(&empty)
    }
}

} // verus!
