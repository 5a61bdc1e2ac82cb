//! The response of the server and its text on the wire.

use vstd::prelude::*;
use vstd::string::StringExecFns;
use vstd::utf8::*;
use crate::decimal::{append_decimal, decimal, decimal_value, lemma_decimal_round_trip};
use crate::headers::{FieldSeq, Headers};
use crate::status::{status_text_for, status_text_of};

verus! {

/// Why a response has no text on the wire.
#[derive(Debug, Clone, Copy, PartialEq, Eq)]
pub enum EncodingError {
    /// The response has no header mapping.
    MissingHeaders,
    /// The response has no body.
    MissingBody,
}

/// The mathematical model of a response.
pub struct ResponseModel {
    pub version: Seq<char>,
    pub status_code: Seq<char>,
    pub status_text: Seq<char>,
    pub headers: Option<FieldSeq>,
    pub body: Option<Seq<char>>,
}

/// The protocol version that every response names.
pub open spec fn http_version() -> Seq<char> {
    "HTTP/1.1"@
}

/// The header fields of a response that was made without a header mapping.
pub open spec fn default_fields() -> FieldSeq {
    seq![("Content-Type"@, "text/html"@)]
}

/// The response that `HttpResponse::default` makes: a `200` without header
/// mapping and without body.
pub open spec fn default_model() -> ResponseModel {
    ResponseModel {
        version: http_version(),
        status_code: "200"@,
        status_text: "OK"@,
        headers: None,
        body: None,
    }
}

/// The response that `HttpResponse::new` makes of its three arguments.
pub open spec fn new_model(
    status_code: Seq<char>,
    headers: Option<FieldSeq>,
    body: Option<Seq<char>>,
) -> ResponseModel {
    ResponseModel {
        version: http_version(),
        status_code,
        status_text: status_text_of(status_code),
        headers: match headers {
            Some(fields) => Some(fields),
            None => Some(default_fields()),
        },
        body,
    }
}

impl ResponseModel {
    /// The version is the fixed one, and the reason phrase is the one that
    /// the status table gives for the status code.
    pub open spec fn consistent(self) -> bool {
        &&& self.version == http_version()
        &&& self.status_text == status_text_of(self.status_code)
    }
}

/// The first line of a response.
pub open spec fn status_line(m: ResponseModel) -> Seq<char> {
    m.version + " "@ + m.status_code + " "@ + m.status_text + "\r\n"@
}

/// The line of one header field.
pub open spec fn header_line(field: (Seq<char>, Seq<char>)) -> Seq<char> {
    field.0 + ": "@ + field.1 + "\r\n"@
}

/// The lines of the header fields, in the order of the mapping.
pub open spec fn header_lines(fields: FieldSeq) -> Seq<char>
    decreases fields.len(),
{
    if fields.len() == 0 {
        Seq::empty()
    } else {
        header_lines(fields.drop_last()) + header_line(fields.last())
    }
}

/// The line that announces a body of `n` bytes.
pub open spec fn content_length_line(n: nat) -> Seq<char> {
    "Content-Length: "@ + decimal(n) + "\r\n"@
}

/// The number of bytes that `text` takes on the wire.
pub open spec fn byte_length(text: Seq<char>) -> nat {
    encode_utf8(text).len()
}

/// The text of a response with the header fields `fields` and the body
/// `body`: the status line, one line for each field, the line with the
/// body's length in bytes, an empty line, and the body.
pub open spec fn wire_text(m: ResponseModel, fields: FieldSeq, body: Seq<char>) -> Seq<char> {
    status_line(m) + header_lines(fields) + content_length_line(byte_length(body)) + "\r\n"@
        + body
}

/// What encoding a response gives: its text, or the reason why it has none.
/// A response without header mapping has none, and of those with a mapping
/// the ones without body.
pub open spec fn encoded(m: ResponseModel) -> Result<Seq<char>, EncodingError> {
    match (m.headers, m.body) {
        (None, _) => Err(EncodingError::MissingHeaders),
        (Some(_), None) => Err(EncodingError::MissingBody),
        (Some(fields), Some(body)) => Ok(wire_text(m, fields, body)),
    }
}

/// Encoding succeeds exactly on a response that has both a header mapping
/// and a body. Each of the two errors tells what is missing; where both are,
/// the header mapping is named.
pub proof fn lemma_encoding_errors(m: ResponseModel)
    ensures
        encoded(m) is Ok <==> m.headers is Some && m.body is Some,
        encoded(m) == Err::<Seq<char>, EncodingError>(EncodingError::MissingHeaders)
            <==> m.headers is None,
        encoded(m) == Err::<Seq<char>, EncodingError>(EncodingError::MissingBody) <==> m.headers
            is Some && m.body is None,
{
}

/// The response that `default` makes and every response that `new` makes
/// are consistent. One made by `new` has header fields, so that encoding it
/// fails exactly when no body was given, and then with `MissingBody`.
pub proof fn lemma_new_model(
    status_code: Seq<char>,
    headers: Option<FieldSeq>,
    body: Option<Seq<char>>,
)
    ensures
        default_model().consistent(),
        new_model(status_code, headers, body).consistent(),
        new_model(status_code, headers, body).headers is Some,
        encoded(new_model(status_code, headers, body)) is Ok <==> body is Some,
        body is None ==> encoded(new_model(status_code, headers, body)) == Err::<
            Seq<char>,
            EncodingError,
        >(EncodingError::MissingBody),
{
}

/// A response made without a header mapping has exactly one header field,
/// `Content-Type: text/html`, whatever its status code and body are.
pub proof fn lemma_default_header(status_code: Seq<char>, body: Option<Seq<char>>)
    ensures
        new_model(status_code, None, body).headers == Some(default_fields()),
        default_fields().len() == 1,
        default_fields()[0] == ("Content-Type"@, "text/html"@),
        header_lines(default_fields()) == "Content-Type: text/html\r\n"@,
{
    reveal_strlit("Content-Type");
    reveal_strlit(": ");
    reveal_strlit("text/html");
    reveal_strlit("\r\n");
    reveal_strlit("Content-Type: text/html\r\n");
    let fields = default_fields();
    assert(fields.drop_last() =~= FieldSeq::empty());
    assert(header_lines(fields.drop_last()) =~= Seq::<char>::empty());
    assert(header_lines(fields) =~= header_line(fields[0]));
    assert(header_line(fields[0]) =~= "Content-Type: text/html\r\n"@);
}

/// A text takes at least one byte and at most four for each character.
pub proof fn lemma_byte_length_bounds(text: Seq<char>)
    ensures
        text.len() <= byte_length(text) <= 4 * text.len(),
    decreases text.len(),
{
    if text.len() > 0 {
        lemma_byte_length_bounds(text.drop_first());
    }
}

/// The length that an encoded response announces is the length of its body
/// in bytes: the text ends with the line `Content-Length:` and the numeral of
/// that length, an empty line, and the body; and reading the numeral gives
/// the length back. The length is the number of characters only for a body
/// of ASCII characters.
pub proof fn lemma_content_length(m: ResponseModel, fields: FieldSeq, body: Seq<char>)
    requires
        m.headers == Some(fields),
        m.body == Some(body),
    ensures
        encoded(m) == Ok::<Seq<char>, EncodingError>(
            status_line(m) + header_lines(fields) + ("Content-Length: "@ + decimal(
                byte_length(body),
            ) + "\r\n"@ + "\r\n"@ + body),
        ),
        decimal_value(decimal(byte_length(body))) == byte_length(body),
        is_ascii_chars(body) ==> byte_length(body) == body.len(),
{
    lemma_decimal_round_trip(byte_length(body));
    if is_ascii_chars(body) {
        is_ascii_chars_encode_utf8(body);
    }
    assert(wire_text(m, fields, body) =~= status_line(m) + header_lines(fields) + (
        "Content-Length: "@ + decimal(byte_length(body)) + "\r\n"@ + "\r\n"@ + body
    ));
}

/// The model of an optional header mapping.
pub open spec fn fields_of(headers: Option<Headers>) -> Option<FieldSeq> {
    match headers {
        Some(h) => Some(h@),
        None => None,
    }
}

/// The model of an optional body.
pub open spec fn text_of(body: Option<String>) -> Option<Seq<char>> {
    match body {
        Some(b) => Some(b@),
        None => None,
    }
}

/// A response: version, status code, reason phrase, header fields and body.
///
/// The version is always `HTTP/1.1`, and the reason phrase is always the one
/// that the status table gives for the status code: a response is made by
/// [`HttpResponse::new`] or [`HttpResponse::default`] and never changed.
#[derive(Debug, PartialEq)]
pub struct HttpResponse<'a> {
    version: &'a str,
    status_code: &'a str,
    status_text: &'a str,
    headers: Option<Headers<'a>>,
    body: Option<String>,
}

impl<'a> View for HttpResponse<'a> {
    type V = ResponseModel;

    closed spec fn view(&self) -> ResponseModel {
        ResponseModel {
            version: self.version@,
            status_code: self.status_code@,
            status_text: self.status_text@,
            headers: fields_of(self.headers),
            body: text_of(self.body),
        }
    }
}

impl<'a> Default for HttpResponse<'a> {
    fn default() -> (response: Self)
        ensures
            response@ == default_model(),
    {
        Self { version: "HTTP/1.1", status_code: "200", status_text: "OK", headers: None, body: None }
    }
}

impl<'a> HttpResponse<'a> {
    #[verifier::type_invariant]
    spec fn is_consistent(&self) -> bool {
        self@.consistent()
    }

    /// Makes a response with the given status code, header fields and body.
    ///
    /// The reason phrase is looked up in the status table; a code that the
    /// table does not list is kept as it is and gets the fallback phrase.
    /// Without a header mapping the response gets the one field
    /// `Content-Type: text/html`; a given mapping is taken as it is.
    pub fn new(status_code: &'a str, headers: Option<Headers<'a>>, body: Option<String>) -> (response:
        HttpResponse<'a>)
        ensures
            response@ == new_model(status_code@, fields_of(headers), text_of(body)),
    {
        let headers = match headers {
            Some(h) => h,
            None => {
                let mut h = Headers::new();
                h.insert("Content-Type", "text/html");
                assert(h@ =~= default_fields());
                h
            },
        };
        HttpResponse {
            version: "HTTP/1.1",
            status_code,
            status_text: status_text_for(status_code),
            headers: Some(headers),
            body,
        }
    }

    /// The protocol version, which is always `HTTP/1.1`.
    pub fn version(&self) -> (version: &'a str)
        ensures
            version@ == self@.version,
            version@ == http_version(),
    {
        proof {
            use_type_invariant(self);
        }
        self.version
    }

    /// The status code, as it was given.
    pub fn status_code(&self) -> (code: &'a str)
        ensures
            code@ == self@.status_code,
    {
        self.status_code
    }

    /// The reason phrase, which is always the one that the status table
    /// gives for the status code.
    pub fn status_text(&self) -> (text: &'a str)
        ensures
            text@ == self@.status_text,
            text@ == status_text_of(self@.status_code),
    {
        proof {
            use_type_invariant(self);
        }
        self.status_text
    }

    /// The header fields, if the response has a mapping.
    pub fn headers(&self) -> (headers: Option<&Headers<'a>>)
        ensures
            match headers {
                Some(h) => self@.headers == Some(h@),
                None => self@.headers is None,
            },
    {
        match &self.headers {
            Some(h) => Some(h),
            None => None,
        }
    }

    /// The body, if the response has one.
    pub fn body(&self) -> (body: Option<&str>)
        ensures
            match body {
                Some(b) => self@.body == Some(b@),
                None => self@.body is None,
            },
    {
        match &self.body {
            Some(b) => Some(b.as_str()),
            None => None,
        }
    }

    /// The text of the response on the wire.
    ///
    /// Fails with `MissingHeaders` on a response without header mapping, and
    /// with `MissingBody` on one that has a mapping and no body. The length
    /// that the text announces is the body's length in bytes.
    pub fn encode(&self) -> (result: Result<String, EncodingError>)
        ensures
            match result {
                Ok(text) => encoded(self@) == Ok::<Seq<char>, EncodingError>(text@),
                Err(e) => encoded(self@) == Err::<Seq<char>, EncodingError>(e),
            },
    {
        let headers = match &self.headers {
            Some(h) => h,
            None => {
                return Err(EncodingError::MissingHeaders);
            },
        };
        let body = match &self.body {
            Some(b) => b.as_str(),
            None => {
                return Err(EncodingError::MissingBody);
            },
        };
        let mut out = String::new();
        out.append(self.version);
        out.append(" ");
        out.append(self.status_code);
        out.append(" ");
        out.append(self.status_text);
        out.append("\r\n");
        let ghost head = out@;
        assert(head =~= status_line(self@));
        let n = headers.len();
        let mut i: usize = 0;
        assert(headers@.take(0) =~= FieldSeq::empty());
        while i < n
            invariant
                i <= n,
                n == headers@.len(),
                out@ == head + header_lines(headers@.take(i as int)),
            decreases n - i,
        {
            let ghost done = headers@.take(i as int);
            let ghost next = headers@.take(i + 1);
            assert(next.drop_last() =~= done);
            assert(next.last() == headers@[i as int]);
            match headers.entry(i) {
                Some((name, value)) => {
                    out.append(name);
                    out.append(": ");
                    out.append(value);
                    out.append("\r\n");
                },
                None => {},
            }
            assert(out@ =~= head + (header_lines(done) + header_line(next.last())));
            i += 1;
        }
        assert(headers@.take(n as int) =~= headers@);
        out.append("Content-Length: ");
        append_decimal(&mut out, body.as_bytes().len());
        out.append("\r\n");
        out.append("\r\n");
        out.append(body);
        assert(out@ =~= wire_text(self@, headers@, body@));
        Ok(out)
    }

    /// Writes the text of the response, as UTF-8, behind what `write_stream`
    /// already holds.
    ///
    /// Fails as [`HttpResponse::encode`] does, and then leaves
    /// `write_stream` as it was.
    pub fn send_response(&self, write_stream: &mut Vec<u8>) -> (result: Result<
        (),
        EncodingError,
    >)
        ensures
            match encoded(self@) {
                Ok(text) => result is Ok && final(write_stream)@ == old(write_stream)@
                    + encode_utf8(text),
                Err(e) => result == Err::<(), EncodingError>(e) && final(write_stream)@ == old(
                    write_stream,
                )@,
            },
    {
        let text = match self.encode() {
            Ok(text) => text,
            Err(e) => {
                return Err(e);
            },
        };
        let bytes = text.as_str().as_bytes();
        let mut i: usize = 0;
        while i < bytes.len()
            invariant
                i <= bytes.len(),
                write_stream@ == old(write_stream)@ + bytes@.take(i as int),
            decreases bytes.len() - i,
        {
            write_stream.push(bytes[i]);
            assert(bytes@.take(i + 1) =~= bytes@.take(i as int).push(bytes@[i as int]));
            i += 1;
        }
        assert(bytes@.take(bytes.len() as int) =~= bytes@);
        Ok(())
    }
}

impl<'a> Clone for HttpResponse<'a> {
    fn clone(&self) -> (copy: Self)
        ensures
            copy@ == self@,
    {
        proof {
            use_type_invariant(self);
        }
        HttpResponse {
            version: self.version,
            status_code: self.status_code,
            status_text: self.status_text,
            headers: match &self.headers {
                Some(h) => Some(h.clone()),
                None => None,
            },
            body: match &self.body {
                Some(b) => Some(b.clone()),
                None => None,
            },
        }
    }
}

} // verus!
