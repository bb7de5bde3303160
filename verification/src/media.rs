//! Uploaded files: checking uploads, naming stored files, and the headers of a
//! download.
use vstd::prelude::*;
use vstd::utf8::encode_utf8;
use crate::error::{AppError, ValidationFailed};
use crate::crypto::{blake3_digest, blake3_finalize, blake3_new, blake3_update, hashed_input, hex_lower, to_hex};
use crate::id::Uuid;
use crate::models::Media;
use crate::text::{push_char, regex_replace_all, regex_replaced};
use crate::validator::byte_len;

verus! {

/// The largest upload, in bytes: 16 MiB.
pub const MAX_SIZE: usize = 16777216;

/// The longest name of an uploaded file, in bytes.
pub const MAX_FILENAME_LEN: usize = 200;

/// An upload holds at most 16 MiB.
pub proof fn lemma_max_size()
    ensures
        MAX_SIZE == 16 * 1024 * 1024,
{
}

/// The upper-case hexadecimal digit of `n` (below 16).
pub open spec fn hex_digit(n: nat) -> char {
    if n < 10 {
        (48 + n) as char
    } else {
        (55 + n) as char
    }
}

/// The text `%XX` of a byte, as `percent_encoding::percent_encode_byte` gives it.
pub open spec fn percent_byte(b: u8) -> Seq<char> {
    seq!['%', hex_digit(b as nat / 16), hex_digit(b as nat % 16)]
}

/// Whether a byte of a file name is percent-encoded in a `Content-Disposition`
/// header: every byte outside ASCII, the controls, the quote and the space.
pub open spec fn encoded_in_filename(b: u8) -> bool {
    b >= 128 || b < 32 || b == 127 || b == 34 || b == 32
}

/// The percent-encoding of the bytes `bytes` of a file name.
pub open spec fn percent_encoded(bytes: Seq<u8>) -> Seq<char>
    decreases bytes.len(),
{
    if bytes.len() == 0 {
        Seq::empty()
    } else {
        let b = bytes[0];
        let head = if encoded_in_filename(b) { percent_byte(b) } else { seq![b as char] };
        head + percent_encoded(bytes.drop_first())
    }
}

/// The upper-case hexadecimal digit of a number below 16.
fn upper_hex_char(n: u8) -> (c: char)
    requires
        n < 16,
    ensures
        c == hex_digit(n as nat),
{
    if n < 10 {
        (48 + n) as char
    } else {
        (55 + n) as char
    }
}

/// Appends the text `%XX` of a byte: `%` and its two upper-case hexadecimal
/// digits.
fn push_percent_byte(r: &mut String, b: u8)
    ensures
        final(r)@ == old(r)@ + percent_byte(b),
{
    push_char(r, '%');
    push_char(r, upper_hex_char(b / 16));
    push_char(r, upper_hex_char(b % 16));
    assert(r@ =~= old(r)@ + percent_byte(b));
}

proof fn lemma_percent_encoded_push(bytes: Seq<u8>, i: int)
    requires
        0 <= i < bytes.len(),
    ensures
        percent_encoded(bytes.subrange(0, i + 1)) == percent_encoded(bytes.subrange(0, i)) + (
            if encoded_in_filename(bytes[i]) { percent_byte(bytes[i]) } else { seq![bytes[i] as char] }),
    decreases i,
{
    let s1 = bytes.subrange(0, i + 1);
    let s0 = bytes.subrange(0, i);
    if i > 0 {
        lemma_percent_encoded_push(bytes.drop_first(), i - 1);
        assert(s1.drop_first() =~= bytes.drop_first().subrange(0, i));
        assert(s0.drop_first() =~= bytes.drop_first().subrange(0, i - 1));
        assert(bytes.drop_first()[i - 1] == bytes[i]);
        assert(s1[0] == bytes[0]);
        assert(s0[0] == bytes[0]);
        let b = bytes[0];
        let head = if encoded_in_filename(b) { percent_byte(b) } else { seq![b as char] };
        let last = if encoded_in_filename(bytes[i]) { percent_byte(bytes[i]) } else { seq![bytes[i] as char] };
        assert(percent_encoded(s1) == head + percent_encoded(s1.drop_first()));
        assert(percent_encoded(s0) == head + percent_encoded(s0.drop_first()));
        assert(head + (percent_encoded(s0.drop_first()) + last) =~= (head + percent_encoded(s0.drop_first())) + last);
    } else {
        assert(s0.len() == 0);
        assert(s1.drop_first().len() == 0);
        assert(s1[0] == bytes[0]);
        let b = bytes[0];
        let head = if encoded_in_filename(b) { percent_byte(b) } else { seq![b as char] };
        assert(percent_encoded(s1) == head + percent_encoded(s1.drop_first()));
        assert(percent_encoded(s1.drop_first()) =~= Seq::<char>::empty());
        assert(percent_encoded(s0) =~= Seq::<char>::empty());
        assert(head + Seq::<char>::empty() =~= Seq::<char>::empty() + head);
    }
}

/// Percent-encodes the UTF-8 bytes of a file name for a `Content-Disposition` header.
pub fn percent_encode_filename(filename: &str) -> (r: String)
    ensures
        r@ == percent_encoded(encode_utf8(filename@)),
{
    let bytes = filename.as_bytes();
    let mut r = String::new();
    let mut i: usize = 0;
    while i < bytes.len()
        invariant
            i <= bytes@.len(),
            bytes@ == encode_utf8(filename@),
            r@ == percent_encoded(bytes@.subrange(0, i as int)),
        decreases bytes@.len() - i,
    {
        let b = bytes[i];
        proof {
            lemma_percent_encoded_push(bytes@, i as int);
        }
        if b >= 128 || b < 32 || b == 127 || b == 34 || b == 32 {
            push_percent_byte(&mut r, b);
        } else {
            push_char(&mut r, b as char);
        }
        i = i + 1;
    }
    assert(bytes@.subrange(0, bytes@.len() as int) =~= bytes@);
    r
}

/// The `Content-Disposition` header of a download: `attachment` or `inline`, with
/// the UTF-8 file name.
pub open spec fn spec_content_disposition(attachment: bool, filename: Seq<char>) -> Seq<char> {
    (if attachment { "attachment"@ } else { "inline"@ }) + "; filename*=utf-8''"@
        + percent_encoded(encode_utf8(filename))
}

/// Builds the `Content-Disposition` header of a download.
pub fn content_disposition(attachment: bool, filename: &str) -> (r: String)
    ensures
        r@ == spec_content_disposition(attachment, filename@),
{
    let mut r = if attachment {
        String::from_str("attachment")
    } else {
        String::from_str("inline")
    };
    r.append("; filename*=utf-8''");
    let encoded = percent_encode_filename(filename);
    r.append(encoded.as_str());
    r
}

/// The pattern of the characters that a stored file name may not hold.
pub open spec fn unsafe_filename_chars() -> Seq<char> {
    "[/?*:|<>\\\\]"@
}

/// A file name with each character that a path may not hold replaced by `_`.
pub open spec fn spec_sanitized_filename(filename: Seq<char>) -> Seq<char> {
    match regex_replaced(unsafe_filename_chars(), filename, "_"@) {
        Some(t) => t,
        None => filename,
    }
}

/// Replaces each character of a file name that a path may not hold by `_`.
pub fn filename_sanitizer(filename: String) -> (r: String)
    ensures
        r@ == spec_sanitized_filename(filename@),
{
    match regex_replace_all("[/?*:|<>\\\\]", filename.as_str(), "_") {
        Some(t) => t,
        None => filename,
    }
}

/// What `str::parse::<mime::Mime>` followed by `to_string` gives: `None` where the
/// text is not a media type.
pub uninterp spec fn mime_text(s: Seq<char>) -> Option<Seq<char>>;

/// Parses a media type with `mime::Mime`'s `FromStr` and writes it back with its
/// `Display`. The contract claims only that the outcome is a function of the text.
#[verifier::external_body]
fn parse_mime(s: &str) -> (r: Option<String>)
    ensures
        r is Some <==> mime_text(s@) is Some,
        r matches Some(t) ==> mime_text(s@) == Some(t@),
{
    s.parse::<mime::Mime>().ok().map(|m| m.to_string())
}

/// The media type of an upload: the one given with the request, else the request's
/// `Content-Type`, each only where it parses; `text/plain` otherwise.
pub open spec fn spec_mime_type(given: Option<Seq<char>>, content_type: Option<Seq<char>>) -> Seq<char> {
    let chosen = match given {
        Some(g) => Some(g),
        None => content_type,
    };
    match chosen {
        Some(c) => match mime_text(c) {
            Some(t) => t,
            None => "text/plain"@,
        },
        None => "text/plain"@,
    }
}

/// The media type that an upload names is taken over the request's
/// `Content-Type` header: where the named type parses, the media type is its text
/// whatever the header holds; where it does not parse, the media type is
/// `text/plain`, the header being still passed over. Only where no type is named is
/// the header read, and then just as a named type would be; where neither gives a
/// type that parses, the media type is `text/plain`.
pub proof fn lemma_mime_type(given: Option<Seq<char>>, content_type: Option<Seq<char>>, other: Option<Seq<char>>)
    ensures
        given matches Some(g) ==> (mime_text(g) matches Some(t) ==> spec_mime_type(given, content_type) == t),
        given matches Some(g) ==> (mime_text(g) is None ==> spec_mime_type(given, content_type) == "text/plain"@),
        given is Some ==> spec_mime_type(given, content_type) == spec_mime_type(given, other),
        spec_mime_type(None, content_type) == spec_mime_type(content_type, None),
        spec_mime_type(None, None) == "text/plain"@,
{
}

/// Picks the media type of an upload.
pub fn get_mime_type(mime_type: Option<String>, content_type: Option<String>) -> (r: String)
    ensures
        r@ == spec_mime_type(
            match mime_type { Some(m) => Some(m@), None => None },
            match content_type { Some(c) => Some(c@), None => None },
        ),
        mime_type matches Some(g) ==> (mime_text(g@) matches Some(t) ==> r@ == t),
        content_type matches Some(c) ==> (mime_text(c@) matches Some(t) ==> (mime_type is None ==> r@ == t)),
{
    let chosen = match mime_type {
        Some(m) => Some(m),
        None => content_type,
    };
    match chosen {
        Some(c) => match parse_mime(c.as_str()) {
            Some(t) => t,
            None => String::from_str("text/plain"),
        },
        None => String::from_str("text/plain"),
    }
}

/// Checks the length of an uploaded file's name: at most 200 bytes.
pub fn check_filename(filename: &str) -> (r: Result<(), ValidationFailed>)
    ensures
        r is Ok <==> byte_len(filename@) <= MAX_FILENAME_LEN,
        r is Err ==> r == Err::<(), ValidationFailed>(ValidationFailed("The filename is too long")),
{
    if filename.len() > MAX_FILENAME_LEN {
        return Err(ValidationFailed("The filename is too long"));
    }
    Ok(())
}

/// Adds a received chunk to the size of an upload, refusing the upload where it
/// grows past the largest size.
pub fn add_chunk(size: usize, chunk_len: usize) -> (r: Result<usize, AppError>)
    requires
        size <= MAX_SIZE,
    ensures
        size + chunk_len <= MAX_SIZE ==> r == Ok::<usize, AppError>((size + chunk_len) as usize),
        size + chunk_len > MAX_SIZE ==> r is Err && r->Err_0 is BadRequest
            && r->Err_0->BadRequest_0@ == "The maximum file size has been exceeded."@,
{
    if chunk_len > MAX_SIZE - size {
        return Err(AppError::BadRequest(String::from_str("The maximum file size has been exceeded.")));
    }
    Ok(size + chunk_len)
}

/// The name under which an upload is stored: its hash and its extension.
pub fn stored_filename(hash: &str, ext: &str) -> (r: String)
    ensures
        r@ == hash@ + "."@ + ext@,
{
    let mut r = String::from_str(hash);
    r.append(".");
    r.append(ext);
    r
}

/// How a download names its file.
#[derive(Clone, Debug)]
pub enum MediaKey {
    /// By the media's id.
    Id(Uuid),
    /// By the stored file name.
    Filename(String),
}

/// Picks how a download names its file: by id where given, else by file name.
pub fn media_key(id: Option<Uuid>, filename: Option<String>) -> (r: Result<MediaKey, AppError>)
    ensures
        id matches Some(i) ==> (r matches Ok(MediaKey::Id(j)) && i == j),
        id is None && filename is Some ==> (r matches Ok(MediaKey::Filename(f)) && f@ == filename->0@),
        id is None && filename is None ==> r is Err && r->Err_0 is BadRequest
            && r->Err_0->BadRequest_0@ == "Filename or media id must be specified."@,
{
    if let Some(i) = id {
        return Ok(MediaKey::Id(i));
    }
    match filename {
        Some(f) => Ok(MediaKey::Filename(f)),
        None => Err(AppError::BadRequest(String::from_str("Filename or media id must be specified."))),
    }
}

/// The text after the last dot of `s`; nothing where `s` has no dot.
pub open spec fn after_last_dot(s: Seq<char>) -> Option<Seq<char>>
    decreases s.len(),
{
    if s.len() == 0 {
        None
    } else if s.last() == '.' {
        Some(Seq::empty())
    } else {
        match after_last_dot(s.drop_last()) {
            Some(e) => Some(e.push(s.last())),
            None => None,
        }
    }
}

/// The extension of a name is the text after its last dot: there is one exactly
/// where the name holds a dot, the name then ends with a dot followed by the
/// extension, and the extension holds no dot.
pub proof fn lemma_after_last_dot(s: Seq<char>)
    ensures
        after_last_dot(s) is None <==> !s.contains('.'),
        after_last_dot(s) matches Some(e) ==> {
            &&& e.len() < s.len()
            &&& s[s.len() - e.len() - 1] == '.'
            &&& s.subrange(s.len() - e.len(), s.len() as int) == e
            &&& !e.contains('.')
        },
    decreases s.len(),
{
    if s.len() > 0 {
        let rest = s.drop_last();
        lemma_after_last_dot(rest);
        if s.last() == '.' {
            assert(s[s.len() - 1] == '.');
            assert(s.contains('.'));
            assert(s.subrange(s.len() as int, s.len() as int) =~= Seq::<char>::empty());
        } else {
            assert(s.contains('.') <==> rest.contains('.')) by {
                if s.contains('.') {
                    let k = choose|k: int| 0 <= k < s.len() && s[k] == '.';
                    assert(k != s.len() - 1);
                    assert(rest[k] == '.');
                }
                if rest.contains('.') {
                    let k = choose|k: int| 0 <= k < rest.len() && rest[k] == '.';
                    assert(s[k] == '.');
                }
            }
            if let Some(e0) = after_last_dot(rest) {
                let e = e0.push(s.last());
                assert(after_last_dot(s) == Some(e));
                assert(s[s.len() - e.len() - 1] == rest[rest.len() - e0.len() - 1]);
                assert(s.subrange(s.len() - e.len(), s.len() as int) =~= rest.subrange(rest.len() - e0.len(), rest.len() as int).push(s.last()));
                assert(!e.contains('.')) by {
                    if e.contains('.') {
                        let k = choose|k: int| 0 <= k < e.len() && e[k] == '.';
                        if k < e0.len() {
                            assert(e0[k] == '.');
                        }
                    }
                }
            }
        }
    }
}

/// The extension of a file name: the text after its last dot, or the empty text
/// where it has none.
pub fn file_extension(name: &str) -> (ext: String)
    ensures
        ext@ == match after_last_dot(name@) {
            Some(e) => e,
            None => Seq::empty(),
        },
{
    broadcast use vstd::string::axiom_spec_iter;
    let mut ext = String::new();
    let mut seen_dot = false;
    for c in it: name.chars()
        invariant
            it.seq() == name@,
            seen_dot == (after_last_dot(name@.take(it.index() as int)) is Some),
            seen_dot ==> ext@ == after_last_dot(name@.take(it.index() as int))->0,
    {
        proof {
            assert(name@.take(it.index() + 1).drop_last() =~= name@.take(it.index() as int));
        }
        if c == '.' {
            ext = String::new();
            seen_dot = true;
        } else if seen_dot {
            push_char(&mut ext, c);
        }
    }
    proof {
        assert(name@.take(name@.len() as int) =~= name@);
    }
    if seen_dot {
        ext
    } else {
        String::new()
    }
}

/// What an upload names: the file's name and, where the client gives it, its MIME
/// type.
#[derive(Clone, Debug)]
pub struct Upload {
    pub filename: String,
    pub mime_type: Option<String>,
}

/// An upload being received: the bytes so far, fed to the hasher whose hash names
/// the stored file, and how many there are.
pub struct Receiving {
    hasher: blake3::Hasher,
    size: usize,
}

impl Receiving {
    /// The bytes received so far.
    pub closed spec fn received(&self) -> Seq<u8> {
        hashed_input(self.hasher)
    }

    /// The count of bytes matches what was received, and stays within the largest
    /// upload.
    pub closed spec fn wf(&self) -> bool {
        &&& self.size == hashed_input(self.hasher).len()
        &&& self.size <= MAX_SIZE
    }

    /// Starts receiving an upload.
    pub fn new() -> (r: Receiving)
        ensures
            r.wf(),
            r.received() == Seq::<u8>::empty(),
    {
        Receiving { hasher: blake3_new(), size: 0 }
    }

    /// How many bytes were received.
    pub fn size(&self) -> (n: usize)
        requires
            self.wf(),
        ensures
            n == self.received().len(),
    {
        self.size
    }

    /// Takes the next chunk of the upload, refusing it where the upload would grow
    /// past the largest size.
    pub fn receive(&mut self, chunk: &[u8]) -> (r: Result<(), AppError>)
        requires
            old(self).wf(),
        ensures
            final(self).wf(),
            old(self).received().len() + chunk@.len() <= MAX_SIZE ==> {
                &&& r is Ok
                &&& final(self).received() == old(self).received() + chunk@
            },
            old(self).received().len() + chunk@.len() > MAX_SIZE ==> {
                &&& r matches Err(AppError::BadRequest(m))
                &&& m@ == "The maximum file size has been exceeded."@
                &&& final(self).received() == old(self).received()
            },
    {
        match add_chunk(self.size, chunk.len()) {
            Ok(size) => {
                blake3_update(&mut self.hasher, chunk);
                self.size = size;
                Ok(())
            },
            Err(e) => Err(e),
        }
    }

    /// The lower-case hexadecimal BLAKE3 hash of what was received.
    pub fn content_hash(&self) -> (hex: String)
        ensures
            hex@ == hex_lower(blake3_digest(self.received())),
    {
        let digest = blake3_finalize(&self.hasher);
        to_hex(digest.as_slice())
    }
}

/// The headers of a download, and whether the file's bytes follow them.
#[derive(Clone, Debug)]
pub struct DownloadHeaders {
    pub content_type: String,
    pub content_disposition: String,
    pub accept_ranges: &'static str,
    pub content_length: u32,
    pub send_body: bool,
}

/// How a stored file is answered: with its media type, named by the name it was
/// uploaded with (as an attachment where a download was asked for), without ranges,
/// with its size; a `HEAD` request gets the headers alone.
pub fn download_headers(media: &Media, download: bool, is_head: bool) -> (h: DownloadHeaders)
    ensures
        h.content_type@ == media.mime_type@,
        h.content_disposition@ == spec_content_disposition(download, media.original_filename@),
        h.accept_ranges@ == "none"@,
        h.content_length == media.size,
        h.send_body == !is_head,
{
    DownloadHeaders {
        content_type: media.mime_type.clone(),
        content_disposition: content_disposition(download, media.original_filename.as_str()),
        accept_ranges: "none",
        content_length: media.size,
        send_body: !is_head,
    }
}

} // verus!
