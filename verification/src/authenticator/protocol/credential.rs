//! Credentials, and the record in which a single credential is kept: the
//! relying party's identifier on the first line, the credential in all the
//! bytes after it.

use vstd::prelude::*;
use vstd::slice::slice_to_vec;
use vstd::string::{StrSliceExecFns, StringExecFns};
use vstd::utf8::{
    char_is_scalar, char_u32_cast, decode_utf8, encode_scalar, encode_utf8, encode_utf8_decode_utf8,
    encode_utf8_valid_utf8, has_width_1_encoding, valid_utf8,
};

verus! {

#[verifier::external_type_specification]
#[verifier::external_body]
pub struct ExFromUtf8Error(std::string::FromUtf8Error);

/// Something that can be exported: opaque bytes that belong to a relying
/// party.
///
/// The two getters answer from the value alone: asking twice gives the same
/// answer. A verified implementation says what the answers are; one that is
/// not verified can leave the two specification functions as they stand.
pub trait Credential {
    /// The bytes of the credential. Left open here.
    open spec fn credential_bytes(&self) -> Seq<u8> {
        arbitrary()
    }

    /// The identifier of the relying party. Left open here.
    open spec fn rp_id_text(&self) -> Seq<char> {
        arbitrary()
    }

    /// The bytes of the credential.
    fn get_credential(&self) -> (bytes: Vec<u8>)
        ensures
            bytes@ == self.credential_bytes(),
    ;

    /// The identifier of the relying party.
    fn get_rp_id(&self) -> (rp_id: String)
        ensures
            rp_id@ == self.rp_id_text(),
    ;
}

/// A credential as one record holds it.
#[derive(Debug, Clone)]
pub struct StructuredSingleFileCredential {
    pub rp_id: String,
    pub credential: Vec<u8>,
}

/// The mathematical value of a [`StructuredSingleFileCredential`].
pub struct CredentialView {
    pub rp_id: Seq<char>,
    pub credential: Seq<u8>,
}

impl View for StructuredSingleFileCredential {
    type V = CredentialView;

    open spec fn view(&self) -> CredentialView {
        CredentialView { rp_id: self.rp_id@, credential: self.credential@ }
    }
}

impl Credential for StructuredSingleFileCredential {
    open spec fn credential_bytes(&self) -> Seq<u8> {
        self.credential@
    }

    open spec fn rp_id_text(&self) -> Seq<char> {
        self.rp_id@
    }

    fn get_credential(&self) -> (bytes: Vec<u8>) {
        slice_to_vec(self.credential.as_slice())
    }

    fn get_rp_id(&self) -> (rp_id: String) {
        self.rp_id.clone()
    }
}

/// Whether `c` is white space: one of the characters with the Unicode property
/// `White_Space`. These are the tab, the line feed, the vertical tab, the form
/// feed, the carriage return, the space, the next line, the no-break space,
/// the Ogham space mark, the spaces from the en quad to the hair space, the
/// line separator, the paragraph separator, the narrow no-break space, the
/// medium mathematical space and the ideographic space.
pub open spec fn is_whitespace(c: char) -> bool {
    let code = c as u32;
    ||| 0x0009 <= code <= 0x000d
    ||| code == 0x0020
    ||| code == 0x0085
    ||| code == 0x00a0
    ||| code == 0x1680
    ||| 0x2000 <= code <= 0x200a
    ||| code == 0x2028
    ||| code == 0x2029
    ||| code == 0x202f
    ||| code == 0x205f
    ||| code == 0x3000
}

/// The line feed that ends the first line of a record.
pub const LINE_FEED: u8 = 10;

/// The length of the first line of `data`, its line feed included: the whole
/// of `data` where it holds no line feed.
pub open spec fn line_len(data: Seq<u8>) -> int
    decreases data.len(),
{
    if data.len() == 0 {
        0
    } else if data[0] == LINE_FEED {
        1
    } else {
        1 + line_len(data.drop_first())
    }
}

/// `text` without the white space at its end.
pub open spec fn trimmed_end(text: Seq<char>) -> Seq<char>
    decreases text.len(),
{
    if text.len() > 0 && is_whitespace(text.last()) {
        trimmed_end(text.drop_last())
    } else {
        text
    }
}

/// The credential that a record holds. The first line, white space at its end
/// removed, is the relying party's identifier; the bytes after the first line
/// are the credential, as they stand. There is none where the first line is
/// not UTF-8.
pub open spec fn parsed(data: Seq<u8>) -> Option<CredentialView> {
    let n = line_len(data);
    let line = data.subrange(0, n);
    if valid_utf8(line) {
        Some(
            CredentialView {
                rp_id: trimmed_end(decode_utf8(line)),
                credential: data.subrange(n, data.len() as int),
            },
        )
    } else {
        None
    }
}

/// The record of a credential: the identifier in UTF-8, a line feed, the
/// credential.
pub open spec fn record(credential: CredentialView) -> Seq<u8> {
    encode_utf8(credential.rp_id) + seq![LINE_FEED] + credential.credential
}

/// The detail of the error for a record whose first line is not text.
pub open spec fn not_text() -> Seq<char> {
    "stream did not contain valid UTF-8"@
}

/// `char::is_whitespace` of std. Claimed, as its documentation has it: it
/// holds of the characters with the Unicode property `White_Space`, which
/// [`is_whitespace`] lists.
#[verifier::external_body]
fn char_is_whitespace(c: char) -> (b: bool)
    ensures
        b == is_whitespace(c),
{
    c.is_whitespace()
}

/// `String::from_utf8` of std. Claimed, as its documentation has it: the
/// bytes become a string if and only if they are valid UTF-8, and the string
/// is then the text that they encode.
#[verifier::external_body]
fn string_from_utf8(bytes: Vec<u8>) -> (r: Result<String, std::string::FromUtf8Error>)
    ensures
        match r {
            Ok(text) => valid_utf8(bytes@) && text@ == decode_utf8(bytes@),
            Err(_) => !valid_utf8(bytes@),
        },
{
    String::from_utf8(bytes)
}

/// The length of the first line of `data`, its line feed included.
fn first_line_len(data: &[u8]) -> (n: usize)
    ensures
        n == line_len(data@),
        n <= data@.len(),
{
    let mut i: usize = 0;
    assert(data@.skip(0) =~= data@);
    while i < data.len()
        invariant
            i <= data@.len(),
            line_len(data@) == i + line_len(data@.skip(i as int)),
        decreases data@.len() - i,
    {
        assert(data@.skip(i as int).drop_first() =~= data@.skip(i + 1));
        if data[i] == LINE_FEED {
            return i + 1;
        }
        i = i + 1;
    }
    i
}

/// A byte with its top bit set is no line feed.
proof fn lemma_high_byte_is_no_line_feed(low: u8)
    by (bit_vector)
    ensures
        0x80u8 | low != 10u8,
        0xC0u8 | low != 10u8,
        0xE0u8 | low != 10u8,
        0xF0u8 | low != 10u8,
{
}

/// A character of one byte is encoded as itself.
proof fn lemma_low_byte_is_the_character(scalar: u32)
    by (bit_vector)
    requires
        scalar <= 0x7F,
    ensures
        (scalar & 0x7F) as u8 == scalar,
{
}

/// The encoding of a character other than the line feed holds no line feed.
proof fn lemma_character_has_no_line_feed(c: char)
    requires
        c != '\n',
    ensures
        forall|i: int|
            0 <= i < encode_scalar(c as u32).len() ==> #[trigger] encode_scalar(c as u32)[i]
                != LINE_FEED,
{
    let scalar = c as u32;
    char_is_scalar(c);
    if has_width_1_encoding(scalar) {
        lemma_low_byte_is_the_character(scalar);
        if scalar == 10 {
            char_u32_cast(c, 10u32);
        }
    } else {
        lemma_high_byte_is_no_line_feed((scalar & 0x3F) as u8);
        lemma_high_byte_is_no_line_feed(((scalar >> 6) & 0x3F) as u8);
        lemma_high_byte_is_no_line_feed(((scalar >> 12) & 0x3F) as u8);
        lemma_high_byte_is_no_line_feed(((scalar >> 6) & 0x1F) as u8);
        lemma_high_byte_is_no_line_feed(((scalar >> 12) & 0x0F) as u8);
        lemma_high_byte_is_no_line_feed(((scalar >> 18) & 0x7) as u8);
    }
}

/// The encoding of a text without line feed holds no line feed.
proof fn lemma_text_has_no_line_feed(text: Seq<char>)
    requires
        forall|i: int| 0 <= i < text.len() ==> text[i] != '\n',
    ensures
        forall|i: int|
            0 <= i < encode_utf8(text).len() ==> #[trigger] encode_utf8(text)[i] != LINE_FEED,
    decreases text.len(),
{
    if text.len() > 0 {
        let first = encode_scalar(text[0] as u32);
        let rest = encode_utf8(text.drop_first());
        lemma_character_has_no_line_feed(text[0]);
        lemma_text_has_no_line_feed(text.drop_first());
        assert forall|i: int| 0 <= i < encode_utf8(text).len() implies #[trigger] encode_utf8(
            text,
        )[i] != LINE_FEED by {
            if i < first.len() {
                assert(encode_utf8(text)[i] == first[i]);
            } else {
                assert(encode_utf8(text)[i] == rest[i - first.len()]);
            }
        }
    }
}

/// A first line goes on through bytes that are no line feed.
proof fn lemma_line_goes_on(prefix: Seq<u8>, rest: Seq<u8>)
    requires
        forall|i: int| 0 <= i < prefix.len() ==> prefix[i] != LINE_FEED,
    ensures
        line_len(prefix + rest) == prefix.len() + line_len(rest),
    decreases prefix.len(),
{
    if prefix.len() == 0 {
        assert(prefix + rest =~= rest);
    } else {
        assert((prefix + rest).drop_first() =~= prefix.drop_first() + rest);
        lemma_line_goes_on(prefix.drop_first(), rest);
    }
}

/// The encoding of two texts on end is the two encodings on end.
proof fn lemma_encoding_of_texts_on_end(first: Seq<char>, second: Seq<char>)
    ensures
        encode_utf8(first + second) == encode_utf8(first) + encode_utf8(second),
    decreases first.len(),
{
    if first.len() == 0 {
        assert(first + second =~= second);
        assert(encode_utf8(first) + encode_utf8(second) =~= encode_utf8(second));
    } else {
        assert((first + second).drop_first() =~= first.drop_first() + second);
        lemma_encoding_of_texts_on_end(first.drop_first(), second);
        assert(encode_utf8(first + second) =~= encode_utf8(first) + encode_utf8(second));
    }
}

/// A record is read back as the credential that was written, provided that
/// the identifier holds no line feed and does not end in white space.
pub proof fn lemma_record_is_read_back(credential: CredentialView)
    requires
        forall|i: int| 0 <= i < credential.rp_id.len() ==> credential.rp_id[i] != '\n',
        credential.rp_id.len() > 0 ==> !is_whitespace(credential.rp_id.last()),
    ensures
        parsed(record(credential)) == Some(credential),
{
    let text = credential.rp_id;
    let encoding = encode_utf8(text);
    let data = record(credential);
    let line = encoding + seq![LINE_FEED];
    lemma_text_has_no_line_feed(text);
    assert(data =~= encoding + (seq![LINE_FEED] + credential.credential));
    lemma_line_goes_on(encoding, seq![LINE_FEED] + credential.credential);
    assert(line_len(seq![LINE_FEED] + credential.credential) == 1);
    assert(data.subrange(0, line_len(data)) =~= line);
    assert(data.subrange(line_len(data), data.len() as int) =~= credential.credential);

    let feed = seq!['\n'];
    lemma_low_byte_is_the_character(10u32);
    assert(encode_utf8(feed.drop_first()) =~= Seq::<u8>::empty());
    assert(encode_utf8(feed) =~= seq![LINE_FEED]);
    lemma_encoding_of_texts_on_end(text, feed);
    encode_utf8_valid_utf8(text + feed);
    encode_utf8_decode_utf8(text + feed);
    assert(decode_utf8(line) == text + feed);
    assert((text + feed).drop_last() =~= text);
    assert(trimmed_end(text + feed) == trimmed_end(text));
}

/// Removes the white space at the end of `text`.
fn trim_end(text: &str) -> (trimmed: String)
    ensures
        trimmed@ == trimmed_end(text@),
{
    let mut n: usize = text.unicode_len();
    let mut done = false;
    assert(text@.subrange(0, n as int) =~= text@);
    while n > 0 && !done
        invariant
            n <= text@.len(),
            trimmed_end(text@) == trimmed_end(text@.subrange(0, n as int)),
            done ==> n > 0 && !is_whitespace(text@[n - 1]),
        decreases n + (if done { 0int } else { 1int }),
    {
        if char_is_whitespace(text.get_char(n - 1)) {
            assert(text@.subrange(0, n as int).drop_last() =~= text@.subrange(0, n - 1));
            n = n - 1;
        } else {
            done = true;
        }
    }
    text.substring_char(0, n).to_owned()
}

impl StructuredSingleFileCredential {
    /// A credential of a relying party.
    pub fn new(rp_id: String, credential: Vec<u8>) -> (r: Self)
        ensures
            r@ == (CredentialView { rp_id: rp_id@, credential: credential@ }),
    {
        Self { rp_id, credential }
    }

    /// Reads a credential out of its record. The record is refused where its
    /// first line is not UTF-8.
    pub fn from_bytes(data: &[u8]) -> (r: Result<Self, String>)
        ensures
            match r {
                Ok(credential) => parsed(data@) == Some(credential@),
                Err(message) => parsed(data@) is None && message@ == not_text(),
            },
    {
        let n = first_line_len(data);
        let (line, rest) = data.split_at(n);
        match string_from_utf8(slice_to_vec(line)) {
            Ok(text) => Ok(
                Self { rp_id: trim_end(text.as_str()), credential: slice_to_vec(rest) },
            ),
            Err(_) => Err(String::from_str("stream did not contain valid UTF-8")),
        }
    }

    /// Writes the record of the credential.
    pub fn to_bytes(&self) -> (data: Vec<u8>)
        ensures
            data@ == record(self@),
    {
        let mut data = self.rp_id.as_str().as_bytes_vec();
        data.push(LINE_FEED);
        let mut i: usize = 0;
        while i < self.credential.len()
            invariant
                i <= self.credential@.len(),
                data@ == encode_utf8(self.rp_id@) + seq![LINE_FEED] + self.credential@.subrange(
                    0,
                    i as int,
                ),
            decreases self.credential@.len() - i,
        {
            data.push(self.credential[i]);
            i = i + 1;
        }
        assert(self.credential@.subrange(0, i as int) =~= self.credential@);
        data
    }
}

} // verus!
