//! Preparation of file contents for translation.
//!
//! Reading bytes from disk and parsing the DOCX/PDF containers are left to
//! their libraries outside this crate; this module holds the decisions
//! around them: which reader a file name selects, the encoding fallback
//! chain for plain text, the base64 unpacking of uploaded file data, and
//! the assembly of extracted page or paragraph texts into one result.

use vstd::prelude::*;
use crate::text::{eq_ignore_ascii_case, spec_trim, str_eq_ignore_ascii_case, trim_str};

verus! {

/// The file formats the reader distinguishes.
#[derive(Clone, Copy, PartialEq, Eq, Structural, Debug)]
pub enum FileKind {
    Text,
    Docx,
    Pdf,
}

/// The characters after the last `.` of `name`; the whole name when it has
/// no dot.
pub open spec fn spec_after_last_dot(name: Seq<char>) -> Seq<char>
    decreases name.len(),
{
    if name.len() == 0 {
        name
    } else if name[name.len() - 1] == '.' {
        Seq::empty()
    } else {
        spec_after_last_dot(name.drop_last()).push(name.last())
    }
}

proof fn lemma_after_last_dot_suffix(name: Seq<char>, j: int)
    requires
        0 <= j < name.len(),
        name[j] == '.',
        forall|k: int| j < k < name.len() ==> #[trigger] name[k] != '.',
    ensures
        spec_after_last_dot(name) == name.skip(j + 1),
    decreases name.len(),
{
    if j == name.len() - 1 {
        assert(name.skip(j + 1) =~= Seq::empty());
    } else {
        let t = name.drop_last();
        assert(forall|k: int| j < k < t.len() ==> #[trigger] t[k] != '.');
        lemma_after_last_dot_suffix(t, j);
        assert(t.skip(j + 1).push(name.last()) =~= name.skip(j + 1));
    }
}

proof fn lemma_after_last_dot_whole(name: Seq<char>)
    requires
        forall|k: int| 0 <= k < name.len() ==> #[trigger] name[k] != '.',
    ensures
        spec_after_last_dot(name) == name,
    decreases name.len(),
{
    if name.len() > 0 {
        let t = name.drop_last();
        assert(forall|k: int| 0 <= k < t.len() ==> #[trigger] t[k] != '.');
        lemma_after_last_dot_whole(t);
        assert(t.push(name.last()) =~= name);
    }
}

/// The file name's extension in the `split('.').last()` sense: what follows
/// the last dot, or the whole name when there is none.
pub fn extension_of(name: &str) -> (r: String)
    ensures
        r@ == spec_after_last_dot(name@),
{
    let n = name.unicode_len();
    let mut end: usize = n;
    while end > 0 && name.get_char(end - 1) != '.'
        invariant
            0 <= end <= n,
            n == name@.len(),
            forall|k: int| end <= k < n ==> #[trigger] name@[k] != '.',
        decreases end,
    {
        end -= 1;
    }
    proof {
        if end == 0 {
            lemma_after_last_dot_whole(name@);
            assert(name@.subrange(0, n as int) =~= name@);
        } else {
            lemma_after_last_dot_suffix(name@, end - 1);
            assert(name@.skip(end as int) =~= name@.subrange(end as int, n as int));
        }
    }
    name.substring_char(end, n).to_owned()
}

/// Which format an extension names, matched case-insensitively; `None` for
/// an extension the reader does not know.
pub open spec fn spec_classify_extension(ext: Seq<char>) -> Option<FileKind> {
    if eq_ignore_ascii_case(ext, "txt"@) {
        Some(FileKind::Text)
    } else if eq_ignore_ascii_case(ext, "docx"@) {
        Some(FileKind::Docx)
    } else if eq_ignore_ascii_case(ext, "pdf"@) {
        Some(FileKind::Pdf)
    } else {
        None
    }
}

pub fn classify_extension(ext: &str) -> (r: Option<FileKind>)
    ensures
        r == spec_classify_extension(ext@),
{
    if str_eq_ignore_ascii_case(ext, "txt") {
        Some(FileKind::Text)
    } else if str_eq_ignore_ascii_case(ext, "docx") {
        Some(FileKind::Docx)
    } else if str_eq_ignore_ascii_case(ext, "pdf") {
        Some(FileKind::Pdf)
    } else {
        None
    }
}

/// Validate a file name for the caller: the known formats report their
/// kind's name, anything else is unsupported.
pub fn validate_file_type(file_name: &str) -> (r: Result<String, String>)
    ensures
        ({
            let kind = spec_classify_extension(spec_after_last_dot(file_name@));
            &&& kind == Some(FileKind::Text) ==> (r matches Ok(s) && s@ == "text"@)
            &&& kind == Some(FileKind::Docx) ==> (r matches Ok(s) && s@ == "docx"@)
            &&& kind == Some(FileKind::Pdf) ==> (r matches Ok(s) && s@ == "pdf"@)
            &&& kind is None ==> (r matches Err(e) && e@ == "Unsupported file type"@)
        }),
{
    let ext = extension_of(file_name);
    match classify_extension(ext.as_str()) {
        Some(FileKind::Text) => Ok("text".to_owned()),
        Some(FileKind::Docx) => Ok("docx".to_owned()),
        Some(FileKind::Pdf) => Ok("pdf".to_owned()),
        None => Err("Unsupported file type".to_owned()),
    }
}

/// Which reader a file name selects: its extension's format, or the plain
/// text reader as the fallback for anything unknown.
pub fn reader_kind_for(file_name: &str) -> (kind: FileKind)
    ensures
        kind == (match spec_classify_extension(spec_after_last_dot(file_name@)) {
            Some(k) => k,
            None => FileKind::Text,
        }),
{
    let ext = extension_of(file_name);
    match classify_extension(ext.as_str()) {
        Some(k) => k,
        None => FileKind::Text,
    }
}

/// Whether `encoding_rs::UTF_8.decode` reports the bytes as clean UTF-8
/// (no malformed sequences replaced), and what text it yields. The two
/// names describe the two components of that one call's result, which is a
/// function of the bytes alone.
pub uninterp spec fn utf8_decode_ok(bytes: Seq<u8>) -> bool;

pub uninterp spec fn utf8_decode_of(bytes: Seq<u8>) -> Seq<char>;

/// Whether `encoding_rs::SHIFT_JIS.decode` reports the bytes as clean
/// Shift-JIS, and what text it yields; one call's two result components,
/// a function of the bytes alone.
pub uninterp spec fn shift_jis_decode_ok(bytes: Seq<u8>) -> bool;

pub uninterp spec fn shift_jis_decode_of(bytes: Seq<u8>) -> Seq<char>;

/// The text `encoding_rs::WINDOWS_1252.decode` yields, a function of the
/// bytes alone (used last, whatever its error flag says).
pub uninterp spec fn windows1252_decode_of(bytes: Seq<u8>) -> Seq<char>;

/// Relies on `encoding_rs::UTF_8.decode`: decodes the whole buffer (after
/// honouring a leading byte-order mark) with malformed sequences replaced,
/// returning the text and whether any replacement happened; deterministic
/// in the bytes.
#[verifier::external_body]
fn decode_utf8(bytes: &Vec<u8>) -> (r: (String, bool))
    ensures
        r.1 == utf8_decode_ok(bytes@),
        r.0@ == utf8_decode_of(bytes@),
{
    let (text, _, had_errors) = encoding_rs::UTF_8.decode(bytes);
    (text.into_owned(), !had_errors)
}

/// Relies on `encoding_rs::SHIFT_JIS.decode`: as for UTF-8 above,
/// deterministic in the bytes.
#[verifier::external_body]
fn decode_shift_jis(bytes: &Vec<u8>) -> (r: (String, bool))
    ensures
        r.1 == shift_jis_decode_ok(bytes@),
        r.0@ == shift_jis_decode_of(bytes@),
{
    let (text, _, had_errors) = encoding_rs::SHIFT_JIS.decode(bytes);
    (text.into_owned(), !had_errors)
}

/// Relies on `encoding_rs::WINDOWS_1252.decode`: every byte decodes to some
/// character under this single-byte encoding, deterministically.
#[verifier::external_body]
fn decode_windows1252(bytes: &Vec<u8>) -> (r: String)
    ensures
        r@ == windows1252_decode_of(bytes@),
{
    let (text, _, _) = encoding_rs::WINDOWS_1252.decode(bytes);
    text.into_owned()
}

/// The encoding fallback chain for plain text: clean UTF-8 wins, then clean
/// Shift-JIS (for Japanese text files), and Windows-1252 is the last
/// resort, accepted errors and all.
pub open spec fn spec_decoded_text(bytes: Seq<u8>) -> Seq<char> {
    if utf8_decode_ok(bytes) {
        utf8_decode_of(bytes)
    } else if shift_jis_decode_ok(bytes) {
        shift_jis_decode_of(bytes)
    } else {
        windows1252_decode_of(bytes)
    }
}

/// Decode a text file's bytes through the fallback chain.
pub fn decode_text_bytes(bytes: &Vec<u8>) -> (r: String)
    ensures
        r@ == spec_decoded_text(bytes@),
{
    let (text, clean) = decode_utf8(bytes);
    if clean {
        return text;
    }
    let (text, clean) = decode_shift_jis(bytes);
    if clean {
        return text;
    }
    decode_windows1252(bytes)
}

/// Whether `base64::engine::general_purpose::STANDARD.decode` accepts the
/// text, and the bytes it yields then; one call's result, a function of the
/// text alone.
pub uninterp spec fn base64_decode_ok(text: Seq<char>) -> bool;

pub uninterp spec fn base64_decode_of(text: Seq<char>) -> Seq<u8>;

/// Relies on `base64::engine::general_purpose::STANDARD` via
/// `base64::Engine::decode`: standard-alphabet, padded base64;
/// deterministic in the input text.
#[verifier::external_body]
fn decode_base64(text: &str) -> (r: Option<Vec<u8>>)
    ensures
        r matches Some(v) ==> base64_decode_ok(text@) && v@ == base64_decode_of(text@),
        r is None ==> !base64_decode_ok(text@),
{
    match base64::Engine::decode(&base64::engine::general_purpose::STANDARD, text) {
        Ok(v) => Some(v),
        Err(_) => None,
    }
}

/// A file handed over as base64 data, unpacked and routed to its reader:
/// plain text is decoded here; DOCX and PDF bytes go back to the caller for
/// their container libraries.
#[derive(Debug)]
pub enum PreparedFile {
    Text { content: String },
    Docx { bytes: Vec<u8> },
    Pdf { bytes: Vec<u8> },
}

/// Unpack uploaded file data and decide its reader. The extension is taken
/// from the name's last dot; a name without a dot counts whole, so only a
/// name that spells a known format gets a reader.
pub fn process_file_data(file_data: &str, file_name: &str) -> (r: Result<PreparedFile, String>)
    ensures
        !base64_decode_ok(file_data@) ==> (r matches Err(e) && e@ == "Failed to decode file data"@),
        base64_decode_ok(file_data@) ==> ({
            let bytes = base64_decode_of(file_data@);
            let ext = spec_after_last_dot(file_name@);
            match spec_classify_extension(ext) {
                Some(FileKind::Text) => r matches Ok(p) && p matches PreparedFile::Text { content }
                    && content@ == spec_decoded_text(bytes),
                Some(FileKind::Docx) => r matches Ok(p) && p matches PreparedFile::Docx {
                    bytes: b,
                } && b@ == bytes,
                Some(FileKind::Pdf) => r matches Ok(p) && p matches PreparedFile::Pdf { bytes: b }
                    && b@ == bytes,
                None => r matches Err(e) && e@ == "Unsupported file type: "@ + ext,
            }
        }),
{
    let bytes = match decode_base64(file_data) {
        Some(b) => b,
        None => {
            return Err("Failed to decode file data".to_owned());
        },
    };
    let ext = extension_of(file_name);
    match classify_extension(ext.as_str()) {
        Some(FileKind::Text) => Ok(PreparedFile::Text { content: decode_text_bytes(&bytes) }),
        Some(FileKind::Docx) => Ok(PreparedFile::Docx { bytes }),
        Some(FileKind::Pdf) => Ok(PreparedFile::Pdf { bytes }),
        None => {
            let mut e = "Unsupported file type: ".to_owned();
            e.append(ext.as_str());
            Err(e)
        },
    }
}

/// The extracted texts laid end to end, a newline after each present one;
/// an absent entry (a failed page) contributes nothing.
pub open spec fn spec_collected_text(parts: Seq<Option<String>>) -> Seq<char>
    decreases parts.len(),
{
    if parts.len() == 0 {
        Seq::empty()
    } else {
        spec_collected_text(parts.drop_last()) + (match parts.last() {
            Some(p) => p@ + "\n"@,
            None => Seq::empty(),
        })
    }
}

fn collect_text(parts: &Vec<Option<String>>) -> (r: String)
    ensures
        r@ == spec_collected_text(parts@),
{
    let mut out = String::new();
    let mut i: usize = 0;
    while i < parts.len()
        invariant
            0 <= i <= parts@.len(),
            out@ == spec_collected_text(parts@.take(i as int)),
        decreases parts@.len() - i,
    {
        match &parts[i] {
            Some(p) => {
                out.append(p.as_str());
                out.append("\n");
            },
            None => {},
        }
        proof {
            assert(parts@.take(i + 1).drop_last() =~= parts@.take(i as int));
            assert(parts@.take(i + 1).last() == parts@[i as int]);
        }
        i += 1;
    }
    proof {
        assert(parts@.take(parts@.len() as int) =~= parts@);
    }
    out
}

/// Assemble the per-page extraction results of a PDF: failed pages are
/// skipped so the remaining pages still come through, but a document whose
/// surviving text trims to nothing is an error.
pub fn assemble_pages(pages: &Vec<Option<String>>) -> (r: Result<String, String>)
    ensures
        spec_trim(spec_collected_text(pages@)).len() == 0 ==> (r matches Err(e) && e@
            == "Could not extract text from PDF file"@),
        spec_trim(spec_collected_text(pages@)).len() > 0 ==> (r matches Ok(s) && s@ == spec_trim(
            spec_collected_text(pages@),
        )),
{
    let joined = collect_text(pages);
    let trimmed = trim_str(joined.as_str());
    if trimmed.unicode_len() == 0 {
        Err("Could not extract text from PDF file".to_owned())
    } else {
        Ok(trimmed)
    }
}

/// Assemble a DOCX's extracted paragraph texts: a newline after each
/// paragraph, the whole trimmed; an empty result is fine here.
pub fn assemble_paragraphs(paragraphs: &Vec<Option<String>>) -> (r: String)
    ensures
        r@ == spec_trim(spec_collected_text(paragraphs@)),
{
    let joined = collect_text(paragraphs);
    trim_str(joined.as_str())
}

} // verus!
