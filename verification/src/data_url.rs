//! `data:` JavaScript modules passed as preloads: recognising them, decoding their
//! payload and wrapping it in a module that imports it through a `blob:` URL.
//!
//! Writing the module to disk is the caller's part: this module says what to write
//! and under which file name.

use vstd::prelude::*;
use vstd::string::StringSliceAdditionalSpecFns;
use vstd::utf8::encode_utf8;

use crate::base64::{decode_base64_bytes, encode_base64, spec_decode_base64, spec_encode_base64};
use crate::error::{BunodeError, BunodeErrorView, CliUsageError, UsageErrorView};
use crate::naming::{content_file_name, spec_content_file_name};
use crate::text::{
    chars_of, eq_ignore_ascii_case, find_char, first_index, range_eq_ignore_ascii_case, split_on,
    split_pieces, string_from_chars,
};

mod laws;

verus! {

/// The value of an ASCII hexadecimal digit.
pub open spec fn hex_value(b: u8) -> Option<u8> {
    if 48 <= b && b <= 57 {
        Some((b - 48) as u8)
    } else if 97 <= b && b <= 102 {
        Some((b - 87) as u8)
    } else if 65 <= b && b <= 70 {
        Some((b - 55) as u8)
    } else {
        None
    }
}

/// The byte that the two characters after a `%` stand for, read as `u8::from_str_radix`
/// reads them in base 16 (a leading `+` is accepted as a sign).
pub open spec fn escape_value(a: u8, b: u8) -> Option<u8> {
    if a == 43 {
        hex_value(b)
    } else {
        match (hex_value(a), hex_value(b)) {
            (Some(x), Some(y)) => Some((x * 16 + y) as u8),
            _ => None,
        }
    }
}

/// Percent-decoding of a byte string, or `None` when an escape is malformed.
pub open spec fn spec_decode_percent(b: Seq<u8>) -> Option<Seq<u8>>
    decreases b.len(),
{
    if b.len() == 0 {
        Some(Seq::empty())
    } else if b[0] != 37 {
        match spec_decode_percent(b.skip(1)) {
            Some(rest) => Some(seq![b[0]] + rest),
            None => None,
        }
    } else if b.len() < 3 {
        None
    } else {
        match (escape_value(b[1], b[2]), spec_decode_percent(b.skip(3))) {
            (Some(v), Some(rest)) => Some(seq![v] + rest),
            _ => None,
        }
    }
}

/// Whether the media type (the metadata before its first `;`) is JavaScript.
pub open spec fn spec_is_javascript_metadata(metadata: Seq<char>) -> bool {
    let media_type = split_on(metadata, ';')[0];
    eq_ignore_ascii_case(media_type, "text/javascript"@) || eq_ignore_ascii_case(media_type, "application/javascript"@)
}

/// Whether one of the `;`-separated metadata parts is `base64`.
pub open spec fn has_base64_part(metadata: Seq<char>) -> bool {
    exists|k: int| 0 <= k < split_on(metadata, ';').len() && eq_ignore_ascii_case(#[trigger] split_on(metadata, ';')[k], "base64"@)
}

/// The payload without its `#` fragment.
pub open spec fn before_fragment(payload: Seq<char>) -> Seq<char> {
    let k = first_index(payload, '#');
    if k < 0 { payload } else { payload.take(k) }
}

/// The bytes a payload stands for: percent-decoded, then Base64-decoded when the
/// metadata says `base64`.
pub open spec fn spec_decode_payload(metadata: Seq<char>, payload: Seq<char>) -> Result<Seq<u8>, UsageErrorView> {
    match spec_decode_percent(encode_utf8(payload)) {
        None => Err(UsageErrorView::InvalidDataUrlPercentEscape),
        Some(bytes) => if has_base64_part(metadata) {
            match spec_decode_base64(bytes) {
                Some(out) => Ok(out),
                None => Err(UsageErrorView::InvalidDataUrlBase64Payload),
            }
        } else {
            Ok(bytes)
        },
    }
}

/// The module that imports `source` through a `blob:` URL, so that the preload runs
/// as an ES module whatever its original URL.
#[verifier::opaque]
pub open spec fn spec_blob_import_wrapper(source: Seq<u8>) -> Seq<char> {
    "const __bunodeDataImportBytes=Uint8Array.from(atob(\""@ + spec_encode_base64(source)
        + "\"),character=>character.charCodeAt(0));\nconst __bunodeDataImportUrl=URL.createObjectURL(new Blob([__bunodeDataImportBytes],{type:\"text/javascript\"}));\ntry{await import(__bunodeDataImportUrl)}finally{URL.revokeObjectURL(__bunodeDataImportUrl)}\n"@
}

/// The file name a `data:` module generated from `specifier` is written under.
pub open spec fn spec_data_module_name(specifier: Seq<char>) -> Seq<char> {
    spec_content_file_name("bunode-data-import-"@, specifier, ".mjs"@)
}

/// A generated module: the file name to write it under and its bytes.
pub struct DataModule {
    pub file_name: String,
    pub source: Vec<u8>,
}

/// What follows the `data:` scheme: no source (not JavaScript), the decoded source,
/// or a usage error.
pub open spec fn spec_data_source(rest: Seq<char>) -> Result<Option<Seq<u8>>, UsageErrorView> {
    let c = first_index(rest, ',');
    if c < 0 {
        Err(UsageErrorView::InvalidDataUrlImport)
    } else if !spec_is_javascript_metadata(rest.take(c)) {
        Ok(None)
    } else {
        match spec_decode_payload(rest.take(c), before_fragment(rest.skip(c + 1))) {
            Err(e) => Err(e),
            Ok(source) => Ok(Some(source)),
        }
    }
}

/// What a preload specifier turns into: no module (it is not a JavaScript `data:` URL),
/// a module (file name, bytes), or a usage error.
pub open spec fn spec_materialize(specifier: Seq<char>) -> Result<Option<(Seq<char>, Seq<u8>)>, UsageErrorView> {
    let k = first_index(specifier, ':');
    if k < 0 || !eq_ignore_ascii_case(specifier.take(k), "data"@) {
        Ok(None)
    } else {
        match spec_data_source(specifier.skip(k + 1)) {
            Err(e) => Err(e),
            Ok(None) => Ok(None),
            Ok(Some(source)) => Ok(Some((spec_data_module_name(specifier), encode_utf8(spec_blob_import_wrapper(source))))),
        }
    }
}

fn hex_value_of(b: u8) -> (v: Option<u8>)
    ensures
        v == hex_value(b),
{
    if 48 <= b && b <= 57 {
        Some(b - 48)
    } else if 97 <= b && b <= 102 {
        Some(b - 87)
    } else if 65 <= b && b <= 70 {
        Some(b - 55)
    } else {
        None
    }
}

fn escape_value_of(a: u8, b: u8) -> (v: Option<u8>)
    ensures
        v == escape_value(a, b),
{
    if a == 43 {
        hex_value_of(b)
    } else {
        match (hex_value_of(a), hex_value_of(b)) {
            (Some(x), Some(y)) => Some(x * 16 + y),
            _ => None,
        }
    }
}

proof fn lemma_decode_percent_plain(b: Seq<u8>, i: int)
    requires
        0 <= i < b.len(),
        b[i] != 37,
    ensures
        spec_decode_percent(b.skip(i)) == match spec_decode_percent(b.skip(i + 1)) {
            Some(rest) => Some(seq![b[i]] + rest),
            None => None,
        },
{
    assert(b.skip(i).skip(1) =~= b.skip(i + 1));
}

proof fn lemma_decode_percent_escape(b: Seq<u8>, i: int)
    requires
        0 <= i,
        i + 3 <= b.len(),
        b[i] == 37,
    ensures
        spec_decode_percent(b.skip(i)) == match (escape_value(b[i + 1], b[i + 2]), spec_decode_percent(b.skip(i + 3))) {
            (Some(v), Some(rest)) => Some(seq![v] + rest),
            _ => None,
        },
{
    assert(b.skip(i).skip(3) =~= b.skip(i + 3));
}

/// The result of continuing a decoding whose output so far is `out` with the rest `r`.
pub open spec fn continue_with(out: Seq<u8>, r: Option<Seq<u8>>) -> Option<Seq<u8>> {
    match r {
        Some(rest) => Some(out + rest),
        None => None,
    }
}

/// Percent-decodes bytes: `%` and two hexadecimal digits stand for one byte; any other
/// byte stands for itself.
pub fn decode_percent_bytes(bytes: &[u8]) -> (result: Result<Vec<u8>, BunodeError>)
    ensures
        match result {
            Ok(out) => spec_decode_percent(bytes@) == Some(out@),
            Err(e) => spec_decode_percent(bytes@) is None
                && e@ == BunodeErrorView::Usage(UsageErrorView::InvalidDataUrlPercentEscape),
        },
{
    let ghost b = bytes@;
    let mut out: Vec<u8> = Vec::new();
    let mut index: usize = 0;
    assert(b.skip(0) =~= b);
    while index < bytes.len()
        invariant
            b == bytes@,
            index <= b.len(),
            spec_decode_percent(b) == continue_with(out@, spec_decode_percent(b.skip(index as int))),
        decreases bytes.len() - index,
    {
        let byte = bytes[index];
        if byte != 37 {
            proof {
                lemma_decode_percent_plain(b, index as int);
            }
            let ghost before = out@;
            out.push(byte);
            assert(forall|r: Seq<u8>| #![auto] before + (seq![byte] + r) =~= out@ + r);
            index += 1;
        } else {
            if bytes.len() - index < 3 {
                assert(b.skip(index as int).len() < 3);
                return Err(BunodeError::Usage(CliUsageError::InvalidDataUrlPercentEscape));
            }
            proof {
                lemma_decode_percent_escape(b, index as int);
            }
            match escape_value_of(bytes[index + 1], bytes[index + 2]) {
                Some(v) => {
                    let ghost before = out@;
                    out.push(v);
                    assert(forall|r: Seq<u8>| #![auto] before + (seq![v] + r) =~= out@ + r);
                    index += 3;
                },
                None => {
                    return Err(BunodeError::Usage(CliUsageError::InvalidDataUrlPercentEscape));
                },
            }
        }
    }
    assert(b.skip(index as int) =~= Seq::<u8>::empty());
    assert(out@ + Seq::<u8>::empty() =~= out@);
    Ok(out)
}

/// Percent-decodes the UTF-8 bytes of `value`.
pub fn decode_percent(value: &str) -> (result: Result<Vec<u8>, BunodeError>)
    ensures
        match result {
            Ok(out) => spec_decode_percent(value.spec_bytes()) == Some(out@),
            Err(e) => spec_decode_percent(value.spec_bytes()) is None
                && e@ == BunodeErrorView::Usage(UsageErrorView::InvalidDataUrlPercentEscape),
        },
{
    decode_percent_bytes(value.as_bytes())
}

/// Whether `metadata` names a JavaScript media type (case-insensitively).
pub fn is_javascript_metadata(metadata: &str) -> (result: bool)
    ensures
        result == spec_is_javascript_metadata(metadata@),
{
    let pieces = split_pieces(metadata, ';');
    let media_type = chars_of(pieces[0].as_str());
    assert(media_type@.subrange(0, media_type@.len() as int) =~= media_type@);
    assert(media_type@ == split_on(metadata@, ';')[0]);
    range_eq_ignore_ascii_case(&media_type, 0, media_type.len(), "text/javascript")
        || range_eq_ignore_ascii_case(&media_type, 0, media_type.len(), "application/javascript")
}

fn metadata_says_base64(metadata: &str) -> (result: bool)
    ensures
        result == has_base64_part(metadata@),
{
    let pieces = split_pieces(metadata, ';');
    let ghost parts = split_on(metadata@, ';');
    let mut k: usize = 0;
    while k < pieces.len()
        invariant
            k <= pieces@.len(),
            pieces.deep_view() == parts,
            parts == split_on(metadata@, ';'),
            forall|j: int| 0 <= j < k ==> !eq_ignore_ascii_case(#[trigger] parts[j], "base64"@),
        decreases pieces.len() - k,
    {
        let part = chars_of(pieces[k].as_str());
        assert(part@.subrange(0, part@.len() as int) =~= part@);
        assert(parts[k as int] == pieces@[k as int]@);
        if range_eq_ignore_ascii_case(&part, 0, part.len(), "base64") {
            assert(eq_ignore_ascii_case(split_on(metadata@, ';')[k as int], "base64"@));
            return true;
        }
        k += 1;
    }
    false
}

/// The payload up to its first `#`.
pub fn strip_fragment(payload: &str) -> (result: String)
    ensures
        result@ == before_fragment(payload@),
{
    let chars = chars_of(payload);
    match find_char(&chars, '#') {
        Some(k) => string_from_chars(&chars, 0, k),
        None => {
            assert(chars@.subrange(0, chars@.len() as int) =~= chars@);
            string_from_chars(&chars, 0, chars.len())
        },
    }
}

/// The bytes a `data:` payload stands for.
pub fn decode_payload(metadata: &str, payload: &str) -> (result: Result<Vec<u8>, BunodeError>)
    ensures
        match (result, spec_decode_payload(metadata@, payload@)) {
            (Ok(out), Ok(expected)) => out@ == expected,
            (Err(e), Err(expected)) => e@ == BunodeErrorView::Usage(expected),
            _ => false,
        },
{
    let bytes = decode_percent(payload)?;
    if metadata_says_base64(metadata) {
        decode_base64_bytes(bytes.as_slice())
    } else {
        Ok(bytes)
    }
}

/// The module that imports `source` through a `blob:` URL.
pub fn build_blob_import_wrapper(source: &[u8]) -> (wrapper: Vec<u8>)
    ensures
        wrapper@ == encode_utf8(spec_blob_import_wrapper(source@)),
{
    let encoded = encode_base64(source);
    let mut text = String::from_str("const __bunodeDataImportBytes=Uint8Array.from(atob(\"");
    text.append(encoded.as_str());
    text.append("\"),character=>character.charCodeAt(0));\nconst __bunodeDataImportUrl=URL.createObjectURL(new Blob([__bunodeDataImportBytes],{type:\"text/javascript\"}));\ntry{await import(__bunodeDataImportUrl)}finally{URL.revokeObjectURL(__bunodeDataImportUrl)}\n");
    proof {
        reveal(spec_blob_import_wrapper);
    }
    text.as_str().as_bytes_vec()
}

fn data_source(rest: &str) -> (result: Result<Option<Vec<u8>>, BunodeError>)
    ensures
        match (result, spec_data_source(rest@)) {
            (Ok(None), Ok(None)) => true,
            (Ok(Some(out)), Ok(Some(expected))) => out@ == expected,
            (Err(e), Err(expected)) => e@ == BunodeErrorView::Usage(expected),
            _ => false,
        },
{
    let rest_chars = chars_of(rest);
    let comma = find_char(&rest_chars, ',');
    if comma.is_none() {
        return Err(BunodeError::Usage(CliUsageError::InvalidDataUrlImport));
    }
    let c = comma.unwrap();
    let metadata = string_from_chars(&rest_chars, 0, c);
    assert(metadata@ =~= rest@.take(c as int));
    let raw_payload = string_from_chars(&rest_chars, c + 1, rest_chars.len());
    assert(raw_payload@ =~= rest@.skip(c + 1));
    let payload = strip_fragment(raw_payload.as_str());
    if !is_javascript_metadata(metadata.as_str()) {
        return Ok(None);
    }
    match decode_payload(metadata.as_str(), payload.as_str()) {
        Ok(source) => Ok(Some(source)),
        Err(e) => Err(e),
    }
}

fn data_module(specifier: &str, source: &[u8]) -> (m: DataModule)
    ensures
        m.file_name@ == spec_data_module_name(specifier@),
        m.source@ == encode_utf8(spec_blob_import_wrapper(source@)),
{
    let wrapper = build_blob_import_wrapper(source);
    let file_name = content_file_name("bunode-data-import-", specifier, ".mjs");
    DataModule { file_name, source: wrapper }
}

/// Turns a preload specifier into the module to write for it: `None` unless it is a
/// JavaScript `data:` URL (scheme and media type compared without regard to ASCII case).
pub fn materialize_javascript_module(specifier: &str) -> (result: Result<Option<DataModule>, BunodeError>)
    ensures
        match (result, spec_materialize(specifier@)) {
            (Ok(None), Ok(None)) => true,
            (Ok(Some(m)), Ok(Some((name, source)))) => m.file_name@ == name && m.source@ == source,
            (Err(e), Err(expected)) => e@ == BunodeErrorView::Usage(expected),
            _ => false,
        },
{
    let chars = chars_of(specifier);
    let found = find_char(&chars, ':');
    if found.is_none() {
        return Ok(None);
    }
    let k = found.unwrap();
    assert(chars@.subrange(0, k as int) =~= specifier@.take(k as int));
    if !range_eq_ignore_ascii_case(&chars, 0, k, "data") {
        return Ok(None);
    }
    let rest = string_from_chars(&chars, k + 1, chars.len());
    assert(rest@ =~= specifier@.skip(k + 1));
    match data_source(rest.as_str()) {
        Err(e) => Err(e),
        Ok(None) => Ok(None),
        Ok(Some(source)) => Ok(Some(data_module(specifier, source.as_slice()))),
    }
}

} // verus!
