//! Content-addressed file names for generated preload modules.

use vstd::prelude::*;
use vstd::string::StringSliceAdditionalSpecFns;

use crate::js::{hex, hex_digit};

verus! {

/// The FNV-1a offset basis.
pub const FNV_OFFSET: u64 = 0xcbf2_9ce4_8422_2325u64;

/// The FNV-1a prime.
pub const FNV_PRIME: u64 = 0x0000_0100_0000_01b3u64;

/// 64-bit FNV-1a of `bytes`: for each byte, XOR it in, then multiply by the prime
/// modulo 2^64.
pub open spec fn spec_fnv1a(bytes: Seq<u8>) -> u64
    decreases bytes.len(),
{
    if bytes.len() == 0 {
        FNV_OFFSET
    } else {
        vstd::wrapping::u64_specs::wrapping_mul(spec_fnv1a(bytes.drop_last()) ^ (bytes.last() as u64), FNV_PRIME)
    }
}

/// The last `n` lowercase hexadecimal digits of `v`, zero-padded (`{:0nx}` for `v < 16^n`).
pub open spec fn hex_digits(v: nat, n: nat) -> Seq<char>
    decreases n,
{
    if n == 0 {
        Seq::empty()
    } else {
        hex_digits(v / 16, (n - 1) as nat).push(hex_digit(v % 16))
    }
}

/// The file name `prefix` + 16 hex digits of the FNV-1a hash of `specifier`'s UTF-8 bytes
/// + `extension`.
pub open spec fn spec_content_file_name(prefix: Seq<char>, specifier: Seq<char>, extension: Seq<char>) -> Seq<char> {
    prefix + hex_digits(spec_fnv1a(vstd::utf8::encode_utf8(specifier)) as nat, 16) + extension
}

/// 64-bit FNV-1a of `value`.
pub fn fnv1a(value: &[u8]) -> (hash: u64)
    ensures
        hash == spec_fnv1a(value@),
{
    let mut result: u64 = FNV_OFFSET;
    let mut i: usize = 0;
    while i < value.len()
        invariant
            i <= value@.len(),
            result == spec_fnv1a(value@.take(i as int)),
        decreases value.len() - i,
    {
        assert(value@.take(i + 1).drop_last() =~= value@.take(i as int));
        result = (result ^ (value[i] as u64)).wrapping_mul(FNV_PRIME);
        i += 1;
    }
    assert(value@.take(value@.len() as int) =~= value@);
    result
}

fn push_hex_digits(out: &mut String, v: u64, n: usize)
    ensures
        final(out)@ == old(out)@ + hex_digits(v as nat, n as nat),
    decreases n,
{
    if n > 0 {
        push_hex_digits(out, v / 16, n - 1);
        out.push(hex((v % 16) as u32));
    } else {
        assert(final(out)@ =~= old(out)@ + hex_digits(v as nat, n as nat));
    }
}

/// The content-addressed file name for a module generated from `specifier`.
pub fn content_file_name(prefix: &str, specifier: &str, extension: &str) -> (name: String)
    ensures
        name@ == spec_content_file_name(prefix@, specifier@, extension@),
{
    let hash = fnv1a(specifier.as_bytes());
    let mut name = String::from_str(prefix);
    push_hex_digits(&mut name, hash, 16);
    name.append(extension);
    name
}

} // verus!
