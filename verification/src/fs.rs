//! The computations behind the file access of [`RealFs`]: where downloads go,
//! and whether a downloaded file has its published SHA-256 digest.
use sha2::Digest;
use vstd::prelude::*;

use crate::text::{chars_of, concat_str};

verus! {

/// Where a file named `filename` is put: `filename` itself when it is an
/// absolute path, else `filename` under `/tmp` (as `Path::join` does).
pub open spec fn tmp_path_of(filename: Seq<char>) -> Seq<char> {
    if filename.len() > 0 && filename[0] == '/' {
        filename
    } else {
        "/tmp/"@ + filename
    }
}

/// The SHA-256 digest of `data`, as `sha2::Sha256` computes it.
pub uninterp spec fn sha256_of(data: Seq<u8>) -> Seq<u8>;

/// Computes the SHA-256 digest of `data` with `<sha2::Sha256 as Digest>::digest`.
/// The contract claims the digest is [`sha256_of`] of the bytes and is 32
/// bytes long (the output size of SHA-256); it states nothing more of it.
#[verifier::external_body]
fn sha256_digest(data: &[u8]) -> (r: Vec<u8>)
    ensures
        r@ == sha256_of(data@),
        r@.len() == 32,
{
    sha2::Sha256::digest(data).to_vec()
}

/// The lowercase hexadecimal digit for `n < 16`.
pub open spec fn hex_digit(n: int) -> char {
    if n < 10 {
        ('0' as int + n) as char
    } else {
        ('a' as int + n - 10) as char
    }
}

/// Each byte as two lowercase hexadecimal digits, high nibble first.
pub open spec fn lower_hex(data: Seq<u8>) -> Seq<char>
    decreases data.len(),
{
    if data.len() == 0 {
        seq![]
    } else {
        seq![hex_digit(data[0] as int / 16), hex_digit(data[0] as int % 16)] + lower_hex(data.drop_first())
    }
}

/// Encodes `data` with `hex::encode`, which writes each byte as two lowercase
/// hexadecimal digits, high nibble first ([`lower_hex`]).
#[verifier::external_body]
fn hex_encode(data: &[u8]) -> (r: String)
    ensures
        r@ == lower_hex(data@),
{
    hex::encode(data)
}

/// The lowercase form of `s` by the Unicode `Lowercase` property, as
/// `str::to_lowercase` gives it.
pub uninterp spec fn unicode_lowercase(s: Seq<char>) -> Seq<char>;

/// Every character is ASCII.
pub open spec fn all_ascii(s: Seq<char>) -> bool {
    forall|i: int| 0 <= i < s.len() ==> (#[trigger] s[i] as int) < 128
}

/// `c` with `A`–`Z` lowered, any other character kept.
pub open spec fn ascii_lower_char(c: char) -> char {
    if 'A' <= c && c <= 'Z' {
        (c as int + 32) as char
    } else {
        c
    }
}

/// `s` with `A`–`Z` lowered and every other character kept.
pub open spec fn ascii_lowercase(s: Seq<char>) -> Seq<char> {
    s.map_values(|c: char| ascii_lower_char(c))
}

/// Lowercases `s` with `str::to_lowercase`. The contract names the result
/// [`unicode_lowercase`]; of it, it states only that an all-ASCII text comes
/// back with `A`–`Z` lowered and the rest unchanged (the Unicode lowercase
/// mapping of an ASCII character is its ASCII lowercase).
#[verifier::external_body]
fn to_lowercase(s: &str) -> (r: String)
    ensures
        r@ == unicode_lowercase(s@),
        all_ascii(s@) ==> r@ == ascii_lowercase(s@),
{
    s.to_lowercase()
}

/// A downloaded file whose digest is not the published one.
#[derive(Debug, Clone, PartialEq, Eq)]
pub struct ChecksumMismatch {
    /// The digest that was published, as given.
    pub expected: String,
    /// The digest of the file, in lowercase hexadecimal.
    pub got: String,
}

impl ChecksumMismatch {
    /// `hash mismatch: expected <expected>, got <got>`.
    pub fn message(&self) -> (r: String)
        ensures
            r@ == "hash mismatch: expected "@ + self.expected@ + ", got "@ + self.got@,
    {
        let mut r = concat_str("hash mismatch: expected ", self.expected.as_str());
        r.append(", got ");
        r.append(self.got.as_str());
        r
    }
}

/// Puts downloads under `/tmp` and checks their digests.
pub struct RealFs;

impl RealFs {
    /// The path a download named `filename` is stored at: `/tmp/<filename>`,
    /// or `filename` itself if it is absolute.
    pub fn tmp_path(&self, filename: &str) -> (r: String)
        ensures
            r@ == tmp_path_of(filename@),
    {
        let c = chars_of(filename);
        if c.len() > 0 && c[0] == '/' {
            String::from_str(filename)
        } else {
            concat_str("/tmp/", filename)
        }
    }

    /// Compares a SHA-256 digest with the published one, `expected_hex`: they
    /// agree when the lowercase hex spelling of `digest` equals `expected_hex`
    /// lowercased.
    pub fn compare_digest(&self, digest: &[u8], expected_hex: &str) -> (r: Result<(), ChecksumMismatch>)
        ensures
            match r {
                Ok(_) => lower_hex(digest@) == unicode_lowercase(expected_hex@),
                Err(m) => lower_hex(digest@) != unicode_lowercase(expected_hex@) && m.expected@
                    == expected_hex@ && m.got@ == lower_hex(digest@),
            },
            all_ascii(expected_hex@) ==> (r is Ok <==> lower_hex(digest@) == ascii_lowercase(
                expected_hex@,
            )),
    {
        let got = hex_encode(digest);
        let want = to_lowercase(expected_hex);
        if got == want {
            Ok(())
        } else {
            Err(ChecksumMismatch { expected: String::from_str(expected_hex), got })
        }
    }

    /// Checks that `data`, the contents of a downloaded file, has the published
    /// SHA-256 digest `expected_hex` (compared as [`RealFs::compare_digest`] does).
    pub fn check_sha256(&self, data: &[u8], expected_hex: &str) -> (r: Result<(), ChecksumMismatch>)
        ensures
            match r {
                Ok(_) => lower_hex(sha256_of(data@)) == unicode_lowercase(expected_hex@),
                Err(m) => lower_hex(sha256_of(data@)) != unicode_lowercase(expected_hex@) && m.expected@
                    == expected_hex@ && m.got@ == lower_hex(sha256_of(data@)),
            },
            all_ascii(expected_hex@) ==> (r is Ok <==> lower_hex(sha256_of(data@)) == ascii_lowercase(
                expected_hex@,
            )),
            sha256_of(data@).len() == 32,
            r is Ok ==> unicode_lowercase(expected_hex@).len() == 64,
            all_ascii(expected_hex@) && expected_hex@.len() != 64 ==> r is Err,
    {
        let digest = sha256_digest(data);
        proof {
            lemma_lower_hex_len(digest@);
        }
        self.compare_digest(digest.as_slice(), expected_hex)
    }
}

/// The hex spelling of a digest is ASCII and already lowercase, so a file
/// checked against its own digest, spelled in lowercase, passes.
pub proof fn law_own_digest_passes(d: Seq<u8>)
    ensures
        all_ascii(lower_hex(d)),
        ascii_lowercase(lower_hex(d)) == lower_hex(d),
    decreases d.len(),
{
    let h = lower_hex(d);
    if d.len() > 0 {
        law_own_digest_passes(d.drop_first());
        let t = lower_hex(d.drop_first());
        let a = d[0] as int / 16;
        let b = d[0] as int % 16;
        let head = seq![hex_digit(a), hex_digit(b)];
        assert(h == head + t);
        assert forall|i: int| 0 <= i < h.len() implies (#[trigger] h[i] as int) < 128
            && ascii_lower_char(h[i]) == h[i] by {
            if i >= 2 {
                assert(h[i] == t[i - 2]);
                assert(ascii_lowercase(t)[i - 2] == t[i - 2]);
            }
        }
        assert(ascii_lowercase(h) =~= h);
    } else {
        assert(ascii_lowercase(h) =~= h);
    }
}

/// The hex spelling of `d` has two characters per byte.
pub proof fn lemma_lower_hex_len(d: Seq<u8>)
    ensures
        lower_hex(d).len() == 2 * d.len(),
    decreases d.len(),
{
    if d.len() > 0 {
        lemma_lower_hex_len(d.drop_first());
    }
}

} // verus!
