//! Names of the local files that cache downloaded images.
use vstd::prelude::*;
use sha2::Digest;

verus! {

/// The SHA-256 digest of a text's UTF-8 bytes, as lower-case hexadecimal.
pub uninterp spec fn sha256_hex_of(s: Seq<char>) -> Seq<char>;

/// Relies on `sha2::Sha256::digest` and the lower-hex formatting of the
/// digest: the result depends on the text alone and has two digits for each
/// of the 32 digest bytes.
#[verifier::external_body]
fn sha256_hex(s: &str) -> (r: String)
    ensures
        r@ == sha256_hex_of(s@),
        r@.len() == 64,
{
    format!("{:x}", sha2::Sha256::digest(s.as_bytes()))
}

/// Where the last `.`-separated segment of `s` starts: just past the last
/// dot, or 0 when there is none.
pub open spec fn last_segment_start(s: Seq<char>) -> int
    decreases s.len(),
{
    if s.len() == 0 {
        0
    } else if s.last() == '.' {
        s.len() as int
    } else {
        last_segment_start(s.drop_last())
    }
}

/// The extension a cached file takes from its URL: the text after the last
/// dot, or the whole URL when it has no dot.
pub open spec fn url_extension(s: Seq<char>) -> Seq<char> {
    s.subrange(last_segment_start(s), s.len() as int)
}

proof fn lemma_last_segment_start_bounds(s: Seq<char>)
    ensures
        0 <= last_segment_start(s) <= s.len(),
    decreases s.len(),
{
    if s.len() > 0 {
        lemma_last_segment_start_bounds(s.drop_last());
    }
}

/// The file name under which the image at `url` is cached: the first 16
/// hexadecimal digits of the SHA-256 digest of the URL, a dot, and the URL's
/// extension.
pub fn cache_file_name(url: &str) -> (r: String)
    ensures
        r@ == sha256_hex_of(url@).subrange(0, 16) + "."@ + url_extension(url@),
{
    let n = url.unicode_len();
    let mut start: usize = 0;
    let mut j: usize = 0;
    while j < n
        invariant
            n == url@.len(),
            j <= n,
            start as int == last_segment_start(url@.subrange(0, j as int)),
        decreases n - j,
    {
        proof {
            assert(url@.subrange(0, j as int + 1).drop_last() =~= url@.subrange(0, j as int));
        }
        if url.get_char(j) == '.' {
            start = j + 1;
        }
        j = j + 1;
    }
    proof {
        assert(url@.subrange(0, n as int) =~= url@);
        lemma_last_segment_start_bounds(url@);
    }
    let hash = sha256_hex(url);
    let prefix = hash.as_str().substring_char(0, 16);
    let ext = url.substring_char(start, n);
    String::from_str(prefix).concat(".").concat(ext)
}

} // verus!
