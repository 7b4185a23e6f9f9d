//! Which paths a delegation covers: by pattern, or by a prefix of the
//! digest of the path.

use crate::schema::PathSet;
use vstd::prelude::*;
use vstd::string::*;
use vstd::utf8::encode_utf8;

verus! {

/// The byte that stands for any run of bytes in a pattern.
pub open spec fn star() -> u8 {
    42
}

/// Whether a pattern matches a text altogether. A `*` in the pattern
/// matches any run of bytes, the empty one too; every other byte matches
/// itself.
pub open spec fn glob_matches(pattern: Seq<u8>, text: Seq<u8>) -> bool
    decreases pattern.len(), text.len(),
{
    if pattern.len() == 0 {
        text.len() == 0
    } else if pattern[0] == star() {
        glob_matches(pattern.drop_first(), text) || (text.len() > 0 && glob_matches(
            pattern,
            text.drop_first(),
        ))
    } else {
        text.len() > 0 && pattern[0] == text[0] && glob_matches(
            pattern.drop_first(),
            text.drop_first(),
        )
    }
}

/// Whether the pattern from its byte `i` on matches the text from its byte
/// `j` on.
pub open spec fn matches_from(pattern: Seq<u8>, text: Seq<u8>, i: int, j: int) -> bool {
    glob_matches(pattern.skip(i), text.skip(j))
}

/// How a match from `i` and `j` on comes down to matches further on.
proof fn lemma_matches_from(pattern: Seq<u8>, text: Seq<u8>, i: int, j: int)
    requires
        0 <= i <= pattern.len(),
        0 <= j <= text.len(),
    ensures
        matches_from(pattern, text, i, j) == if i == pattern.len() {
            j == text.len()
        } else if pattern[i] == star() {
            matches_from(pattern, text, i + 1, j) || (j < text.len() && matches_from(
                pattern,
                text,
                i,
                j + 1,
            ))
        } else {
            j < text.len() && pattern[i] == text[j] && matches_from(pattern, text, i + 1, j + 1)
        },
{
    if i < pattern.len() {
        assert(pattern.skip(i).drop_first() =~= pattern.skip(i + 1));
        assert(pattern.skip(i)[0] == pattern[i]);
    }
    if j < text.len() {
        assert(text.skip(j).drop_first() =~= text.skip(j + 1));
        assert(text.skip(j)[0] == text[j]);
    }
}

/// Whether a pattern matches a text altogether.
pub fn glob_match(pattern: &[u8], text: &[u8]) -> (r: bool)
    ensures
        r == glob_matches(pattern@, text@),
{
    let plen = pattern.len();
    let tlen = text.len();
    // `row[j]` says whether the pattern from `i` on matches the text from
    // `j` on, and `end` says so for the empty rest of the text.
    let mut row: Vec<bool> = Vec::new();
    let mut end = true;
    let mut j: usize = 0;
    while j < tlen
        invariant
            j <= tlen == text@.len(),
            plen == pattern@.len(),
            row@.len() == j,
            forall|k: int| 0 <= k < j ==> row@[k] == matches_from(pattern@, text@, plen as int, k),
        decreases tlen - j,
    {
        proof {
            lemma_matches_from(pattern@, text@, plen as int, j as int);
        }
        row.push(false);
        j += 1;
    }
    proof {
        lemma_matches_from(pattern@, text@, plen as int, tlen as int);
    }
    let mut i: usize = plen;
    while i > 0
        invariant
            i <= plen == pattern@.len(),
            tlen == text@.len(),
            row@.len() == tlen,
            forall|k: int| 0 <= k < tlen ==> row@[k] == matches_from(pattern@, text@, i as int, k),
            end == matches_from(pattern@, text@, i as int, tlen as int),
        decreases i,
    {
        i -= 1;
        proof {
            lemma_matches_from(pattern@, text@, i as int, tlen as int);
        }
        if pattern[i] == 42 {
            // A star: the rest of the text matches if it does without the
            // star, or if the star takes one byte more.
            let mut j: usize = tlen;
            while j > 0
                invariant
                    j <= tlen == text@.len(),
                    i < plen == pattern@.len(),
                    pattern@[i as int] == star(),
                    row@.len() == tlen,
                    forall|k: int|
                        0 <= k < j ==> row@[k] == matches_from(pattern@, text@, i + 1, k),
                    forall|k: int|
                        j <= k < tlen ==> row@[k] == matches_from(pattern@, text@, i as int, k),
                    end == matches_from(pattern@, text@, i as int, tlen as int),
                decreases j,
            {
                j -= 1;
                proof {
                    lemma_matches_from(pattern@, text@, i as int, j as int);
                }
                let later = if j + 1 < tlen {
                    row[j + 1]
                } else {
                    end
                };
                let here = row[j] || later;
                row.set(j, here);
            }
        } else {
            // A byte that stands for itself.
            let mut j: usize = 0;
            while j < tlen
                invariant
                    j <= tlen == text@.len(),
                    i < plen == pattern@.len(),
                    pattern@[i as int] != star(),
                    row@.len() == tlen,
                    forall|k: int|
                        0 <= k < j ==> row@[k] == matches_from(pattern@, text@, i as int, k),
                    forall|k: int|
                        j <= k < tlen ==> row@[k] == matches_from(pattern@, text@, i + 1, k),
                    end == matches_from(pattern@, text@, i + 1, tlen as int),
                decreases tlen - j,
            {
                proof {
                    lemma_matches_from(pattern@, text@, i as int, j as int);
                }
                let later = if j + 1 < tlen {
                    row[j + 1]
                } else {
                    end
                };
                let here = pattern[i] == text[j] && later;
                row.set(j, here);
                j += 1;
            }
            end = false;
        }
    }
    assert(pattern@.skip(0) =~= pattern@);
    assert(text@.skip(0) =~= text@);
    if tlen == 0 {
        end
    } else {
        row[0]
    }
}

/// Whether `prefix` is how `text` begins.
pub fn starts_with(text: &[u8], prefix: &[u8]) -> (r: bool)
    ensures
        r == prefix@.is_prefix_of(text@),
{
    if prefix.len() > text.len() {
        return false;
    }
    let mut i: usize = 0;
    while i < prefix.len()
        invariant
            i <= prefix@.len() <= text@.len(),
            forall|k: int| 0 <= k < i ==> prefix@[k] == text@[k],
        decreases prefix@.len() - i,
    {
        if prefix[i] != text[i] {
            return false;
        }
        i += 1;
    }
    assert(prefix@ =~= text@.subrange(0, prefix@.len() as int));
    true
}

/// Whether one of the patterns matches the path.
pub open spec fn some_pattern_matches(patterns: Seq<String>, path: Seq<char>) -> bool {
    exists|k: int|
        0 <= k < patterns.len() && glob_matches(
            encode_utf8((#[trigger] patterns[k])@),
            encode_utf8(path),
        )
}

/// Whether the digest of the path begins with one of the prefixes.
pub open spec fn some_prefix_fits(prefixes: Seq<String>, path_hash: Seq<char>) -> bool {
    exists|k: int|
        0 <= k < prefixes.len() && encode_utf8((#[trigger] prefixes[k])@).is_prefix_of(
            encode_utf8(path_hash),
        )
}

/// Whether a delegation with the paths `paths` covers the path `path`,
/// whose SHA-256 digest reads `path_hash` in hexadecimal. Patterns and
/// prefixes are compared with the path and the digest byte by byte, in
/// UTF-8.
pub open spec fn covers(paths: PathSet, path: Seq<char>, path_hash: Seq<char>) -> bool {
    match paths {
        PathSet::Patterns(patterns) => some_pattern_matches(patterns@, path),
        PathSet::HashPrefixes(prefixes) => some_prefix_fits(prefixes@, path_hash),
    }
}

impl PathSet {
    /// Whether the paths cover `path`, whose SHA-256 digest reads
    /// `path_hash` in hexadecimal.
    pub fn matches(&self, path: &str, path_hash: &str) -> (r: bool)
        ensures
            r == covers(*self, path@, path_hash@),
    {
        match self {
            PathSet::Patterns(patterns) => {
                let mut k: usize = 0;
                while k < patterns.len()
                    invariant
                        *self == PathSet::Patterns(*patterns),
                        k <= patterns@.len(),
                        forall|n: int|
                            0 <= n < k ==> !glob_matches(
                                encode_utf8((#[trigger] patterns@[n])@),
                                encode_utf8(path@),
                            ),
                    decreases patterns@.len() - k,
                {
                    if glob_match(patterns[k].as_str().as_bytes(), path.as_bytes()) {
                        assert(glob_matches(
                            encode_utf8(patterns@[k as int]@),
                            encode_utf8(path@),
                        ));
                        return true;
                    }
                    k += 1;
                }
                false
            },
            PathSet::HashPrefixes(prefixes) => {
                let mut k: usize = 0;
                while k < prefixes.len()
                    invariant
                        *self == PathSet::HashPrefixes(*prefixes),
                        k <= prefixes@.len(),
                        forall|n: int|
                            0 <= n < k ==> !encode_utf8((#[trigger] prefixes@[n])@).is_prefix_of(
                                encode_utf8(path_hash@),
                            ),
                    decreases prefixes@.len() - k,
                {
                    if starts_with(path_hash.as_bytes(), prefixes[k].as_str().as_bytes()) {
                        assert(encode_utf8(prefixes@[k as int]@).is_prefix_of(
                            encode_utf8(path_hash@),
                        ));
                        return true;
                    }
                    k += 1;
                }
                false
            },
        }
    }
}

} // verus!
