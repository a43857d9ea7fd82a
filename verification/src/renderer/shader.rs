//! Shader source preprocessing.
use crate::text::{chars_of, string_from_chars};
use vstd::prelude::*;

verus! {

/// `s` with every occurrence of the non-empty pattern `pattern` replaced by `replacement`,
/// scanning left to right and not reusing replaced characters.
pub open spec fn replace_all(s: Seq<char>, pattern: Seq<char>, replacement: Seq<char>) -> Seq<char>
    recommends
        pattern.len() > 0,
    decreases s.len(),
{
    if s.len() == 0 || pattern.len() == 0 {
        s
    } else if s.len() >= pattern.len() && s.take(pattern.len() as int) == pattern {
        replacement + replace_all(s.skip(pattern.len() as int), pattern, replacement)
    } else {
        seq![s[0]] + replace_all(s.skip(1), pattern, replacement)
    }
}

/// A source in which the pattern never occurs is left as it is.
pub proof fn lemma_replace_without_occurrence(s: Seq<char>, pattern: Seq<char>, replacement: Seq<char>)
    requires
        forall|i: int|
            0 <= i && i + pattern.len() <= s.len() ==> #[trigger] s.subrange(i, i + pattern.len())
                != pattern,
    ensures
        replace_all(s, pattern, replacement) == s,
    decreases s.len(),
{
    if s.len() == 0 || pattern.len() == 0 {
    } else {
        if s.len() >= pattern.len() {
            let start: int = 0;
            assert(s.subrange(start, start + pattern.len()) != pattern);
            assert(s.take(pattern.len() as int) =~= s.subrange(start, start + pattern.len()));
        }
        let rest = s.skip(1);
        assert forall|i: int|
            0 <= i && i + pattern.len() <= rest.len() implies #[trigger] rest.subrange(
            i,
            i + pattern.len(),
        ) != pattern by {
            assert(rest.subrange(i, i + pattern.len()) =~= s.subrange(i + 1, i + 1 + pattern.len()));
        }
        lemma_replace_without_occurrence(rest, pattern, replacement);
        assert(seq![s[0]] + rest =~= s);
    }
}

/// Placeholder that stands in shader sources for the GLSL version.
pub open spec fn version_placeholder() -> Seq<char> {
    seq!['<', 'v', 'e', 'r', 's', 'i', 'o', 'n', '>']
}

/// Whether `pattern` occurs in `s` at `start`.
fn matches_at(s: &Vec<char>, start: usize, pattern: &Vec<char>) -> (found: bool)
    requires
        start + pattern@.len() <= s@.len(),
    ensures
        found == (s@.subrange(start as int, start + pattern@.len()) == pattern@),
{
    assert(s@.len() == s.len());
    let mut k: usize = 0;
    while k < pattern.len()
        invariant
            start + pattern@.len() <= s@.len(),
            s@.len() <= usize::MAX,
            k <= pattern@.len(),
            forall|j: int| 0 <= j < k ==> s@[start + j] == pattern@[j],
        decreases pattern@.len() - k,
    {
        if s[start + k] != pattern[k] {
            assert(s@.subrange(start as int, start + pattern@.len())[k as int] != pattern@[k as int]);
            return false;
        }
        k = k + 1;
    }
    assert(s@.subrange(start as int, start + pattern@.len()) =~= pattern@);
    true
}

/// Replaces every `<version>` placeholder of a shader source by the GLSL version of the
/// platform (`330 core` natively, `300 es` on the web).
pub fn preprocess_shader_source(source: &str, version: &str) -> (processed: String)
    ensures
        processed@ == replace_all(source@, version_placeholder(), version@),
{
    let s = chars_of(source);
    let pattern = chars_of("<version>");
    proof {
        reveal_strlit("<version>");
        assert(pattern@ =~= version_placeholder());
    }
    let replacement = chars_of(version);
    let mut out: Vec<char> = Vec::new();
    let mut index: usize = 0;
    assert(s@.skip(0) =~= s@);
    while index < s.len()
        invariant
            index <= s@.len(),
            pattern@ == version_placeholder(),
            out@ + replace_all(s@.skip(index as int), pattern@, replacement@) == replace_all(
                s@,
                pattern@,
                replacement@,
            ),
        decreases s@.len() - index,
    {
        let ghost rest = s@.skip(index as int);
        if pattern.len() <= s.len() - index && matches_at(&s, index, &pattern) {
            proof {
                assert(rest.take(pattern@.len() as int) =~= s@.subrange(
                    index as int,
                    index + pattern@.len(),
                ));
                assert(rest.skip(pattern@.len() as int) =~= s@.skip(index + pattern@.len()));
                assert(out@ + replacement@ + replace_all(
                    s@.skip(index + pattern@.len()),
                    pattern@,
                    replacement@,
                ) =~= out@ + replace_all(rest, pattern@, replacement@));
            }
            let mut k: usize = 0;
            let ghost out0 = out@;
            while k < replacement.len()
                invariant
                    k <= replacement@.len(),
                    out@ == out0 + replacement@.take(k as int),
                decreases replacement@.len() - k,
            {
                out.push(replacement[k]);
                k = k + 1;
                assert(out@ =~= out0 + replacement@.take(k as int));
            }
            assert(replacement@.take(replacement@.len() as int) =~= replacement@);
            index = index + pattern.len();
        } else {
            proof {
                if index + pattern@.len() <= s@.len() {
                    assert(rest.take(pattern@.len() as int) =~= s@.subrange(
                        index as int,
                        index + pattern@.len(),
                    ));
                }
                assert(rest.skip(1) =~= s@.skip(index + 1));
                assert(rest[0] == s@[index as int]);
                assert(out@.push(s@[index as int]) + replace_all(
                    s@.skip(index + 1),
                    pattern@,
                    replacement@,
                ) =~= out@ + replace_all(rest, pattern@, replacement@));
            }
            out.push(s[index]);
            index = index + 1;
        }
    }
    proof {
        assert(s@.skip(index as int) =~= Seq::<char>::empty());
        assert(out@ + Seq::<char>::empty() =~= out@);
    }
    string_from_chars(&out)
}

} // verus!
