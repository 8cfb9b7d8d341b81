//! Reading the compiler's version from the output of `rustc --version`.
use vstd::prelude::*;
use vstd::string::StrSliceExecFns;

verus! {

#[verifier::external_type_specification]
#[verifier::external_body]
pub struct ExVersion(semver::Version);

#[verifier::external_type_specification]
#[verifier::external_body]
pub struct ExSemverError(semver::Error);

/// The text that opens the compiler's version line.
pub open spec fn rustc_prefix() -> Seq<char> {
    seq!['r', 'u', 's', 't', 'c', ' ']
}

/// No line break in `t[a..b]`.
pub open spec fn single_line(t: Seq<char>, a: int, b: int) -> bool {
    forall|i: int| a <= i < b ==> t[i] != '\n'
}

/// ` (` stands at `e`.
pub open spec fn opens_at(t: Seq<char>, e: int) -> bool {
    t[e] == ' ' && t[e + 1] == '('
}

/// `t[s..]` reads `rustc `, then a version text ending at `e`, then ` (`,
/// then more text and `)`, all on one line: the shape
/// `rustc <version> (<details>)`.
pub open spec fn version_span(t: Seq<char>, s: int, e: int) -> bool {
    &&& 0 <= s
    &&& s + 6 <= e
    &&& e + 2 <= t.len()
    &&& t.subrange(s, s + 6) == rustc_prefix()
    &&& single_line(t, s + 6, e)
    &&& opens_at(t, e)
    &&& exists|p: int| e + 2 <= p < t.len() && t[p] == ')' && single_line(t, e + 2, p)
}

/// The shape `rustc <version> (<details>)` starts at `s`.
pub open spec fn matches_at(t: Seq<char>, s: int) -> bool {
    exists|e: int| version_span(t, s, e)
}

/// `s` is the first position where the shape starts.
pub open spec fn first_match(t: Seq<char>, s: int) -> bool {
    &&& matches_at(t, s)
    &&& forall|s2: int| 0 <= s2 < s ==> !matches_at(t, s2)
}

/// `e` is the end of the longest version text of a match at `s`.
pub open spec fn longest_span(t: Seq<char>, s: int, e: int) -> bool {
    &&& version_span(t, s, e)
    &&& forall|e2: int| e < e2 ==> !version_span(t, s, e2)
}

/// The version text in the output of `rustc --version`: in the first match
/// of `rustc <version> (<details>)` on one line, the longest version text.
pub open spec fn version_text(t: Seq<char>) -> Option<Seq<char>> {
    if exists|s: int| first_match(t, s) {
        let s = choose|s: int| first_match(t, s);
        let e = choose|e: int| longest_span(t, s, e);
        Some(t.subrange(s + 6, e))
    } else {
        None
    }
}

fn has_prefix_at(text: &str, n: usize, s: usize) -> (r: bool)
    requires
        n == text@.len(),
        s + 6 <= n,
    ensures
        r == (text@.subrange(s as int, s + 6) == rustc_prefix()),
{
    let r = text.get_char(s) == 'r' && text.get_char(s + 1) == 'u' && text.get_char(s + 2) == 's'
        && text.get_char(s + 3) == 't' && text.get_char(s + 4) == 'c' && text.get_char(s + 5)
        == ' ';
    proof {
        let w = text@.subrange(s as int, s + 6);
        if r {
            assert(w =~= rustc_prefix());
        } else if w == rustc_prefix() {
            assert(w[0] == 'r' && w[1] == 'u' && w[2] == 's');
            assert(w[3] == 't' && w[4] == 'c' && w[5] == ' ');
        }
    }
    r
}

/// Finds the version text in the output of `rustc --version`.
pub fn find_version_text(output: &str) -> (r: Option<&str>)
    ensures
        match r {
            Some(v) => version_text(output@) == Some(v@),
            None => version_text(output@) is None,
        },
{
    let ghost t = output@;
    let n = output.unicode_len();
    let mut s: usize = 0;
    while 6 <= n - s
        invariant
            n == t.len(),
            t == output@,
            s <= n,
            forall|s2: int| 0 <= s2 < s ==> !matches_at(t, s2),
        decreases n - s,
    {
        if has_prefix_at(output, n, s) {
            let start = s + 6;
            let mut l = start;
            while l < n && output.get_char(l) != '\n'
                invariant
                    start <= l <= n,
                    n == t.len(),
                    t == output@,
                    single_line(t, start as int, l as int),
                decreases n - l,
            {
                l += 1;
            }
            let mut q = l;
            while q > start && output.get_char(q - 1) != ')'
                invariant
                    start <= q <= l,
                    l <= n,
                    n == t.len(),
                    t == output@,
                    forall|i: int| q <= i < l ==> t[i] != ')',
                decreases q,
            {
                q -= 1;
            }
            // Every match at `s` closes at or before `q - 1`.
            assert forall|e2: int| #[trigger] version_span(t, s as int, e2) implies e2 + 3 <= q by {
                let p2 = choose|p: int|
                    e2 + 2 <= p < t.len() && t[p] == ')' && single_line(t, e2 + 2, p);
                if l <= p2 {
                    assert(t[l as int] != '\n');
                }
            }
            if q - start >= 3 {
                let mut k = q - 2;
                while k > start && !(output.get_char(k - 1) == ' ' && output.get_char(k) == '(')
                    invariant
                        start <= k <= q - 2,
                        q <= l <= n,
                        n == t.len(),
                        t == output@,
                        forall|e2: int| k <= e2 <= q - 3 ==> !#[trigger] opens_at(t, e2),
                    decreases k,
                {
                    k -= 1;
                }
                if k > start {
                    let e = k - 1;
                    proof {
                        assert(version_span(t, s as int, e as int)) by {
                            assert(t.subrange(s as int, s + 6) == rustc_prefix());
                            assert(e + 2 <= q - 1 < t.len() && t[q - 1] == ')');
                        }
                        assert(first_match(t, s as int));
                        assert(longest_span(t, s as int, e as int));
                        let s1 = choose|s1: int| first_match(t, s1);
                        assert(s1 == s);
                        let e1 = choose|e1: int| longest_span(t, s as int, e1);
                        assert(e1 == e);
                    }
                    return Some(output.substring_char(start, e));
                }
            }
        }
        s += 1;
    }
    assert forall|s1: int| !first_match(t, s1) by {
        if s1 >= s && matches_at(t, s1) {
            let e1 = choose|e1: int| version_span(t, s1, e1);
        }
    }
    None
}

/// Whether `text` is a SemVer version, as `semver::Version::parse` decides.
pub uninterp spec fn is_semver(text: Seq<char>) -> bool;

/// Relies on `semver::Version::parse`: it accepts a text exactly when the text
/// is a SemVer version, which depends on the text alone, and rejects the
/// empty text.
#[verifier::external_body]
fn parse_semver(text: &str) -> (r: Result<semver::Version, semver::Error>)
    ensures
        r is Ok <==> is_semver(text@),
        text@.len() == 0 ==> r is Err,
{
    semver::Version::parse(text)
}

/// Why no version could be read from the compiler's output.
#[derive(Debug)]
pub enum VersionOutputError {
    /// The output has no line of the shape `rustc <version> (<details>)`;
    /// it carries the whole output.
    RegexNoMatch(String),
    /// The version text is not a SemVer version.
    VersionParseFailed(semver::Error),
}

/// Reads the compiler's version from the output of `rustc --version`.
pub fn parse_version_output(output: String) -> (r: Result<semver::Version, VersionOutputError>)
    ensures
        match r {
            Ok(_) => version_text(output@) is Some && is_semver(version_text(output@)->Some_0),
            Err(VersionOutputError::RegexNoMatch(o)) => version_text(output@) is None && o@
                == output@,
            Err(VersionOutputError::VersionParseFailed(_)) => version_text(output@) is Some
                && !is_semver(version_text(output@)->Some_0),
        },
{
    match find_version_text(output.as_str()) {
        Some(text) => match parse_semver(text) {
            Ok(version) => Ok(version),
            Err(err) => Err(VersionOutputError::VersionParseFailed(err)),
        },
        None => Err(VersionOutputError::RegexNoMatch(output)),
    }
}

} // verus!
