//! Classification of the request-target token of an HTTP request start line
//! into one of the four syntactic forms defined for requests (RFC 7230 §5.3).
//!
//! The classification is a hint for how the target should be interpreted
//! downstream; it does not guarantee that the matched string is well-formed
//! within its category. The decision procedure is a single pass over the
//! input with a fixed precedence:
//!
//! 1. an empty target, or one that begins or ends with a whitespace
//!    character, is rejected;
//! 2. the single character `*` is the server-wide OPTIONS form;
//! 3. a target whose first character is `/` is an absolute path;
//! 4. a target beginning with the literal `http://` or `https://` is an
//!    absolute URI;
//! 5. a target containing no `/` at all is an authority;
//! 6. anything else is rejected.

use vstd::prelude::*;

verus! {

/// A request target that appears in every HTTP request start line.
///
/// This gives a hint as to how the target should be interpreted but doesn't
/// guarantee the matched string has well-formed syntax.
#[derive(Copy, Clone, Eq, PartialEq, Structural, Debug, Hash)]
pub enum RequestTarget {
    /// General form used for direct requests targeting a resource on the
    /// origin server.
    AbsPath,
    /// Currently only used with the proxy protocol, but HTTP/1.1 servers must
    /// accept this form for other requests too.
    AbsURI,
    /// Used with CONNECT in the proxy protocol.
    Authority,
    /// Used for server-wide OPTIONS requests.
    ServerOptions,
}

/// The single way a classification can fail: the target matched none of the
/// four recognized forms. No diagnostic payload is carried.
#[derive(Copy, Clone, Eq, PartialEq, Structural, Debug, Hash)]
pub enum ClassificationError {
    InvalidTarget,
}

/// Whether `c` has the Unicode `White_Space` property, the set of characters
/// that whitespace-trimming a target removes at either end.
pub open spec fn is_whitespace_char(c: char) -> bool {
    ||| c == '\u{0009}'
    ||| c == '\u{000A}'
    ||| c == '\u{000B}'
    ||| c == '\u{000C}'
    ||| c == '\u{000D}'
    ||| c == '\u{0020}'
    ||| c == '\u{0085}'
    ||| c == '\u{00A0}'
    ||| c == '\u{1680}'
    ||| c == '\u{2000}'
    ||| c == '\u{2001}'
    ||| c == '\u{2002}'
    ||| c == '\u{2003}'
    ||| c == '\u{2004}'
    ||| c == '\u{2005}'
    ||| c == '\u{2006}'
    ||| c == '\u{2007}'
    ||| c == '\u{2008}'
    ||| c == '\u{2009}'
    ||| c == '\u{200A}'
    ||| c == '\u{2028}'
    ||| c == '\u{2029}'
    ||| c == '\u{202F}'
    ||| c == '\u{205F}'
    ||| c == '\u{3000}'
}

/// A target differs from its whitespace-trimmed form exactly when it begins
/// or ends with a whitespace character; together with emptiness this is the
/// rejection condition of the first step of the decision procedure.
pub open spec fn is_untrimmed_or_empty(s: Seq<char>) -> bool {
    ||| s.len() == 0
    ||| is_whitespace_char(s[0])
    ||| is_whitespace_char(s[s.len() - 1])
}

/// Whether `s` begins with the literal scheme prefix `http://`.
pub open spec fn has_http_prefix(s: Seq<char>) -> bool {
    &&& s.len() >= 7
    &&& s[0] == 'h'
    &&& s[1] == 't'
    &&& s[2] == 't'
    &&& s[3] == 'p'
    &&& s[4] == ':'
    &&& s[5] == '/'
    &&& s[6] == '/'
}

/// Whether `s` begins with the literal scheme prefix `https://`.
pub open spec fn has_https_prefix(s: Seq<char>) -> bool {
    &&& s.len() >= 8
    &&& s[0] == 'h'
    &&& s[1] == 't'
    &&& s[2] == 't'
    &&& s[3] == 'p'
    &&& s[4] == 's'
    &&& s[5] == ':'
    &&& s[6] == '/'
    &&& s[7] == '/'
}

/// Whether a `/` occurs anywhere in `s`.
pub open spec fn contains_slash(s: Seq<char>) -> bool {
    exists|i: int| 0 <= i < s.len() && s[i] == '/'
}

/// The full decision procedure, evaluated in the order fixed by the design:
/// whitespace rejection, wildcard, absolute path, absolute URI, authority,
/// and finally rejection.
pub open spec fn classify_spec(s: Seq<char>) -> Result<RequestTarget, ClassificationError> {
    if is_untrimmed_or_empty(s) {
        Err(ClassificationError::InvalidTarget)
    } else if s.len() == 1 && s[0] == '*' {
        Ok(RequestTarget::ServerOptions)
    } else if s[0] == '/' {
        Ok(RequestTarget::AbsPath)
    } else if has_http_prefix(s) || has_https_prefix(s) {
        Ok(RequestTarget::AbsURI)
    } else if !contains_slash(s) {
        Ok(RequestTarget::Authority)
    } else {
        Err(ClassificationError::InvalidTarget)
    }
}

/// Decides `is_whitespace_char` for a concrete character.
fn check_whitespace_char(c: char) -> (r: bool)
    ensures
        r == is_whitespace_char(c),
{
    c == '\u{0009}' || c == '\u{000A}' || c == '\u{000B}' || c == '\u{000C}'
        || c == '\u{000D}' || c == '\u{0020}' || c == '\u{0085}' || c == '\u{00A0}'
        || c == '\u{1680}' || c == '\u{2000}' || c == '\u{2001}' || c == '\u{2002}'
        || c == '\u{2003}' || c == '\u{2004}' || c == '\u{2005}' || c == '\u{2006}'
        || c == '\u{2007}' || c == '\u{2008}' || c == '\u{2009}' || c == '\u{200A}'
        || c == '\u{2028}' || c == '\u{2029}' || c == '\u{202F}' || c == '\u{205F}'
        || c == '\u{3000}'
}

/// Decides whether `s` begins with `http://` or `https://`, given its
/// character length `n`.
fn check_http_scheme_prefix(s: &str, n: usize) -> (r: bool)
    requires
        n == s@.len(),
    ensures
        r == (has_http_prefix(s@) || has_https_prefix(s@)),
{
    if n < 7 {
        return false;
    }
    let base = s.get_char(0) == 'h' && s.get_char(1) == 't' && s.get_char(2) == 't'
        && s.get_char(3) == 'p';
    if !base {
        return false;
    }
    if s.get_char(4) == ':' && s.get_char(5) == '/' && s.get_char(6) == '/' {
        return true;
    }
    n >= 8 && s.get_char(4) == 's' && s.get_char(5) == ':' && s.get_char(6) == '/'
        && s.get_char(7) == '/'
}

/// Decides `contains_slash` by scanning the characters of `s`, given its
/// character length `n`.
fn check_contains_slash(s: &str, n: usize) -> (r: bool)
    requires
        n == s@.len(),
    ensures
        r == contains_slash(s@),
{
    let mut i: usize = 0;
    while i < n
        invariant
            n == s@.len(),
            i <= n,
            forall|j: int| 0 <= j < i ==> s@[j] != '/',
        decreases n - i,
    {
        if s.get_char(i) == '/' {
            return true;
        }
        i = i + 1;
    }
    false
}

impl RequestTarget {
    /// Classifies a request-target token into one of the four recognized
    /// forms, or rejects it.
    ///
    /// The result is exactly what the decision procedure `classify_spec`
    /// yields on the input's characters: empty or whitespace-surrounded
    /// targets are rejected; `*` is the server-wide OPTIONS form; a leading
    /// `/` marks an absolute path; a literal `http://` or `https://` prefix
    /// marks an absolute URI; a slash-free target is an authority; anything
    /// else is rejected.
    pub fn classify(s: &str) -> (r: Result<RequestTarget, ClassificationError>)
        ensures
            r == classify_spec(s@),
    {
        let n = s.unicode_len();
        if n == 0 {
            return Err(ClassificationError::InvalidTarget);
        }
        let first = s.get_char(0);
        let last = s.get_char(n - 1);
        if check_whitespace_char(first) || check_whitespace_char(last) {
            return Err(ClassificationError::InvalidTarget);
        }
        if n == 1 && first == '*' {
            // The OPTIONS form contains only an asterisk [RFC7230 §5.3.4].
            Ok(RequestTarget::ServerOptions)
        } else if first == '/' {
            // The absolute path form always starts with a slash [RFC7230 §5.3.1].
            Ok(RequestTarget::AbsPath)
        } else if check_http_scheme_prefix(s, n) {
            // The URI form starts with one of the two HTTP schemes [RFC7230 §5.3.2].
            Ok(RequestTarget::AbsURI)
        } else if !check_contains_slash(s, n) {
            // The authority form contains no slashes [RFC7230 §5.3.3].
            Ok(RequestTarget::Authority)
        } else {
            Err(ClassificationError::InvalidTarget)
        }
    }
}

impl core::str::FromStr for RequestTarget {
    type Err = ();

    fn from_str(s: &str) -> (r: Result<Self, ()>)
        ensures
            (r is Ok) == (classify_spec(s@) is Ok),
            r matches Ok(k) ==> classify_spec(s@) == Ok::<RequestTarget, ClassificationError>(k),
    {
        match RequestTarget::classify(s) {
            Ok(kind) => Ok(kind),
            Err(ClassificationError::InvalidTarget) => Err(()),
        }
    }
}

/// Law: a target that is empty or differs from its whitespace-trimmed form
/// (it begins or ends with a whitespace character) is always rejected.
pub proof fn lemma_untrimmed_rejected(s: Seq<char>)
    requires
        is_untrimmed_or_empty(s),
    ensures
        classify_spec(s) matches Err(e) && e == ClassificationError::InvalidTarget,
{
}

/// Law: a whitespace-clean target whose first character is `/` classifies as
/// an absolute path, whatever characters follow. A target such as one ending
/// in a space is rejected by the whitespace rule instead, so the trailing
/// character is required to be clean here.
pub proof fn lemma_leading_slash_is_abs_path(s: Seq<char>)
    requires
        s.len() > 0,
        s[0] == '/',
        !is_whitespace_char(s[s.len() - 1]),
    ensures
        classify_spec(s) == Ok::<RequestTarget, ClassificationError>(RequestTarget::AbsPath),
{
}

/// Law: a target beginning with `http://` or `https://` classifies as an
/// absolute URI, provided its last character is not whitespace (a trailing
/// whitespace character is rejected by the whitespace rule first).
pub proof fn lemma_http_scheme_is_abs_uri(s: Seq<char>)
    requires
        has_http_prefix(s) || has_https_prefix(s),
        !is_whitespace_char(s[s.len() - 1]),
    ensures
        classify_spec(s) == Ok::<RequestTarget, ClassificationError>(RequestTarget::AbsURI),
{
}

/// Law: a whitespace-clean target containing no `/` and different from the
/// single character `*` classifies as an authority.
pub proof fn lemma_slash_free_is_authority(s: Seq<char>)
    requires
        s.len() > 0,
        !is_whitespace_char(s[0]),
        !is_whitespace_char(s[s.len() - 1]),
        !contains_slash(s),
        !(s.len() == 1 && s[0] == '*'),
    ensures
        classify_spec(s) == Ok::<RequestTarget, ClassificationError>(RequestTarget::Authority),
{
    assert(s[0] != '/');
    assert(!has_http_prefix(s));
    assert(!has_https_prefix(s));
}

/// Law: classification is deterministic and stateless — any two results
/// obtained for the same input sequence are identical.
pub proof fn lemma_classify_deterministic(
    s: Seq<char>,
    r1: Result<RequestTarget, ClassificationError>,
    r2: Result<RequestTarget, ClassificationError>,
)
    requires
        r1 == classify_spec(s),
        r2 == classify_spec(s),
    ensures
        r1 == r2,
{
}

} // verus!
