use vstd::prelude::*;

verus! {

/// The request-execution backends a run can be dispatched to.
#[derive(Clone, Copy, Debug, PartialEq, Eq, Structural)]
pub enum Backend {
    /// The primary client; its future observes the ambient context when it runs.
    Reqwest,
    /// The secondary client; the caller's context is attached to its future.
    Isahc,
    /// The tertiary client; the root span's context is handed to it as a value.
    Surf,
}

/// Raised when a configured backend name matches none of the known backends.
#[derive(Clone, Copy, Debug, PartialEq, Eq, Structural)]
pub enum ConfigError {
    UnknownBackend,
}

/// The canonical (lower-case) name of each backend.
pub open spec fn name_spec(b: Backend) -> Seq<char> {
    match b {
        Backend::Reqwest => seq!['r', 'e', 'q', 'w', 'e', 's', 't'],
        Backend::Isahc => seq!['i', 's', 'a', 'h', 'c'],
        Backend::Surf => seq!['s', 'u', 'r', 'f'],
    }
}

/// The suffix of the descriptive alias of each name (`reqwestlike`, ...).
pub open spec fn like_suffix() -> Seq<char> {
    seq!['l', 'i', 'k', 'e']
}

/// Whether a normalised name designates `b`: its canonical name or that name
/// followed by `like`.
pub open spec fn designates(s: Seq<char>, b: Backend) -> bool {
    s == name_spec(b) || s == name_spec(b) + like_suffix()
}

/// The backend a normalised (trimmed, lower-cased) name selects.
pub open spec fn parse_spec(s: Seq<char>) -> Result<Backend, ConfigError> {
    if designates(s, Backend::Reqwest) {
        Ok(Backend::Reqwest)
    } else if designates(s, Backend::Isahc) {
        Ok(Backend::Isahc)
    } else if designates(s, Backend::Surf) {
        Ok(Backend::Surf)
    } else {
        Err(ConfigError::UnknownBackend)
    }
}

/// What `str::trim` returns for a string: it removes leading and trailing
/// white space.
pub uninterp spec fn trimmed_of(s: Seq<char>) -> Seq<char>;

/// What `str::to_lowercase` returns for a string.
pub uninterp spec fn lower_of(s: Seq<char>) -> Seq<char>;

/// Relies on `str::trim`: the result is a function of the characters alone,
/// and an empty string stays empty.
#[verifier::external_body]
fn trim(s: &str) -> (r: &str)
    ensures
        r@ == trimmed_of(s@),
        s@.len() == 0 ==> r@.len() == 0,
{
    s.trim()
}

/// Relies on `str::to_lowercase`: the result is a function of the characters
/// alone, and an empty string stays empty.
#[verifier::external_body]
fn to_lowercase(s: &str) -> (r: String)
    ensures
        r@ == lower_of(s@),
        s@.len() == 0 ==> r@.len() == 0,
{
    s.to_lowercase()
}

/// Whether `s` holds the characters of `lit` followed by those of `tail`.
fn holds_concat(s: &str, lit: &str, tail: &str) -> (r: bool)
    ensures
        r == (s@ == lit@ + tail@),
{
    let n = s.unicode_len();
    let a = lit.unicode_len();
    let b = tail.unicode_len();
    if a > n || n - a != b {
        proof {
            if s@ == lit@ + tail@ {
                assert(s@.len() == lit@.len() + tail@.len());
            }
        }
        return false;
    }
    let mut i: usize = 0;
    while i < n
        invariant
            n == s@.len(),
            a == lit@.len(),
            b == tail@.len(),
            n == a + b,
            i <= n,
            forall|j: int| 0 <= j < i ==> s@[j] == (lit@ + tail@)[j],
        decreases n - i,
    {
        let c = s.get_char(i);
        let d = if i < a {
            lit.get_char(i)
        } else {
            tail.get_char(i - a)
        };
        if c != d {
            assert(s@[i as int] != (lit@ + tail@)[i as int]);
            return false;
        }
        i = i + 1;
    }
    assert(s@ =~= lit@ + tail@);
    true
}

impl Backend {
    /// The canonical name of the backend, which also names its child span.
    pub fn name(&self) -> (r: &'static str)
        ensures
            r@ == name_spec(*self),
    {
        proof {
            reveal_strlit("reqwest");
            reveal_strlit("isahc");
            reveal_strlit("surf");
        }
        match self {
            Backend::Reqwest => "reqwest",
            Backend::Isahc => "isahc",
            Backend::Surf => "surf",
        }
    }

    /// Whether the normalised name `s` designates this backend.
    pub fn is_designated_by(&self, s: &str) -> (r: bool)
        ensures
            r == designates(s@, *self),
    {
        let n = self.name();
        proof {
            reveal_strlit("");
            reveal_strlit("like");
        }
        assert(name_spec(*self) + ""@ =~= name_spec(*self));
        assert("like"@ =~= like_suffix());
        holds_concat(s, n, "") || holds_concat(s, n, "like")
    }
}

/// Selects the backend that an already trimmed and lower-cased name designates.
pub fn select_normalized(s: &str) -> (r: Result<Backend, ConfigError>)
    ensures
        r == parse_spec(s@),
{
    if Backend::Reqwest.is_designated_by(s) {
        Ok(Backend::Reqwest)
    } else if Backend::Isahc.is_designated_by(s) {
        Ok(Backend::Isahc)
    } else if Backend::Surf.is_designated_by(s) {
        Ok(Backend::Surf)
    } else {
        Err(ConfigError::UnknownBackend)
    }
}

/// Selects the backend a configured name designates, ignoring surrounding
/// white space and letter case.
pub fn select(name: &str) -> (r: Result<Backend, ConfigError>)
    ensures
        r == parse_spec(lower_of(trimmed_of(name@))),
{
    let t = trim(name);
    let l = to_lowercase(t);
    select_normalized(l.as_str())
}

} // verus!
