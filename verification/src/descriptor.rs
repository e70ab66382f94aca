//! Destination descriptors and their resolution.
//!
//! A destination is written `scheme://authority/path`: the scheme selects
//! the storage backend, the authority names the backend-specific root
//! (for example a bucket), and the path — possibly empty — addresses an
//! object under that root. The resolver splits a descriptor into a
//! backend key (scheme and authority, without the path) and the relative
//! path, and checks the scheme against the registered backends.
use vstd::prelude::*;

use crate::text::str_eq;

verus! {

/// Index of the first occurrence of `c` in `s` at or after `from`, or
/// `s.len()` if there is none.
pub open spec fn char_pos(s: Seq<char>, c: char, from: int) -> int
    decreases s.len() - from,
{
    if from < 0 || from >= s.len() {
        s.len() as int
    } else if s[from] == c {
        from
    } else {
        char_pos(s, c, from + 1)
    }
}

/// A scan that saw no `c` in `[from, p)` and either the end of `s` or a
/// `c` at `p` has found exactly `char_pos(s, c, from)`.
proof fn lemma_char_pos_found(s: Seq<char>, c: char, from: int, p: int)
    requires
        0 <= from <= p <= s.len(),
        forall|k: int| from <= k < p ==> s[k] != c,
        p == s.len() || s[p] == c,
    ensures
        char_pos(s, c, from) == p,
    decreases p - from,
{
    if from < p {
        lemma_char_pos_found(s, c, from + 1, p);
    }
}

/// The first occurrence never lies before the start of the scan.
proof fn lemma_char_pos_ge_from(s: Seq<char>, c: char, from: int)
    requires
        0 <= from <= s.len(),
    ensures
        char_pos(s, c, from) >= from,
    decreases s.len() - from,
{
    if from < s.len() && s[from] != c {
        lemma_char_pos_ge_from(s, c, from + 1);
    }
}

/// No `c` in `[from, p)` pushes the first occurrence to `p` or beyond.
proof fn lemma_char_pos_at_least(s: Seq<char>, c: char, from: int, p: int)
    requires
        0 <= from <= p <= s.len(),
        forall|k: int| from <= k < p ==> s[k] != c,
    ensures
        char_pos(s, c, from) >= p,
    decreases p - from,
{
    if from < p {
        lemma_char_pos_at_least(s, c, from + 1, p);
    } else {
        lemma_char_pos_ge_from(s, c, from);
    }
}

/// An occurrence of `c` at `k` bounds the first occurrence from above.
proof fn lemma_char_pos_at_most(s: Seq<char>, c: char, from: int, k: int)
    requires
        0 <= from <= k < s.len(),
        s[k] == c,
    ensures
        char_pos(s, c, from) <= k,
    decreases k - from,
{
    if from < k && s[from] != c {
        lemma_char_pos_at_most(s, c, from + 1, k);
    }
}

/// A structured destination: where a result should be delivered.
#[derive(Clone, Debug)]
pub struct Descriptor {
    /// Backend-selecting scheme, e.g. `s3` or `fs`.
    pub scheme: String,
    /// Backend-specific root identity, e.g. a bucket name.
    pub authority: String,
    /// Object path under the root; empty denotes the root itself.
    pub path: String,
}

/// Whether `s` is a well-formed descriptor text: a non-empty scheme that
/// contains neither `:` nor `/`, then `://`, then the authority up to the
/// next `/` (or the end), then the path.
pub open spec fn parse_ok(s: Seq<char>) -> bool {
    let i = char_pos(s, ':', 0);
    &&& 1 <= i
    &&& i + 3 <= s.len()
    &&& s[i + 1] == '/'
    &&& s[i + 2] == '/'
    &&& char_pos(s, '/', 0) > i
}

/// The scheme of a well-formed descriptor text.
pub open spec fn parsed_scheme(s: Seq<char>) -> Seq<char> {
    s.subrange(0, char_pos(s, ':', 0))
}

/// The authority of a well-formed descriptor text.
pub open spec fn parsed_authority(s: Seq<char>) -> Seq<char> {
    let i = char_pos(s, ':', 0);
    s.subrange(i + 3, char_pos(s, '/', i + 3))
}

/// The path of a well-formed descriptor text: what follows the slash
/// after the authority, empty when there is no such slash or nothing
/// follows it.
pub open spec fn parsed_path(s: Seq<char>) -> Seq<char> {
    let i = char_pos(s, ':', 0);
    let j = char_pos(s, '/', i + 3);
    if j < s.len() {
        s.subrange(j + 1, s.len() as int)
    } else {
        Seq::empty()
    }
}

/// Parses a destination descriptor, accepting exactly the well-formed
/// texts and splitting them into scheme, authority and path.
pub fn parse_descriptor(s: &str) -> (r: Option<Descriptor>)
    ensures
        r is Some <==> parse_ok(s@),
        r matches Some(d) ==> {
            &&& d.scheme@ == parsed_scheme(s@)
            &&& d.authority@ == parsed_authority(s@)
            &&& d.path@ == parsed_path(s@)
        },
{
    let n = s.unicode_len();
    // Scan for the first `:`, rejecting a `/` seen before it.
    let mut i: usize = 0;
    loop
        invariant
            n == s@.len(),
            0 <= i <= n,
            forall|k: int| 0 <= k < i ==> s@[k] != ':' && s@[k] != '/',
        ensures
            0 <= i < n,
            s@[i as int] == ':',
            forall|k: int| 0 <= k < i ==> s@[k] != ':' && s@[k] != '/',
        decreases n - i,
    {
        if i == n {
            proof {
                lemma_char_pos_found(s@, ':', 0, n as int);
            }
            return None;
        }
        let c = s.get_char(i);
        if c == '/' {
            proof {
                lemma_char_pos_at_most(s@, '/', 0, i as int);
                lemma_char_pos_at_least(s@, ':', 0, i as int + 1);
            }
            return None;
        }
        if c == ':' {
            break;
        }
        i += 1;
    }
    proof {
        lemma_char_pos_found(s@, ':', 0, i as int);
        lemma_char_pos_at_least(s@, '/', 0, i as int + 1);
    }
    if i == 0 {
        return None;
    }
    if i >= n - 2 {
        // No room for `//` after the colon.
        return None;
    }
    if s.get_char(i + 1) != '/' || s.get_char(i + 2) != '/' {
        return None;
    }
    // Scan for the `/` that ends the authority.
    let mut j: usize = i + 3;
    loop
        invariant
            n == s@.len(),
            i + 3 <= j <= n,
            forall|k: int| i + 3 <= k < j ==> s@[k] != '/',
        ensures
            i + 3 <= j <= n,
            forall|k: int| i + 3 <= k < j ==> s@[k] != '/',
            j == n || s@[j as int] == '/',
        decreases n - j,
    {
        if j == n || s.get_char(j) == '/' {
            break;
        }
        j += 1;
    }
    proof {
        lemma_char_pos_found(s@, '/', i as int + 3, j as int);
    }
    let scheme = s.substring_char(0, i).to_owned();
    let authority = s.substring_char(i + 3, j).to_owned();
    let path = if j < n {
        s.substring_char(j + 1, n).to_owned()
    } else {
        String::new()
    };
    Some(Descriptor { scheme, authority, path })
}

/// Backend key of a descriptor: its scheme and authority with the path
/// stripped, so that one backend identity can serve many paths.
pub open spec fn backend_key_spec(d: Descriptor) -> Seq<char> {
    d.scheme@ + "://"@ + d.authority@
}

impl Descriptor {
    /// Splits the descriptor into its backend key and its relative path.
    /// The path never reaches the backend factory; it is scoped
    /// separately.
    pub fn split(&self) -> (r: (String, String))
        ensures
            r.0@ == backend_key_spec(*self),
            r.1@ == self.path@,
    {
        let mut key = self.scheme.clone();
        key.append("://");
        key.append(self.authority.as_str());
        (key, self.path.clone())
    }
}

/// Law: resolution is a function of the descriptor alone — any two
/// splits of equal descriptors yield equal (backend key, relative path)
/// pairs.
pub proof fn lemma_resolution_idempotent(
    d1: Descriptor,
    d2: Descriptor,
    r1: (Seq<char>, Seq<char>),
    r2: (Seq<char>, Seq<char>),
)
    requires
        d1.scheme@ == d2.scheme@,
        d1.authority@ == d2.authority@,
        d1.path@ == d2.path@,
        r1.0 == backend_key_spec(d1) && r1.1 == d1.path@,
        r2.0 == backend_key_spec(d2) && r2.1 == d2.path@,
    ensures
        r1 == r2,
{
}

/// The set of schemes for which a storage backend is registered.
/// Resolution of a destination fails exactly when its scheme is not
/// among them.
pub struct Registry {
    pub schemes: Vec<String>,
}

impl Registry {
    /// Whether some registered scheme reads as `scheme`.
    pub open spec fn registers(self, scheme: Seq<char>) -> bool {
        exists|k: int| 0 <= k < self.schemes@.len() && self.schemes@[k]@ == scheme
    }

    /// An empty registry: no scheme resolves.
    pub fn new() -> (r: Registry)
        ensures
            r.schemes@.len() == 0,
            forall|s: Seq<char>| !r.registers(s),
    {
        Registry { schemes: Vec::new() }
    }

    /// Registers one more scheme.
    pub fn register(&mut self, scheme: String)
        ensures
            final(self).schemes@ == old(self).schemes@.push(scheme),
    {
        self.schemes.push(scheme);
    }

    /// Decides whether a scheme has a registered backend.
    pub fn is_registered(&self, scheme: &str) -> (r: bool)
        ensures
            r == self.registers(scheme@),
    {
        let mut k: usize = 0;
        while k < self.schemes.len()
            invariant
                0 <= k <= self.schemes@.len(),
                forall|m: int| 0 <= m < k ==> self.schemes@[m]@ != scheme@,
            decreases self.schemes@.len() - k,
        {
            if str_eq(self.schemes[k].as_str(), scheme) {
                return true;
            }
            k += 1;
        }
        false
    }
}

} // verus!
