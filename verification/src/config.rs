//! Startup configuration: which of the two modes the process runs in, and
//! the immutable bind descriptor each mode works from. Reading the actual
//! environment happens outside the library; the values arrive here as plain
//! strings.

use vstd::prelude::*;

verus! {

use vstd::string::StrSliceExecFns;
use vstd::string::StringExecFns;

/// The runtime mode an environment signal selects.
pub enum Env {
    Development,
    Production,
}

/// The mode a signal string names: the production spellings select
/// production, everything else falls back to development.
pub open spec fn spec_env_of(s: Seq<char>) -> Env {
    if s == "production"@ || s == "prod"@ {
        Env::Production
    } else {
        Env::Development
    }
}

impl Env {
    /// Reads a mode name, defaulting to development for anything
    /// unrecognised.
    pub fn from_name(s: &str) -> (r: Env)
        ensures
            r == spec_env_of(s@),
    {
        if str_eq(s, "production") || str_eq(s, "prod") {
            Env::Production
        } else {
            Env::Development
        }
    }
}

/// The immutable bind descriptor, built once at startup and never mutated:
/// a bare address in development, address plus TLS material paths in
/// production.
pub enum Config {
    Development { url: String },
    Production { url: String, cert_file: String, private_key_file: String },
}

/// A bind address with any `http://` or `https://` prefix taken off.
pub open spec fn spec_strip_scheme(u: Seq<char>) -> Seq<char> {
    if spec_starts_with(u, "http://"@) {
        u.subrange("http://"@.len() as int, u.len() as int)
    } else if spec_starts_with(u, "https://"@) {
        u.subrange("https://"@.len() as int, u.len() as int)
    } else {
        u
    }
}

/// Whether `s` begins with the whole of `p`.
pub open spec fn spec_starts_with(s: Seq<char>, p: Seq<char>) -> bool {
    p.len() <= s.len() && s.subrange(0, p.len() as int) == p
}

impl Config {
    /// The development descriptor: the supplied address, or the fixed
    /// default when the environment named none.
    pub fn development(url: Option<String>) -> (c: Config)
        ensures
            (c matches Config::Development { url: u } && u@ == (match url {
                Some(s) => s@,
                None => "localhost:3000"@,
            })),
    {
        match url {
            Some(s) => Config::Development { url: s },
            None => Config::Development { url: String::from_str("localhost:3000") },
        }
    }

    /// The production descriptor: the address is kept with its scheme
    /// prefix stripped, the two file paths are kept as given. That every
    /// required value is present is the caller's business; none has a
    /// default here.
    pub fn production(url: String, cert_file: String, private_key_file: String) -> (c: Config)
        ensures
            (c matches Config::Production { url: u, cert_file: cf, private_key_file: kf }
                && u@ == spec_strip_scheme(url@) && cf@ == cert_file@ && kf@
                == private_key_file@),
    {
        let stripped: String = strip_scheme(url.as_str());
        Config::Production { url: stripped, cert_file, private_key_file }
    }
}

/// Takes a leading `http://` or `https://` off a bind address.
fn strip_scheme(url: &str) -> (r: String)
    ensures
        r@ == spec_strip_scheme(url@),
{
    let n: usize = url.unicode_len();
    if starts_with_str(url, "http://") {
        proof {
            reveal_strlit("http://");
        }
        String::from_str(url.substring_char(7, n))
    } else if starts_with_str(url, "https://") {
        proof {
            reveal_strlit("https://");
        }
        String::from_str(url.substring_char(8, n))
    } else {
        String::from_str(url)
    }
}

/// Whether `s` begins with the whole of `p`, checked character by
/// character.
fn starts_with_str(s: &str, p: &str) -> (r: bool)
    ensures
        r == spec_starts_with(s@, p@),
{
    let sn: usize = s.unicode_len();
    let pn: usize = p.unicode_len();
    if pn > sn {
        return false;
    }
    let mut i: usize = 0;
    while i < pn
        invariant
            i <= pn,
            pn <= sn,
            sn == s@.len(),
            pn == p@.len(),
            forall|j: int| 0 <= j < i ==> s@[j] == p@[j],
        decreases pn - i,
    {
        if s.get_char(i) != p.get_char(i) {
            return false;
        }
        i = i + 1;
    }
    proof {
        assert(s@.subrange(0, p@.len() as int) =~= p@);
    }
    true
}

/// Whether two strings hold the same characters.
fn str_eq(a: &str, b: &str) -> (r: bool)
    ensures
        r == (a@ == b@),
{
    let an: usize = a.unicode_len();
    let bn: usize = b.unicode_len();
    if an != bn {
        return false;
    }
    let mut i: usize = 0;
    while i < an
        invariant
            i <= an,
            an == a@.len(),
            bn == b@.len(),
            an == bn,
            forall|j: int| 0 <= j < i ==> a@[j] == b@[j],
        decreases an - i,
    {
        if a.get_char(i) != b.get_char(i) {
            return false;
        }
        i = i + 1;
    }
    proof {
        assert(a@ =~= b@);
    }
    true
}

} // verus!
