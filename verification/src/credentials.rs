//! The credential resolver.  Library-mediated network operations are
//! authenticated through an ordered chain of candidate methods, tried one
//! by one on each authentication challenge until one succeeds or all are
//! exhausted: first an SSH-agent key for the username taken from the
//! remote URL (with a fixed fallback identity), then the platform default
//! credential lookup.  The resolver performs no I/O itself; the host hands
//! each candidate to the network call and reports back.

use vstd::prelude::*;
use crate::outcome::{FailureKind, VcsFailure};
use crate::text::{contains_sub, contains_at, starts_with, first_index_of, first_match_index,
    lemma_first_index_of, find_char, find_first_match, starts_with_str};

verus! {

/// One candidate authentication method.
#[derive(Clone, Debug)]
pub enum Credential {
    /// An SSH-agent-backed key for the given username.
    SshAgent { username: String },
    /// The platform default credential lookup.
    DefaultHelper,
}

/// The user-info component of a remote URL: the part of the authority
/// before `@`, itself cut at the first `:`.  The authority is what stands
/// between a `://` separator (when there is one) and the next `/`.
/// A URL without user-info yields the fixed fallback identity `git`.
pub open spec fn username_of_url(url: Seq<char>) -> Seq<char> {
    let k = first_match_index(url, "://"@);
    let rest = if k >= 0 {
        url.subrange(k + 3, url.len() as int)
    } else {
        url
    };
    let slash = first_index_of(rest, '/');
    let auth = if slash >= 0 {
        rest.subrange(0, slash)
    } else {
        rest
    };
    let at = first_index_of(auth, '@');
    if at >= 0 {
        let userinfo = auth.subrange(0, at);
        let colon = first_index_of(userinfo, ':');
        if colon >= 0 {
            userinfo.subrange(0, colon)
        } else {
            userinfo
        }
    } else {
        "git"@
    }
}

/// Extracts the username of a remote URL, defaulting to `git`.
pub fn username_from_url(url: &str) -> (u: String)
    ensures
        u@ == username_of_url(url@),
{
    let len: usize = url.unicode_len();
    let sep = find_first_match(url, "://");
    let rest: String = match sep {
        Some(k) => {
            proof {
                reveal_strlit("://");
                crate::text::lemma_first_match_index(url@, "://"@);
            }
            String::from_str(url.substring_char(k + 3, len))
        },
        None => {
            proof {
                assert(url@.subrange(0, len as int) =~= url@);
            }
            String::from_str(url.substring_char(0, len))
        },
    };
    let slash = find_char(rest.as_str(), '/');
    proof {
        lemma_first_index_of(rest@, '/');
    }
    let auth: String = match slash {
        Some(i) => String::from_str(rest.as_str().substring_char(0, i)),
        None => {
            proof {
                assert(rest@.subrange(0, rest@.len() as int) =~= rest@);
            }
            rest.clone()
        },
    };
    let at = find_char(auth.as_str(), '@');
    proof {
        lemma_first_index_of(auth@, '@');
    }
    match at {
        Some(i) => {
            let userinfo = String::from_str(auth.as_str().substring_char(0, i));
            let colon = find_char(userinfo.as_str(), ':');
            proof {
                lemma_first_index_of(userinfo@, ':');
            }
            match colon {
                Some(c) => String::from_str(userinfo.as_str().substring_char(0, c)),
                None => {
                    proof {
                        assert(userinfo@.subrange(0, userinfo@.len() as int) =~= userinfo@);
                    }
                    userinfo
                },
            }
        },
        None => {
            proof {
                lemma_first_index_of(auth@, '@');
            }
            String::from_str("git")
        },
    }
}

/// The chain of candidate credentials for a network operation against the
/// given remote URL: the SSH-agent key for the URL's username first, the
/// platform default lookup second, and nothing else.
pub fn credential_chain(url: &str) -> (chain: Vec<Credential>)
    ensures
        chain@.len() == 2,
        chain@[0] matches Credential::SshAgent { username } && username@ == username_of_url(url@),
        chain@[1] is DefaultHelper,
{
    let username = username_from_url(url);
    let mut chain: Vec<Credential> = Vec::new();
    chain.push(Credential::SshAgent { username });
    chain.push(Credential::DefaultHelper);
    chain
}

/// One step of the challenge callback: the candidate for the given attempt
/// number, or nothing when the chain is exhausted.
pub fn next_credential<'a>(chain: &'a Vec<Credential>, attempt: usize) -> (r: Option<
    &'a Credential,
>)
    ensures
        attempt < chain@.len() ==> (r matches Some(c) && *c == chain@[attempt as int]),
        attempt >= chain@.len() ==> r is None,
{
    if attempt < chain.len() {
        Some(&chain[attempt])
    } else {
        None
    }
}

/// The guidance given when every credential candidate was rejected.
pub fn auth_guidance() -> (g: String)
    ensures
        g@ == auth_guidance_text(),
{
    String::from_str(
        "cache credentials by running one fetch with the command-line client, switch the remote URL between ssh and https, or configure a credential helper",
    )
}

/// The fixed guidance text named by `auth_guidance`.
pub open spec fn auth_guidance_text() -> Seq<char> {
    "cache credentials by running one fetch with the command-line client, switch the remote URL between ssh and https, or configure a credential helper"@
}

/// The terminal authentication failure after the chain is exhausted: its
/// message names the remote URL and carries the guidance text.
pub fn exhausted_chain_failure(url: &str) -> (f: VcsFailure)
    ensures
        f.kind == FailureKind::Authentication,
        contains_sub(f.message@, url@),
        contains_sub(f.message@, auth_guidance_text()),
{
    let mut m = String::from_str("authentication failed for remote '");
    m.append(url);
    m.append("': every credential candidate was rejected; ");
    let guidance = auth_guidance();
    m.append(guidance.as_str());
    proof {
        let a = "authentication failed for remote '"@;
        let b = "': every credential candidate was rejected; "@;
        let p: int = a.len() as int;
        let q: int = (a.len() + url@.len() + b.len()) as int;
        assert(m@.subrange(p, p + url@.len()) =~= url@);
        assert(contains_at(m@, url@, p));
        assert(m@.subrange(q, q + auth_guidance_text().len()) =~= auth_guidance_text());
        assert(contains_at(m@, auth_guidance_text(), q));
    }
    VcsFailure::new(FailureKind::Authentication, m)
}

/// The diagnostic classification of a remote URL's scheme.
#[derive(PartialEq, Eq, Structural, Clone, Copy, Debug)]
pub enum UrlScheme {
    Ssh,
    Https,
    Unknown,
}

/// The scheme of a URL, for diagnostics: `ssh://` and the conventional
/// `git@` form are SSH, `https://` and `http://` are HTTPS, anything else
/// is unknown.
pub open spec fn scheme_of(url: Seq<char>) -> UrlScheme {
    if starts_with(url, "ssh://"@) || starts_with(url, "git@"@) {
        UrlScheme::Ssh
    } else if starts_with(url, "https://"@) || starts_with(url, "http://"@) {
        UrlScheme::Https
    } else {
        UrlScheme::Unknown
    }
}

/// Classifies a remote URL's scheme.
pub fn classify_url_scheme(url: &str) -> (s: UrlScheme)
    ensures
        s == scheme_of(url@),
{
    if starts_with_str(url, "ssh://") || starts_with_str(url, "git@") {
        UrlScheme::Ssh
    } else if starts_with_str(url, "https://") || starts_with_str(url, "http://") {
        UrlScheme::Https
    } else {
        UrlScheme::Unknown
    }
}

} // verus!
