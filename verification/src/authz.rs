//! The authorization engine: value types for authorization rules (client
//! networks plus an authentication requirement) and the pure, deterministic
//! test of one rule against a client address and TLS state.

use vstd::prelude::*;
use crate::addr::{Ip, SockAddr};

verus! {

/// A CIDR network prefix: an address and a prefix length. A prefix length of
/// zero admits every address of the family; one at or beyond the address
/// width admits exactly the one address.
#[derive(Clone, Copy, Debug, PartialEq, Eq, Hash, Structural)]
pub enum Network {
    V4 { addr: u32, prefix: u8 },
    V6 { addr: u128, prefix: u8 },
}

impl Network {
    /// Whether `ip` falls within this network prefix. An address of the other
    /// family never matches.
    pub open spec fn spec_contains(self, ip: Ip) -> bool {
        match (self, ip) {
            (Network::V4 { addr, prefix }, Ip::V4(a)) => {
                if prefix == 0 {
                    true
                } else if prefix >= 32 {
                    addr == a
                } else {
                    addr >> (32 - prefix as u32) == a >> (32 - prefix as u32)
                }
            },
            (Network::V6 { addr, prefix }, Ip::V6(a)) => {
                if prefix == 0 {
                    true
                } else if prefix >= 128 {
                    addr == a
                } else {
                    addr >> (128 - prefix as u32) == a >> (128 - prefix as u32)
                }
            },
            _ => false,
        }
    }

    /// CIDR containment: the high `prefix` bits of `ip` equal those of the
    /// network address.
    pub fn contains(&self, ip: Ip) -> (r: bool)
        ensures
            r == self.spec_contains(ip),
    {
        match (*self, ip) {
            (Network::V4 { addr, prefix }, Ip::V4(a)) => {
                if prefix == 0 {
                    true
                } else if prefix >= 32 {
                    addr == a
                } else {
                    let sh: u32 = 32 - prefix as u32;
                    (addr >> sh) == (a >> sh)
                }
            },
            (Network::V6 { addr, prefix }, Ip::V6(a)) => {
                if prefix == 0 {
                    true
                } else if prefix >= 128 {
                    addr == a
                } else {
                    let sh: u32 = 128 - prefix as u32;
                    (addr >> sh) == (a >> sh)
                }
            },
            _ => false,
        }
    }
}

/// An identity suffix, compared by trailing DNS labels: the suffix
/// `example.com` matches the identities `example.com` and `foo.example.com`
/// but not `notexample.com`. An empty suffix matches every identity.
#[derive(Clone, Debug)]
pub struct Suffix {
    pub text: String,
}

/// Whether identity `id` matches the suffix `sfx` by trailing labels: `id`
/// is `sfx` itself, or ends with `.` followed by `sfx`. An empty suffix
/// matches everything.
pub open spec fn suffix_matches(sfx: Seq<char>, id: Seq<char>) -> bool {
    ||| sfx.len() == 0
    ||| id == sfx
    ||| {
        &&& id.len() > sfx.len()
        &&& id[id.len() - sfx.len() - 1] == '.'
        &&& id.subrange(id.len() - sfx.len(), id.len() as int) == sfx
    }
}

impl Suffix {
    /// Builds the suffix that matches `text` and any identity ending with
    /// `.` followed by `text`.
    pub fn new(text: String) -> (r: Suffix)
        ensures
            r.text@ == text@,
    {
        Suffix { text }
    }

    /// The view of the suffix: its character sequence.
    pub open spec fn view(&self) -> Seq<char> {
        self.text@
    }

    /// Trailing-label comparison of a presented identity against this suffix.
    pub fn contains(&self, id: &str) -> (r: bool)
        ensures
            r == suffix_matches(self.text@, id@),
    {
        let sl: usize = self.text.as_str().unicode_len();
        let il: usize = id.unicode_len();
        if sl == 0 {
            return true;
        }
        if il == sl {
            let mut i: usize = 0;
            while i < sl
                invariant
                    sl == self.text@.len(),
                    il == id@.len(),
                    il == sl,
                    i <= sl,
                    forall|k: int| 0 <= k < i ==> self.text@[k] == id@[k],
                decreases sl - i,
            {
                if self.text.as_str().get_char(i) != id.get_char(i) {
                    return false;
                }
                i += 1;
            }
            assert(id@ =~= self.text@);
            return true;
        }
        if il > sl {
            if id.get_char(il - sl - 1) != '.' {
                return false;
            }
            let start: usize = il - sl;
            let mut i: usize = 0;
            while i < sl
                invariant
                    sl == self.text@.len(),
                    il == id@.len(),
                    il > sl,
                    start == il - sl,
                    i <= sl,
                    forall|k: int| 0 <= k < i ==> id@[start + k] == self.text@[k],
                decreases sl - i,
            {
                if id.get_char(start + i) != self.text.as_str().get_char(i) {
                    return false;
                }
                i += 1;
            }
            assert(id@.subrange(start as int, il as int) =~= self.text@);
            return true;
        }
        false
    }
}

/// The authentication requirement of one authorization rule.
#[derive(Clone, Debug)]
pub enum Authentication {
    /// No requirement at all: any connection, with or without TLS.
    Unauthenticated,
    /// TLS must have been established; no client identity is required.
    TlsUnauthenticated,
    /// TLS must have been established with a verified client identity that
    /// either exactly equals one of `identities` or matches one of
    /// `suffixes` by trailing labels.
    TlsAuthenticated { identities: Vec<String>, suffixes: Vec<Suffix> },
}

/// The TLS state of one inbound connection, as the transport layer saw it.
#[derive(Clone, Debug)]
pub enum TlsState {
    /// No TLS was attempted on the connection.
    NoTls,
    /// TLS was attempted but not terminated here.
    Attempted,
    /// TLS was established, possibly carrying a verified client identity.
    Established { client_id: Option<String> },
}

/// Whether `id` exactly equals a member of `ids`.
pub open spec fn identity_in(ids: Seq<String>, id: Seq<char>) -> bool {
    exists|i: int| 0 <= i < ids.len() && ids[i]@ == id
}

/// Whether `id` matches a member of `sfxs` by trailing labels.
pub open spec fn suffix_in(sfxs: Seq<Suffix>, id: Seq<char>) -> bool {
    exists|i: int| 0 <= i < sfxs.len() && suffix_matches(sfxs[i]@, id)
}

/// The authentication test of one rule against one TLS state.
pub open spec fn authn_matches(authn: Authentication, tls: TlsState) -> bool {
    match authn {
        Authentication::Unauthenticated => true,
        Authentication::TlsUnauthenticated => tls is Established,
        Authentication::TlsAuthenticated { identities, suffixes } => match tls {
            TlsState::Established { client_id: Some(id) } => {
                identity_in(identities@, id@) || suffix_in(suffixes@, id@)
            },
            _ => false,
        },
    }
}

/// One authorization rule: a set of allowed client networks, an
/// authentication requirement, and the rule's resource identity for labels.
#[derive(Clone, Debug)]
pub struct Authorization {
    pub networks: Vec<Network>,
    pub authentication: Authentication,
    pub kind: String,
    pub name: String,
}

/// Whether `ip` is contained in at least one of `nets`.
pub open spec fn network_allows(nets: Seq<Network>, ip: Ip) -> bool {
    exists|i: int| 0 <= i < nets.len() && nets[i].spec_contains(ip)
}

/// The full test of one authorization rule: the client address must fall in
/// one of the rule's networks, and the connection's TLS state must satisfy
/// the rule's authentication requirement.
pub open spec fn spec_is_authorized(authz: Authorization, client_addr: SockAddr, tls: TlsState) -> bool {
    network_allows(authz.networks@, client_addr.ip) && authn_matches(authz.authentication, tls)
}

/// Evaluates one authorization rule against a client address and TLS state.
/// The network test short-circuits: authentication is not consulted when no
/// network contains the client.
#[verifier::loop_isolation(false)]
pub fn is_authorized(authz: &Authorization, client_addr: SockAddr, tls: &TlsState) -> (r: bool)
    ensures
        r == spec_is_authorized(*authz, client_addr, *tls),
{
    let mut in_network = false;
    let mut i: usize = 0;
    while i < authz.networks.len()
        invariant
            i <= authz.networks@.len(),
            in_network == exists|j: int| 0 <= j < i && authz.networks@[j].spec_contains(client_addr.ip),
        decreases authz.networks@.len() - i,
    {
        if authz.networks[i].contains(client_addr.ip) {
            in_network = true;
        }
        i += 1;
    }
    if !in_network {
        return false;
    }

    match &authz.authentication {
        Authentication::Unauthenticated => true,

        Authentication::TlsUnauthenticated => match tls {
            TlsState::Established { .. } => true,
            _ => false,
        },

        Authentication::TlsAuthenticated { identities, suffixes } => match tls {
            TlsState::Established { client_id: Some(id) } => {
                let mut found = false;
                let mut j: usize = 0;
                while j < identities.len()
                    invariant
                        j <= identities@.len(),
                        found == exists|k: int| 0 <= k < j && identities@[k]@ == id@,
                    decreases identities@.len() - j,
                {
                    if identities[j] == *id {
                        found = true;
                    }
                    j += 1;
                }
                if found {
                    return true;
                }
                let mut m: usize = 0;
                while m < suffixes.len()
                    invariant
                        m <= suffixes@.len(),
                        !found,
                        found == exists|k: int| 0 <= k < m && suffix_matches(suffixes@[k]@, id@),
                    decreases suffixes@.len() - m,
                {
                    if suffixes[m].contains(id.as_str()) {
                        assert(suffix_matches(suffixes@[m as int]@, id@));
                        return true;
                    }
                    m += 1;
                }
                false
            },
            _ => false,
        },
    }
}

/// `Unauthenticated` passes for every TLS state, including one where no TLS
/// was attempted.
pub proof fn lemma_unauthenticated_passes(tls: TlsState)
    ensures
        authn_matches(Authentication::Unauthenticated, tls),
{
}

/// `TlsUnauthenticated` passes exactly when TLS was established, whatever
/// identity was or was not presented.
pub proof fn lemma_tls_unauthenticated_iff_established(tls: TlsState)
    ensures
        authn_matches(Authentication::TlsUnauthenticated, tls) <==> tls is Established,
{
}

/// `TlsAuthenticated` passes exactly when TLS was established with a
/// presented identity that equals a configured identity or matches a
/// configured suffix by trailing labels; in particular it fails whenever no
/// identity was presented, even over established TLS.
pub proof fn lemma_tls_authenticated(identities: Vec<String>, suffixes: Vec<Suffix>, tls: TlsState)
    ensures
        authn_matches(Authentication::TlsAuthenticated { identities, suffixes }, tls) <==> (match tls {
            TlsState::Established { client_id: Some(id) } => {
                identity_in(identities@, id@) || suffix_in(suffixes@, id@)
            },
            _ => false,
        }),
        (tls matches TlsState::Established { client_id } && client_id is None) ==> !authn_matches(
            Authentication::TlsAuthenticated { identities, suffixes },
            tls,
        ),
{
}

} // verus!
