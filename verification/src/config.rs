//! Connection settings and credentials for the registries a client can
//! reach.  Loading them from a file, and parsing TLS key material, is
//! I/O and stays outside this library; these types carry the values.

use vstd::prelude::*;

verus! {

/// Paths to the client certificate chain and client key PEM files.
#[derive(Debug, PartialEq, Eq, Clone)]
pub struct EppClientTlsFiles {
    /// The full client certificate chain, in PEM format.
    pub cert_chain: String,
    /// The private key for the certificate.
    pub key: String,
}

/// What is needed to connect to and authenticate with one registry.
#[derive(Debug, PartialEq, Eq, Clone)]
pub struct EppClientConnection {
    pub host: String,
    pub port: u16,
    pub username: String,
    pub password: String,
    pub ext_uris: Option<Vec<String>>,
    pub tls_files: Option<EppClientTlsFiles>,
}

/// Settings for any number of registries, each under a name.
#[derive(Debug, PartialEq, Eq)]
pub struct EppClientConfig {
    /// The registries, by name, in the order the configuration gave
    /// them.
    pub registry: Vec<(String, EppClientConnection)>,
}

impl EppClientConnection {
    /// The host and port to connect to.
    pub fn connection_details(&self) -> (r: (String, u16))
        ensures
            r.0@ == self.host@,
            r.1 == self.port,
    {
        (String::from_str(self.host.as_str()), self.port)
    }

    /// The username and password to authenticate with.
    pub fn credentials(&self) -> (r: (String, String))
        ensures
            r.0@ == self.username@,
            r.1@ == self.password@,
    {
        (String::from_str(self.username.as_str()), String::from_str(self.password.as_str()))
    }

    /// The service extension URIs to announce at login.
    pub fn ext_uris(&self) -> (r: Option<&Vec<String>>)
        ensures
            match r {
                Some(v) => self.ext_uris matches Some(u) && v == u,
                None => self.ext_uris is None,
            },
    {
        self.ext_uris.as_ref()
    }

    /// The TLS certificate and key file paths, when client TLS
    /// authentication is configured.
    pub fn tls_files(&self) -> (r: Option<&EppClientTlsFiles>)
        ensures
            match r {
                Some(t) => self.tls_files matches Some(u) && t == u,
                None => self.tls_files is None,
            },
    {
        self.tls_files.as_ref()
    }
}

/// The connection stored under `name`, front to back.
pub open spec fn spec_registry_lookup(
    entries: Seq<(String, EppClientConnection)>,
    name: Seq<char>,
) -> Option<EppClientConnection>
    decreases entries.len(),
{
    if entries.len() == 0 {
        None
    } else if entries[0].0@ == name {
        Some(entries[0].1)
    } else {
        spec_registry_lookup(entries.drop_first(), name)
    }
}

proof fn lemma_registry_lookup_first(
    entries: Seq<(String, EppClientConnection)>,
    name: Seq<char>,
    i: int,
)
    requires
        0 <= i <= entries.len(),
        forall|j: int| 0 <= j < i ==> (#[trigger] entries[j]).0@ != name,
        i < entries.len() ==> entries[i].0@ == name,
    ensures
        spec_registry_lookup(entries, name) == if i < entries.len() {
            Some(entries[i].1)
        } else {
            None::<EppClientConnection>
        },
    decreases entries.len(),
{
    if entries.len() == 0 {
    } else if i == 0 {
    } else {
        lemma_registry_lookup_first(entries.drop_first(), name, i - 1);
    }
}

impl EppClientConfig {
    /// The settings of the named registry.
    #[verifier::loop_isolation(false)]
    pub fn registry(&self, registry: &str) -> (r: Option<&EppClientConnection>)
        ensures
            match r {
                Some(c) => spec_registry_lookup(self.registry@, registry@) == Some(*c),
                None => spec_registry_lookup(self.registry@, registry@) is None,
            },
    {
        let mut i: usize = 0;
        while i < self.registry.len()
            invariant
                0 <= i <= self.registry.len(),
                forall|j: int| 0 <= j < i ==> (#[trigger] self.registry@[j]).0@ != registry@,
            decreases self.registry.len() - i,
        {
            if crate::xml::str_eq(self.registry[i].0.as_str(), registry) {
                proof {
                    lemma_registry_lookup_first(self.registry@, registry@, i as int);
                }
                return Some(&self.registry[i].1);
            }
            i = i + 1;
        }
        proof {
            lemma_registry_lookup_first(self.registry@, registry@, self.registry.len() as int);
        }
        None
    }
}

} // verus!
