//! The process configuration, and what it decides: the listening port, TLS
//! with automatic certificates or plaintext, and the certificate request.
use vstd::prelude::*;

verus! {

/// The port on which the server runs TLS with automatic certificates.
pub const TLS_PORT: u32 = 443;

/// The plaintext port whose requests are redirected while TLS is on.
pub const REDIRECT_PORT: u16 = 80;

/// The largest TCP port.
pub const MAX_PORT: u32 = 65535;

/// The read-only configuration of the process.
pub struct Config {
    /// Root of the web front-end.
    pub front_dir: String,
    /// Root of the model files served under `/models/`.
    pub onnx_dir: String,
    pub port: u32,
    /// Contact address for the certificate authority.
    pub email: String,
    /// The names that the certificate covers, in order.
    pub domains: Vec<String>,
}

/// How the main listener serves.
#[derive(Clone, Copy, Debug, PartialEq, Eq, Structural)]
pub enum ServeMode {
    /// TLS with automatic certificates, plus a plaintext redirect listener.
    Tls { port: u16 },
    /// Plaintext only, and no redirect listener.
    Plain { port: u16 },
}

#[derive(Clone, Copy, Debug, PartialEq, Eq, Structural)]
pub enum ConfigError {
    /// The port is no TCP port.
    InvalidPort,
}

impl ServeMode {
    /// The port of the main listener.
    pub fn port(&self) -> (r: u16)
        ensures
            r == match *self {
                ServeMode::Tls { port } => port,
                ServeMode::Plain { port } => port,
            },
    {
        match *self {
            ServeMode::Tls { port } => port,
            ServeMode::Plain { port } => port,
        }
    }

    /// The port of the redirect listener: port 80 under TLS, none otherwise.
    pub fn redirect_port(&self) -> (r: Option<u16>)
        ensures
            r == (if *self is Tls { Some(REDIRECT_PORT) } else { None::<u16> }),
    {
        match *self {
            ServeMode::Tls { .. } => Some(REDIRECT_PORT),
            ServeMode::Plain { .. } => None,
        }
    }
}

/// Chooses how to serve from the configured port: TLS exactly on port 443,
/// plaintext on any other TCP port, and an error for a number that is no
/// TCP port.
pub fn serve_mode(port: u32) -> (r: Result<ServeMode, ConfigError>)
    ensures
        r is Err <==> port > MAX_PORT,
        r matches Err(e) ==> e == ConfigError::InvalidPort,
        r matches Ok(m) ==> m == if port == TLS_PORT {
            ServeMode::Tls { port: port as u16 }
        } else {
            ServeMode::Plain { port: port as u16 }
        },
{
    if port > MAX_PORT {
        Err(ConfigError::InvalidPort)
    } else if port == TLS_PORT {
        Ok(ServeMode::Tls { port: port as u16 })
    } else {
        Ok(ServeMode::Plain { port: port as u16 })
    }
}

/// The texts of a list of strings.
pub open spec fn texts(v: Seq<String>) -> Seq<Seq<char>> {
    v.map_values(|s: String| s@)
}

/// The certificate request: the names, the contact addresses, the cache
/// directory, whether the production directory of the authority is used,
/// and the application protocols offered during the handshake.
pub struct AcmePlan {
    pub domains: Vec<String>,
    pub contacts: Vec<String>,
    pub cache_dir: String,
    pub production: bool,
    pub alpn_protocols: Vec<Vec<u8>>,
}

/// The contact address as a `mailto:` URI.
pub open spec fn mailto(email: Seq<char>) -> Seq<char> {
    "mailto:"@ + email
}

fn copy_strings(v: &Vec<String>) -> (r: Vec<String>)
    ensures
        texts(r@) == texts(v@),
{
    let mut r: Vec<String> = Vec::new();
    let mut i: usize = 0;
    while i < v.len()
        invariant
            i <= v@.len(),
            texts(r@) == texts(v@.subrange(0, i as int)),
        decreases v@.len() - i,
    {
        r.push(String::from_str(v[i].as_str()));
        i = i + 1;
        assert(texts(v@.subrange(0, i as int)) =~= texts(v@.subrange(0, i - 1)).push(v@[i - 1]@));
        assert(texts(r@) =~= texts(v@.subrange(0, i as int)));
    }
    assert(v@.subrange(0, v@.len() as int) =~= v@);
    r
}

/// The certificate request of a configuration: present exactly when the
/// configured port is the TLS port. It covers the configured names in order,
/// gives the configured address as its one `mailto:` contact, keeps issued
/// certificates in `./cache`, uses the production directory, and offers the
/// single application protocol `h2` (the bytes 104 and 50).
pub fn acme_plan(config: &Config) -> (r: Option<AcmePlan>)
    ensures
        r is Some <==> config.port == TLS_PORT,
        r matches Some(p) ==> {
            &&& texts(p.domains@) == texts(config.domains@)
            &&& texts(p.contacts@) == seq![mailto(config.email@)]
            &&& p.cache_dir@ == "./cache"@
            &&& p.production
            &&& p.alpn_protocols@.len() == 1
            &&& p.alpn_protocols@[0]@ == seq![104u8, 50u8]
        },
{
    if config.port != TLS_PORT {
        return None;
    }
    let mut contact = String::from_str("mailto:");
    contact.append(config.email.as_str());
    let mut contacts: Vec<String> = Vec::new();
    contacts.push(contact);
    assert(texts(contacts@) =~= seq![mailto(config.email@)]);
    let mut alpn: Vec<Vec<u8>> = Vec::new();
    alpn.push(vec![104u8, 50u8]);
    Some(
        AcmePlan {
            domains: copy_strings(&config.domains),
            contacts,
            cache_dir: String::from_str("./cache"),
            production: true,
            alpn_protocols: alpn,
        },
    )
}

} // verus!
