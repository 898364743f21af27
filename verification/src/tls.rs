//! TLS options of a gateway connection.

use vstd::prelude::*;
use vstd::string::*;
use crate::text::opt_view;

verus! {

/// TLS material and credentials that a gateway connection uses.
#[derive(Debug, Clone)]
pub struct TlsOptions {
    /// Path of the CA certificate, where one was named explicitly.
    pub ca: Option<String>,
    /// Path of the client certificate, where one was named explicitly.
    pub cert: Option<String>,
    /// Path of the client key, where one was named explicitly.
    pub key: Option<String>,
    /// Cluster whose stored TLS material is used by default.
    pub cluster_name: Option<String>,
    /// Token presented to an authenticating edge proxy.
    pub edge_token: Option<String>,
}

impl Default for TlsOptions {
    /// No path, no cluster and no token.
    fn default() -> (options: Self)
        ensures
            options == (TlsOptions {
                ca: None,
                cert: None,
                key: None,
                cluster_name: None,
                edge_token: None,
            }),
    {
        TlsOptions { ca: None, cert: None, key: None, cluster_name: None, edge_token: None }
    }
}

impl TlsOptions {
    /// Options with the given explicit paths.
    pub fn new(ca: Option<String>, cert: Option<String>, key: Option<String>) -> (options: Self)
        ensures
            options == (TlsOptions { ca, cert, key, cluster_name: None, edge_token: None }),
    {
        TlsOptions { ca, cert, key, cluster_name: None, edge_token: None }
    }

    /// Some TLS path was named explicitly.
    pub open spec fn explicit(&self) -> bool {
        self.ca is Some || self.cert is Some || self.key is Some
    }

    /// Whether some TLS path was named explicitly.
    pub fn has_any(&self) -> (any: bool)
        ensures
            any == self.explicit(),
    {
        self.ca.is_some() || self.cert.is_some() || self.key.is_some()
    }

    /// Set the cluster whose stored TLS material is used by default.
    #[must_use]
    pub fn with_cluster_name(self, name: &str) -> (options: Self)
        ensures
            opt_view(options.cluster_name) == Some(name@),
            options == (TlsOptions { cluster_name: options.cluster_name, ..self }),
    {
        TlsOptions { cluster_name: Some(name.to_owned()), ..self }
    }
}

/// TLS options are explicit exactly where one of the three paths was named: any one
/// of them is enough, and neither a cluster nor a token counts.
pub proof fn law_one_path_is_enough(options: TlsOptions)
    ensures
        options.ca is Some ==> options.explicit(),
        options.cert is Some ==> options.explicit(),
        options.key is Some ==> options.explicit(),
        options.ca is None && options.cert is None && options.key is None ==> !options.explicit(),
{
}

} // verus!
