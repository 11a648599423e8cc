//! Server settings: where the server listens and under which name and address it
//! presents itself, where files are kept, and which optional client features are on.

use vstd::prelude::*;
use crate::text::{join2, join3, owned, same_text};

verus! {

/// The largest request body accepted: 20 GiB, the largest upload.
pub const MAX_BODY_BYTES: u64 = 21_474_836_480;

/// The optional client features that can be switched on.
#[derive(Clone, Copy, Debug, PartialEq, Eq, Structural)]
pub struct Features {
    /// A separate client serves the pages; the built-in pages move under `/legacy`.
    pub custom_client: bool,
    /// With a separate client, do not serve the built-in pages at all.
    pub disable_default_client: bool,
}

/// The settings of the server.
#[derive(Clone, Debug)]
pub struct Config {
    pub server_port: String,
    pub server_domain: String,
    pub server_name: String,
    pub root_folder: String,
    pub features: Features,
}

/// `value` when it is set, `default` otherwise.
pub open spec fn setting_or(value: Option<String>, default: Seq<char>) -> Seq<char> {
    match value {
        Some(v) => v@,
        None => default,
    }
}

fn or_default(value: Option<String>, default: &str) -> (r: String)
    ensures
        r@ == setting_or(value, default@),
{
    match value {
        Some(v) => v,
        None => owned(default),
    }
}

impl Config {
    /// The settings made from the configured values (each absent when unset): port 9800,
    /// domain `http://localhost:<port>`, name `Filehost` and folder `files` by default.
    pub fn from_values(
        port: Option<String>,
        domain: Option<String>,
        name: Option<String>,
        root: Option<String>,
        features: Features,
    ) -> (c: Config)
        ensures
            c.server_port@ == setting_or(port, "9800"@),
            c.server_domain@ == setting_or(domain, "http://localhost:"@ + c.server_port@),
            c.server_name@ == setting_or(name, "Filehost"@),
            c.root_folder@ == setting_or(root, "files"@),
            c.features == features,
    {
        let server_port = or_default(port, "9800");
        let server_domain = match domain {
            Some(d) => d,
            None => join2("http://localhost:", server_port.as_str()),
        };
        Config {
            server_port,
            server_domain,
            server_name: or_default(name, "Filehost"),
            root_folder: or_default(root, "files"),
            features,
        }
    }

    /// The address to listen on: every interface, on the configured port.
    pub fn listen_address(&self) -> (r: String)
        ensures
            r@ == "0.0.0.0:"@ + self.server_port@,
    {
        join2("0.0.0.0:", self.server_port.as_str())
    }

    /// The public address of a stored file: `<domain>/<name>`.
    pub fn public_link(&self, name: &str) -> (r: String)
        ensures
            r@ == self.server_domain@ + "/"@ + name@,
    {
        join3(self.server_domain.as_str(), "/", name)
    }
}

impl Features {
    /// The features switched on by these names: `custom_client` and
    /// `disable_default_client`; other names are ignored.
    pub fn from_names(names: &Vec<String>) -> (f: Features)
        ensures
            f.custom_client == exists|i: int| 0 <= i < names.len() && #[trigger] names[i]@ == "custom_client"@,
            f.disable_default_client == exists|i: int|
                0 <= i < names.len() && #[trigger] names[i]@ == "disable_default_client"@,
    {
        let mut custom_client = false;
        let mut disable_default_client = false;
        let mut i: usize = 0;
        while i < names.len()
            invariant
                i <= names.len(),
                custom_client == exists|k: int| 0 <= k < i && #[trigger] names[k]@ == "custom_client"@,
                disable_default_client == exists|k: int|
                    0 <= k < i && #[trigger] names[k]@ == "disable_default_client"@,
            decreases names.len() - i,
        {
            if same_text(names[i].as_str(), "custom_client") {
                custom_client = true;
            }
            if same_text(names[i].as_str(), "disable_default_client") {
                disable_default_client = true;
            }
            i += 1;
        }
        Features { custom_client, disable_default_client }
    }
}

/// Where the built-in pages are served.
#[derive(Clone, Copy, Debug, PartialEq, Eq, Structural)]
pub enum ViewsMount {
    /// At the root of the site.
    AtRoot,
    /// Under `/legacy`, beside a separate client.
    UnderLegacy,
    /// Not at all.
    Hidden,
}

/// Where the built-in pages go: at the root without a separate client, under
/// `/legacy` beside one, and nowhere when the built-in client is switched off.
pub fn views_mount(features: &Features) -> (m: ViewsMount)
    ensures
        m == (if !features.custom_client {
            ViewsMount::AtRoot
        } else if features.disable_default_client {
            ViewsMount::Hidden
        } else {
            ViewsMount::UnderLegacy
        }),
{
    if features.custom_client {
        if !features.disable_default_client {
            ViewsMount::UnderLegacy
        } else {
            ViewsMount::Hidden
        }
    } else {
        ViewsMount::AtRoot
    }
}

} // verus!
