//! The table of upstream registries and the Docker Hub account.

use crate::text::{chars_of, same};
use vstd::prelude::*;

verus! {

/// The Docker Hub account under which tokens are asked for, if any.
pub struct DockerHubCredentials {
    pub username: Option<String>,
    pub password: Option<String>,
}

impl DockerHubCredentials {
    /// An account counts as configured only when both the name and the
    /// password are there and neither is empty.
    pub open spec fn configured(&self) -> bool {
        &&& self.username matches Some(u) && u@.len() > 0
        &&& self.password matches Some(p) && p@.len() > 0
    }

    /// The account with the given name and password, as they were found.
    pub fn new(username: Option<String>, password: Option<String>) -> (out: Self)
        ensures
            out.username == username,
            out.password == password,
    {
        DockerHubCredentials { username, password }
    }

    /// No account: tokens are asked for anonymously.
    pub fn anonymous() -> (out: Self)
        ensures
            out.username is None,
            out.password is None,
            !out.configured(),
    {
        DockerHubCredentials { username: None, password: None }
    }

    /// Whether an account is configured.
    pub fn is_configured(&self) -> (r: bool)
        ensures
            r == self.configured(),
    {
        match (&self.username, &self.password) {
            (Some(u), Some(p)) => !u.as_str().is_empty() && !p.as_str().is_empty(),
            _ => false,
        }
    }
}

/// One line of the registry table: a short key and the host it stands for.
pub struct RegistryEntry {
    pub key: String,
    pub host: String,
}

/// The host that the first entry under `key` names.
pub open spec fn lookup(entries: Seq<RegistryEntry>, key: Seq<char>) -> Option<Seq<char>>
    decreases entries.len(),
{
    if entries.len() == 0 {
        None
    } else if entries.first().key@ == key {
        Some(entries.first().host@)
    } else {
        lookup(entries.drop_first(), key)
    }
}

/// The registries that are known from the start.
pub open spec fn default_host(key: Seq<char>) -> Option<Seq<char>> {
    if key == "docker"@ {
        Some("registry-1.docker.io"@)
    } else if key == "quay"@ {
        Some("quay.io"@)
    } else if key == "gcr"@ {
        Some("gcr.io"@)
    } else if key == "k8s-gcr"@ {
        Some("k8s.gcr.io"@)
    } else if key == "k8s"@ {
        Some("registry.k8s.io"@)
    } else if key == "ghcr"@ {
        Some("ghcr.io"@)
    } else if key == "cloudsmith"@ {
        Some("docker.cloudsmith.io"@)
    } else if key == "nvcr"@ {
        Some("nvcr.io"@)
    } else if key == "gitlab"@ {
        Some("registry.gitlab.com"@)
    } else {
        None
    }
}

/// The registry table together with the Docker Hub account.
pub struct RegistryConfig {
    pub registries: Vec<RegistryEntry>,
    pub docker_hub_credentials: DockerHubCredentials,
}

impl RegistryConfig {
    /// The host configured for `key`.
    pub open spec fn host_of(&self, key: Seq<char>) -> Option<Seq<char>> {
        lookup(self.registries@, key)
    }

    /// No key stands twice in the table, and `v2` is no key of it: that key
    /// is an alias that the engine resolves by itself.
    pub open spec fn wf(&self) -> bool {
        &&& forall|i: int, j: int|
            0 <= i < j < self.registries@.len() ==> self.registries@[i].key@
                != self.registries@[j].key@
        &&& self.host_of("v2"@) is None
    }

    /// The table of the registries known from the start, with the given account.
    pub fn new(credentials: DockerHubCredentials) -> (out: Self)
        ensures
            forall|key: Seq<char>| out.host_of(key) == default_host(key),
            out.wf(),
            out.docker_hub_credentials == credentials,
    {
        let mut registries: Vec<RegistryEntry> = Vec::new();
        registries.push(entry("docker", "registry-1.docker.io"));
        registries.push(entry("quay", "quay.io"));
        registries.push(entry("gcr", "gcr.io"));
        registries.push(entry("k8s-gcr", "k8s.gcr.io"));
        registries.push(entry("k8s", "registry.k8s.io"));
        registries.push(entry("ghcr", "ghcr.io"));
        registries.push(entry("cloudsmith", "docker.cloudsmith.io"));
        registries.push(entry("nvcr", "nvcr.io"));
        registries.push(entry("gitlab", "registry.gitlab.com"));
        proof {
            reveal_with_fuel(lookup, 10);
            lemma_default_keys_differ();
        }
        RegistryConfig { registries, docker_hub_credentials: credentials }
    }

    /// The host configured for `registry_key`, if the table has that key.
    pub fn get_registry_url(&self, registry_key: &str) -> (out: Option<&String>)
        ensures
            match out {
                Some(host) => self.host_of(registry_key@) == Some(host@),
                None => self.host_of(registry_key@) is None,
            },
    {
        let key = chars_of(registry_key);
        let mut i: usize = 0;
        assert(self.registries@.skip(0) =~= self.registries@);
        while i < self.registries.len()
            invariant
                i <= self.registries.len(),
                key@ == registry_key@,
                lookup(self.registries@, key@) == lookup(self.registries@.skip(i as int), key@),
            decreases self.registries.len() - i,
        {
            assert(self.registries@.skip(i as int).drop_first() =~= self.registries@.skip(i + 1));
            if same(&chars_of(self.registries[i].key.as_str()), &key) {
                return Some(&self.registries[i].host);
            }
            i += 1;
        }
        None
    }
}

impl Default for RegistryConfig {
    /// The table of the registries known from the start, without an account.
    fn default() -> (out: Self)
        ensures
            forall|key: Seq<char>| out.host_of(key) == default_host(key),
            out.wf(),
            !out.docker_hub_credentials.configured(),
    {
        RegistryConfig::new(DockerHubCredentials::anonymous())
    }
}

/// A line of the table.
fn entry(key: &str, host: &str) -> (out: RegistryEntry)
    ensures
        out.key@ == key@,
        out.host@ == host@,
{
    RegistryEntry { key: key.to_owned(), host: host.to_owned() }
}

/// The keys known from the start differ from one another and from `v2`.
proof fn lemma_default_keys_differ()
    ensures
        "docker"@ != "quay"@,
        "docker"@ != "gcr"@,
        "docker"@ != "k8s-gcr"@,
        "docker"@ != "k8s"@,
        "docker"@ != "ghcr"@,
        "docker"@ != "cloudsmith"@,
        "docker"@ != "nvcr"@,
        "docker"@ != "gitlab"@,
        "quay"@ != "gcr"@,
        "quay"@ != "k8s-gcr"@,
        "quay"@ != "k8s"@,
        "quay"@ != "ghcr"@,
        "quay"@ != "cloudsmith"@,
        "quay"@ != "nvcr"@,
        "quay"@ != "gitlab"@,
        "gcr"@ != "k8s-gcr"@,
        "gcr"@ != "k8s"@,
        "gcr"@ != "ghcr"@,
        "gcr"@ != "cloudsmith"@,
        "gcr"@ != "nvcr"@,
        "gcr"@ != "gitlab"@,
        "k8s-gcr"@ != "k8s"@,
        "k8s-gcr"@ != "ghcr"@,
        "k8s-gcr"@ != "cloudsmith"@,
        "k8s-gcr"@ != "nvcr"@,
        "k8s-gcr"@ != "gitlab"@,
        "k8s"@ != "ghcr"@,
        "k8s"@ != "cloudsmith"@,
        "k8s"@ != "nvcr"@,
        "k8s"@ != "gitlab"@,
        "ghcr"@ != "cloudsmith"@,
        "ghcr"@ != "nvcr"@,
        "ghcr"@ != "gitlab"@,
        "cloudsmith"@ != "nvcr"@,
        "cloudsmith"@ != "gitlab"@,
        "nvcr"@ != "gitlab"@,
        "v2"@ != "docker"@,
        "v2"@ != "quay"@,
        "v2"@ != "gcr"@,
        "v2"@ != "k8s-gcr"@,
        "v2"@ != "k8s"@,
        "v2"@ != "ghcr"@,
        "v2"@ != "cloudsmith"@,
        "v2"@ != "nvcr"@,
        "v2"@ != "gitlab"@,
{
    reveal_strlit("docker");
    reveal_strlit("quay");
    reveal_strlit("gcr");
    reveal_strlit("k8s-gcr");
    reveal_strlit("k8s");
    reveal_strlit("ghcr");
    reveal_strlit("cloudsmith");
    reveal_strlit("nvcr");
    reveal_strlit("gitlab");
    reveal_strlit("v2");
    assert("docker"@.len() == 6 && "quay"@.len() == 4 && "gcr"@.len() == 3);
    assert("k8s-gcr"@.len() == 7 && "k8s"@.len() == 3 && "ghcr"@.len() == 4);
    assert("cloudsmith"@.len() == 10 && "nvcr"@.len() == 4 && "gitlab"@.len() == 6);
    assert("v2"@.len() == 2);
    assert("docker"@[0] != "gitlab"@[0]);
    assert("quay"@[0] != "ghcr"@[0]);
    assert("quay"@[0] != "nvcr"@[0]);
    assert("ghcr"@[0] != "nvcr"@[0]);
    assert("gcr"@[0] != "k8s"@[0]);
}

} // verus!
