//! The native-messaging manifests that register the host with Firefox and
//! Chromium, and where each browser looks for them.
//!
//! Paths are held as lists of components, joined by the caller.
use vstd::prelude::*;

verus! {

/// The name the browsers know the host by.
pub const NAME: &'static str = "com.github.henrytill.noematic";

/// What the host is for.
pub const DESCRIPTION: &'static str = "Search your backlog";

/// How the browser talks to the host.
pub const TYPE: &'static str = "stdio";

/// The name of the host's binary.
pub const HOST_BINARY_NAME: &'static str = "noematic";

/// The Firefox extension allowed to talk to the host.
pub const FIREFOX_ALLOWED: &'static str = "henrytill@gmail.com";

/// The Chromium extension allowed to talk to the host.
pub const CHROMIUM_ALLOWED: &'static str = "chrome-extension://gebmhafgijeggbfhdojjefpibglhdjhh/";

/// The name of a manifest file.
pub open spec fn file_name() -> Seq<char> {
    NAME@ + ".json"@
}

/// The views of a list of path components.
pub open spec fn components(v: Seq<String>) -> Seq<Seq<char>> {
    v.map_values(|s: String| s@)
}

/// The name of a manifest file: the host's name with a `.json` extension.
pub fn file() -> (r: String)
    ensures
        r@ == file_name(),
{
    String::from_str(NAME).concat(".json")
}

fn strings(parts: &[&str]) -> (r: Vec<String>)
    ensures
        r@.len() == parts@.len(),
        forall|i: int| 0 <= i < parts@.len() ==> (#[trigger] r@[i])@ == parts@[i]@,
{
    let mut out: Vec<String> = Vec::new();
    let mut i: usize = 0;
    while i < parts.len()
        invariant
            i <= parts@.len(),
            out@.len() == i,
            forall|k: int| 0 <= k < i ==> (#[trigger] out@[k])@ == parts@[k]@,
        decreases parts@.len() - i,
    {
        out.push(String::from_str(parts[i]));
        i = i + 1;
    }
    out
}

/// The path of the host binary under an installation prefix: `bin/noematic`.
pub fn default_binary_path(prefix: Vec<String>) -> (r: Vec<String>)
    ensures
        components(r@) == components(prefix@) + seq!["bin"@, HOST_BINARY_NAME@],
{
    let mut r = prefix;
    let ghost before = r@;
    r.push(String::from_str("bin"));
    r.push(String::from_str(HOST_BINARY_NAME));
    proof {
        assert(components(r@) =~= components(before) + seq!["bin"@, HOST_BINARY_NAME@]);
    }
    r
}

/// The operating system the manifests are installed on.
#[derive(Clone, Copy, Debug, PartialEq, Eq, Structural)]
pub enum Platform {
    Linux,
    MacOs,
    Windows,
    Other,
}

/// Where a browser looks for a manifest: a path under the home directory on
/// Linux and on macOS, and one under a given directory elsewhere.
pub struct ManifestPath {
    pub linux: Vec<String>,
    pub macos: Vec<String>,
    pub default: Vec<String>,
}

impl ManifestPath {
    /// The manifest's path on `platform`: under `home_dir` on Linux and macOS,
    /// under `default_dir` on the others. Windows is not supported.
    pub fn for_platform(self, platform: Platform, home_dir: Vec<String>, default_dir: Vec<String>) -> (r: Vec<String>)
        requires
            platform != Platform::Windows,
        ensures
            platform == Platform::Linux ==> components(r@) == components(home_dir@) + components(self.linux@),
            platform == Platform::MacOs ==> components(r@) == components(home_dir@) + components(self.macos@),
            platform == Platform::Other ==> components(r@) == components(default_dir@) + components(
                self.default@,
            ),
    {
        let (mut base, rest) = match platform {
            Platform::Linux => (home_dir, self.linux),
            Platform::MacOs => (home_dir, self.macos),
            _ => (default_dir, self.default),
        };
        let ghost base0 = base@;
        let mut j: usize = 0;
        while j < rest.len()
            invariant
                j <= rest@.len(),
                base@ == base0 + rest@.subrange(0, j as int),
            decreases rest@.len() - j,
        {
            base.push(rest[j].clone());
            j = j + 1;
            proof {
                assert(rest@.subrange(0, j as int) =~= rest@.subrange(0, j - 1) + seq![rest@[j - 1]]);
            }
        }
        proof {
            assert(rest@.subrange(0, rest@.len() as int) =~= rest@);
            assert(components(base@) =~= components(base0) + components(rest@));
        }
        base
    }
}

/// The manifest that registers the host with Firefox.
pub struct Firefox {
    pub name: &'static str,
    pub description: &'static str,
    pub path: String,
    pub ty: &'static str,
    pub allowed_extensions: [&'static str; 1],
}

impl Firefox {
    /// The manifest for the host binary at `path`.
    pub fn new(path: &str) -> (r: Firefox)
        ensures
            r.name@ == NAME@,
            r.description@ == DESCRIPTION@,
            r.path@ == path@,
            r.ty@ == TYPE@,
            r.allowed_extensions@.len() == 1 && r.allowed_extensions@[0]@ == FIREFOX_ALLOWED@,
    {
        Firefox {
            name: NAME,
            description: DESCRIPTION,
            path: String::from_str(path),
            ty: TYPE,
            allowed_extensions: [FIREFOX_ALLOWED],
        }
    }

    /// Where Firefox looks for the manifest.
    pub fn path() -> (r: ManifestPath)
        ensures
            components(r.linux@) == seq![".mozilla"@, "native-messaging-hosts"@, file_name()],
            components(r.macos@) == seq![
                "Library"@,
                "Application Support"@,
                "Mozilla"@,
                "NativeMessagingHosts"@,
                file_name(),
            ],
            components(r.default@) == seq!["manifests"@, "mozilla"@, file_name()],
    {
        let f = file();
        let linux = strings(&[".mozilla", "native-messaging-hosts", f.as_str()]);
        let macos = strings(
            &["Library", "Application Support", "Mozilla", "NativeMessagingHosts", f.as_str()],
        );
        let default = strings(&["manifests", "mozilla", f.as_str()]);
        proof {
            assert(components(linux@) =~= seq![".mozilla"@, "native-messaging-hosts"@, file_name()]);
            assert(components(macos@) =~= seq![
                "Library"@,
                "Application Support"@,
                "Mozilla"@,
                "NativeMessagingHosts"@,
                file_name(),
            ]);
            assert(components(default@) =~= seq!["manifests"@, "mozilla"@, file_name()]);
        }
        ManifestPath { linux, macos, default }
    }
}

/// The manifest that registers the host with Chromium.
pub struct Chromium {
    pub name: &'static str,
    pub description: &'static str,
    pub path: String,
    pub ty: &'static str,
    pub allowed_origins: [&'static str; 1],
}

impl Chromium {
    /// The manifest for the host binary at `path`.
    pub fn new(path: &str) -> (r: Chromium)
        ensures
            r.name@ == NAME@,
            r.description@ == DESCRIPTION@,
            r.path@ == path@,
            r.ty@ == TYPE@,
            r.allowed_origins@.len() == 1 && r.allowed_origins@[0]@ == CHROMIUM_ALLOWED@,
    {
        Chromium {
            name: NAME,
            description: DESCRIPTION,
            path: String::from_str(path),
            ty: TYPE,
            allowed_origins: [CHROMIUM_ALLOWED],
        }
    }

    /// Where Chromium looks for the manifest.
    pub fn path() -> (r: ManifestPath)
        ensures
            components(r.linux@) == seq![".config"@, "chromium"@, "NativeMessagingHosts"@, file_name()],
            components(r.macos@) == seq![
                "Library"@,
                "Application Support"@,
                "Chromium"@,
                "NativeMessagingHosts"@,
                file_name(),
            ],
            components(r.default@) == seq!["manifests"@, "chromium"@, file_name()],
    {
        let f = file();
        let linux = strings(&[".config", "chromium", "NativeMessagingHosts", f.as_str()]);
        let macos = strings(
            &["Library", "Application Support", "Chromium", "NativeMessagingHosts", f.as_str()],
        );
        let default = strings(&["manifests", "chromium", f.as_str()]);
        proof {
            assert(components(linux@) =~= seq![".config"@, "chromium"@, "NativeMessagingHosts"@, file_name()]);
            assert(components(macos@) =~= seq![
                "Library"@,
                "Application Support"@,
                "Chromium"@,
                "NativeMessagingHosts"@,
                file_name(),
            ]);
            assert(components(default@) =~= seq!["manifests"@, "chromium"@, file_name()]);
        }
        ManifestPath { linux, macos, default }
    }
}

} // verus!
