//! How a template provider is set up for a test run: which release to
//! fetch, from where, and with which arguments the node is started.
//!
//! Fetching, unpacking and starting are left to the caller. The functions
//! here compute the names and arguments.

use crate::text::{decimal, numbered, push_str, reads_as};
use vstd::prelude::*;

verus! {

/// The release of the template provider that is fetched.
pub open spec fn spec_version() -> Seq<char> {
    "0.1.13"@
}

/// The name of the release archive for an operating system and a processor.
pub open spec fn spec_bitcoind_filename(os: Seq<char>, arch: Seq<char>) -> Seq<char> {
    if os == "macos"@ && arch == "aarch64"@ {
        "bitcoin-sv2-tp-0.1.13-arm64-apple-darwin.tar.gz"@
    } else if os == "macos"@ && arch == "x86_64"@ {
        "bitcoin-sv2-tp-0.1.13-x86_64-apple-darwin.tar.gz"@
    } else if os == "linux"@ && arch == "x86_64"@ {
        "bitcoin-sv2-tp-0.1.13-x86_64-linux-gnu.tar.gz"@
    } else if os == "linux"@ && arch == "aarch64"@ {
        "bitcoin-sv2-tp-0.1.13-aarch64-linux-gnu.tar.gz"@
    } else {
        "bitcoin-sv2-tp-0.1.13-x86_64-apple-darwin-unsigned.zip"@
    }
}

/// The release that is fetched.
pub fn version() -> (r: &'static str)
    ensures
        r@ == spec_version(),
{
    "0.1.13"
}

/// The name of the release archive for an operating system and a processor.
/// Where no release is known for the pair, the unsigned archive for macOS on
/// x86_64 is named.
pub fn get_bitcoind_filename(os: &str, arch: &str) -> (r: String)
    ensures
        r@ == spec_bitcoind_filename(os@, arch@),
{
    let macos = reads_as(os, "macos");
    let linux = reads_as(os, "linux");
    let aarch64 = reads_as(arch, "aarch64");
    let x86_64 = reads_as(arch, "x86_64");
    if macos && aarch64 {
        "bitcoin-sv2-tp-0.1.13-arm64-apple-darwin.tar.gz".to_owned()
    } else if macos && x86_64 {
        "bitcoin-sv2-tp-0.1.13-x86_64-apple-darwin.tar.gz".to_owned()
    } else if linux && x86_64 {
        "bitcoin-sv2-tp-0.1.13-x86_64-linux-gnu.tar.gz".to_owned()
    } else if linux && aarch64 {
        "bitcoin-sv2-tp-0.1.13-aarch64-linux-gnu.tar.gz".to_owned()
    } else {
        "bitcoin-sv2-tp-0.1.13-x86_64-apple-darwin-unsigned.zip".to_owned()
    }
}

/// The directory of the release, below the directory that it is unpacked
/// in. The node's binary lies in `bin` below it.
pub fn release_dir() -> (r: &'static str)
    ensures
        r@ == "bitcoin-sv2-tp-0.1.13"@,
{
    "bitcoin-sv2-tp-0.1.13"
}

/// The data directory of the node that listens on `port`.
pub fn static_dir(port: u16) -> (r: String)
    ensures
        r@ == ".bitcoin-"@ + decimal(port as nat),
{
    numbered(".bitcoin-", port as u32)
}

/// Where releases are fetched from when nothing else is configured.
pub fn default_download_endpoint() -> (r: &'static str)
    ensures
        r@ == "https://github.com/Sjors/bitcoin/releases/download"@,
{
    "https://github.com/Sjors/bitcoin/releases/download"
}

/// The address of the archive `filename` at `endpoint`.
pub fn download_url(endpoint: &str, filename: &str) -> (r: String)
    ensures
        r@ == endpoint@ + "/sv2-tp-"@ + spec_version() + "/"@ + filename@,
{
    let mut url: String = endpoint.to_owned();
    push_str(&mut url, "/sv2-tp-");
    push_str(&mut url, version());
    push_str(&mut url, "/");
    push_str(&mut url, filename);
    url
}

/// Where the archive comes from.
#[derive(Debug)]
pub enum TarballSource {
    /// From this file.
    File(String),
    /// From this address.
    Url(String),
}

/// Decides where the archive `filename` comes from: from `tarball_file` if
/// one is configured, otherwise from the configured `endpoint`, or from the
/// default one if none is.
pub fn tarball_source(tarball_file: Option<String>, endpoint: Option<String>, filename: &str) -> (r:
    TarballSource)
    ensures
        match tarball_file {
            Some(path) => r == TarballSource::File(path),
            None => r matches TarballSource::Url(url) && url@ == (match endpoint {
                Some(e) => e@,
                None => "https://github.com/Sjors/bitcoin/releases/download"@,
            }) + "/sv2-tp-"@ + spec_version() + "/"@ + filename@,
        },
{
    match tarball_file {
        Some(path) => TarballSource::File(path),
        None => {
            let url = match endpoint {
                Some(e) => download_url(e.as_str(), filename),
                None => download_url(default_download_endpoint(), filename),
            };
            TarballSource::Url(url)
        },
    }
}

/// Whether a freshly unpacked binary has to be signed before it runs: on
/// macOS only.
pub fn needs_signing(os: &str) -> (r: bool)
    ensures
        r == (os@ == "macos"@),
{
    reads_as(os, "macos")
}

/// The arguments that the node is started with, for a template provider on
/// `port` that sends a new template every `sv2_interval` seconds at most.
pub open spec fn spec_node_args(port: u16, sv2_interval: u32) -> Seq<Seq<char>> {
    seq![
        "-txindex=1"@,
        "-sv2"@,
        "-sv2port="@ + decimal(port as nat),
        "-debug=rpc"@,
        "-debug=sv2"@,
        "-sv2interval="@ + decimal(sv2_interval as nat),
        "-sv2feedelta=0"@,
        "-loglevel=sv2:trace"@,
        "-logtimemicros=1"@,
    ]
}

/// The views of `args`, in order.
pub open spec fn texts(args: Seq<String>) -> Seq<Seq<char>> {
    Seq::new(args.len(), |i: int| args[i]@)
}

/// The arguments that the node is started with.
pub fn node_args(port: u16, sv2_interval: u32) -> (r: Vec<String>)
    ensures
        texts(r@) == spec_node_args(port, sv2_interval),
{
    let mut args: Vec<String> = Vec::new();
    args.push("-txindex=1".to_owned());
    args.push("-sv2".to_owned());
    args.push(numbered("-sv2port=", port as u32));
    args.push("-debug=rpc".to_owned());
    args.push("-debug=sv2".to_owned());
    args.push(numbered("-sv2interval=", sv2_interval));
    args.push("-sv2feedelta=0".to_owned());
    args.push("-loglevel=sv2:trace".to_owned());
    args.push("-logtimemicros=1".to_owned());
    args
}

} // verus!
