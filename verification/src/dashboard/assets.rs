//! The bundled stylesheet and script: their URLs, which carry a hash of
//! their bytes, and the headers they are served with.
use vstd::prelude::*;

use sha2::Digest;

use crate::text::{hex_lower, hex_text};

verus! {

/// The two bundles.
#[derive(Clone, Copy, PartialEq, Eq, Structural)]
pub enum Asset {
    Stylesheet,
    Script,
}

/// The headers of an asset response.
pub struct AssetHeaders {
    pub content_type: &'static str,
    pub cache_control: &'static str,
    pub content_type_options: &'static str,
}

pub open spec fn content_type_of(asset: Asset) -> Seq<char> {
    match asset {
        Asset::Stylesheet => "text/css; charset=utf-8"@,
        Asset::Script => "text/javascript; charset=utf-8"@,
    }
}

pub open spec fn extension_of(asset: Asset) -> Seq<char> {
    match asset {
        Asset::Stylesheet => ".css"@,
        Asset::Script => ".js"@,
    }
}

/// The headers of an asset: its content type, caching for a year as
/// immutable (the URL changes with the bytes), and no content sniffing.
pub fn headers(asset: Asset) -> (res: AssetHeaders)
    ensures
        res.content_type@ == content_type_of(asset),
        res.cache_control@ == "public, max-age=31536000, immutable"@,
        res.content_type_options@ == "nosniff"@,
{
    let content_type = match asset {
        Asset::Stylesheet => "text/css; charset=utf-8",
        Asset::Script => "text/javascript; charset=utf-8",
    };
    AssetHeaders {
        content_type,
        cache_control: "public, max-age=31536000, immutable",
        content_type_options: "nosniff",
    }
}

/// The SHA-256 digest of `data`.
pub uninterp spec fn sha256_digest(data: Seq<u8>) -> Seq<u8>;

/// `sha2::Sha256::digest` (through `sha2::Digest`): the SHA-256 digest of
/// `data`, which the algorithm makes 32 bytes long.
#[verifier::external_body]
fn sha256(data: &[u8]) -> (res: Vec<u8>)
    ensures
        res@ == sha256_digest(data@),
        res@.len() == 32,
{
    sha2::Sha256::digest(data).to_vec()
}

/// The URL of an asset whose bytes have the digest `digest`:
/// `/assets/site.<lowercase hex digest>.css` or `.js`.
pub fn url(asset: Asset, digest: &[u8]) -> (res: String)
    ensures
        res@ == "/assets/site."@ + hex_lower(digest@) + extension_of(asset),
{
    let hex = hex_text(digest);
    let text = String::from_str("/assets/site.").concat(hex.as_str());
    match asset {
        Asset::Stylesheet => text.concat(".css"),
        Asset::Script => text.concat(".js"),
    }
}

/// The URL under which the bundle `bytes` is served: it names the SHA-256
/// of the bytes, so a changed bundle gets a new URL.
pub fn bundle_url(asset: Asset, bytes: &[u8]) -> (res: String)
    ensures
        res@ == "/assets/site."@ + hex_lower(sha256_digest(bytes@)) + extension_of(asset),
{
    let digest = sha256(bytes);
    url(asset, digest.as_slice())
}

} // verus!
