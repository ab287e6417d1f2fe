//! Cache-busted asset naming for the build tool: the bundle's files are
//! renamed after a digest of the compiled module, so a changed build
//! gets fresh URLs.

use vstd::prelude::*;
use crate::strfmt::hex_lower_of;

verus! {

/// The digest of the named hashing function on these bytes; it depends
/// on the bytes alone.
pub uninterp spec fn md5_of(data: Seq<u8>) -> Seq<u8>;

/// Relies on `md5::compute`: a 16-byte digest that is a function of the
/// input bytes alone.
#[verifier::external_body]
fn md5_digest(data: &[u8]) -> (r: Vec<u8>)
    ensures
        r@ == md5_of(data@),
        r@.len() == 16,
{
    md5::compute(data).0.to_vec()
}

/// The first sixteen hex digits of the module's digest: the cache-bust
/// tag.
pub open spec fn bust_tag(data: Seq<u8>) -> Seq<char> {
    hex_lower_of(md5_of(data)).subrange(0, 16)
}

/// The cache-busted names for the script and the compiled module: the
/// digest tag spliced into `web.<tag>.js` and `web_bg.<tag>.wasm`.
pub fn asset_names(module_bytes: &[u8]) -> (r: (String, String))
    ensures
        r.0@ == "web."@ + bust_tag(module_bytes@) + ".js"@,
        r.1@ == "web_bg."@ + bust_tag(module_bytes@) + ".wasm"@,
{
    let digest = md5_digest(module_bytes);
    let hex = crate::strfmt::hex_encode(digest.as_slice());
    proof {
        assert(hex@.len() == 32);
        assert forall|i: int| 0 <= i < hex@.len() implies '\0' <= #[trigger] hex@[i]
            <= '\u{7f}' by {
            assert(hex@[i] == hex_lower_of(digest@)[i]);
        };
        assert(vstd::utf8::is_ascii_chars(hex@));
    }
    let short = hex.as_str().substring_ascii(0, 16);
    let mut js = String::from_str("web.");
    js.append(short);
    js.append(".js");
    let mut wasm = String::from_str("web_bg.");
    wasm.append(short);
    wasm.append(".wasm");
    (js, wasm)
}

} // verus!
