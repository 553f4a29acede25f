use sha2::{Digest, Sha256};
use vstd::prelude::*;
use crate::text::{hex_of, hex_string, join_path, lemma_hex_injective, path_join};

verus! {

/// The SHA-256 digest of the UTF-8 encoding of `s`.
pub uninterp spec fn sha256_of(s: Seq<char>) -> Seq<u8>;

/// Relies on sha2's `Sha256::digest` over the UTF-8 bytes of `s`, which
/// yields the 32-byte SHA-256 digest.
#[verifier::external_body]
fn sha256(s: &str) -> (r: Vec<u8>)
    ensures
        r@ == sha256_of(s@),
        r@.len() == 32,
{
    Sha256::digest(s.as_bytes()).to_vec()
}

/// The cache key of a template directory: the hex digest of its path.
pub open spec fn workspace_identity_of(template_dir: Seq<char>) -> Seq<char> {
    hex_of(sha256_of(template_dir))
}

/// Where the provisioning engine keeps its working state for a template
/// directory, under the given temporary root.
pub open spec fn workspace_dir_of(temp_root: Seq<char>, template_dir: Seq<char>) -> Seq<char> {
    path_join(path_join(temp_root, "atar"@), workspace_identity_of(template_dir))
}

/// Computes the cache key of a template directory.
pub fn workspace_identity(template_dir: &str) -> (r: String)
    ensures
        r@ == workspace_identity_of(template_dir@),
{
    let digest = sha256(template_dir);
    hex_string(&digest)
}

/// Computes the engine's working directory for a template directory.
pub fn workspace_dir(temp_root: &str, template_dir: &str) -> (r: String)
    ensures
        r@ == workspace_dir_of(temp_root@, template_dir@),
{
    let base = join_path(temp_root, "atar");
    let id = workspace_identity(template_dir);
    join_path(base.as_str(), id.as_str())
}

} // verus!

verus! {

/// The workspace identity depends on the template directory's path alone,
/// so the same path gives the same identity on every run; and two paths
/// share an identity only where their digests coincide.
pub proof fn lemma_workspace_identity(a: Seq<char>, b: Seq<char>)
    ensures
        a == b ==> workspace_identity_of(a) == workspace_identity_of(b),
        workspace_identity_of(a) == workspace_identity_of(b) ==> sha256_of(a) == sha256_of(b),
{
    if workspace_identity_of(a) == workspace_identity_of(b) {
        lemma_hex_injective(sha256_of(a), sha256_of(b));
    }
}

} // verus!
