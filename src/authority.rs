use anchor_lang::prelude::Pubkey;
use vstd::prelude::*;

verus! {

/// The fixed label from which the mint address is derived: the bytes of
/// `b"stablecoin_mint"`.
pub open spec fn mint_seed() -> Seq<u8> {
    seq![115u8, 116, 97, 98, 108, 101, 99, 111, 105, 110, 95, 109, 105, 110, 116]
}

/// The address derived from `label`, `bump` and the owning program, or `None`
/// where the derived bytes form a valid public key (so no address exists).
pub uninterp spec fn program_address(label: Seq<u8>, bump: u8, program_id: Seq<u8>) -> Option<Seq<u8>>;

/// Relies on `Pubkey::create_program_address` with the seeds `[label, [bump]]`:
/// it hashes its arguments, and fails exactly when the hash is a curve point.
/// A label of at most 32 bytes never exceeds the seed limits.
#[verifier::external_body]
fn create_address(label: &[u8], bump: u8, program_id: &[u8; 32]) -> (r: Option<[u8; 32]>)
    requires
        label@.len() <= 32,
    ensures
        match r {
            Some(a) => program_address(label@, bump, program_id@) == Some(a@),
            None => program_address(label@, bump, program_id@) is None,
        },
{
    let bump_seed = [bump];
    let pid = Pubkey::new_from_array(*program_id);
    Pubkey::create_program_address(&[label, &bump_seed], &pid).ok().map(|k| k.to_bytes())
}

/// Relies on `Pubkey::try_find_program_address` with the seeds `[label]`: it
/// tries the bumps from 255 down to 1 with `create_program_address` and
/// returns the first address found, with its bump.
#[verifier::external_body]
fn find_address(label: &[u8], program_id: &[u8; 32]) -> (r: Option<([u8; 32], u8)>)
    requires
        label@.len() <= 32,
    ensures
        match r {
            Some((a, b)) => {
                &&& 1 <= b
                &&& program_address(label@, b, program_id@) == Some(a@)
                &&& forall|c: u8| b < c ==> (#[trigger] program_address(label@, c, program_id@)) is None
            },
            None => forall|c: u8| 1 <= c ==> (#[trigger] program_address(label@, c, program_id@)) is None,
        },
{
    let pid = Pubkey::new_from_array(*program_id);
    Pubkey::try_find_program_address(&[label], &pid).map(|(k, b)| (k.to_bytes(), b))
}

/// The canonical bump of `label` under `program_id`: the largest bump in
/// `1..=255` that yields an address.
pub open spec fn is_canonical_bump(label: Seq<u8>, program_id: Seq<u8>, bump: u8) -> bool {
    &&& 1 <= bump
    &&& program_address(label, bump, program_id) is Some
    &&& forall|c: u8| bump < c ==> (#[trigger] program_address(label, c, program_id)) is None
}

/// No bump in `1..=255` yields an address for `label` under `program_id`.
pub open spec fn no_viable_bump(label: Seq<u8>, program_id: Seq<u8>) -> bool {
    forall|c: u8| 1 <= c ==> (#[trigger] program_address(label, c, program_id)) is None
}

/// The seeds that stand in for a signature of the derived account: the
/// runtime re-derives the address from them and the calling program's id.
#[derive(Clone, Debug)]
pub struct SignerSeeds {
    pub label: Vec<u8>,
    pub bump: u8,
}

/// The derived mint address together with its canonical bump.
#[derive(Clone, Copy, Debug)]
pub struct DerivedAuthority {
    pub address: [u8; 32],
    pub bump: u8,
}

/// The bytes of the fixed mint label.
pub fn mint_seed_bytes() -> (r: Vec<u8>)
    ensures
        r@ == mint_seed(),
{
    let r: Vec<u8> = vec![115u8, 116, 97, 98, 108, 101, 99, 111, 105, 110, 95, 109, 105, 110, 116];
    assert(r@ =~= mint_seed());
    r
}

/// Derives the mint address and its canonical bump from the fixed label and
/// the owning program's id; `None` when no bump yields an address.
pub fn derive_mint_authority(program_id: &[u8; 32]) -> (r: Option<DerivedAuthority>)
    ensures
        match r {
            Some(d) => {
                &&& is_canonical_bump(mint_seed(), program_id@, d.bump)
                &&& program_address(mint_seed(), d.bump, program_id@) == Some(d.address@)
            },
            None => no_viable_bump(mint_seed(), program_id@),
        },
{
    let label = mint_seed_bytes();
    match find_address(label.as_slice(), program_id) {
        Some((address, bump)) => Some(DerivedAuthority { address, bump }),
        None => None,
    }
}

impl DerivedAuthority {
    /// The seeds with which this program signs for the derived account.
    pub fn signer_seeds(&self) -> (r: SignerSeeds)
        ensures
            r.label@ == mint_seed(),
            r.bump == self.bump,
    {
        SignerSeeds { label: mint_seed_bytes(), bump: self.bump }
    }
}

impl SignerSeeds {
    /// Whether these seeds, presented by `program_id`, sign for `address`: the
    /// address is re-derived from them and compared.
    pub fn signs_for(&self, program_id: &[u8; 32], address: &[u8; 32]) -> (r: bool)
        ensures
            r == (self.label@.len() <= 32
                && program_address(self.label@, self.bump, program_id@) == Some(address@)),
    {
        if self.label.len() > 32 {
            return false;
        }
        match create_address(self.label.as_slice(), self.bump, program_id) {
            Some(a) => same_address(&a, address),
            None => false,
        }
    }
}

/// Whether two addresses hold the same bytes.
pub fn same_address(a: &[u8; 32], b: &[u8; 32]) -> (r: bool)
    ensures
        r == (a@ == b@),
{
    let mut i: usize = 0;
    while i < 32
        invariant
            i <= 32,
            forall|j: int| 0 <= j < i ==> a@[j] == b@[j],
        decreases 32 - i,
    {
        if a[i] != b[i] {
            assert(a@[i as int] != b@[i as int]);
            return false;
        }
        i = i + 1;
    }
    assert(a@ =~= b@);
    true
}

} // verus!
