use vstd::prelude::*;

verus! {

/// A 32-byte account address, the unit of identity in the ledger.
#[derive(Clone, Debug)]
pub struct Address {
    pub bytes: Vec<u8>,
}

impl View for Address {
    type V = Seq<u8>;

    open spec fn view(&self) -> Seq<u8> {
        self.bytes@
    }
}

impl Address {
    /// A well-formed address holds exactly 32 bytes.
    pub open spec fn wf(&self) -> bool {
        self@.len() == 32
    }

    /// An owned copy of this address.
    pub fn dup(&self) -> (r: Address)
        ensures
            r@ == self@,
    {
        let mut out: Vec<u8> = Vec::new();
        let mut i: usize = 0;
        while i < self.bytes.len()
            invariant
                i <= self.bytes.len(),
                out@ == self.bytes@.subrange(0, i as int),
            decreases self.bytes.len() - i,
        {
            out.push(self.bytes[i]);
            i = i + 1;
        }
        assert(out@ =~= self.bytes@);
        Address { bytes: out }
    }
}

/// Whether two addresses hold the same 32 bytes.
pub fn addr_eq(a: &Address, b: &Address) -> (r: bool)
    ensures
        r <==> a@ == b@,
{
    if a.bytes.len() != b.bytes.len() {
        assert(a@.len() != b@.len());
        return false;
    }
    let mut i: usize = 0;
    while i < a.bytes.len()
        invariant
            i <= a.bytes.len(),
            a@.len() == b@.len(),
            forall|j: int| 0 <= j < i ==> a@[j] == b@[j],
        decreases a.bytes.len() - i,
    {
        if a.bytes[i] != b.bytes[i] {
            return false;
        }
        i = i + 1;
    }
    assert(a@ =~= b@);
    true
}

/// An owned copy of a byte vector.
pub fn copy_bytes(v: &Vec<u8>) -> (r: Vec<u8>)
    ensures
        r@ == v@,
{
    let mut out: Vec<u8> = Vec::new();
    let mut i: usize = 0;
    while i < v.len()
        invariant
            i <= v.len(),
            out@ == v@.subrange(0, i as int),
        decreases v.len() - i,
    {
        out.push(v[i]);
        i = i + 1;
    }
    assert(out@ =~= v@);
    out
}

/// The big-endian bytes of a 64-bit counter value, used as a seed.
pub open spec fn spec_u64_to_be_bytes(x: u64) -> Seq<u8> {
    seq![
        ((x >> 56) & 0xff) as u8,
        ((x >> 48) & 0xff) as u8,
        ((x >> 40) & 0xff) as u8,
        ((x >> 32) & 0xff) as u8,
        ((x >> 24) & 0xff) as u8,
        ((x >> 16) & 0xff) as u8,
        ((x >> 8) & 0xff) as u8,
        (x & 0xff) as u8,
    ]
}

/// The big-endian bytes of a 64-bit counter value.
pub fn u64_to_be_bytes(x: u64) -> (r: Vec<u8>)
    ensures
        r@ == spec_u64_to_be_bytes(x),
        r@.len() == 8,
{
    let mut out: Vec<u8> = Vec::new();
    out.push(((x >> 56) & 0xff) as u8);
    out.push(((x >> 48) & 0xff) as u8);
    out.push(((x >> 40) & 0xff) as u8);
    out.push(((x >> 32) & 0xff) as u8);
    out.push(((x >> 24) & 0xff) as u8);
    out.push(((x >> 16) & 0xff) as u8);
    out.push(((x >> 8) & 0xff) as u8);
    out.push((x & 0xff) as u8);
    assert(out@ =~= spec_u64_to_be_bytes(x));
    out
}

/// The literal seed that pairs a counter with its review ("comment").
pub open spec fn spec_counter_seed() -> Seq<u8> {
    seq![99u8, 111u8, 109u8, 109u8, 101u8, 110u8, 116u8]
}

/// The literal seed of the singleton token mint ("token_mint").
pub open spec fn spec_mint_seed() -> Seq<u8> {
    seq![116u8, 111u8, 107u8, 101u8, 110u8, 95u8, 109u8, 105u8, 110u8, 116u8]
}

/// The literal seed of the singleton mint authority ("token_auth").
pub open spec fn spec_auth_seed() -> Seq<u8> {
    seq![116u8, 111u8, 107u8, 101u8, 110u8, 95u8, 97u8, 117u8, 116u8, 104u8]
}

/// The counter pairing seed as bytes.
pub fn counter_seed() -> (r: Vec<u8>)
    ensures
        r@ == spec_counter_seed(),
{
    vec![99u8, 111u8, 109u8, 109u8, 101u8, 110u8, 116u8]
}

/// The mint seed as bytes.
pub fn mint_seed() -> (r: Vec<u8>)
    ensures
        r@ == spec_mint_seed(),
{
    vec![116u8, 111u8, 107u8, 101u8, 110u8, 95u8, 109u8, 105u8, 110u8, 116u8]
}

/// The mint-authority seed as bytes.
pub fn auth_seed() -> (r: Vec<u8>)
    ensures
        r@ == spec_auth_seed(),
{
    vec![116u8, 111u8, 107u8, 101u8, 110u8, 95u8, 97u8, 117u8, 116u8, 104u8]
}

/// The well-known identity of the external fungible-token ledger program.
pub open spec fn spec_token_program_id() -> Seq<u8> {
    seq![
        6u8, 221u8, 246u8, 225u8, 215u8, 101u8, 161u8, 147u8, 217u8, 203u8, 225u8, 70u8, 206u8,
        235u8, 121u8, 172u8, 28u8, 180u8, 133u8, 237u8, 95u8, 91u8, 55u8, 145u8, 58u8, 140u8,
        245u8, 133u8, 126u8, 255u8, 0u8, 169u8,
    ]
}

/// The well-known identity of the external fungible-token ledger program.
pub fn token_program_id() -> (r: Address)
    ensures
        r@ == spec_token_program_id(),
        r.wf(),
{
    let bytes: Vec<u8> = vec![
        6u8, 221u8, 246u8, 225u8, 215u8, 101u8, 161u8, 147u8, 217u8, 203u8, 225u8, 70u8, 206u8,
        235u8, 121u8, 172u8, 28u8, 180u8, 133u8, 237u8, 95u8, 91u8, 55u8, 145u8, 58u8, 140u8,
        245u8, 133u8, 126u8, 255u8, 0u8, 169u8,
    ];
    Address { bytes }
}

/// The well-known identity of the host's account-allocation program.
pub open spec fn spec_system_program_id() -> Seq<u8> {
    Seq::new(32, |i: int| 0u8)
}

/// The well-known identity of the host's account-allocation program.
pub fn system_program_id() -> (r: Address)
    ensures
        r@ == spec_system_program_id(),
        r.wf(),
{
    let mut bytes: Vec<u8> = Vec::new();
    let mut i: usize = 0;
    while i < 32
        invariant
            i <= 32,
            bytes@.len() == i,
            forall|j: int| 0 <= j < i ==> bytes@[j] == 0u8,
        decreases 32 - i,
    {
        bytes.push(0u8);
        i = i + 1;
    }
    assert(bytes@ =~= spec_system_program_id());
    Address { bytes }
}

/// The well-known identity of the host's rent sysvar.
pub open spec fn spec_rent_sysvar_id() -> Seq<u8> {
    seq![
        6u8, 167u8, 213u8, 23u8, 25u8, 44u8, 92u8, 81u8, 33u8, 140u8, 201u8, 76u8, 61u8, 74u8,
        241u8, 127u8, 88u8, 218u8, 238u8, 8u8, 155u8, 161u8, 253u8, 68u8, 227u8, 219u8, 217u8,
        138u8, 0u8, 0u8, 0u8, 0u8,
    ]
}

/// The well-known identity of the host's rent sysvar.
pub fn rent_sysvar_id() -> (r: Address)
    ensures
        r@ == spec_rent_sysvar_id(),
        r.wf(),
{
    let bytes: Vec<u8> = vec![
        6u8, 167u8, 213u8, 23u8, 25u8, 44u8, 92u8, 81u8, 33u8, 140u8, 201u8, 76u8, 61u8, 74u8,
        241u8, 127u8, 88u8, 218u8, 238u8, 8u8, 155u8, 161u8, 253u8, 68u8, 227u8, 219u8, 217u8,
        138u8, 0u8, 0u8, 0u8, 0u8,
    ];
    Address { bytes }
}

/// The byte strings of a seed list, in order.
pub open spec fn seeds_view(s: Seq<Vec<u8>>) -> Seq<Seq<u8>> {
    Seq::new(s.len(), |i: int| s[i]@)
}

/// The deterministic derived address and bump for a seed tuple under a
/// program identity.
pub uninterp spec fn pda_of(seeds: Seq<Seq<u8>>, program_id: Seq<u8>) -> (Seq<u8>, u8);

/// The deterministic reward-token account address for a wallet and mint.
pub uninterp spec fn ata_of(wallet: Seq<u8>, mint: Seq<u8>) -> Seq<u8>;

/// Relies on Pubkey::find_program_address of the host SDK: a pure
/// function of the seed tuple and program identity that returns the
/// first off-curve derivation and its bump byte.  It aborts when a seed
/// exceeds 32 bytes or 15 seeds are given (excluded here), or in the
/// astronomically unlikely case that no bump byte lands off-curve,
/// which this system treats as unrecoverable.
#[verifier::external_body]
fn find_program_address(seeds: &Vec<Vec<u8>>, program_id: &Address) -> (r: (Address, u8))
    requires
        program_id.wf(),
        seeds@.len() < 16,
        forall|i: int| 0 <= i < seeds@.len() ==> seeds@[i]@.len() <= 32,
    ensures
        r.0@ == pda_of(seeds_view(seeds@), program_id@).0,
        r.1 == pda_of(seeds_view(seeds@), program_id@).1,
        r.0.wf(),
{
    let refs: Vec<&[u8]> = seeds.iter().map(|s| s.as_slice()).collect();
    let pid = solana_program::pubkey::Pubkey::new_from_array(
        program_id.bytes.as_slice().try_into().unwrap(),
    );
    let (pk, bump) = solana_program::pubkey::Pubkey::find_program_address(&refs, &pid);
    (Address { bytes: pk.to_bytes().to_vec() }, bump)
}

/// Relies on spl_associated_token_account::get_associated_token_address:
/// a pure function of the wallet and mint identities (a fixed derivation
/// under the associated-token program's own identity).
#[verifier::external_body]
fn associated_token_address(wallet: &Address, mint: &Address) -> (r: Address)
    requires
        wallet.wf(),
        mint.wf(),
    ensures
        r@ == ata_of(wallet@, mint@),
        r.wf(),
{
    let w = solana_program::pubkey::Pubkey::new_from_array(
        wallet.bytes.as_slice().try_into().unwrap(),
    );
    let m = solana_program::pubkey::Pubkey::new_from_array(
        mint.bytes.as_slice().try_into().unwrap(),
    );
    #[allow(deprecated)]
    let pk = spl_associated_token_account::get_associated_token_address(&w, &m);
    Address { bytes: pk.to_bytes().to_vec() }
}

/// The seed tuple of a review record: author identity, then title.
pub open spec fn review_seeds(author: Seq<u8>, title: Seq<u8>) -> Seq<Seq<u8>> {
    seq![author, title]
}

/// The seed tuple of a comment counter: review address, then "comment".
pub open spec fn counter_seeds(review: Seq<u8>) -> Seq<Seq<u8>> {
    seq![review, spec_counter_seed()]
}

/// The seed tuple of a comment: review address, then the big-endian
/// sequence index.
pub open spec fn comment_seeds(review: Seq<u8>, index: u64) -> Seq<Seq<u8>> {
    seq![review, spec_u64_to_be_bytes(index)]
}

/// The seed tuple of the singleton token mint.
pub open spec fn mint_seeds() -> Seq<Seq<u8>> {
    seq![spec_mint_seed()]
}

/// The seed tuple of the singleton mint authority.
pub open spec fn auth_seeds() -> Seq<Seq<u8>> {
    seq![spec_auth_seed()]
}

/// Derive the review record address and bump for (author, title).
pub fn derive_review_address(program_id: &Address, author: &Address, title: &Vec<u8>) -> (r: (
    Address,
    u8,
))
    requires
        program_id.wf(),
        author.wf(),
        title@.len() <= 32,
    ensures
        r.0@ == pda_of(review_seeds(author@, title@), program_id@).0,
        r.1 == pda_of(review_seeds(author@, title@), program_id@).1,
        r.0.wf(),
{
    let mut seeds: Vec<Vec<u8>> = Vec::new();
    seeds.push(author.dup().bytes);
    seeds.push(copy_bytes(title));
    proof {
        assert(seeds_view(seeds@) =~~= review_seeds(author@, title@));
    }
    find_program_address(&seeds, program_id)
}

/// Derive the comment-counter address and bump for a review address.
pub fn derive_counter_address(program_id: &Address, review: &Address) -> (r: (Address, u8))
    requires
        program_id.wf(),
        review.wf(),
    ensures
        r.0@ == pda_of(counter_seeds(review@), program_id@).0,
        r.1 == pda_of(counter_seeds(review@), program_id@).1,
        r.0.wf(),
{
    let mut seeds: Vec<Vec<u8>> = Vec::new();
    seeds.push(review.dup().bytes);
    seeds.push(counter_seed());
    proof {
        assert(seeds_view(seeds@) =~~= counter_seeds(review@));
    }
    find_program_address(&seeds, program_id)
}

/// Derive the comment address and bump for a review address and
/// sequence index.
pub fn derive_comment_address(program_id: &Address, review: &Address, index: u64) -> (r: (
    Address,
    u8,
))
    requires
        program_id.wf(),
        review.wf(),
    ensures
        r.0@ == pda_of(comment_seeds(review@, index), program_id@).0,
        r.1 == pda_of(comment_seeds(review@, index), program_id@).1,
        r.0.wf(),
{
    let mut seeds: Vec<Vec<u8>> = Vec::new();
    seeds.push(review.dup().bytes);
    seeds.push(u64_to_be_bytes(index));
    proof {
        assert(seeds_view(seeds@) =~~= comment_seeds(review@, index));
    }
    find_program_address(&seeds, program_id)
}

/// Derive the singleton token-mint address and bump.
pub fn derive_mint_address(program_id: &Address) -> (r: (Address, u8))
    requires
        program_id.wf(),
    ensures
        r.0@ == pda_of(mint_seeds(), program_id@).0,
        r.1 == pda_of(mint_seeds(), program_id@).1,
        r.0.wf(),
{
    let mut seeds: Vec<Vec<u8>> = Vec::new();
    seeds.push(mint_seed());
    proof {
        assert(seeds_view(seeds@) =~~= mint_seeds());
    }
    find_program_address(&seeds, program_id)
}

/// Derive the singleton mint-authority address and bump.
pub fn derive_mint_authority_address(program_id: &Address) -> (r: (Address, u8))
    requires
        program_id.wf(),
    ensures
        r.0@ == pda_of(auth_seeds(), program_id@).0,
        r.1 == pda_of(auth_seeds(), program_id@).1,
        r.0.wf(),
{
    let mut seeds: Vec<Vec<u8>> = Vec::new();
    seeds.push(auth_seed());
    proof {
        assert(seeds_view(seeds@) =~~= auth_seeds());
    }
    find_program_address(&seeds, program_id)
}

/// Derive the reward-token account address for a wallet and mint.
pub fn derive_reward_account_address(wallet: &Address, mint: &Address) -> (r: Address)
    requires
        wallet.wf(),
        mint.wf(),
    ensures
        r@ == ata_of(wallet@, mint@),
        r.wf(),
{
    associated_token_address(wallet, mint)
}

} // verus!
