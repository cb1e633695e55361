//! Account identities and the addresses that the program derives from seeds.
use crate::constants::{
    PROVIDER_VAULT_SEED, SUBSCRIPTION_MANAGER_SEED, SUBSCRIPTION_PLAN_SEED, SUBSCRIPTION_SEED,
};
use crate::error::SubscriptionError;
use anchor_lang::solana_program::pubkey::Pubkey;
use vstd::prelude::*;
use vstd::string::*;

verus! {

/// A 32-byte account identity: a public key or a program-derived address.
#[derive(Clone, Copy, Debug, Eq)]
pub struct Address {
    pub bytes: [u8; 32],
}

impl View for Address {
    type V = Seq<u8>;

    open spec fn view(&self) -> Seq<u8> {
        self.bytes@
    }
}

/// The all-zero identity, which no signer holds; it marks a record not yet written.
pub open spec fn zero_key() -> Seq<u8> {
    Seq::new(32, |i: int| 0u8)
}

/// The identity of the token program that keeps every balance.
pub open spec fn token_program_key() -> Seq<u8> {
    seq![
        6u8, 221, 246, 225, 215, 101, 161, 147, 217, 203, 225, 70, 206, 235, 121, 172,
        28, 180, 133, 237, 95, 91, 55, 145, 58, 140, 245, 133, 126, 255, 0, 169,
    ]
}

impl Address {
    pub fn new(bytes: [u8; 32]) -> (r: Address)
        ensures
            r.bytes == bytes,
    {
        Address { bytes }
    }

    /// Whether this is the all-zero identity.
    pub fn is_zero(&self) -> (r: bool)
        ensures
            r == (self@ == zero_key()),
    {
        let mut i: usize = 0;
        while i < 32
            invariant
                i <= 32,
                forall|j: int| 0 <= j < i ==> self@[j] == 0u8,
            decreases 32 - i,
        {
            if self.bytes[i] != 0 {
                return false;
            }
            i = i + 1;
        }
        assert(self@ =~= zero_key());
        true
    }
}

impl Default for Address {
    fn default() -> (r: Address)
        ensures
            r@ == zero_key(),
    {
        let r = Address { bytes: [0u8; 32] };
        assert(r@ =~= zero_key());
        r
    }
}

impl PartialEq for Address {
    fn eq(&self, other: &Address) -> (r: bool)
        ensures
            r == (self@ == other@),
    {
        let mut i: usize = 0;
        while i < 32
            invariant
                i <= 32,
                forall|j: int| 0 <= j < i ==> self@[j] == other@[j],
            decreases 32 - i,
        {
            if self.bytes[i] != other.bytes[i] {
                return false;
            }
            i = i + 1;
        }
        assert(self@ =~= other@);
        true
    }
}

impl vstd::std_specs::cmp::PartialEqSpecImpl for Address {
    open spec fn obeys_eq_spec() -> bool {
        true
    }

    open spec fn eq_spec(&self, other: &Address) -> bool {
        self@ == other@
    }
}

/// Relies on the constant `anchor_spl::token::ID`, the token program's identity.
#[verifier::external_body]
pub(crate) fn token_program_id() -> (r: Address)
    ensures
        r@ == token_program_key(),
{
    Address { bytes: anchor_spl::token::ID.to_bytes() }
}

/// The address that `program_id` derives from `seeds`, with its bump seed, or
/// `None` where no bump seed gives an address off the curve.
pub uninterp spec fn program_address_of(seeds: Seq<Seq<u8>>, program_id: Seq<u8>) -> Option<(Seq<u8>, u8)>;

pub open spec fn found_view(found: Option<(Address, u8)>) -> Option<(Seq<u8>, u8)> {
    match found {
        Some((a, b)) => Some((a@, b)),
        None => None,
    }
}

/// Relies on `Pubkey::try_find_program_address`: the bump search hashes the
/// seeds and the program id and depends on nothing else.
#[verifier::external_body]
fn try_find_program_address(seeds: &Vec<Vec<u8>>, program_id: &Address) -> (r: Option<(Address, u8)>)
    ensures
        found_view(r) == program_address_of(seeds.deep_view(), program_id@),
{
    let refs: Vec<&[u8]> = seeds.iter().map(Vec::as_slice).collect();
    Pubkey::try_find_program_address(&refs, &Pubkey::new_from_array(program_id.bytes))
        .map(|(key, bump)| (Address { bytes: key.to_bytes() }, bump))
}

/// The UTF-8 bytes of a string.
pub open spec fn utf8(s: Seq<char>) -> Seq<u8> {
    vstd::utf8::encode_utf8(s)
}

pub open spec fn manager_seeds() -> Seq<Seq<u8>> {
    seq![SUBSCRIPTION_MANAGER_SEED.spec_bytes()]
}

pub open spec fn plan_seeds(provider: Seq<u8>, plan_id: Seq<char>) -> Seq<Seq<u8>> {
    seq![SUBSCRIPTION_PLAN_SEED.spec_bytes(), provider, utf8(plan_id)]
}

pub open spec fn subscription_seeds(subscriber: Seq<u8>, plan: Seq<u8>) -> Seq<Seq<u8>> {
    seq![SUBSCRIPTION_SEED.spec_bytes(), subscriber, plan]
}

pub open spec fn vault_seeds(provider: Seq<u8>, plan_id: Seq<char>) -> Seq<Seq<u8>> {
    seq![PROVIDER_VAULT_SEED.spec_bytes(), provider, utf8(plan_id)]
}


/// Whether `key` is the address derived from `seeds`.
pub open spec fn is_derived(seeds: Seq<Seq<u8>>, program_id: Seq<u8>, key: Seq<u8>) -> bool {
    match program_address_of(seeds, program_id) {
        Some((a, _)) => a == key,
        None => false,
    }
}

/// The bump seed that the derivation from `seeds` found.
pub open spec fn bump_of(seeds: Seq<Seq<u8>>, program_id: Seq<u8>) -> u8 {
    match program_address_of(seeds, program_id) {
        Some((_, b)) => b,
        None => 0,
    }
}

/// The bump seed of `key`, where `key` is what the derivation found.
pub open spec fn derived_bump(found: Option<(Seq<u8>, u8)>, key: Seq<u8>) -> Result<u8, SubscriptionError> {
    match found {
        Some((a, b)) => if a == key {
            Ok(b)
        } else {
            Err(SubscriptionError::Unauthorized)
        },
        None => Err(SubscriptionError::Unauthorized),
    }
}

fn address_bytes(a: &Address) -> (r: Vec<u8>)
    ensures
        r@ == a@,
{
    let mut r: Vec<u8> = Vec::new();
    let mut i: usize = 0;
    while i < 32
        invariant
            i <= 32,
            r@ =~= a@.subrange(0, i as int),
        decreases 32 - i,
    {
        r.push(a.bytes[i]);
        i = i + 1;
    }
    r
}

fn three_seeds(tag: Vec<u8>, first: Vec<u8>, second: Vec<u8>) -> (r: Vec<Vec<u8>>)
    ensures
        r.deep_view() == seq![tag@, first@, second@],
{
    let r = vec![tag, first, second];
    assert(r.deep_view()[0] =~= r@[0]@);
    assert(r.deep_view()[1] =~= r@[1]@);
    assert(r.deep_view()[2] =~= r@[2]@);
    assert(r.deep_view() =~= seq![tag@, first@, second@]);
    r
}

/// The registry's address.
pub fn manager_address(program_id: &Address) -> (r: Option<(Address, u8)>)
    ensures
        found_view(r) == program_address_of(manager_seeds(), program_id@),
{
    let seeds = vec![SUBSCRIPTION_MANAGER_SEED.as_bytes_vec()];
    assert(seeds.deep_view()[0] =~= seeds@[0]@);
    assert(seeds.deep_view() =~= manager_seeds());
    try_find_program_address(&seeds, program_id)
}

/// The address of the plan that `provider` publishes under `plan_id`.
pub fn plan_address(program_id: &Address, provider: &Address, plan_id: &str) -> (r: Option<(Address, u8)>)
    ensures
        found_view(r) == program_address_of(plan_seeds(provider@, plan_id@), program_id@),
{
    let seeds = three_seeds(
        SUBSCRIPTION_PLAN_SEED.as_bytes_vec(),
        address_bytes(provider),
        plan_id.as_bytes_vec(),
    );
    try_find_program_address(&seeds, program_id)
}

/// The address of the subscription of `subscriber` to the plan at `plan`.
pub fn subscription_address(program_id: &Address, subscriber: &Address, plan: &Address) -> (r: Option<(Address, u8)>)
    ensures
        found_view(r) == program_address_of(subscription_seeds(subscriber@, plan@), program_id@),
{
    let seeds = three_seeds(SUBSCRIPTION_SEED.as_bytes_vec(), address_bytes(subscriber), address_bytes(plan));
    try_find_program_address(&seeds, program_id)
}

/// The address of the custody holding of the plan that `provider` publishes
/// under `plan_id`.
pub fn vault_address(program_id: &Address, provider: &Address, plan_id: &str) -> (r: Option<(Address, u8)>)
    ensures
        found_view(r) == program_address_of(vault_seeds(provider@, plan_id@), program_id@),
{
    let seeds = three_seeds(
        PROVIDER_VAULT_SEED.as_bytes_vec(),
        address_bytes(provider),
        plan_id.as_bytes_vec(),
    );
    try_find_program_address(&seeds, program_id)
}

/// Accepts `key` only where it is the address that the derivation found, and
/// hands back its bump seed.
pub fn check_derived_address(found: Option<(Address, u8)>, key: &Address) -> (r: Result<u8, SubscriptionError>)
    ensures
        r == derived_bump(found_view(found), key@),
{
    match found {
        Some((a, b)) => if a == *key {
            Ok(b)
        } else {
            Err(SubscriptionError::Unauthorized)
        },
        None => Err(SubscriptionError::Unauthorized),
    }
}

} // verus!
