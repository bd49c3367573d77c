use vstd::prelude::*;

verus! {

/// True when the two principal identifiers hold the same bytes.
pub fn keys_equal(a: &Vec<u8>, b: &Vec<u8>) -> (r: bool)
    ensures
        r == (a@ == b@),
{
    if a.len() != b.len() {
        return false;
    }
    let mut i: usize = 0;
    while i < a.len()
        invariant
            i <= a@.len(),
            a@.len() == b@.len(),
            forall|j: int| 0 <= j < i ==> a@[j] == b@[j],
        decreases a@.len() - i,
    {
        if a[i] != b[i] {
            return false;
        }
        i = i + 1;
    }
    proof {
        assert(a@ =~= b@);
    }
    true
}

/// A by-value copy of a principal identifier.
pub fn copy_key(k: &Vec<u8>) -> (r: Vec<u8>)
    ensures
        r@ == k@,
{
    let mut out: Vec<u8> = Vec::new();
    let mut i: usize = 0;
    while i < k.len()
        invariant
            i <= k@.len(),
            out@.len() == i,
            forall|j: int| 0 <= j < i ==> out@[j] == k@[j],
        decreases k@.len() - i,
    {
        out.push(k[i]);
        i = i + 1;
    }
    proof {
        assert(out@ =~= k@);
    }
    out
}

/// The address that the storage substrate derives from a seed tag, a seed
/// and a program id. The derivation is a fixed hash construction: a function
/// of its arguments alone, with no viable address for some inputs.
pub uninterp spec fn derived_address_of(tag: Seq<u8>, seed: Seq<u8>, program_id: Seq<u8>) -> Option<
    Seq<u8>,
>;

/// Relies on `Pubkey::try_find_program_address` (reached through
/// `anchor_lang`): the derived address and its existence depend on the seeds
/// and the program id alone, and an address is 32 bytes. `None` comes only
/// in the statistically improbable case that no bump seed works, or when a
/// seed is over-long.
#[verifier::external_body]
fn derive_address(tag: &Vec<u8>, seed: &Vec<u8>, program_id: &Vec<u8>) -> (r: Option<Vec<u8>>)
    requires
        program_id@.len() == 32,
    ensures
        r is Some <==> derived_address_of(tag@, seed@, program_id@) is Some,
        r is Some ==> r.unwrap()@ == derived_address_of(tag@, seed@, program_id@).unwrap(),
        r is Some ==> r.unwrap()@.len() == 32,
{
    let pid = anchor_lang::prelude::Pubkey::try_from(program_id.as_slice()).unwrap();
    match anchor_lang::prelude::Pubkey::try_find_program_address(
        &[tag.as_slice(), seed.as_slice()],
        &pid,
    ) {
        Some((address, _bump)) => Some(address.to_bytes().to_vec()),
        None => None,
    }
}

/// The seed tag under which a sale record is addressed: the bytes of
/// `"sale"`.
pub open spec fn sale_seed() -> Seq<u8> {
    seq![115u8, 97u8, 108u8, 101u8]
}

/// The sale seed tag as a byte vector.
pub fn sale_seed_bytes() -> (r: Vec<u8>)
    ensures
        r@ == sale_seed(),
{
    let r: Vec<u8> = vec![115u8, 97u8, 108u8, 101u8];
    proof {
        assert(r@ =~= sale_seed());
    }
    r
}

/// True when `sale_address` is the deterministic derivation of
/// `("sale", creator)` under `program_id`.
pub open spec fn sale_address_matches(
    sale_address: Seq<u8>,
    creator: Seq<u8>,
    program_id: Seq<u8>,
) -> bool {
    derived_address_of(sale_seed(), creator, program_id) == Some(sale_address)
}

/// The derived-address check: accepts exactly the address that the substrate
/// derives for this creator's sale record.
pub fn check_sale_address(sale_address: &Vec<u8>, creator: &Vec<u8>, program_id: &Vec<u8>) -> (r:
    bool)
    requires
        program_id@.len() == 32,
    ensures
        r == sale_address_matches(sale_address@, creator@, program_id@),
{
    let tag = sale_seed_bytes();
    match derive_address(&tag, creator, program_id) {
        Some(expected) => {
            let eq = keys_equal(&expected, sale_address);
            proof {
                if eq {
                    assert(derived_address_of(sale_seed(), creator@, program_id@) == Some(
                        sale_address@,
                    ));
                }
            }
            eq
        },
        None => false,
    }
}

} // verus!
