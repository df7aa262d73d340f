use vstd::prelude::*;

use crate::principal::{Address, Principal};

verus! {

/// The address and bump byte that the program-derived-address search yields
/// for a namespace tag and a seed under a program identity, if a viable bump
/// exists. The result depends on these three inputs alone.
pub uninterp spec fn pda_of(namespace: Seq<u8>, seed: Seq<u8>, program: Seq<u8>) -> Option<
    (Seq<u8>, u8),
>;

/// The identity of the program under which every address here is derived.
pub open spec fn program_id_bytes() -> Seq<u8> {
    seq![
        81u8, 210u8, 83u8, 238u8, 51u8, 167u8, 83u8, 185u8, 255u8, 167u8, 146u8, 183u8, 242u8,
        132u8, 98u8, 100u8, 183u8, 171u8, 189u8, 95u8, 20u8, 230u8, 91u8, 247u8, 189u8, 52u8,
        38u8, 232u8, 189u8, 153u8, 108u8, 126u8,
    ]
}

/// The namespace tag under which traits records are addressed.
pub open spec fn traits_namespace() -> Seq<u8> {
    seq![116u8, 104u8, 101u8, 103u8, 111u8, 111u8, 100u8, 112u8, 108u8, 97u8, 99u8, 101u8]
}

/// The namespace tag under which emotions records are addressed.
pub open spec fn emotions_namespace() -> Seq<u8> {
    seq![101u8, 109u8, 111u8, 116u8, 105u8, 111u8, 110u8, 115u8]
}

/// The derived address and bump of the traits record for a seed.
pub open spec fn traits_pda(seed: Seq<u8>) -> Option<(Seq<u8>, u8)> {
    pda_of(traits_namespace(), seed, program_id_bytes())
}

/// The derived address and bump of the emotions record for a seed.
pub open spec fn emotions_pda(seed: Seq<u8>) -> Option<(Seq<u8>, u8)> {
    pda_of(emotions_namespace(), seed, program_id_bytes())
}

/// The program identity as a value.
pub fn program_id() -> (r: Principal)
    ensures
        r@ == program_id_bytes(),
{
    let bytes: [u8; 32] = [
        81u8, 210u8, 83u8, 238u8, 51u8, 167u8, 83u8, 185u8, 255u8, 167u8, 146u8, 183u8, 242u8,
        132u8, 98u8, 100u8, 183u8, 171u8, 189u8, 95u8, 20u8, 230u8, 91u8, 247u8, 189u8, 52u8, 38u8,
        232u8, 189u8, 153u8, 108u8, 126u8,
    ];
    assert(bytes@ =~= program_id_bytes());
    Principal { bytes }
}

/// The traits namespace tag, the ASCII bytes of "thegoodplace".
fn traits_tag() -> (v: Vec<u8>)
    ensures
        v@ == traits_namespace(),
{
    let mut v: Vec<u8> = Vec::new();
    v.push(116u8);
    v.push(104u8);
    v.push(101u8);
    v.push(103u8);
    v.push(111u8);
    v.push(111u8);
    v.push(100u8);
    v.push(112u8);
    v.push(108u8);
    v.push(97u8);
    v.push(99u8);
    v.push(101u8);
    assert(v@ =~= traits_namespace());
    v
}

/// The emotions namespace tag, the ASCII bytes of "emotions".
fn emotions_tag() -> (v: Vec<u8>)
    ensures
        v@ == emotions_namespace(),
{
    let mut v: Vec<u8> = Vec::new();
    v.push(101u8);
    v.push(109u8);
    v.push(111u8);
    v.push(116u8);
    v.push(105u8);
    v.push(111u8);
    v.push(110u8);
    v.push(115u8);
    assert(v@ =~= emotions_namespace());
    v
}

/// Relies on `Pubkey::try_find_program_address`, reached through anchor_lang:
/// the search over bump bytes is a pure function of the seed slices and the
/// program id, it returns the derived 32-byte address with the bump it used,
/// and `None` only when no bump byte yields a viable address.
#[verifier::external_body]
fn find_pda(namespace: &Vec<u8>, seed: &Principal, program: &Principal) -> (r: Option<
    (Address, u8),
>)
    ensures
        match r {
            Some(p) => pda_of(namespace@, seed@, program@) == Some((p.0@, p.1)),
            None => pda_of(namespace@, seed@, program@) is None,
        },
{
    let program_key = anchor_lang::prelude::Pubkey::new_from_array(program.bytes);
    let found = anchor_lang::prelude::Pubkey::try_find_program_address(
        &[namespace.as_slice(), &seed.bytes],
        &program_key,
    );
    found.map(|p: (anchor_lang::prelude::Pubkey, u8)| (Address { bytes: p.0.to_bytes() }, p.1))
}

/// Derive the address and bump of the traits record for this seed.
pub fn derive_traits_address(seed: &Principal) -> (r: Option<(Address, u8)>)
    ensures
        match r {
            Some(p) => traits_pda(seed@) == Some((p.0@, p.1)),
            None => traits_pda(seed@) is None,
        },
{
    let ns = traits_tag();
    let pid = program_id();
    find_pda(&ns, seed, &pid)
}

/// Derive the address and bump of the emotions record for this seed.
pub fn derive_emotions_address(seed: &Principal) -> (r: Option<(Address, u8)>)
    ensures
        match r {
            Some(p) => emotions_pda(seed@) == Some((p.0@, p.1)),
            None => emotions_pda(seed@) is None,
        },
{
    let ns = emotions_tag();
    let pid = program_id();
    find_pda(&ns, seed, &pid)
}

} // verus!
