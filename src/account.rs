use vstd::prelude::*;

use crate::types::AccountId;

verus! {

/// `256` to the power `n`.
pub open spec fn pow256(n: nat) -> nat
    decreases n,
{
    if n == 0 {
        1
    } else {
        256 * pow256((n - 1) as nat)
    }
}

/// The number that the bytes `b` spell, least significant first.
pub open spec fn le_value(b: Seq<u8>) -> nat
    decreases b.len(),
{
    if b.len() == 0 {
        0
    } else {
        b[0] as nat + 256 * le_value(b.drop_first())
    }
}

/// The first eight bytes of `b`, with zeros after its end.
pub open spec fn first_eight(b: Seq<u8>) -> Seq<u8> {
    Seq::new(8, |i: int| if i < b.len() { b[i] } else { 0u8 })
}

/// The account that the encoded bytes `b` decode to: the first eight bytes,
/// zero-padded, read as a little-endian integer.
pub open spec fn account_of(b: Seq<u8>) -> nat {
    le_value(first_eight(b))
}

/// The type tag that prefixes a module's account seed.
pub open spec fn module_tag() -> Seq<u8> {
    seq![109u8, 111, 100, 108]
}

/// The seed of the escrow account.
pub open spec fn escrow_seed() -> Seq<u8> {
    seq![67u8, 108, 117, 98, 77, 110, 103, 114]
}

/// The identity of the escrow account.
pub open spec fn escrow_account() -> nat {
    account_of(module_tag() + escrow_seed())
}

/// Decodes an account from its encoding, truncating after eight bytes and
/// padding a shorter input with zeros.
pub fn decode_account(encoded: &[u8]) -> (r: AccountId)
    ensures
        r as nat == account_of(encoded@),
{
    let ghost padded = first_eight(encoded@);
    let mut r: u64 = 0;
    let mut i: usize = 8;
    while i > 0
        invariant
            i <= 8,
            padded == first_eight(encoded@),
            r as nat == le_value(padded.subrange(i as int, 8)),
            (r as nat) < pow256((8 - i) as nat),
        decreases i,
    {
        let byte: u8 = if i - 1 < encoded.len() { encoded[i - 1] } else { 0 };
        let ghost p = pow256((8 - i) as nat);
        assert(pow256((8 - i + 1) as nat) == 256 * p);
        assert((byte as nat) + 256 * (r as nat) < 256 * p) by (nonlinear_arith)
            requires
                (r as nat) < p,
                byte < 256,
        ;
        assert(pow256(8) == 18446744073709551616) by {
            reveal_with_fuel(pow256, 9);
        }
        assert(pow256((8 - i + 1) as nat) <= pow256(8)) by {
            reveal_with_fuel(pow256, 9);
        }
        assert(padded.subrange(i - 1, 8).drop_first() =~= padded.subrange(i as int, 8));
        r = byte as u64 + 256 * r;
        i = i - 1;
    }
    assert(padded.subrange(0, 8) =~= padded);
    r
}

/// The escrow account that collects membership dues, derived from the tag
/// `"modl"` and the seed `"ClubMngr"`.
pub fn account_id() -> (r: AccountId)
    ensures
        r as nat == escrow_account(),
{
    let encoded: Vec<u8> = vec![109u8, 111, 100, 108, 67, 108, 117, 98, 77, 110, 103, 114];
    assert(encoded@ =~= module_tag() + escrow_seed());
    decode_account(encoded.as_slice())
}

} // verus!
