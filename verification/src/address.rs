//! Account addresses, and the addresses that a program derives from seeds.

use vstd::prelude::*;
use vstd::slice::slice_to_vec;
use vstd::std_specs::cmp::PartialEqSpecImpl;
use anchor_lang::prelude::Pubkey;

verus! {

/// The address of an account: 32 bytes.
#[derive(Clone, Copy, Debug, Eq)]
pub struct Address {
    pub bytes: [u8; 32],
}

impl View for Address {
    type V = Seq<u8>;

    open spec fn view(&self) -> Seq<u8> {
        self.bytes@
    }
}

impl PartialEq for Address {
    fn eq(&self, other: &Address) -> (equal: bool) {
        let mut i: usize = 0;
        while i < 32
            invariant
                i <= 32,
                forall|j: int| 0 <= j < i ==> self.bytes@[j] == other.bytes@[j],
            decreases 32 - i,
        {
            if self.bytes[i] != other.bytes[i] {
                return false;
            }
            i = i + 1;
        }
        assert(self.bytes@ =~= other.bytes@);
        true
    }
}

impl PartialEqSpecImpl for Address {
    open spec fn obeys_eq_spec() -> bool {
        true
    }

    open spec fn eq_spec(&self, other: &Address) -> bool {
        self@ == other@
    }
}

impl Address {
    /// The address made of `bytes`.
    pub fn new(bytes: [u8; 32]) -> (address: Address)
        ensures
            address.bytes == bytes,
    {
        Address { bytes }
    }

    /// Whether two addresses are the same.
    pub fn same(&self, other: &Address) -> (same: bool)
        ensures
            same == (*self == *other),
    {
        proof {
            lemma_address_by_bytes(*self, *other);
        }
        *self == *other
    }
}

/// Two addresses are equal exactly when their bytes are.
pub proof fn lemma_address_by_bytes(a: Address, b: Address)
    ensures
        (a@ == b@) <==> (a == b),
{
    if a@ == b@ {
        assert(a.bytes =~= b.bytes);
    }
}

/// The seed that marks the address of a protocol position: the ASCII bytes of
/// `position`.
pub const POSITION_SEED: [u8; 8] = [112, 111, 115, 105, 116, 105, 111, 110];

/// The seed that marks the address of a pool's extension bitmap: the ASCII
/// bytes of `pool_tick_array_bitmap_extension`.
pub const POOL_TICK_ARRAY_BITMAP_SEED: [u8; 32] = [
    112, 111, 111, 108, 95, 116, 105, 99, 107, 95, 97, 114, 114, 97, 121, 95,
    98, 105, 116, 109, 97, 112, 95, 101, 120, 116, 101, 110, 115, 105, 111, 110,
];

/// Names the address that `Pubkey::try_find_program_address` derives from
/// `seeds` for the program at `program_id`, and `None` where it derives none.
pub uninterp spec fn program_address(seeds: Seq<Seq<u8>>, program_id: Seq<u8>) -> Option<Seq<u8>>;

/// The bytes of an address that may be missing.
pub open spec fn bytes_of(address: Option<Address>) -> Option<Seq<u8>> {
    match address {
        Some(address) => Some(address@),
        None => None,
    }
}

/// Whether `key` is the address that a derivation gave.
pub open spec fn is_derived(key: Address, derived: Option<Seq<u8>>) -> bool {
    derived == Some(key@)
}

/// Calls `Pubkey::try_find_program_address` and drops the bump seed.
///
/// Trusted: the derivation hashes the seeds, a trial bump seed and the program
/// id, and looks for the first bump whose hash is no curve point. It reads
/// nothing but its arguments, so its answer is the named `program_address` of
/// them; nothing more is claimed of it.
#[verifier::external_body]
pub(crate) fn find_program_address(seeds: &Vec<Vec<u8>>, program_id: &Address) -> (found: Option<
    Address,
>)
    ensures
        bytes_of(found) == program_address(seeds.deep_view(), program_id@),
{
    let parts: Vec<&[u8]> = seeds.iter().map(|seed| seed.as_slice()).collect();
    let program = Pubkey::new_from_array(program_id.bytes);
    Pubkey::try_find_program_address(&parts, &program).map(
        |(key, _)| Address { bytes: key.to_bytes() },
    )
}

/// The four bytes of `tick` in two's complement, the most significant first.
pub open spec fn tick_be_bytes(tick: i32) -> Seq<u8> {
    let unsigned: int = if tick < 0 {
        tick + 0x1_0000_0000
    } else {
        tick as int
    };
    seq![
        (unsigned / 0x100_0000) as u8,
        (unsigned / 0x1_0000 % 0x100) as u8,
        (unsigned / 0x100 % 0x100) as u8,
        (unsigned % 0x100) as u8,
    ]
}

/// The seed that a tick contributes: its bytes, the most significant first.
pub fn tick_seed(tick: i32) -> (seed: Vec<u8>)
    ensures
        seed@ == tick_be_bytes(tick),
{
    let unsigned: u64 = if tick < 0 {
        (tick as i64 + 0x1_0000_0000) as u64
    } else {
        tick as u64
    };
    let mut seed: Vec<u8> = Vec::new();
    seed.push((unsigned / 0x100_0000) as u8);
    seed.push((unsigned / 0x1_0000 % 0x100) as u8);
    seed.push((unsigned / 0x100 % 0x100) as u8);
    seed.push((unsigned % 0x100) as u8);
    assert(seed@ =~= tick_be_bytes(tick));
    seed
}

/// The seeds of the protocol position of a pool and a tick range.
pub open spec fn position_seeds(pool_id: Address, tick_lower: i32, tick_upper: i32) -> Seq<
    Seq<u8>,
> {
    seq![POSITION_SEED@, pool_id@, tick_be_bytes(tick_lower), tick_be_bytes(tick_upper)]
}

/// The seeds of the extension bitmap of a pool.
pub open spec fn bitmap_extension_seeds(pool_id: Address) -> Seq<Seq<u8>> {
    seq![POOL_TICK_ARRAY_BITMAP_SEED@, pool_id@]
}

/// The address at which the program keeps the protocol position of `pool_id`
/// for the range from `tick_lower` to `tick_upper`, if the derivation finds
/// one.
pub fn protocol_position_key(
    program_id: &Address,
    pool_id: &Address,
    tick_lower: i32,
    tick_upper: i32,
) -> (key: Option<Address>)
    ensures
        bytes_of(key) == program_address(
            position_seeds(*pool_id, tick_lower, tick_upper),
            program_id@,
        ),
{
    let mut seeds: Vec<Vec<u8>> = Vec::new();
    seeds.push(slice_to_vec(POSITION_SEED.as_slice()));
    seeds.push(slice_to_vec(pool_id.bytes.as_slice()));
    seeds.push(tick_seed(tick_lower));
    seeds.push(tick_seed(tick_upper));
    assert(seeds.deep_view() =~~= position_seeds(*pool_id, tick_lower, tick_upper));
    find_program_address(&seeds, program_id)
}

/// The address at which the program keeps the extension bitmap of `pool_id`,
/// if the derivation finds one.
pub fn tickarray_bitmap_extension_key(program_id: &Address, pool_id: &Address) -> (key: Option<
    Address,
>)
    ensures
        bytes_of(key) == program_address(bitmap_extension_seeds(*pool_id), program_id@),
{
    let mut seeds: Vec<Vec<u8>> = Vec::new();
    seeds.push(slice_to_vec(POOL_TICK_ARRAY_BITMAP_SEED.as_slice()));
    seeds.push(slice_to_vec(pool_id.bytes.as_slice()));
    assert(seeds.deep_view() =~~= bitmap_extension_seeds(*pool_id));
    find_program_address(&seeds, program_id)
}

} // verus!
