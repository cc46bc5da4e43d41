use sha2::Digest;
use vstd::prelude::*;
use vstd::utf8::encode_utf8;

verus! {

/// The SHA-256 digest of `data`, as `sha2` computes it.
pub uninterp spec fn sha256(data: Seq<u8>) -> Seq<u8>;

/// Calls `sha2::Sha256` (`new`, `update`, `finalize`) on `data`; the digest
/// is given the name `sha256`.
#[verifier::external_body]
fn sha256_digest(data: &[u8]) -> (digest: [u8; 32])
    ensures
        digest@ == sha256(data@),
{
    let mut hasher = sha2::Sha256::new();
    hasher.update(data);
    hasher.finalize().into()
}

/// The four little-endian bytes of a length below 2^32.
pub open spec fn u32_le(n: nat) -> Seq<u8> {
    seq![
        (n % 256) as u8,
        ((n / 256) % 256) as u8,
        ((n / 65536) % 256) as u8,
        ((n / 16777216) % 256) as u8,
    ]
}

/// Borsh bytes of a byte string (`Vec<u8>`, or the UTF-8 of a `String`):
/// its length as a little-endian `u32`, then the bytes.
pub open spec fn borsh_bytes(b: Seq<u8>) -> Seq<u8> {
    u32_le(b.len()) + b
}

/// Borsh bytes of the entries `(key, value)` one after the other, each key
/// before its value.
pub open spec fn borsh_entry_list(entries: Seq<(Seq<char>, Seq<u8>)>) -> Seq<u8>
    decreases entries.len(),
{
    if entries.len() == 0 {
        seq![]
    } else {
        borsh_entry_list(entries.drop_last()) + borsh_bytes(encode_utf8(entries.last().0))
            + borsh_bytes(entries.last().1)
    }
}

/// Borsh bytes of a vector of `(String, Vec<u8>)` entries, which are those
/// of a struct with a single such vector, whose entries are structs of a key
/// and a value: the count as a little-endian `u32`, then the entries.
pub open spec fn borsh_entries(entries: Seq<(Seq<char>, Seq<u8>)>) -> Seq<u8> {
    u32_le(entries.len()) + borsh_entry_list(entries)
}

pub open spec fn entries_view(entries: Seq<(String, Vec<u8>)>) -> Seq<(Seq<char>, Seq<u8>)> {
    entries.map_values(|e: (String, Vec<u8>)| (e.0@, e.1@))
}

/// Every length that Borsh writes fits in a `u32`.
pub open spec fn borsh_lengths_fit(entries: Seq<(Seq<char>, Seq<u8>)>) -> bool {
    &&& entries.len() <= u32::MAX
    &&& forall|i: int|
        0 <= i < entries.len() ==> encode_utf8((#[trigger] entries[i]).0).len() <= u32::MAX
            && entries[i].1.len() <= u32::MAX
}

/// Calls `borsh::to_vec` on the entries; the bytes are those that the Borsh
/// format gives for a vector of string and byte-vector pairs. `to_vec` fails
/// only on a length that does not fit in a `u32`, which `requires` leaves out.
#[verifier::external_body]
fn borsh_to_vec(entries: &Vec<(String, Vec<u8>)>) -> (bytes: Vec<u8>)
    requires
        borsh_lengths_fit(entries_view(entries@)),
    ensures
        bytes@ == borsh_entries(entries_view(entries@)),
{
    borsh::to_vec(entries).unwrap()
}

/// The instruction discriminator of a method of an Anchor program: the first
/// eight bytes of the SHA-256 digest of `global:` and the method's name.
pub open spec fn discriminator_of(name: Seq<char>) -> Seq<u8> {
    sha256(encode_utf8("global:"@ + name)).take(8)
}

pub fn discriminator(name: &str) -> (disc: [u8; 8])
    ensures
        disc@ == discriminator_of(name@),
        sha256(encode_utf8("global:"@ + name@)).len() == 32,
        forall|i: int| 0 <= i < 8 ==> disc@[i] == sha256(encode_utf8("global:"@ + name@))[i],
{
    let mut preimage = "global:".to_owned();
    preimage.append(name);
    let digest = sha256_digest(preimage.as_str().as_bytes());
    let disc = [
        digest[0],
        digest[1],
        digest[2],
        digest[3],
        digest[4],
        digest[5],
        digest[6],
        digest[7],
    ];
    assert(disc@ =~= digest@.take(8));
    disc
}

/// The data of the `update_state` instruction: its discriminator, then the
/// Borsh bytes of its entries.
pub fn update_state_data(entries: &Vec<(String, Vec<u8>)>) -> (data: Vec<u8>)
    requires
        borsh_lengths_fit(entries_view(entries@)),
    ensures
        data@ == discriminator_of("update_state"@) + borsh_entries(entries_view(entries@)),
        sha256(encode_utf8("global:"@ + "update_state"@)).len() == 32,
        data@.len() == 8 + borsh_entries(entries_view(entries@)).len(),
{
    let disc = discriminator("update_state");
    let args = borsh_to_vec(entries);
    let mut data: Vec<u8> = Vec::new();
    let mut i: usize = 0;
    while i < 8
        invariant
            0 <= i <= 8,
            disc@.len() == 8,
            data@ == disc@.take(i as int),
        decreases 8 - i,
    {
        data.push(disc[i]);
        assert(disc@.take(i + 1) =~= disc@.take(i as int).push(disc@[i as int]));
        i = i + 1;
    }
    assert(disc@.take(8) =~= disc@);
    let mut j: usize = 0;
    while j < args.len()
        invariant
            0 <= j <= args@.len(),
            data@ == disc@ + args@.take(j as int),
        decreases args@.len() - j,
    {
        data.push(args[j]);
        assert(args@.take(j + 1) =~= args@.take(j as int).push(args@[j as int]));
        j = j + 1;
    }
    assert(args@.take(args@.len() as int) =~= args@);
    data
}

} // verus!
