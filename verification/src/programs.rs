//! The well-known program and sysvar addresses the builders reference,
//! each written out as its 32 raw bytes (the decoded form of its base58
//! address).
use vstd::prelude::*;
use crate::addr::Address;

verus! {

/// The address of the system program, `11111111111111111111111111111111`.
pub open spec fn system_program_id() -> Seq<u8> {
    seq![
        0u8, 0, 0, 0, 0, 0, 0, 0, 0, 0,
        0, 0, 0, 0, 0, 0, 0, 0, 0, 0,
        0, 0, 0, 0, 0, 0, 0, 0, 0, 0,
        0, 0,
    ]
}

/// The address of the system program.
pub fn system_program() -> (a: Address)
    ensures
        a@ == system_program_id(),
{
    let a = Address::from_bytes([
        0u8, 0, 0, 0, 0, 0, 0, 0, 0, 0,
        0, 0, 0, 0, 0, 0, 0, 0, 0, 0,
        0, 0, 0, 0, 0, 0, 0, 0, 0, 0,
        0, 0,
    ]);
    proof {
        assert(a@ =~= system_program_id());
    }
    a
}

/// The address of the rent sysvar, `SysvarRent111111111111111111111111111111111`.
pub open spec fn rent_sysvar_id() -> Seq<u8> {
    seq![
        6u8, 167, 213, 23, 25, 44, 92, 81, 33, 140,
        201, 76, 61, 74, 241, 127, 88, 218, 238, 8,
        155, 161, 253, 68, 227, 219, 217, 138, 0, 0,
        0, 0,
    ]
}

/// The address of the rent sysvar.
pub fn rent_sysvar() -> (a: Address)
    ensures
        a@ == rent_sysvar_id(),
{
    let a = Address::from_bytes([
        6u8, 167, 213, 23, 25, 44, 92, 81, 33, 140,
        201, 76, 61, 74, 241, 127, 88, 218, 238, 8,
        155, 161, 253, 68, 227, 219, 217, 138, 0, 0,
        0, 0,
    ]);
    proof {
        assert(a@ =~= rent_sysvar_id());
    }
    a
}

/// The address of the token program, `TokenkegQfeZyiNwAJbNbGKPFXCWuBvf9Ss623VQ5DA`.
pub open spec fn token_program_id() -> Seq<u8> {
    seq![
        6u8, 221, 246, 225, 215, 101, 161, 147, 217, 203,
        225, 70, 206, 235, 121, 172, 28, 180, 133, 237,
        95, 91, 55, 145, 58, 140, 245, 133, 126, 255,
        0, 169,
    ]
}

/// The address of the token program.
pub fn token_program() -> (a: Address)
    ensures
        a@ == token_program_id(),
{
    let a = Address::from_bytes([
        6u8, 221, 246, 225, 215, 101, 161, 147, 217, 203,
        225, 70, 206, 235, 121, 172, 28, 180, 133, 237,
        95, 91, 55, 145, 58, 140, 245, 133, 126, 255,
        0, 169,
    ]);
    proof {
        assert(a@ =~= token_program_id());
    }
    a
}

/// The address of the no-op log wrapper program, `noopb9bkMVfRPU8AsbpTUg8AQkHtKwMYZiFUjNRtMmV`.
pub open spec fn noop_program_id() -> Seq<u8> {
    seq![
        11u8, 188, 15, 192, 187, 71, 202, 47, 116, 196,
        17, 46, 148, 171, 19, 207, 163, 198, 52, 229,
        220, 23, 234, 203, 3, 205, 26, 35, 205, 126,
        120, 124,
    ]
}

/// The address of the no-op log wrapper program.
pub fn noop_program() -> (a: Address)
    ensures
        a@ == noop_program_id(),
{
    let a = Address::from_bytes([
        11u8, 188, 15, 192, 187, 71, 202, 47, 116, 196,
        17, 46, 148, 171, 19, 207, 163, 198, 52, 229,
        220, 23, 234, 203, 3, 205, 26, 35, 205, 126,
        120, 124,
    ]);
    proof {
        assert(a@ =~= noop_program_id());
    }
    a
}

/// The address of the account-compression program, `cmtDvXumGCrqC1Age74AVPhSRVXJMd8PJS91L8KbNCK`.
pub open spec fn compression_program_id() -> Seq<u8> {
    seq![
        9u8, 42, 19, 238, 149, 196, 28, 186, 8, 166,
        127, 90, 198, 126, 141, 247, 225, 218, 17, 98,
        94, 29, 100, 19, 127, 143, 79, 35, 131, 3,
        127, 20,
    ]
}

/// The address of the account-compression program.
pub fn compression_program() -> (a: Address)
    ensures
        a@ == compression_program_id(),
{
    let a = Address::from_bytes([
        9u8, 42, 19, 238, 149, 196, 28, 186, 8, 166,
        127, 90, 198, 126, 141, 247, 225, 218, 17, 98,
        94, 29, 100, 19, 127, 143, 79, 35, 131, 3,
        127, 20,
    ]);
    proof {
        assert(a@ =~= compression_program_id());
    }
    a
}

/// The address of the compressed-NFT (bubblegum) program, `BGUMAp9Gq7iTEuizy4pqaxsTyUCBK68MDfK752saRPUY`.
pub open spec fn bubblegum_program_id() -> Seq<u8> {
    seq![
        152u8, 139, 128, 235, 121, 53, 40, 105, 178, 36,
        116, 95, 89, 221, 191, 138, 38, 88, 202, 19,
        220, 104, 129, 33, 38, 53, 28, 174, 7, 193,
        165, 165,
    ]
}

/// The address of the compressed-NFT (bubblegum) program.
pub fn bubblegum_program() -> (a: Address)
    ensures
        a@ == bubblegum_program_id(),
{
    let a = Address::from_bytes([
        152u8, 139, 128, 235, 121, 53, 40, 105, 178, 36,
        116, 95, 89, 221, 191, 138, 38, 88, 202, 19,
        220, 104, 129, 33, 38, 53, 28, 174, 7, 193,
        165, 165,
    ]);
    proof {
        assert(a@ =~= bubblegum_program_id());
    }
    a
}

/// The address of the token-metadata program, `metaqbxxUerdq28cj1RbAWkYQm3ybzjb6a8bt518x1s`.
pub open spec fn token_metadata_program_id() -> Seq<u8> {
    seq![
        11u8, 112, 101, 177, 227, 209, 124, 69, 56, 157,
        82, 127, 107, 4, 195, 205, 88, 184, 108, 115,
        26, 160, 253, 181, 73, 182, 209, 188, 3, 248,
        41, 70,
    ]
}

/// The address of the token-metadata program.
pub fn token_metadata_program() -> (a: Address)
    ensures
        a@ == token_metadata_program_id(),
{
    let a = Address::from_bytes([
        11u8, 112, 101, 177, 227, 209, 124, 69, 56, 157,
        82, 127, 107, 4, 195, 205, 88, 184, 108, 115,
        26, 160, 253, 181, 73, 182, 209, 188, 3, 248,
        41, 70,
    ]);
    proof {
        assert(a@ =~= token_metadata_program_id());
    }
    a
}

} // verus!
