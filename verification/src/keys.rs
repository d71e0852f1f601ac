use vstd::prelude::*;

verus! {

/// A 32-byte on-chain account address, held as plain bytes.
#[derive(Clone, Copy, Debug)]
pub struct Key {
    pub bytes: [u8; 32],
}

impl View for Key {
    type V = Seq<u8>;

    open spec fn view(&self) -> Seq<u8> {
        self.bytes@
    }
}

impl Key {
    pub fn new(bytes: [u8; 32]) -> (r: Key)
        ensures
            r@ == bytes@,
    {
        Key { bytes }
    }
}

/// Byte-wise equality of two addresses.
pub fn key_eq(a: &Key, b: &Key) -> (r: bool)
    ensures
        r <==> a@ == b@,
{
    let mut i: usize = 0;
    while i < 32
        invariant
            i <= 32,
            forall|j: int| 0 <= j < i ==> a.bytes[j] == b.bytes[j],
        decreases 32 - i,
    {
        if a.bytes[i] != b.bytes[i] {
            assert(a@[i as int] != b@[i as int]);
            return false;
        }
        i = i + 1;
    }
    proof {
        assert(a@ =~= b@);
    }
    true
}

/// The on-chain swap program.
pub const PROGRAM_ID: [u8; 32] = [12, 245, 102, 61, 217, 188, 195, 218, 206, 29, 172, 251, 22, 110, 22, 212, 13, 20, 60, 231, 199, 158, 203, 129, 194, 57, 229, 74, 187, 10, 135, 232];
/// The yield-bearing token mint.
pub const USD_STAR_MINT: [u8; 32] = [13, 9, 93, 190, 135, 153, 95, 149, 60, 27, 94, 58, 32, 167, 130, 124, 150, 157, 208, 228, 203, 99, 252, 41, 160, 227, 239, 15, 132, 98, 27, 92];
/// The reserve token mint.
pub const USDC_MINT: [u8; 32] = [198, 250, 122, 243, 190, 219, 173, 58, 61, 101, 243, 106, 171, 201, 116, 49, 177, 187, 228, 194, 210, 246, 224, 228, 124, 166, 2, 3, 69, 47, 93, 97];
/// The global reserve-accounting bank account.
pub const USD_STAR_BANK: [u8; 32] = [12, 229, 194, 105, 35, 3, 16, 40, 104, 8, 82, 179, 99, 57, 143, 154, 86, 190, 38, 158, 17, 156, 75, 50, 240, 48, 67, 197, 126, 94, 119, 149];
/// The flagship vault: the one instance that integrates with the secondary lending protocol.
pub const MAIN_USDC_VAULT: [u8; 32] = [38, 145, 81, 248, 2, 18, 130, 4, 79, 27, 130, 228, 170, 249, 106, 63, 179, 249, 96, 200, 226, 112, 52, 214, 62, 255, 50, 186, 94, 20, 57, 144];
/// The secondary lending protocol's program.
pub const MARGINFI_PROGRAM_ID: [u8; 32] = [5, 48, 122, 214, 69, 75, 188, 94, 30, 78, 146, 5, 146, 83, 161, 139, 184, 200, 134, 140, 88, 166, 49, 46, 200, 106, 57, 230, 34, 78, 55, 59];
/// The flagship vault's lending group.
pub const MAIN_MARGINFI_GROUP: [u8; 32] = [57, 20, 47, 104, 47, 216, 56, 132, 150, 236, 189, 81, 6, 241, 92, 121, 76, 36, 119, 67, 56, 40, 250, 102, 66, 219, 235, 247, 32, 3, 74, 97];
/// The flagship vault's lending account.
pub const MAIN_MARGINFI_ACCOUNT: [u8; 32] = [165, 79, 56, 22, 32, 9, 194, 50, 103, 236, 160, 220, 45, 65, 120, 191, 140, 88, 29, 132, 219, 0, 205, 85, 141, 135, 183, 251, 80, 235, 179, 87];
/// The flagship vault's lending bank.
pub const MAIN_MARGINFI_BANK: [u8; 32] = [27, 173, 29, 250, 60, 178, 248, 93, 215, 246, 166, 103, 169, 72, 78, 104, 22, 199, 199, 119, 233, 52, 157, 83, 60, 115, 73, 220, 223, 111, 223, 138];
/// The lending bank's liquidity vault.
pub const MAIN_MARGINFI_LIQUIDITY_VAULT: [u8; 32] = [100, 14, 163, 145, 214, 3, 63, 89, 181, 142, 65, 172, 175, 203, 59, 31, 218, 175, 109, 3, 141, 226, 23, 227, 231, 2, 10, 186, 157, 224, 4, 149];
/// The liquidity vault's withdraw authority, needed only when burning borrows.
pub const MAIN_MARGINFI_LIQUIDITY_VAULT_AUTH: [u8; 32] = [43, 72, 47, 205, 63, 92, 107, 135, 22, 155, 87, 182, 2, 27, 74, 177, 216, 196, 30, 149, 100, 39, 237, 245, 55, 167, 240, 25, 37, 38, 122, 93];
/// The lending bank's own price oracle.
pub const MAIN_MARGINFI_ORACLE: [u8; 32] = [190, 147, 154, 131, 9, 245, 100, 7, 24, 127, 255, 48, 172, 84, 177, 105, 73, 139, 233, 159, 109, 142, 27, 253, 66, 68, 104, 12, 212, 247, 209, 226];
/// The system program.
pub const SYSTEM_PROGRAM_ID: [u8; 32] = [0, 0, 0, 0, 0, 0, 0, 0, 0, 0, 0, 0, 0, 0, 0, 0, 0, 0, 0, 0, 0, 0, 0, 0, 0, 0, 0, 0, 0, 0, 0, 0];
/// The standard token program.
pub const TOKEN_PROGRAM_ID: [u8; 32] = [6, 221, 246, 225, 215, 101, 161, 147, 217, 203, 225, 70, 206, 235, 121, 172, 28, 180, 133, 237, 95, 91, 55, 145, 58, 140, 245, 133, 126, 255, 0, 169];
/// The associated-token-account program.
pub const ASSOCIATED_TOKEN_PROGRAM_ID: [u8; 32] = [140, 151, 37, 143, 78, 36, 137, 241, 187, 61, 16, 41, 20, 142, 13, 131, 11, 90, 19, 153, 218, 255, 16, 132, 4, 142, 123, 216, 219, 233, 248, 89];

} // verus!
