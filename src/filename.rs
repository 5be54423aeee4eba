use vstd::prelude::*;

verus! {

/// The character of the filename alphabet `A`..`Z` `0`..`9` (ASCII) at
/// position `k`, for `k < 36`.
pub open spec fn name_char(k: nat) -> u8 {
    if k < 26 {
        (65 + k) as u8
    } else {
        (48 + (k - 26)) as u8
    }
}

/// The 8.3 filename that eight random draws give: eight characters of the
/// alphabet, each picked by one draw modulo its size, and the extension `.CSV`.
pub open spec fn filename_from(draws: Seq<u32>) -> Seq<u8> {
    Seq::new(8, |i: int| name_char((draws[i] % 36) as nat)) + seq![46u8, 67, 83, 86]
}

/// Writes into `filename` the 8.3 name that the random `draws` pick (for
/// example `ABC12345.CSV`); the drawing itself is left to the caller.
pub fn generate_random_filename(draws: &[u32; 8], filename: &mut [u8; 12])
    ensures
        final(filename)@ == filename_from(draws@),
{
    let mut i: usize = 0;
    while i < 8
        invariant
            i <= 8,
            filename@.len() == 12,
            forall|j: int| 0 <= j < i ==> filename@[j] == name_char((draws@[j] % 36) as nat),
        decreases 8 - i,
    {
        let k: u32 = draws[i] % 36;
        let c: u8 = if k < 26 {
            65 + k as u8
        } else {
            22 + k as u8
        };
        filename[i] = c;
        i = i + 1;
    }
    filename[8] = 46;
    filename[9] = 67;
    filename[10] = 83;
    filename[11] = 86;
    assert(filename@ =~= filename_from(draws@));
}

} // verus!
