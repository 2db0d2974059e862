//! Package counting from a package manager's listing: the one wired-up source
//! is a winget listing, whose package count is its line count less the two
//! header lines.
use vstd::prelude::*;
use vstd::string::*;

verus! {

/// How many newline bytes the listing holds.
pub open spec fn count_newlines(bytes: Seq<u8>) -> nat
    decreases bytes.len(),
{
    if bytes.len() == 0 {
        0
    } else {
        count_newlines(bytes.drop_last()) + if bytes.last() == 10u8 {
            1nat
        } else {
            0nat
        }
    }
}

/// The package count a winget listing stands for: one package per line, less
/// the two header lines; a listing of fewer lines counts as empty.
pub open spec fn winget_count(bytes: Seq<u8>) -> nat {
    if count_newlines(bytes) < 2 {
        0
    } else {
        (count_newlines(bytes) - 2) as nat
    }
}

fn count_newline_bytes(bytes: &Vec<u8>) -> (r: usize)
    ensures
        r == count_newlines(bytes@),
{
    let mut cnt: usize = 0;
    let mut i: usize = 0;
    proof {
        assert(bytes@.subrange(0, 0) =~= Seq::<u8>::empty());
    }
    while i < bytes.len()
        invariant
            i <= bytes@.len(),
            cnt <= i,
            cnt == count_newlines(bytes@.subrange(0, i as int)),
        decreases bytes@.len() - i,
    {
        proof {
            assert(bytes@.subrange(0, i + 1).drop_last() =~= bytes@.subrange(0, i as int));
        }
        if bytes[i] == 10u8 {
            cnt += 1;
        }
        i += 1;
    }
    proof {
        assert(bytes@.subrange(0, bytes@.len() as int) =~= bytes@);
    }
    cnt
}

/// One count per package manager whose listing was obtainable: nothing when
/// the winget listing is absent, else the single winget entry.
pub fn get_package_counts_internal(winget_listing: Option<&Vec<u8>>) -> (r: Vec<(String, usize)>)
    ensures
        winget_listing is None ==> r@.len() == 0,
        winget_listing matches Some(bytes) ==> r@.len() == 1 && r@[0].0@ == "winget"@ && r@[0].1
            == winget_count(bytes@),
{
    let mut counts: Vec<(String, usize)> = Vec::new();
    match winget_listing {
        None => counts,
        Some(bytes) => {
            let lines = count_newline_bytes(bytes);
            let count = if lines < 2 {
                0
            } else {
                lines - 2
            };
            counts.push(("winget".to_owned(), count));
            counts
        },
    }
}

/// The package counts of every package manager found on the host, from the
/// listings the caller obtained.
pub fn get_package_counts(winget_listing: Option<&Vec<u8>>) -> (r: Vec<(String, usize)>)
    ensures
        winget_listing is None ==> r@.len() == 0,
        winget_listing matches Some(bytes) ==> r@.len() == 1 && r@[0].0@ == "winget"@ && r@[0].1
            == winget_count(bytes@),
{
    get_package_counts_internal(winget_listing)
}

} // verus!
