//! Sorts the file sizes of a repository into three classes and says how many
//! files each class holds.

use vstd::prelude::*;
use crate::listing::listing_sizes;
use crate::text::{decimal, decimal_string};

verus! {

/// Bytes in a kibibyte.
pub const KB: u64 = 1024;

/// Bytes in a mebibyte.
pub const MB: u64 = KB * KB;

/// The size from which on a hosting service warns about a file.
pub const GITHUB_SOFT_LIMIT: u64 = 50 * MB;

/// The size that most source files stay under: 500 lines of 20 characters of
/// one byte each.
pub const MOST_CODE: u64 = 1 * 20 * 500;

/// The test that a file is as small as source code mostly is.
pub open spec fn is_code_sized() -> spec_fn(u64) -> bool {
    |size: u64| size < MOST_CODE
}

/// The test that a file is larger than source code mostly is, and still
/// under the hosting limit.
pub open spec fn is_larger() -> spec_fn(u64) -> bool {
    |size: u64| MOST_CODE <= size < GITHUB_SOFT_LIMIT
}

/// The test that a file is at or over the hosting limit.
pub open spec fn is_too_large() -> spec_fn(u64) -> bool {
    |size: u64| size >= GITHUB_SOFT_LIMIT
}

/// File sizes in bytes, sorted into the three classes. Each class keeps the
/// order in which its sizes were given.
#[derive(Debug)]
pub struct SizeClasses {
    /// Sizes under `MOST_CODE`.
    pub small: Vec<u64>,
    /// Sizes from `MOST_CODE` on and under `GITHUB_SOFT_LIMIT`.
    pub large: Vec<u64>,
    /// Sizes from `GITHUB_SOFT_LIMIT` on.
    pub very_large: Vec<u64>,
}

/// Sorts file sizes into the three classes.
pub fn classify_sizes(sizes: &Vec<u64>) -> (classes: SizeClasses)
    ensures
        classes.small@ == sizes@.filter(is_code_sized()),
        classes.large@ == sizes@.filter(is_larger()),
        classes.very_large@ == sizes@.filter(is_too_large()),
        classes.small@.len() + classes.large@.len() + classes.very_large@.len() == sizes@.len(),
{
    let mut small: Vec<u64> = Vec::new();
    let mut large: Vec<u64> = Vec::new();
    let mut very_large: Vec<u64> = Vec::new();
    let mut i: usize = 0;
    proof {
        reveal(Seq::filter);
        assert(sizes@.take(0) =~= Seq::<u64>::empty());
    }
    while i < sizes.len()
        invariant
            i <= sizes.len(),
            small@ == sizes@.take(i as int).filter(is_code_sized()),
            large@ == sizes@.take(i as int).filter(is_larger()),
            very_large@ == sizes@.take(i as int).filter(is_too_large()),
            small@.len() + large@.len() + very_large@.len() == i,
        decreases sizes.len() - i,
    {
        let size = sizes[i];
        proof {
            let seen = sizes@.take(i as int);
            assert(sizes@.take(i + 1) =~= seen.push(size));
            seen.lemma_filter_push(size, is_code_sized());
            seen.lemma_filter_push(size, is_larger());
            seen.lemma_filter_push(size, is_too_large());
        }
        if size < MOST_CODE {
            small.push(size);
        } else if size < GITHUB_SOFT_LIMIT {
            large.push(size);
        } else {
            very_large.push(size);
        }
        i += 1;
    }
    assert(sizes@.take(sizes.len() as int) =~= sizes@);
    SizeClasses { small, large, very_large }
}

/// How one class reads: the number of its files and what they are, in the
/// singular for one file.
pub open spec fn count_phrase(count: nat, one: Seq<char>, more: Seq<char>) -> Seq<char> {
    decimal(count) + " "@ + (if count == 1 {
        one
    } else {
        more
    })
}

/// `text` with the phrase of one more class: unchanged where the class is
/// empty, and otherwise followed by the phrase, after a comma and a space
/// where `text` already holds a phrase.
pub open spec fn with_class(
    text: Seq<char>,
    count: nat,
    one: Seq<char>,
    more: Seq<char>,
) -> Seq<char> {
    if count == 0 {
        text
    } else if text.len() == 0 {
        count_phrase(count, one, more)
    } else {
        text + ", "@ + count_phrase(count, one, more)
    }
}

/// The summary of the three classes: the phrases of those that hold a file,
/// separated by a comma and a space.
pub open spec fn sizes_text(small: nat, large: nat, very_large: nat) -> Seq<char> {
    with_class(
        with_class(
            with_class(Seq::empty(), small, "code-sized file"@, "code-sized files"@),
            large,
            "larger file"@,
            "larger files"@,
        ),
        very_large,
        "file too large for github"@,
        "files too large for github"@,
    )
}

/// Adds the phrase of one class to `text`.
fn push_class(text: &mut String, count: usize, one: &str, more: &str)
    ensures
        final(text)@ == with_class(old(text)@, count as nat, one@, more@),
{
    if count != 0 {
        if !text.as_str().is_empty() {
            text.append(", ");
        }
        let number = decimal_string(count as u64);
        text.append(number.as_str());
        text.append(" ");
        if count == 1 {
            text.append(one);
        } else {
            text.append(more);
        }
    }
}

/// Says how many files each class holds, leaving out the empty classes.
/// At least one class must hold a file.
pub fn format_sizes(small: &[u64], large: &[u64], very_large: &[u64]) -> (text: String)
    requires
        small@.len() + large@.len() + very_large@.len() > 0,
    ensures
        text@ == sizes_text(small@.len(), large@.len(), very_large@.len()),
{
    let mut text = String::new();
    push_class(&mut text, small.len(), "code-sized file", "code-sized files");
    push_class(&mut text, large.len(), "larger file", "larger files");
    push_class(&mut text, very_large.len(), "file too large for github", "files too large for github");
    text
}

/// The summary of the files that a listing names: how many of them fall
/// into each class. There is none where the listing names no file or where
/// one of its lines does not start with a size.
pub open spec fn listing_summary(listing: Seq<char>) -> Option<Seq<char>> {
    match listing_sizes(listing) {
        Some(sizes) => if sizes.len() == 0 {
            None
        } else {
            Some(
                sizes_text(
                    sizes.filter(is_code_sized()).len(),
                    sizes.filter(is_larger()).len(),
                    sizes.filter(is_too_large()).len(),
                ),
            )
        },
        None => None,
    }
}

} // verus!
