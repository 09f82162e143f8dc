//! Random names for the objects a run creates.

use vstd::prelude::*;
use rand::Rng;
use crate::text::is_alphanumeric;

verus! {

/// One draw of `rand::distributions::Alphanumeric` from the thread-local
/// generator of `rand`. The distribution picks a byte out of `A-Z`, `a-z`
/// and `0-9`; which one is left open.
#[verifier::external_body]
fn sample_alphanumeric() -> (b: u8)
    ensures
        is_alphanumeric(b as char),
{
    rand::thread_rng().sample(rand::distributions::Alphanumeric)
}

/// A random string of `size` ASCII letters and digits.
pub fn generate_random_str(size: usize) -> (s: String)
    ensures
        s@.len() == size,
        forall|i: int| 0 <= i < size ==> is_alphanumeric(#[trigger] s@[i]),
{
    let mut s = String::new();
    let mut n: usize = 0;
    while n < size
        invariant
            n <= size,
            s@.len() == n,
            forall|i: int| 0 <= i < n ==> is_alphanumeric(#[trigger] s@[i]),
        decreases size - n,
    {
        let b = sample_alphanumeric();
        s.push(b as char);
        n += 1;
    }
    s
}

} // verus!
