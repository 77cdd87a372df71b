use vstd::prelude::*;
use rand::Rng;

verus! {

#[verifier::external_type_specification]
#[verifier::external_body]
pub struct ExThreadRng(rand::rngs::ThreadRng);

/// The characters random resource names are drawn from.
pub open spec fn name_alphabet() -> Seq<char> {
    "abcdefghijklmnopqrstuvwxyzABCDEFGHIJKLMNOPQRSTUVWXYZ0123456789"@
}

/// Relies on `rand::thread_rng`: a handle to the thread-local generator.
#[verifier::external_body]
fn new_thread_rng() -> rand::rngs::ThreadRng {
    rand::thread_rng()
}

/// Relies on `rand::Rng::gen_range` on `0..n`: some index below `n`.
/// Nothing is promised about which one; the range must not be empty.
#[verifier::external_body]
fn random_index_below(rng: &mut rand::rngs::ThreadRng, n: usize) -> (r: usize)
    requires
        n >= 1,
    ensures
        r < n,
{
    rng.gen_range(0..n)
}

/// Builds a random name of `n` alphanumeric characters.
pub fn rand_str(n: usize) -> (r: String)
    ensures
        r@.len() == n as nat,
        forall|i: int| 0 <= i < r@.len() ==> name_alphabet().contains(#[trigger] r@[i]),
{
    let letters = "abcdefghijklmnopqrstuvwxyzABCDEFGHIJKLMNOPQRSTUVWXYZ0123456789";
    proof {
        reveal_strlit("abcdefghijklmnopqrstuvwxyzABCDEFGHIJKLMNOPQRSTUVWXYZ0123456789");
    }
    assert(letters@.len() == 62);
    assert(letters.is_ascii());
    let mut rng = new_thread_rng();
    let mut s = String::new();
    let mut i: usize = 0;
    while i < n
        invariant
            0 <= i <= n,
            s@.len() == i,
            letters@ == name_alphabet(),
            letters@.len() == 62,
            letters.is_ascii(),
            forall|k: int| 0 <= k < s@.len() ==> name_alphabet().contains(#[trigger] s@[k]),
        decreases n - i,
    {
        let idx = random_index_below(&mut rng, 62);
        let piece = letters.substring_ascii(idx, idx + 1);
        s.append(piece);
        proof {
            assert(piece@[0] == name_alphabet()[idx as int]);
            assert(name_alphabet().contains(piece@[0]));
        }
        i += 1;
    }
    s
}

} // verus!
