use vstd::prelude::*;

verus! {

/// The value that std's default hasher gives for a sequence of words.
pub uninterp spec fn digest_of(words: Seq<u64>) -> u64;

/// Relies on `BuildHasher::hash_one` with `BuildHasherDefault<DefaultHasher>`:
/// every `DefaultHasher::new` starts from the same keys, so the value depends
/// on the words alone.
#[verifier::external_body]
fn digest(words: &Vec<u64>) -> (r: u64)
    ensures
        r == digest_of(words@),
{
    let build = std::hash::BuildHasherDefault::<std::collections::hash_map::DefaultHasher>::default();
    std::hash::BuildHasher::hash_one(&build, words)
}

/// A running structural hash: the words written so far, folded into one
/// value by `finish`.
pub struct Hasher {
    words: Vec<u64>,
}

impl View for Hasher {
    type V = Seq<u64>;

    closed spec fn view(&self) -> Seq<u64> {
        self.words@
    }
}

impl Hasher {
    pub fn new() -> (r: Hasher)
        ensures
            r@ == Seq::<u64>::empty(),
    {
        Hasher { words: Vec::new() }
    }

    pub fn write(&mut self, w: u64)
        ensures
            final(self)@ == old(self)@.push(w),
    {
        self.words.push(w);
    }

    pub fn finish(&self) -> (r: u64)
        ensures
            r == digest_of(self@),
    {
        digest(&self.words)
    }
}

} // verus!
