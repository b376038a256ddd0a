//! Conversion of the C strings the vendor library hands out into `String`s.

use vstd::prelude::*;

verus! {

/// What `String::from_utf8_lossy` decodes the given bytes to.
pub uninterp spec fn lossy_utf8_of(bytes: Seq<u8>) -> Seq<char>;

/// Relies on `String::from_utf8_lossy`: the decoding depends on the bytes
/// alone, and an empty input decodes to an empty string.
#[verifier::external_body]
fn utf8_lossy(bytes: &Vec<u8>) -> (r: String)
    ensures
        r@ == lossy_utf8_of(bytes@),
        bytes@.len() == 0 ==> r@.len() == 0,
{
    String::from_utf8_lossy(bytes).into_owned()
}

/// The bytes of a C string up to (and excluding) its first NUL.
pub open spec fn nul_prefix(chars: Seq<i8>) -> Seq<u8>
    decreases chars.len(),
{
    if chars.len() == 0 || chars[0] == 0 {
        Seq::empty()
    } else {
        seq![chars[0] as u8] + nul_prefix(chars.drop_first())
    }
}

proof fn lemma_nul_prefix(chars: Seq<i8>, i: int)
    requires
        0 <= i <= chars.len(),
        forall|j: int| 0 <= j < i ==> chars[j] != 0,
        i == chars.len() || chars[i] == 0,
    ensures
        nul_prefix(chars) =~= Seq::new(i as nat, |j: int| chars[j] as u8),
    decreases i,
{
    if i == 0 {
    } else {
        lemma_nul_prefix(chars.drop_first(), i - 1);
        assert(seq![chars[0] as u8] + Seq::new((i - 1) as nat, |j: int| chars.drop_first()[j] as u8)
            =~= Seq::new(i as nat, |j: int| chars[j] as u8));
    }
}

/// Convert a NUL-terminated C string (an `i8` array) to a Rust `String`.
pub fn cstr_to_string(chars: &[i8]) -> (r: String)
    ensures
        r@ == lossy_utf8_of(nul_prefix(chars@)),
{
    let mut bytes: Vec<u8> = Vec::new();
    let mut i: usize = 0;
    while i < chars.len() && chars[i] != 0
        invariant
            i <= chars@.len(),
            forall|j: int| 0 <= j < i ==> chars@[j] != 0,
            bytes@ =~= Seq::new(i as nat, |j: int| chars@[j] as u8),
        decreases chars@.len() - i,
    {
        bytes.push(chars[i] as u8);
        i = i + 1;
    }
    proof {
        lemma_nul_prefix(chars@, i as int);
    }
    utf8_lossy(&bytes)
}

} // verus!
