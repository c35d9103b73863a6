use vstd::prelude::*;
use vstd::slice::{slice_subrange, slice_to_vec};
use vstd::string::*;
use vstd::utf8::{encode_scalar, encode_utf8};

verus! {

/// No byte of `bytes` is zero.
pub open spec fn nul_free(bytes: Seq<u8>) -> bool {
    forall|i: int| 0 <= i < bytes.len() ==> bytes[i] != 0
}

/// `i` is where a reader of C strings stops in `bytes`: at the first zero
/// byte, or at the end if there is none.
pub open spec fn is_first_nul(bytes: Seq<u8>, i: int) -> bool {
    &&& 0 <= i <= bytes.len()
    &&& forall|j: int| 0 <= j < i ==> bytes[j] != 0
    &&& i < bytes.len() ==> bytes[i] == 0
}

/// The index of the first zero byte of `bytes`, its length if there is none.
pub open spec fn first_nul(bytes: Seq<u8>) -> int {
    choose|i: int| is_first_nul(bytes, i)
}

/// What a reader of C strings sees of `bytes`: the bytes before the first zero.
pub open spec fn until_nul(bytes: Seq<u8>) -> Seq<u8> {
    bytes.take(first_nul(bytes))
}

/// The place where a reader of C strings stops is unique, so an index of
/// which [`is_first_nul`] holds is [`first_nul`].
pub proof fn lemma_first_nul_unique(bytes: Seq<u8>, i: int)
    requires
        is_first_nul(bytes, i),
    ensures
        first_nul(bytes) == i,
        nul_free(until_nul(bytes)),
        nul_free(bytes) <==> i == bytes.len(),
{
    let k = first_nul(bytes);
    assert(is_first_nul(bytes, k));
    if k < i {
        assert(bytes[k] == 0);
    } else if i < k {
        assert(bytes[i] == 0);
    }
    if nul_free(bytes) && i < bytes.len() {
        assert(bytes[i] == 0);
    }
}

/// Two byte strings joined hold no zero byte exactly if neither holds one.
pub proof fn lemma_nul_free_concat(a: Seq<u8>, b: Seq<u8>)
    ensures
        nul_free(a + b) <==> nul_free(a) && nul_free(b),
{
    if nul_free(a + b) {
        assert forall|i: int| 0 <= i < a.len() implies a[i] != 0 by {
            assert((a + b)[i] == a[i]);
        }
        assert forall|i: int| 0 <= i < b.len() implies b[i] != 0 by {
            assert((a + b)[a.len() + i] == b[i]);
        }
    }
}

proof fn lemma_marked_byte_is_not_zero(data: u8)
    by (bit_vector)
    ensures
        0x80u8 | data != 0,
        0xC0u8 | data != 0,
        0xE0u8 | data != 0,
        0xF0u8 | data != 0,
{
}

proof fn lemma_low_bits_of_small_scalar(scalar: u32)
    by (bit_vector)
    requires
        scalar <= 0x7F,
    ensures
        scalar & 0x7F == scalar,
{
}

/// The UTF-8 encoding of a character holds a zero byte only if the
/// character is NUL itself: in an encoding of several bytes every byte has
/// its highest bit set.
pub proof fn lemma_nul_free_scalar(c: char)
    ensures
        nul_free(encode_scalar(c as u32)) <==> c != '\0',
{
    let scalar = c as u32;
    let bytes = encode_scalar(scalar);
    lemma_marked_byte_is_not_zero(((scalar >> 6) & 0x1F) as u8);
    lemma_marked_byte_is_not_zero(((scalar >> 12) & 0x0F) as u8);
    lemma_marked_byte_is_not_zero(((scalar >> 18) & 0x7) as u8);
    lemma_marked_byte_is_not_zero((scalar & 0x3F) as u8);
    lemma_marked_byte_is_not_zero(((scalar >> 6) & 0x3F) as u8);
    lemma_marked_byte_is_not_zero(((scalar >> 12) & 0x3F) as u8);
    if scalar <= 0x7F {
        lemma_low_bits_of_small_scalar(scalar);
        assert(bytes[0] == scalar);
        if c != '\0' {
            assert(nul_free(bytes));
        } else {
            assert(bytes[0] == 0);
        }
    } else {
        assert(nul_free(bytes));
    }
}

/// A text can be written as a C string exactly if it does not hold the
/// character NUL: its UTF-8 encoding has a zero byte nowhere else.
pub proof fn lemma_nul_free_text(text: Seq<char>)
    ensures
        nul_free(encode_utf8(text)) <==> !text.contains('\0'),
    decreases text.len(),
{
    if text.len() > 0 {
        let rest = text.drop_first();
        lemma_nul_free_text(rest);
        lemma_nul_free_scalar(text[0]);
        lemma_nul_free_concat(encode_scalar(text[0] as u32), encode_utf8(rest));
        if text.contains('\0') {
            let i = choose|i: int| 0 <= i < text.len() && text[i] == '\0';
            if i > 0 {
                assert(rest[i - 1] == '\0');
            }
        }
        if rest.contains('\0') {
            let i = choose|i: int| 0 <= i < rest.len() && rest[i] == '\0';
            assert(text[i + 1] == '\0');
        }
        if text[0] == '\0' {
            assert(text.contains('\0'));
        }
    }
}

/// Finds the first zero byte of `bytes`.
pub fn find_nul(bytes: &[u8]) -> (i: usize)
    ensures
        is_first_nul(bytes@, i as int),
        i == first_nul(bytes@),
{
    let mut i: usize = 0;
    while i < bytes.len() && bytes[i] != 0
        invariant
            i <= bytes@.len(),
            forall|j: int| 0 <= j < i ==> bytes@[j] != 0,
        decreases bytes@.len() - i,
    {
        i = i + 1;
    }
    proof {
        lemma_first_nul_unique(bytes@, i as int);
    }
    i
}

/// The bytes of `bytes` before its first zero byte.
pub fn bytes_until_nul(bytes: &[u8]) -> (head: &[u8])
    ensures
        head@ == until_nul(bytes@),
        nul_free(head@),
{
    let i = find_nul(bytes);
    proof {
        lemma_first_nul_unique(bytes@, i as int);
    }
    slice_subrange(bytes, 0, i)
}

/// A text cannot be handed to the native library: it holds a zero byte.
#[derive(Clone, Copy, Debug, PartialEq, Eq, Structural)]
pub struct NulError {
    /// The index of the first zero byte.
    pub position: usize,
}

/// A byte string as the native library reads it: ended by a zero byte, with
/// none before.
#[derive(Debug, PartialEq, Eq)]
pub struct NulTerminated {
    bytes: Vec<u8>,
}

impl View for NulTerminated {
    type V = Seq<u8>;

    /// The bytes before the terminator.
    closed spec fn view(&self) -> Seq<u8> {
        self.bytes@.drop_last()
    }
}

impl NulTerminated {
    #[verifier::type_invariant]
    spec fn well_formed(&self) -> bool {
        &&& self.bytes@.len() > 0
        &&& self.bytes@.last() == 0
        &&& nul_free(self.bytes@.drop_last())
    }

    /// Ends `bytes` with a zero byte, unless one is already among them.
    pub fn from_bytes(bytes: &[u8]) -> (made: Result<NulTerminated, NulError>)
        ensures
            made is Ok <==> nul_free(bytes@),
            made matches Ok(text) ==> text@ == bytes@,
            made matches Err(e) ==> e.position == first_nul(bytes@),
    {
        let position = find_nul(bytes);
        proof {
            lemma_first_nul_unique(bytes@, position as int);
        }
        if position < bytes.len() {
            Err(NulError { position })
        } else {
            let mut owned = slice_to_vec(bytes);
            owned.push(0);
            assert(owned@.drop_last() =~= bytes@);
            Ok(NulTerminated { bytes: owned })
        }
    }

    /// Ends the UTF-8 bytes of `text` with a zero byte, unless one is already
    /// among them.
    pub fn new(text: &str) -> (made: Result<NulTerminated, NulError>)
        ensures
            made is Ok <==> nul_free(text.spec_bytes()),
            made matches Ok(c_text) ==> c_text@ == text.spec_bytes(),
            made matches Err(e) ==> e.position == first_nul(text.spec_bytes()),
    {
        Self::from_bytes(text.as_bytes())
    }

    /// The text of no bytes.
    pub fn empty() -> (made: NulTerminated)
        ensures
            made@.len() == 0,
    {
        let mut owned: Vec<u8> = Vec::new();
        owned.push(0);
        assert(owned@.drop_last() =~= Seq::<u8>::empty());
        NulTerminated { bytes: owned }
    }

    /// The bytes before the terminator. None of them is zero.
    pub fn as_bytes(&self) -> (bytes: &[u8])
        ensures
            bytes@ == self@,
            nul_free(self@),
    {
        proof {
            use_type_invariant(self);
        }
        slice_subrange(self.bytes.as_slice(), 0, self.bytes.len() - 1)
    }

    /// The bytes as the native library reads them, terminator and all.
    pub fn as_bytes_with_nul(&self) -> (bytes: &[u8])
        ensures
            bytes@ == self@.push(0),
            nul_free(self@),
    {
        proof {
            use_type_invariant(self);
            assert(self.bytes@ =~= self.bytes@.drop_last().push(0));
        }
        self.bytes.as_slice()
    }

    /// The number of bytes before the terminator.
    pub fn len(&self) -> (n: usize)
        ensures
            n == self@.len(),
    {
        proof {
            use_type_invariant(self);
        }
        self.bytes.len() - 1
    }

    /// Tells whether there is no byte before the terminator.
    pub fn is_empty(&self) -> (b: bool)
        ensures
            b == (self@.len() == 0),
    {
        self.len() == 0
    }
}

} // verus!
