use crate::cstr::{bytes_until_nul, until_nul};
use crate::raw::{low_u32, size_to_u32};
use crate::text::{safe_str_from_utf8, salvaged_text};
use vstd::prelude::*;

verus! {

/// The order in which the bytes of a word lie in memory.
#[derive(Clone, Copy, Debug, PartialEq, Eq, Structural)]
pub enum ByteOrder {
    /// The lowest byte comes first.
    LittleEndian,
    /// The highest byte comes first.
    BigEndian,
}

/// The word whose four bytes are `b0`, `b1`, `b2`, `b3`, lowest first.
pub open spec fn word_of_bytes(b0: u8, b1: u8, b2: u8, b3: u8) -> int {
    b0 + 0x100 * b1 + 0x1_0000 * b2 + 0x100_0000 * b3
}

/// The `i`-th word of `bytes`, read in `order`.
pub open spec fn word_at(bytes: Seq<u8>, i: int, order: ByteOrder) -> int {
    match order {
        ByteOrder::LittleEndian => word_of_bytes(
            bytes[4 * i],
            bytes[4 * i + 1],
            bytes[4 * i + 2],
            bytes[4 * i + 3],
        ),
        ByteOrder::BigEndian => word_of_bytes(
            bytes[4 * i + 3],
            bytes[4 * i + 2],
            bytes[4 * i + 1],
            bytes[4 * i],
        ),
    }
}

/// `bytes` read as words in `order`. Bytes behind the last full word do not count.
pub open spec fn words_in(bytes: Seq<u8>, order: ByteOrder) -> Seq<u32> {
    Seq::new((bytes.len() / 4) as nat, |i: int| word_at(bytes, i, order) as u32)
}

/// Reads four bytes with `u32::from_ne_bytes`.
///
/// The standard library reads them in the order of the machine it runs on,
/// which is one of the two orders; no more is claimed.
#[verifier::external_body]
fn native_word(b0: u8, b1: u8, b2: u8, b3: u8) -> (word: u32)
    ensures
        word == word_of_bytes(b0, b1, b2, b3) || word == word_of_bytes(b3, b2, b1, b0),
{
    u32::from_ne_bytes([b0, b1, b2, b3])
}

/// The byte order of the machine this runs on, told from `probe`: the word
/// that the machine makes of the bytes 1, 0, 0, 0 as they lie in memory.
///
/// A machine that reads them as the word one has the lowest byte first;
/// every other has the highest byte first. Where `probe` is one of the two
/// words that the bytes can stand for, it is what they read as in the order
/// that is told.
fn host_byte_order(probe: u32) -> (order: ByteOrder)
    ensures
        order == order_of_probe(probe as int),
        probe == 1 || probe == 0x0100_0000 ==> word_at(seq![1u8, 0u8, 0u8, 0u8], 0, order)
            == probe,
{
    if probe == 1 {
        ByteOrder::LittleEndian
    } else {
        ByteOrder::BigEndian
    }
}

/// The byte order of a machine that makes the word `probe` of the bytes
/// 1, 0, 0, 0.
pub open spec fn order_of_probe(probe: int) -> ByteOrder {
    if probe == 1 {
        ByteOrder::LittleEndian
    } else {
        ByteOrder::BigEndian
    }
}

/// Reads `bytes` as words in `order`: see [`words_in`].
pub fn read_words(bytes: &[u8], order: ByteOrder) -> (words: Vec<u32>)
    ensures
        words@ == words_in(bytes@, order),
{
    let count = bytes.len() / 4;
    let mut words: Vec<u32> = Vec::new();
    let mut i: usize = 0;
    while i < count
        invariant
            count == bytes@.len() / 4,
            4 * count <= bytes@.len() <= usize::MAX,
            i <= count,
            words@.len() == i,
            forall|j: int| 0 <= j < i ==> words@[j] == word_at(bytes@, j, order) as u32,
        decreases count - i,
    {
        let b0 = bytes[4 * i];
        let b1 = bytes[4 * i + 1];
        let b2 = bytes[4 * i + 2];
        let b3 = bytes[4 * i + 3];
        let word: u32 = match order {
            ByteOrder::LittleEndian => b0 as u32 + 0x100 * (b1 as u32) + 0x1_0000 * (b2 as u32)
                + 0x100_0000 * (b3 as u32),
            ByteOrder::BigEndian => b3 as u32 + 0x100 * (b2 as u32) + 0x1_0000 * (b1 as u32)
                + 0x100_0000 * (b0 as u32),
        };
        words.push(word);
        i = i + 1;
    }
    assert(words@ =~= words_in(bytes@, order));
    words
}

/// What a result object of the native library holds, as its accessors report it.
#[derive(Debug, PartialEq, Eq)]
pub struct ShadercCompilationResult {
    /// The address of the native object; zero if the library gave none.
    pub handle: usize,
    /// The compilation status.
    pub status: i32,
    /// The number of errors.
    pub num_errors: usize,
    /// The number of warnings.
    pub num_warnings: usize,
    /// The text of the errors and warnings, as the bytes of a C string
    /// without its terminator.
    pub error_message: Vec<u8>,
    /// The output data.
    pub bytes: Vec<u8>,
}

/// A [`ShadercCompilationResult`] with its buffers as sequences.
pub struct CompilationResultView {
    pub handle: usize,
    pub status: i32,
    pub num_errors: usize,
    pub num_warnings: usize,
    pub error_message: Seq<u8>,
    pub bytes: Seq<u8>,
}

impl View for ShadercCompilationResult {
    type V = CompilationResultView;

    open spec fn view(&self) -> CompilationResultView {
        CompilationResultView {
            handle: self.handle,
            status: self.status,
            num_errors: self.num_errors,
            num_warnings: self.num_warnings,
            error_message: self.error_message@,
            bytes: self.bytes@,
        }
    }
}

/// The outcome of a compilation: a binary module or a text, with the
/// warnings that came with it.
#[derive(Debug)]
pub struct CompilationArtifact {
    result: ShadercCompilationResult,
    is_binary: bool,
    byte_order: ByteOrder,
    words: Vec<u32>,
}

/// What a [`CompilationArtifact`] holds.
pub struct ArtifactView {
    /// What the native result object holds.
    pub result: CompilationResultView,
    /// Whether the output data is a binary module.
    pub is_binary: bool,
    /// The order in which the words of a binary module lie in the output data.
    pub byte_order: ByteOrder,
}

impl ArtifactView {
    /// The output data of a binary module is made of whole words.
    pub open spec fn well_formed(self) -> bool {
        self.is_binary ==> self.result.bytes.len() % 4 == 0
    }

    /// The output data of a binary module as words.
    pub open spec fn words(self) -> Seq<u32> {
        words_in(self.result.bytes, self.byte_order)
    }

    /// The output data of a text artifact as text.
    pub open spec fn text(self) -> Seq<char> {
        salvaged_text(until_nul(self.result.bytes))
    }

    /// A binary module has four bytes for each of its words and no byte more.
    pub proof fn lemma_binary_length(self)
        requires
            self.well_formed(),
            self.is_binary,
        ensures
            self.words().len() * 4 == self.result.bytes.len(),
            self.result.bytes.len() % 4 == 0,
    {
    }
}

impl View for CompilationArtifact {
    type V = ArtifactView;

    closed spec fn view(&self) -> ArtifactView {
        ArtifactView {
            result: self.result@,
            is_binary: self.is_binary,
            byte_order: self.byte_order,
        }
    }
}

impl CompilationArtifact {
    #[verifier::type_invariant]
    spec fn well_formed(&self) -> bool {
        self.is_binary ==> {
            &&& self.result.bytes@.len() % 4 == 0
            &&& self.words@ == words_in(self.result.bytes@, self.byte_order)
        }
    }

    /// Takes charge of a result of the native library.
    ///
    /// `is_binary` says whether the operation that gave it produces a binary
    /// module. The output data of a binary module is made of whole words.
    pub fn new(result: ShadercCompilationResult, is_binary: bool) -> (artifact: CompilationArtifact)
        requires
            is_binary ==> result@.bytes.len() % 4 == 0,
        ensures
            artifact@.result == result@,
            artifact@.is_binary == is_binary,
            artifact@.well_formed(),
    {
        let byte_order = host_byte_order(native_word(1, 0, 0, 0));
        let words = if is_binary {
            read_words(result.bytes.as_slice(), byte_order)
        } else {
            Vec::new()
        };
        CompilationArtifact { result, is_binary, byte_order, words }
    }

    /// The address of the native result object, which is to be released when
    /// the artifact goes.
    pub fn raw(&self) -> (handle: usize)
        ensures
            handle == self@.result.handle,
    {
        self.result.handle
    }

    /// The byte order in which [`Self::as_binary`] reads words: that of the
    /// machine on which the artifact was made.
    pub fn byte_order(&self) -> (order: ByteOrder)
        ensures
            order == self@.byte_order,
    {
        self.byte_order
    }

    /// Tells whether the output data is a binary module.
    pub fn is_binary(&self) -> (binary: bool)
        ensures
            binary == self@.is_binary,
            self@.well_formed(),
    {
        proof {
            use_type_invariant(self);
        }
        self.is_binary
    }

    /// The number of bytes of the output data.
    pub fn len(&self) -> (n: usize)
        ensures
            n == self@.result.bytes.len(),
            self@.well_formed(),
    {
        proof {
            use_type_invariant(self);
        }
        self.result.bytes.len()
    }

    /// Tells whether there is no output data.
    pub fn is_empty(&self) -> (empty: bool)
        ensures
            empty == (self@.result.bytes.len() == 0),
    {
        self.len() == 0
    }

    /// The binary module as words, in the byte order of this machine.
    pub fn as_binary(&self) -> (words: &[u32])
        requires
            self@.is_binary,
        ensures
            words@ == self@.words(),
            words@.len() * 4 == self@.result.bytes.len(),
    {
        proof {
            use_type_invariant(self);
        }
        self.words.as_slice()
    }

    /// The binary module as bytes.
    pub fn as_binary_u8(&self) -> (bytes: &[u8])
        requires
            self@.is_binary,
        ensures
            bytes@ == self@.result.bytes,
            bytes@.len() % 4 == 0,
    {
        proof {
            use_type_invariant(self);
        }
        self.result.bytes.as_slice()
    }

    /// The output text.
    ///
    /// The native library ends it with a zero byte and the text stops there.
    /// Bytes that are not UTF-8 do not fail: they are made up for as
    /// [`salvaged_text`] says.
    pub fn as_text(&self) -> (text: String)
        requires
            !self@.is_binary,
        ensures
            text@ == self@.text(),
    {
        safe_str_from_utf8(bytes_until_nul(self.result.bytes.as_slice()))
    }

    /// The number of warnings that the compilation gave.
    pub fn get_num_warnings(&self) -> (count: u32)
        ensures
            count == low_u32(self@.result.num_warnings as nat),
    {
        size_to_u32(self.result.num_warnings)
    }

    /// The text of the warnings.
    pub fn get_warning_messages(&self) -> (text: String)
        ensures
            text@ == salvaged_text(self@.result.error_message),
    {
        safe_str_from_utf8(self.result.error_message.as_slice())
    }
}

} // verus!
