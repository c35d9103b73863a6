use crate::cstr::{nul_free, NulTerminated};
use crate::text::{decode_lossy, lossy_text};
use vstd::prelude::*;
use vstd::string::*;
use vstd::utf8::{decode_utf8, encode_utf8, encode_utf8_decode_utf8};

verus! {

/// How an `#include` directive names the source it asks for.
#[derive(PartialEq, Eq, PartialOrd, Ord, Hash, Copy, Clone, Debug, Structural)]
pub enum IncludeType {
    /// `#include "..."`: the name is relative to the requesting source.
    Relative,
    /// `#include <...>`: the name is looked up in the standard places.
    Standard,
}

impl IncludeType {
    /// The directive that the native library means by `tag`, if it means one.
    pub open spec fn spec_from_raw(tag: int) -> Option<IncludeType> {
        if tag == 0 {
            Some(IncludeType::Relative)
        } else if tag == 1 {
            Some(IncludeType::Standard)
        } else {
            None
        }
    }

    /// Reads the tag with which the native library asks for a source.
    pub fn from_raw(tag: i32) -> (kind: Option<IncludeType>)
        ensures
            kind == Self::spec_from_raw(tag as int),
            kind is Some <==> tag == 0 || tag == 1,
    {
        match tag {
            0 => Some(IncludeType::Relative),
            1 => Some(IncludeType::Standard),
            _ => None,
        }
    }
}

/// A source found for an `#include` directive.
#[derive(PartialEq, Eq, PartialOrd, Ord, Hash, Clone, Debug)]
pub struct ResolvedInclude {
    /// A name that tells this source from every other, such as the absolute
    /// path of a file. It shows in error messages. It must not be empty.
    pub resolved_name: String,
    /// The text to put in the place of the directive.
    pub content: String,
}

/// What a resolver answers: the source, or why there is none.
pub type IncludeCallbackResult = Result<ResolvedInclude, String>;

/// An answer of a resolver that cannot be handed to the native library.
#[derive(Clone, Copy, Debug, PartialEq, Eq, Structural)]
pub enum IncludeViolation {
    /// The resolved name is empty.
    EmptyResolvedName,
    /// The resolved name holds a zero byte.
    NulInResolvedName,
    /// The content holds a zero byte.
    NulInContent,
    /// The error message holds a zero byte.
    NulInErrorMessage,
}

/// Which of the two envelopes stands behind a descriptor.
#[derive(Clone, Copy, Debug, PartialEq, Eq, Structural)]
pub enum EnvelopeShape {
    /// The envelope of a source that was found: a name and a content.
    Resolved,
    /// The envelope of a failure: an error message.
    Failed,
}

impl EnvelopeShape {
    /// The shape that a descriptor with a source name of `source_name_length`
    /// bytes stands for: a failure has no name.
    pub open spec fn spec_of_name_length(source_name_length: nat) -> EnvelopeShape {
        if source_name_length == 0 {
            EnvelopeShape::Failed
        } else {
            EnvelopeShape::Resolved
        }
    }

    /// Tells the shape of an envelope from the length of the source name in
    /// its descriptor. This is the one test by which an envelope is told
    /// apart once it comes back from the native library; every descriptor
    /// is made to pass it (see [`IncludeEnvelope::descriptor`]).
    pub fn of_name_length(source_name_length: usize) -> (shape: EnvelopeShape)
        ensures
            shape == Self::spec_of_name_length(source_name_length as nat),
    {
        if source_name_length == 0 {
            EnvelopeShape::Failed
        } else {
            EnvelopeShape::Resolved
        }
    }
}

/// What the native library reads of an envelope, but for the addresses.
#[derive(Clone, Copy, Debug, PartialEq, Eq, Structural)]
pub struct IncludeDescriptor {
    /// The number of bytes of the source name. Zero marks a failure.
    pub source_name_length: usize,
    /// The number of bytes of the content or, for a failure, of the error message.
    pub content_length: usize,
}

#[derive(Debug)]
enum Payload {
    Resolved { source_name: NulTerminated, content: NulTerminated },
    Failed { error_message: NulTerminated },
}

/// The answer to one `#include` request as it is kept for the native
/// library: the buffers that its descriptor points into.
#[derive(Debug)]
pub struct IncludeEnvelope {
    payload: Payload,
}

/// What an [`IncludeEnvelope`] holds.
pub enum EnvelopeView {
    Resolved { source_name: Seq<u8>, content: Seq<u8> },
    Failed { error_message: Seq<u8> },
}

impl EnvelopeView {
    /// An envelope can be handed over if no buffer holds a zero byte and a
    /// source that was found has a name.
    pub open spec fn well_formed(self) -> bool {
        match self {
            EnvelopeView::Resolved { source_name, content } => {
                &&& source_name.len() > 0
                &&& nul_free(source_name)
                &&& nul_free(content)
            },
            EnvelopeView::Failed { error_message } => nul_free(error_message),
        }
    }

    /// Which of the two envelopes this is.
    pub open spec fn shape(self) -> EnvelopeShape {
        match self {
            EnvelopeView::Resolved { .. } => EnvelopeShape::Resolved,
            EnvelopeView::Failed { .. } => EnvelopeShape::Failed,
        }
    }

    /// The source name that the descriptor shows: none for a failure.
    pub open spec fn source_name(self) -> Seq<u8> {
        match self {
            EnvelopeView::Resolved { source_name, .. } => source_name,
            EnvelopeView::Failed { .. } => Seq::empty(),
        }
    }

    /// The content that the descriptor shows: for a failure, the error message.
    pub open spec fn content(self) -> Seq<u8> {
        match self {
            EnvelopeView::Resolved { content, .. } => content,
            EnvelopeView::Failed { error_message } => error_message,
        }
    }

    /// The lengths that the descriptor shows.
    pub open spec fn descriptor(self) -> (nat, nat) {
        (self.source_name().len(), self.content().len())
    }

    /// The envelope of a source that was found is told from the envelope of a
    /// failure by the length of the source name in its descriptor alone.
    pub proof fn lemma_shape_from_descriptor(self)
        requires
            self.well_formed(),
        ensures
            EnvelopeShape::spec_of_name_length(self.descriptor().0) == self.shape(),
    {
    }
}

/// What is made of the answer of a resolver: its envelope, unless the
/// answer cannot be handed to the native library.
pub open spec fn envelope_of(answer: IncludeCallbackResult) -> Result<EnvelopeView, IncludeViolation> {
    match answer {
        Ok(resolved) => {
            if resolved.resolved_name@.len() == 0 {
                Err(IncludeViolation::EmptyResolvedName)
            } else if !nul_free(encode_utf8(resolved.resolved_name@)) {
                Err(IncludeViolation::NulInResolvedName)
            } else if !nul_free(encode_utf8(resolved.content@)) {
                Err(IncludeViolation::NulInContent)
            } else {
                Ok(
                    EnvelopeView::Resolved {
                        source_name: encode_utf8(resolved.resolved_name@),
                        content: encode_utf8(resolved.content@),
                    },
                )
            }
        },
        Err(message) => {
            if !nul_free(encode_utf8(message@)) {
                Err(IncludeViolation::NulInErrorMessage)
            } else {
                Ok(EnvelopeView::Failed { error_message: encode_utf8(message@) })
            }
        },
    }
}

/// Whatever a resolver answers, the envelope made of it is well formed.
pub proof fn lemma_envelope_of_well_formed(answer: IncludeCallbackResult)
    ensures
        envelope_of(answer) matches Ok(envelope) ==> envelope.well_formed(),
{
    if let Ok(resolved) = answer {
        if resolved.resolved_name@.len() > 0 {
            assert(encode_utf8(resolved.resolved_name@).len() > 0) by {
                lemma_encoding_not_empty(resolved.resolved_name@);
            }
        }
    }
}

/// What a resolver answers reaches the native library unchanged: the
/// envelope of a source holds its name and its content, the envelope of a
/// failure holds its message, each as the UTF-8 bytes of the very text.
pub proof fn lemma_envelope_keeps_texts(answer: IncludeCallbackResult)
    ensures
        envelope_of(answer) matches Ok(envelope) ==> match answer {
            Ok(resolved) => {
                &&& envelope.shape() == EnvelopeShape::Resolved
                &&& decode_utf8(envelope.source_name()) == resolved.resolved_name@
                &&& decode_utf8(envelope.content()) == resolved.content@
            },
            Err(message) => {
                &&& envelope.shape() == EnvelopeShape::Failed
                &&& decode_utf8(envelope.content()) == message@
            },
        },
{
    match answer {
        Ok(resolved) => {
            encode_utf8_decode_utf8(resolved.resolved_name@);
            encode_utf8_decode_utf8(resolved.content@);
        },
        Err(message) => {
            encode_utf8_decode_utf8(message@);
        },
    }
}

/// A text has no bytes only if it has no characters.
pub proof fn lemma_encoding_not_empty(text: Seq<char>)
    ensures
        encode_utf8(text).len() == 0 <==> text.len() == 0,
{
}

impl View for IncludeEnvelope {
    type V = EnvelopeView;

    closed spec fn view(&self) -> EnvelopeView {
        match self.payload {
            Payload::Resolved { source_name, content } => EnvelopeView::Resolved {
                source_name: source_name@,
                content: content@,
            },
            Payload::Failed { error_message } => EnvelopeView::Failed {
                error_message: error_message@,
            },
        }
    }
}

impl IncludeEnvelope {
    #[verifier::type_invariant]
    spec fn name_marks_shape(&self) -> bool {
        match self.payload {
            Payload::Resolved { source_name, content } => source_name@.len() > 0,
            Payload::Failed { error_message } => true,
        }
    }

    /// The envelope of a source that was found.
    pub fn resolved(source_name: NulTerminated, content: NulTerminated) -> (envelope:
        IncludeEnvelope)
        requires
            source_name@.len() > 0,
        ensures
            envelope@ == (EnvelopeView::Resolved { source_name: source_name@, content: content@ }),
            envelope@.well_formed(),
    {
        // Reading the bytes recalls that none of them is zero.
        let _ = source_name.as_bytes();
        let _ = content.as_bytes();
        IncludeEnvelope { payload: Payload::Resolved { source_name, content } }
    }

    /// The envelope of a failure.
    pub fn failed(error_message: NulTerminated) -> (envelope: IncludeEnvelope)
        ensures
            envelope@ == (EnvelopeView::Failed { error_message: error_message@ }),
            envelope@.well_formed(),
    {
        // Reading the bytes recalls that none of them is zero.
        let _ = error_message.as_bytes();
        IncludeEnvelope { payload: Payload::Failed { error_message } }
    }

    /// The envelope that takes the place of an answer when the resolver
    /// panicked: a failure without a message.
    pub fn for_panic() -> (envelope: IncludeEnvelope)
        ensures
            envelope@ == (EnvelopeView::Failed { error_message: Seq::empty() }),
            envelope@.well_formed(),
    {
        let message = NulTerminated::empty();
        assert(message@ =~= Seq::<u8>::empty());
        Self::failed(message)
    }

    /// Puts the answer of a resolver into its envelope: see [`envelope_of`].
    pub fn from_answer(answer: IncludeCallbackResult) -> (made: Result<
        IncludeEnvelope,
        IncludeViolation,
    >)
        ensures
            match made {
                Ok(envelope) => envelope_of(answer) == Ok::<EnvelopeView, IncludeViolation>(
                    envelope@,
                ) && envelope@.well_formed(),
                Err(violation) => envelope_of(answer) == Err::<EnvelopeView, IncludeViolation>(
                    violation,
                ),
            },
    {
        match answer {
            Ok(resolved) => {
                proof {
                    lemma_encoding_not_empty(resolved.resolved_name@);
                }
                if resolved.resolved_name.as_str().is_empty() {
                    return Err(IncludeViolation::EmptyResolvedName);
                }
                let source_name = match NulTerminated::new(resolved.resolved_name.as_str()) {
                    Ok(source_name) => source_name,
                    Err(_) => {
                        return Err(IncludeViolation::NulInResolvedName);
                    },
                };
                let content = match NulTerminated::new(resolved.content.as_str()) {
                    Ok(content) => content,
                    Err(_) => {
                        return Err(IncludeViolation::NulInContent);
                    },
                };
                Ok(Self::resolved(source_name, content))
            },
            Err(message) => {
                match NulTerminated::new(message.as_str()) {
                    Ok(error_message) => Ok(Self::failed(error_message)),
                    Err(_) => Err(IncludeViolation::NulInErrorMessage),
                }
            },
        }
    }

    /// Which of the two envelopes this is.
    pub fn shape(&self) -> (shape: EnvelopeShape)
        ensures
            shape == self@.shape(),
    {
        match &self.payload {
            Payload::Resolved { .. } => EnvelopeShape::Resolved,
            Payload::Failed { .. } => EnvelopeShape::Failed,
        }
    }

    /// The lengths that the native library is to read. The length of the
    /// source name tells the shape of the envelope.
    pub fn descriptor(&self) -> (descriptor: IncludeDescriptor)
        ensures
            descriptor.source_name_length == self@.source_name().len(),
            descriptor.content_length == self@.content().len(),
            EnvelopeShape::spec_of_name_length(descriptor.source_name_length as nat)
                == self@.shape(),
    {
        proof {
            use_type_invariant(self);
        }
        match &self.payload {
            Payload::Resolved { source_name, content } => IncludeDescriptor {
                source_name_length: source_name.len(),
                content_length: content.len(),
            },
            Payload::Failed { error_message } => IncludeDescriptor {
                source_name_length: 0,
                content_length: error_message.len(),
            },
        }
    }

    /// The buffer of the source name, ended by a zero byte; for a failure
    /// there is none.
    pub fn source_name(&self) -> (bytes: Option<&[u8]>)
        ensures
            self@.shape() == EnvelopeShape::Resolved ==> bytes is Some && bytes->0@
                == self@.source_name().push(0),
            self@.shape() == EnvelopeShape::Failed ==> bytes is None,
    {
        match &self.payload {
            Payload::Resolved { source_name, .. } => Some(source_name.as_bytes_with_nul()),
            Payload::Failed { .. } => None,
        }
    }

    /// The buffer of the content or, for a failure, of the error message,
    /// ended by a zero byte.
    pub fn content(&self) -> (bytes: &[u8])
        ensures
            bytes@ == self@.content().push(0),
    {
        match &self.payload {
            Payload::Resolved { content, .. } => content.as_bytes_with_nul(),
            Payload::Failed { error_message } => error_message.as_bytes_with_nul(),
        }
    }
}

/// Asks `resolver` for a source and puts its answer into an envelope.
pub fn resolve<F>(
    resolver: &F,
    requested_source: &str,
    include_type: IncludeType,
    requesting_source: &str,
    include_depth: usize,
) -> (made: Result<IncludeEnvelope, IncludeViolation>) where
    F: Fn(&str, IncludeType, &str, usize) -> IncludeCallbackResult,

    requires
        call_requires(
            resolver,
            (requested_source, include_type, requesting_source, include_depth),
        ),
    ensures
        exists|answer: IncludeCallbackResult|
            {
                &&& call_ensures(
                    resolver,
                    (requested_source, include_type, requesting_source, include_depth),
                    answer,
                )
                &&& match made {
                    Ok(envelope) => #[trigger] envelope_of(answer) == Ok::<
                        EnvelopeView,
                        IncludeViolation,
                    >(envelope@),
                    Err(violation) => envelope_of(answer) == Err::<EnvelopeView, IncludeViolation>(
                        violation,
                    ),
                }
            },
        made matches Ok(envelope) ==> envelope@.well_formed(),
{
    let answer = resolver(requested_source, include_type, requesting_source, include_depth);
    IncludeEnvelope::from_answer(answer)
}

/// Answers one request of the native library for a source.
///
/// The two names come as the bytes of C strings and are decoded leniently,
/// `type_` is the tag of the directive. The resolver is asked once, with the
/// decoded names, and its answer is put into an envelope.
pub fn resolver<F>(
    user: &F,
    requested_source: &[u8],
    type_: i32,
    requesting_source: &[u8],
    include_depth: usize,
) -> (made: Result<IncludeEnvelope, IncludeViolation>) where
    F: Fn(&str, IncludeType, &str, usize) -> IncludeCallbackResult,

    requires
        type_ == 0 || type_ == 1,
        forall|requested: &str, include_type: IncludeType, requesting: &str, depth: usize|
            call_requires(user, (requested, include_type, requesting, depth)),
    ensures
        exists|requested: &str, requesting: &str, answer: IncludeCallbackResult|
            {
                &&& requested@ == lossy_text(requested_source@)
                &&& requesting@ == lossy_text(requesting_source@)
                &&& #[trigger] call_ensures(
                    user,
                    (
                        requested,
                        IncludeType::spec_from_raw(type_ as int)->0,
                        requesting,
                        include_depth,
                    ),
                    answer,
                )
                &&& match made {
                    Ok(envelope) => envelope_of(answer) == Ok::<EnvelopeView, IncludeViolation>(
                        envelope@,
                    ),
                    Err(violation) => envelope_of(answer) == Err::<EnvelopeView, IncludeViolation>(
                        violation,
                    ),
                }
            },
        made matches Ok(envelope) ==> envelope@.well_formed(),
{
    let requested = decode_lossy(requested_source);
    let include_type = if type_ == 0 {
        IncludeType::Relative
    } else {
        IncludeType::Standard
    };
    let requesting = decode_lossy(requesting_source);
    assert(IncludeType::spec_from_raw(type_ as int)->0 == include_type);
    resolve(user, requested.as_str(), include_type, requesting.as_str(), include_depth)
}

/// The place where a panic of a resolver waits while the native library
/// still runs: one slot, filled at most once over.
pub struct PanicSlot<P> {
    payload: Option<P>,
}

impl<P> View for PanicSlot<P> {
    type V = Option<P>;

    closed spec fn view(&self) -> Option<P> {
        self.payload
    }
}

impl<P> PanicSlot<P> {
    /// An empty slot.
    pub fn new() -> (slot: Self)
        ensures
            slot@ is None,
    {
        PanicSlot { payload: None }
    }

    /// Empties the slot before a compilation starts, so that nothing of an
    /// earlier one is left in it.
    pub fn reset(&mut self)
        ensures
            final(self)@ is None,
    {
        self.payload = None;
    }

    /// Keeps the payload of a panic. An earlier payload gives way to it.
    pub fn store(&mut self, payload: P)
        ensures
            final(self)@ == Some(payload),
    {
        self.payload = Some(payload);
    }

    /// Takes out what the slot holds and leaves it empty.
    pub fn take(&mut self) -> (payload: Option<P>)
        ensures
            payload == old(self)@,
            final(self)@ is None,
    {
        self.payload.take()
    }

    /// Decides what a compilation ends with once the native library has
    /// returned: with the panic that a resolver raised meanwhile, if there
    /// was one, else with `result`. The slot is left empty.
    pub fn propagate_panic<T>(&mut self, result: T) -> (outcome: Result<T, P>)
        ensures
            outcome == match old(self)@ {
                Some(payload) => Err::<T, P>(payload),
                None => Ok::<T, P>(result),
            },
            final(self)@ is None,
    {
        match self.payload.take() {
            Some(payload) => Err(payload),
            None => Ok(result),
        }
    }
}

} // verus!
