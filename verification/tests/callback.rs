use shaderc::callback::{resolve, resolver};
use shaderc::{
    EnvelopeShape, IncludeCallbackResult, IncludeDescriptor, IncludeEnvelope, IncludeType,
    IncludeViolation, NulTerminated, PanicSlot, ResolvedInclude,
};

fn find_foo(
    name: &str,
    include_type: IncludeType,
    _requesting: &str,
    _depth: usize,
) -> IncludeCallbackResult {
    if name == "foo.glsl" && include_type == IncludeType::Relative {
        Ok(ResolvedInclude {
            resolved_name: "std/foo.glsl".to_string(),
            content: "#ifndef FOO_H\n#define FOO_H\nvoid main() {}\n#endif\n".to_string(),
        })
    } else {
        Err(format!("Couldn't find header \"{name}\""))
    }
}

#[test]
fn a_source_that_is_found_goes_into_a_resolved_envelope() {
    let envelope = resolver(&find_foo, b"foo.glsl", 0, b"shader.glsl", 1).unwrap();
    assert_eq!(EnvelopeShape::Resolved, envelope.shape());
    assert_eq!(Some(&b"std/foo.glsl\0"[..]), envelope.source_name());
    assert_eq!(
        &b"#ifndef FOO_H\n#define FOO_H\nvoid main() {}\n#endif\n\0"[..],
        envelope.content()
    );
    assert_eq!(
        IncludeDescriptor { source_name_length: 12, content_length: 50 },
        envelope.descriptor()
    );
}

#[test]
fn a_failure_carries_its_message_in_the_place_of_the_content() {
    let envelope = resolver(&find_foo, b"foo.glsl", 1, b"shader.glsl", 1).unwrap();
    assert_eq!(EnvelopeShape::Failed, envelope.shape());
    assert_eq!(None, envelope.source_name());
    assert_eq!(&b"Couldn't find header \"foo.glsl\"\0"[..], envelope.content());
    assert_eq!(
        IncludeDescriptor { source_name_length: 0, content_length: 31 },
        envelope.descriptor()
    );
}

#[test]
fn the_resolver_is_asked_with_what_the_request_says() {
    let echo = |name: &str, include_type: IncludeType, requesting: &str, depth: usize| {
        Err::<ResolvedInclude, String>(format!("{name}|{include_type:?}|{requesting}|{depth}"))
    };
    let envelope = resolver(&echo, b"a.glsl", 0, b"b.glsl", 7).unwrap();
    assert_eq!(&b"a.glsl|Relative|b.glsl|7\0"[..], envelope.content());
    let envelope = resolver(&echo, b"<x>", 1, b"", 0).unwrap();
    assert_eq!(&b"<x>|Standard||0\0"[..], envelope.content());
    let envelope = resolve(&echo, "n", IncludeType::Standard, "r", 2).unwrap();
    assert_eq!(&b"n|Standard|r|2\0"[..], envelope.content());
}

#[test]
fn names_that_are_not_utf8_are_decoded_leniently() {
    let echo = |name: &str, _: IncludeType, requesting: &str, _: usize| {
        Err::<ResolvedInclude, String>(format!("{name}|{requesting}"))
    };
    let envelope = resolver(&echo, &[b'a', 0xff, b'b'], 0, &[0xc3], 0).unwrap();
    assert_eq!("a\u{fffd}b|\u{fffd}\0".as_bytes(), envelope.content());
}

#[test]
fn an_answer_without_a_name_is_refused() {
    let nameless = |_: &str, _: IncludeType, _: &str, _: usize| {
        Ok::<ResolvedInclude, String>(ResolvedInclude {
            resolved_name: String::new(),
            content: "void main() {}".to_string(),
        })
    };
    assert_eq!(
        Some(IncludeViolation::EmptyResolvedName),
        resolver(&nameless, b"foo.glsl", 0, b"shader.glsl", 1).err()
    );
}

#[test]
fn an_answer_with_a_zero_byte_is_refused() {
    let answer = |name: &str, content: &str| {
        IncludeEnvelope::from_answer(Ok(ResolvedInclude {
            resolved_name: name.to_string(),
            content: content.to_string(),
        }))
        .err()
    };
    assert_eq!(Some(IncludeViolation::NulInResolvedName), answer("a\0b", "c"));
    assert_eq!(Some(IncludeViolation::NulInContent), answer("ab", "c\0"));
    assert_eq!(Some(IncludeViolation::NulInResolvedName), answer("a\0b", "c\0"));
    assert_eq!(Some(IncludeViolation::EmptyResolvedName), answer("", "c\0"));
    assert_eq!(None, answer("ab", ""));
    assert_eq!(
        Some(IncludeViolation::NulInErrorMessage),
        IncludeEnvelope::from_answer(Err("no\0".to_string())).err()
    );
}

#[test]
fn an_empty_message_is_a_failure_all_the_same() {
    let envelope = IncludeEnvelope::from_answer(Err(String::new())).unwrap();
    assert_eq!(EnvelopeShape::Failed, envelope.shape());
    assert_eq!(IncludeDescriptor { source_name_length: 0, content_length: 0 }, envelope.descriptor());
    assert_eq!(&b"\0"[..], envelope.content());
}

#[test]
fn a_panic_leaves_a_failure_without_a_message() {
    let envelope = IncludeEnvelope::for_panic();
    assert_eq!(EnvelopeShape::Failed, envelope.shape());
    assert_eq!(None, envelope.source_name());
    assert_eq!(&b"\0"[..], envelope.content());
    assert_eq!(IncludeDescriptor { source_name_length: 0, content_length: 0 }, envelope.descriptor());
}

#[test]
fn the_length_of_the_name_tells_the_shape() {
    assert_eq!(EnvelopeShape::Failed, EnvelopeShape::of_name_length(0));
    assert_eq!(EnvelopeShape::Resolved, EnvelopeShape::of_name_length(1));
    assert_eq!(EnvelopeShape::Resolved, EnvelopeShape::of_name_length(usize::MAX));
    let envelopes = [
        IncludeEnvelope::resolved(
            NulTerminated::new("n").unwrap(),
            NulTerminated::new("").unwrap(),
        ),
        IncludeEnvelope::failed(NulTerminated::new("not found").unwrap()),
        IncludeEnvelope::failed(NulTerminated::empty()),
        IncludeEnvelope::for_panic(),
    ];
    for envelope in &envelopes {
        assert_eq!(
            envelope.shape(),
            EnvelopeShape::of_name_length(envelope.descriptor().source_name_length)
        );
    }
}

#[test]
fn a_fresh_slot_is_empty() {
    let mut slot: PanicSlot<String> = PanicSlot::new();
    assert_eq!(None, slot.take());
    assert_eq!(Ok(5), slot.propagate_panic(5));
}

#[test]
fn a_stored_panic_takes_the_place_of_the_result() {
    let mut slot: PanicSlot<&str> = PanicSlot::new();
    slot.reset();
    slot.store("Panic in include resolver!");
    assert_eq!(Err("Panic in include resolver!"), slot.propagate_panic("artifact"));
    assert_eq!(Ok("artifact"), slot.propagate_panic("artifact"));
}

#[test]
fn the_last_panic_is_the_one_that_is_kept() {
    let mut slot: PanicSlot<u8> = PanicSlot::new();
    slot.store(1);
    slot.store(2);
    assert_eq!(Some(2), slot.take());
    assert_eq!(None, slot.take());
}

#[test]
fn a_panic_of_an_earlier_compilation_does_not_show_in_the_next() {
    let mut slot: PanicSlot<u8> = PanicSlot::new();
    slot.store(1);
    slot.reset();
    assert_eq!(Ok("second"), slot.propagate_panic("second"));
}
