//! Fingerprint engine: a stable, content-only digest over a named set of
//! build inputs.
//!
//! Each input is a name together with its content bytes, or the record that
//! the named source is absent. The inputs are serialized into one canonical
//! byte string (name, a zero separator, a presence tag, and for present
//! inputs the content length and content), and that string is digested with
//! SHA-256. The encoding depends only on names and contents — never on
//! filesystem metadata — so equal declared inputs always give equal
//! fingerprints.

use vstd::prelude::*;
use vstd::bytes::{spec_u64_to_le_bytes, u64_to_le_bytes};
use sha2::Digest;

verus! {

/// The content of one declared input: either present with its bytes, or
/// absent. Absence is a distinguishable state, not the same as a present
/// input with empty content.
pub enum InputSource {
    Present(Vec<u8>),
    Absent,
}

/// One declared fingerprint input: a name (a file path, an environment
/// variable name) and its content.
pub struct NamedInput {
    pub name: Vec<u8>,
    pub source: InputSource,
}

/// The content of an input as a ghost value: `Some` content bytes, or
/// `None` for an absent source.
pub open spec fn source_view(inp: NamedInput) -> Option<Seq<u8>> {
    match inp.source {
        InputSource::Present(c) => Some(c@),
        InputSource::Absent => None,
    }
}

/// Tag byte marking a present input.
pub open spec fn tag_present() -> u8 {
    1u8
}

/// Tag byte marking an absent input (the fixed "absent" sentinel).
pub open spec fn tag_absent() -> u8 {
    2u8
}

/// The canonical serialization of one input: the name, a zero separator,
/// the presence tag, and for a present input the content length (8 bytes,
/// little endian) followed by the content itself. Length-prefixing the
/// content keeps distinct input sets from serializing identically.
pub open spec fn segment_of(inp: NamedInput) -> Seq<u8> {
    match source_view(inp) {
        Some(c) => inp.name@ + seq![0u8] + seq![tag_present()] + spec_u64_to_le_bytes(
            c.len() as u64,
        ) + c,
        None => inp.name@ + seq![0u8] + seq![tag_absent()],
    }
}

/// The canonical serialization of a whole input list, in caller-declared
/// order.
pub open spec fn encoding_of(inputs: Seq<NamedInput>) -> Seq<u8>
    decreases inputs.len(),
{
    if inputs.len() == 0 {
        Seq::empty()
    } else {
        segment_of(inputs[0]) + encoding_of(inputs.skip(1))
    }
}

/// The digest that SHA-256 assigns to a byte string. The digest is a
/// function of the bytes alone; its value is not further specified here.
pub uninterp spec fn digest_of(bytes: Seq<u8>) -> Seq<u8>;

/// The fingerprint of an input list: the digest of its canonical
/// serialization.
pub open spec fn fingerprint_of(inputs: Seq<NamedInput>) -> Seq<u8> {
    digest_of(encoding_of(inputs))
}

/// A fingerprint value: a 32-byte digest over declared build inputs.
pub struct Fingerprint {
    pub bytes: Vec<u8>,
}

impl Fingerprint {
    /// A fingerprint is a full SHA-256 digest.
    pub open spec fn wf(&self) -> bool {
        self.bytes@.len() == 32
    }

    /// Compares two fingerprints by their digest bytes.
    pub fn same_as(&self, other: &Fingerprint) -> (r: bool)
        ensures
            r == (self.bytes@ == other.bytes@),
    {
        bytes_eq(&self.bytes, &other.bytes)
    }
}

/// Compares two byte vectors by contents.
pub(crate) fn bytes_eq(a: &Vec<u8>, b: &Vec<u8>) -> (r: bool)
    ensures
        r == (a@ == b@),
{
    let r = a == b;
    proof {
        if a@.len() == b@.len() && (forall|i: int| 0 <= i < a@.len() ==> a@[i] == b@[i]) {
            assert(a@ =~= b@);
        }
    }
    r
}

/// Relies on sha2::Sha256 through the sha2::Digest trait: the digest is a
/// function of the input bytes alone, and a SHA-256 digest is 32 bytes.
#[verifier::external_body]
fn sha256_digest(bytes: &Vec<u8>) -> (r: Vec<u8>)
    ensures
        r@ == digest_of(bytes@),
        r@.len() == 32,
{
    sha2::Sha256::digest(bytes.as_slice()).to_vec()
}

/// Appends all of `src` to `dst`.
pub(crate) fn push_bytes(dst: &mut Vec<u8>, src: &Vec<u8>)
    ensures
        final(dst)@ == old(dst)@ + src@,
{
    let mut i: usize = 0;
    while i < src.len()
        invariant
            i <= src.len(),
            dst@ == old(dst)@ + src@.take(i as int),
        decreases src.len() - i,
    {
        dst.push(src[i]);
        proof {
            assert(old(dst)@ + src@.take(i as int + 1) =~= (old(dst)@ + src@.take(i as int)).push(
                src@[i as int],
            ));
        }
        i = i + 1;
    }
    proof {
        assert(src@.take(src@.len() as int) =~= src@);
    }
}

/// Serializing one more input appends its segment to the serialization.
proof fn lemma_encoding_snoc(inputs: Seq<NamedInput>, inp: NamedInput)
    ensures
        encoding_of(inputs.push(inp)) == encoding_of(inputs) + segment_of(inp),
    decreases inputs.len(),
{
    if inputs.len() == 0 {
        assert(inputs.push(inp).skip(1) =~= Seq::<NamedInput>::empty());
        assert(inputs.push(inp)[0] == inp);
        assert(encoding_of(inputs.push(inp)) == segment_of(inp) + encoding_of(
            Seq::<NamedInput>::empty(),
        ));
        assert(segment_of(inp) + encoding_of(Seq::<NamedInput>::empty()) =~= encoding_of(inputs)
            + segment_of(inp));
    } else {
        assert(inputs.push(inp)[0] == inputs[0]);
        assert(inputs.push(inp).skip(1) =~= inputs.skip(1).push(inp));
        lemma_encoding_snoc(inputs.skip(1), inp);
        assert(encoding_of(inputs.push(inp)) == segment_of(inputs[0]) + (encoding_of(inputs.skip(1))
            + segment_of(inp)));
        assert(segment_of(inputs[0]) + (encoding_of(inputs.skip(1)) + segment_of(inp)) =~= (
        segment_of(inputs[0]) + encoding_of(inputs.skip(1))) + segment_of(inp));
    }
}

/// Computes the fingerprint of the declared inputs, in caller-declared
/// order: the SHA-256 digest of their canonical serialization.
pub fn fingerprint(inputs: &Vec<NamedInput>) -> (r: Fingerprint)
    ensures
        r.bytes@ == fingerprint_of(inputs@),
        r.wf(),
{
    let mut buf: Vec<u8> = Vec::new();
    let mut i: usize = 0;
    while i < inputs.len()
        invariant
            i <= inputs.len(),
            buf@ == encoding_of(inputs@.take(i as int)),
        decreases inputs.len() - i,
    {
        let ghost pre = buf@;
        let inp = &inputs[i];
        push_bytes(&mut buf, &inp.name);
        buf.push(0u8);
        match &inp.source {
            InputSource::Present(c) => {
                buf.push(1u8);
                let len_bytes = u64_to_le_bytes(c.len() as u64);
                push_bytes(&mut buf, &len_bytes);
                push_bytes(&mut buf, c);
                proof {
                    assert(buf@ =~= pre + segment_of(inputs@[i as int]));
                }
            },
            InputSource::Absent => {
                buf.push(2u8);
                proof {
                    assert(buf@ =~= pre + segment_of(inputs@[i as int]));
                }
            },
        }
        proof {
            lemma_encoding_snoc(inputs@.take(i as int), inputs@[i as int]);
            assert(inputs@.take(i as int).push(inputs@[i as int]) =~= inputs@.take(i + 1));
        }
        i = i + 1;
    }
    proof {
        assert(inputs@.take(inputs@.len() as int) =~= inputs@);
    }
    let digest = sha256_digest(&buf);
    Fingerprint { bytes: digest }
}

/// Law: fingerprinting is deterministic. Two input lists that declare the
/// same names with the same contents in the same order — whatever distinct
/// runtime values carry them — have the same canonical serialization, and
/// therefore the same fingerprint.
pub proof fn lemma_fingerprint_deterministic(a: Seq<NamedInput>, b: Seq<NamedInput>)
    requires
        a.len() == b.len(),
        forall|i: int|
            0 <= i < a.len() ==> #[trigger] a[i].name@ == b[i].name@ && source_view(a[i])
                == source_view(b[i]),
    ensures
        encoding_of(a) == encoding_of(b),
        fingerprint_of(a) == fingerprint_of(b),
    decreases a.len(),
{
    if a.len() == 0 {
    } else {
        assert(segment_of(a[0]) == segment_of(b[0]));
        assert forall|i: int| 0 <= i < a.skip(1).len() implies #[trigger] a.skip(1)[i].name@
            == b.skip(1)[i].name@ && source_view(a.skip(1)[i]) == source_view(b.skip(1)[i]) by {
            assert(a.skip(1)[i] == a[i + 1]);
            assert(b.skip(1)[i] == b[i + 1]);
            assert(a[i + 1].name@ == b[i + 1].name@ && source_view(a[i + 1]) == source_view(
                b[i + 1],
            ));
        }
        lemma_fingerprint_deterministic(a.skip(1), b.skip(1));
    }
}

/// A well-formed declared input: its name holds no zero byte (zero is
/// the serialization's name terminator) and its content length is
/// machine-representable. Every input built from a `Vec` name without
/// zero bytes satisfies this.
pub open spec fn input_wf(inp: NamedInput) -> bool {
    &&& (forall|i: int| 0 <= i < inp.name@.len() ==> inp.name@[i] != 0u8)
    &&& (source_view(inp) matches Some(c) ==> c.len() < 0x10000000000000000)
}

/// Two equal-length byte strings followed by remainders concatenate
/// equally only piecewise.
proof fn lemma_concat_cancel(x: Seq<u8>, y: Seq<u8>, r1: Seq<u8>, r2: Seq<u8>)
    requires
        x.len() == y.len(),
        x + r1 == y + r2,
    ensures
        x == y,
        r1 == r2,
{
    assert forall|i: int| 0 <= i < x.len() implies x[i] == y[i] by {
        assert((x + r1)[i] == x[i]);
        assert((y + r2)[i] == y[i]);
    }
    assert(x =~= y);
    assert((x + r1).len() == x.len() + r1.len());
    assert((y + r2).len() == y.len() + r2.len());
    assert(r1.len() == r2.len());
    assert forall|i: int| 0 <= i < r1.len() implies r1[i] == r2[i] by {
        assert((x + r1)[x.len() + i] == r1[i]);
        assert((y + r2)[y.len() + i] == r2[i]);
    }
    assert(r1 =~= r2);
}

/// Where each byte of a segment sits: the name, the zero terminator,
/// the tag, and for present inputs the length bytes and the content.
proof fn lemma_segment_facts(a: NamedInput)
    ensures
        segment_of(a).len() >= a.name@.len() + 2,
        forall|i: int| 0 <= i < a.name@.len() ==> segment_of(a)[i] == a.name@[i],
        segment_of(a)[a.name@.len() as int] == 0u8,
        segment_of(a)[a.name@.len() as int + 1] == (if source_view(a) is Some {
            tag_present()
        } else {
            tag_absent()
        }),
        source_view(a) is None ==> segment_of(a).len() == a.name@.len() + 2,
        source_view(a) matches Some(c) ==> segment_of(a).len() == a.name@.len() + 10 + c.len() && (
        forall|i: int|
            0 <= i < 8 ==> #[trigger] segment_of(a)[a.name@.len() as int + 2 + i]
                == spec_u64_to_le_bytes(c.len() as u64)[i]) && (forall|i: int|
            0 <= i < c.len() ==> #[trigger] segment_of(a)[a.name@.len() as int + 10 + i]
                == c[i]),
{
    match source_view(a) {
        Some(c) => {
            let l = spec_u64_to_le_bytes(c.len() as u64);
            vstd::bytes::lemma_auto_spec_u64_to_from_le_bytes();
            assert(l.len() == 8);
        },
        None => {},
    }
}

/// A segment is self-delimiting: wherever two segments head equal byte
/// strings, they are the same segment, over the same name and content,
/// and the remainders agree.
proof fn lemma_segment_self_delimiting(a: NamedInput, b: NamedInput, ra: Seq<u8>, rb: Seq<u8>)
    requires
        input_wf(a),
        input_wf(b),
        segment_of(a) + ra == segment_of(b) + rb,
    ensures
        a.name@ == b.name@,
        source_view(a) == source_view(b),
        ra == rb,
{
    lemma_segment_facts(a);
    lemma_segment_facts(b);
    let s = segment_of(a) + ra;
    let la = a.name@.len() as int;
    let lb = b.name@.len() as int;
    assert forall|i: int| 0 <= i < segment_of(a).len() implies s[i] == segment_of(a)[i] by {}
    assert forall|i: int| 0 <= i < segment_of(b).len() implies s[i] == segment_of(b)[i] by {
        assert((segment_of(b) + rb)[i] == segment_of(b)[i]);
    }
    if la < lb {
        assert(s[la] == segment_of(a)[la]);
        assert(s[la] == segment_of(b)[la]);
        assert(segment_of(b)[la] == b.name@[la]);
        assert(b.name@[la] != 0u8);
        assert(false);
    }
    if lb < la {
        assert(s[lb] == segment_of(b)[lb]);
        assert(s[lb] == segment_of(a)[lb]);
        assert(a.name@[lb] != 0u8);
        assert(false);
    }
    assert(la == lb);
    assert forall|i: int| 0 <= i < la implies a.name@[i] == b.name@[i] by {
        assert(s[i] == segment_of(a)[i]);
        assert(s[i] == segment_of(b)[i]);
    }
    assert(a.name@ =~= b.name@);
    assert(s[la + 1] == segment_of(a)[la + 1]);
    assert(s[la + 1] == segment_of(b)[la + 1]);
    match (source_view(a), source_view(b)) {
        (Option::None, Option::None) => {
            lemma_concat_cancel(segment_of(a), segment_of(b), ra, rb);
        },
        (Option::Some(ca), Option::Some(cb)) => {
            let lea = spec_u64_to_le_bytes(ca.len() as u64);
            let leb = spec_u64_to_le_bytes(cb.len() as u64);
            vstd::bytes::lemma_auto_spec_u64_to_from_le_bytes();
            assert forall|i: int| 0 <= i < 8 implies lea[i] == leb[i] by {
                assert(s[la + 2 + i] == segment_of(a)[la + 2 + i]);
                assert(s[la + 2 + i] == segment_of(b)[la + 2 + i]);
            }
            assert(lea =~= leb);
            assert(vstd::bytes::spec_u64_from_le_bytes(lea) == ca.len() as u64);
            assert(vstd::bytes::spec_u64_from_le_bytes(leb) == cb.len() as u64);
            assert(ca.len() as u64 == cb.len() as u64);
            assert(ca.len() == cb.len());
            lemma_concat_cancel(segment_of(a), segment_of(b), ra, rb);
            assert forall|i: int| 0 <= i < ca.len() implies ca[i] == cb[i] by {
                assert(segment_of(a)[la + 10 + i] == ca[i]);
                assert(segment_of(b)[la + 10 + i] == cb[i]);
            }
            assert(ca =~= cb);
        },
        (Option::None, Option::Some(_)) => {
            assert(false);
        },
        (Option::Some(_), Option::None) => {
            assert(false);
        },
    }
}

/// Law: the canonical serialization is injective over well-formed
/// inputs. Two input lists that serialize to the same byte string
/// declare the same names with the same contents (or absences) in the
/// same order — so distinct declared inputs can share a fingerprint
/// only through a SHA-256 collision.
pub proof fn lemma_encoding_injective(xs: Seq<NamedInput>, ys: Seq<NamedInput>)
    requires
        forall|i: int| 0 <= i < xs.len() ==> input_wf(#[trigger] xs[i]),
        forall|i: int| 0 <= i < ys.len() ==> input_wf(#[trigger] ys[i]),
        encoding_of(xs) == encoding_of(ys),
    ensures
        xs.len() == ys.len(),
        forall|i: int|
            0 <= i < xs.len() ==> #[trigger] xs[i].name@ == ys[i].name@ && source_view(xs[i])
                == source_view(ys[i]),
    decreases xs.len(),
{
    if xs.len() == 0 {
        if ys.len() > 0 {
            lemma_segment_facts(ys[0]);
            assert(encoding_of(ys) == segment_of(ys[0]) + encoding_of(ys.skip(1)));
            assert(encoding_of(ys).len() >= 2);
            assert(false);
        }
    } else if ys.len() == 0 {
        lemma_segment_facts(xs[0]);
        assert(encoding_of(xs) == segment_of(xs[0]) + encoding_of(xs.skip(1)));
        assert(encoding_of(xs).len() >= 2);
        assert(false);
    } else {
        assert(encoding_of(xs) == segment_of(xs[0]) + encoding_of(xs.skip(1)));
        assert(encoding_of(ys) == segment_of(ys[0]) + encoding_of(ys.skip(1)));
        lemma_segment_self_delimiting(
            xs[0],
            ys[0],
            encoding_of(xs.skip(1)),
            encoding_of(ys.skip(1)),
        );
        assert forall|i: int| 0 <= i < xs.skip(1).len() implies input_wf(
            #[trigger] xs.skip(1)[i],
        ) by {
            assert(xs.skip(1)[i] == xs[i + 1]);
        }
        assert forall|i: int| 0 <= i < ys.skip(1).len() implies input_wf(
            #[trigger] ys.skip(1)[i],
        ) by {
            assert(ys.skip(1)[i] == ys[i + 1]);
        }
        lemma_encoding_injective(xs.skip(1), ys.skip(1));
        assert forall|i: int|
            0 <= i < xs.len() implies #[trigger] xs[i].name@ == ys[i].name@ && source_view(xs[i])
            == source_view(ys[i]) by {
            if i > 0 {
                assert(0 <= i - 1 < xs.skip(1).len());
                assert(xs.skip(1)[i - 1] == xs[i]);
                assert(ys.skip(1)[i - 1] == ys[i]);
                assert(xs.skip(1)[i - 1].name@ == ys.skip(1)[i - 1].name@);
                assert(source_view(xs.skip(1)[i - 1]) == source_view(ys.skip(1)[i - 1]));
            }
        }
    }
}

/// Law: absence is not emptiness. A declared input whose source is absent
/// serializes differently from the same name declared present with
/// zero-length content, so the two canonical encodings differ.
pub proof fn lemma_absent_differs_from_empty(name: Seq<u8>, absent: NamedInput, empty: NamedInput)
    requires
        absent.name@ == name,
        empty.name@ == name,
        source_view(absent) is None,
        source_view(empty) == Some(Seq::<u8>::empty()),
    ensures
        encoding_of(seq![absent]) != encoding_of(seq![empty]),
{
    vstd::bytes::lemma_auto_spec_u64_to_from_le_bytes();
    assert(seq![absent].skip(1) =~= Seq::<NamedInput>::empty());
    assert(seq![empty].skip(1) =~= Seq::<NamedInput>::empty());
    assert(encoding_of(Seq::<NamedInput>::empty()) == Seq::<u8>::empty());
    assert(seq![absent][0] == absent);
    assert(seq![empty][0] == empty);
    assert(encoding_of(seq![absent]) =~= segment_of(absent));
    assert(encoding_of(seq![empty]) =~= segment_of(empty));
    assert(segment_of(absent).len() == name.len() + 2);
    assert(segment_of(empty).len() == name.len() + 10);
}

} // verus!
