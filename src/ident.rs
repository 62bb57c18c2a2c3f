//! Identifier derivation with explicit domain separation.
//!
//! An identifier is the SHA-256 digest of a framed message: one byte that
//! names the kind of entity, then every part prefixed by its length as
//! eight little-endian bytes.

use vstd::bytes::{lemma_auto_spec_u64_to_from_le_bytes, spec_u64_to_le_bytes, u64_to_le_bytes};
use vstd::prelude::*;
use vstd::slice::slice_to_vec;

verus! {

/// The kind of entity an identifier or digest is derived for.
#[derive(Clone, Copy, Debug, PartialEq, Eq, Structural)]
pub enum DomainTag {
    Transaction,
    Batch,
    BatchSeal,
    Proof,
    ExecutionSeal,
    Session,
    StateFold,
    CommitProof,
    CommitSeal,
}

impl DomainTag {
    pub open spec fn spec_code(self) -> u8 {
        match self {
            DomainTag::Transaction => 1,
            DomainTag::Batch => 2,
            DomainTag::BatchSeal => 3,
            DomainTag::Proof => 4,
            DomainTag::ExecutionSeal => 5,
            DomainTag::Session => 6,
            DomainTag::StateFold => 7,
            DomainTag::CommitProof => 8,
            DomainTag::CommitSeal => 9,
        }
    }

    /// The byte that opens every message hashed under this tag.
    pub fn code(&self) -> (r: u8)
        ensures
            r == self.spec_code(),
    {
        match self {
            DomainTag::Transaction => 1,
            DomainTag::Batch => 2,
            DomainTag::BatchSeal => 3,
            DomainTag::Proof => 4,
            DomainTag::ExecutionSeal => 5,
            DomainTag::Session => 6,
            DomainTag::StateFold => 7,
            DomainTag::CommitProof => 8,
            DomainTag::CommitSeal => 9,
        }
    }
}

/// The SHA-256 digest of a byte string.
pub uninterp spec fn sha256_of(msg: Seq<u8>) -> Seq<u8>;

/// Relies on anchor_lang::solana_program::hash::hash, which returns the
/// SHA-256 digest of its input.
#[verifier::external_body]
fn sha256(msg: &Vec<u8>) -> (r: [u8; 32])
    ensures
        r@ == sha256_of(msg@),
{
    anchor_lang::solana_program::hash::hash(msg.as_slice()).to_bytes()
}

/// One part of a message: its length as eight little-endian bytes, then its bytes.
pub open spec fn frame_part(p: Seq<u8>) -> Seq<u8> {
    spec_u64_to_le_bytes(p.len() as u64) + p
}

pub open spec fn frame_parts(parts: Seq<Seq<u8>>) -> Seq<u8>
    decreases parts.len(),
{
    if parts.len() == 0 {
        Seq::empty()
    } else {
        frame_parts(parts.drop_last()) + frame_part(parts.last())
    }
}

/// The message whose digest is the identifier of `parts` under `tag`.
pub open spec fn preimage(parts: Seq<Seq<u8>>, tag: DomainTag) -> Seq<u8> {
    seq![tag.spec_code()] + frame_parts(parts)
}

pub open spec fn identifier_of(parts: Seq<Seq<u8>>, tag: DomainTag) -> Seq<u8> {
    sha256_of(preimage(parts, tag))
}

pub open spec fn views_of(parts: Seq<Vec<u8>>) -> Seq<Seq<u8>> {
    parts.map_values(|p: Vec<u8>| p@)
}

/// A 64-byte seal: the identifier of `parts`, followed by the identifier
/// of that identifier, both under `tag`.
pub open spec fn seal_of(parts: Seq<Seq<u8>>, tag: DomainTag) -> Seq<u8> {
    identifier_of(parts, tag) + identifier_of(seq![identifier_of(parts, tag)], tag)
}

/// Derives the 32-byte identifier of an ordered list of parts under a domain tag.
pub fn derive_id(parts: &Vec<Vec<u8>>, tag: DomainTag) -> (r: [u8; 32])
    ensures
        r@ == identifier_of(views_of(parts@), tag),
{
    let ghost views = views_of(parts@);
    let mut msg: Vec<u8> = Vec::new();
    msg.push(tag.code());
    let mut i: usize = 0;
    while i < parts.len()
        invariant
            0 <= i <= parts@.len(),
            views == views_of(parts@),
            msg@ == seq![tag.spec_code()] + frame_parts(views.take(i as int)),
        decreases parts@.len() - i,
    {
        let mut len_bytes = u64_to_le_bytes(parts[i].len() as u64);
        let mut body = slice_to_vec(parts[i].as_slice());
        msg.append(&mut len_bytes);
        msg.append(&mut body);
        proof {
            assert(views.take(i + 1).drop_last() =~= views.take(i as int));
            assert(views[i as int] == parts@[i as int]@);
        }
        i = i + 1;
    }
    proof {
        assert(views.take(parts@.len() as int) =~= views);
    }
    sha256(&msg)
}

/// Copies a fixed-width identifier into a part of a message.
pub fn id_part(a: &[u8; 32]) -> (r: Vec<u8>)
    ensures
        r@ == a@,
{
    slice_to_vec(a.as_slice())
}

/// Eight little-endian bytes of a signed timestamp, as a message part.
pub fn i64_part(t: i64) -> (r: Vec<u8>)
    ensures
        r@ == spec_u64_to_le_bytes(t as u64),
{
    u64_to_le_bytes(t as u64)
}

/// Whether two identifiers hold the same bytes.
pub fn same_id(a: &[u8; 32], b: &[u8; 32]) -> (r: bool)
    ensures
        r == (a@ == b@),
{
    let mut i: usize = 0;
    while i < 32
        invariant
            0 <= i <= 32,
            a@.len() == 32,
            b@.len() == 32,
            forall|j: int| 0 <= j < i ==> a@[j] == b@[j],
        decreases 32 - i,
    {
        if a[i] != b[i] {
            return false;
        }
        i = i + 1;
    }
    proof {
        assert(a@ =~= b@);
    }
    true
}

/// Derives a 64-byte seal of `parts` under `tag` (see `seal_of`).
pub fn seal(parts: &Vec<Vec<u8>>, tag: DomainTag) -> (r: [u8; 64])
    ensures
        r@ == seal_of(views_of(parts@), tag),
{
    let head = derive_id(parts, tag);
    let tail_parts: Vec<Vec<u8>> = vec![id_part(&head)];
    proof {
        assert(views_of(tail_parts@) =~= seq![head@]);
    }
    let tail = derive_id(&tail_parts, tag);
    let mut out: [u8; 64] = [0u8; 64];
    let mut i: usize = 0;
    while i < 64
        invariant
            0 <= i <= 64,
            head@.len() == 32,
            tail@.len() == 32,
            out@.len() == 64,
            forall|j: int| 0 <= j < i && j < 32 ==> out@[j] == head@[j],
            forall|j: int| 32 <= j < i ==> out@[j] == tail@[j - 32],
        decreases 64 - i,
    {
        if i < 32 {
            out[i] = head[i];
        } else {
            out[i] = tail[i - 32];
        }
        i = i + 1;
    }
    proof {
        assert(out@ =~= head@ + tail@);
    }
    out
}

/// Deriving twice from equal parts under equal tags gives equal identifiers.
pub proof fn lemma_derive_deterministic(
    xs: Seq<Seq<u8>>,
    ys: Seq<Seq<u8>>,
    tag_x: DomainTag,
    tag_y: DomainTag,
)
    requires
        xs == ys,
        tag_x == tag_y,
    ensures
        identifier_of(xs, tag_x) == identifier_of(ys, tag_y),
{
}

/// Under two different tags the same parts are hashed as two different
/// messages, so an identifier of one kind of entity is never computed from
/// the same message as one of another kind.
pub proof fn lemma_domain_separation(parts: Seq<Seq<u8>>, a: DomainTag, b: DomainTag)
    requires
        a != b,
    ensures
        preimage(parts, a) != preimage(parts, b),
{
    assert(preimage(parts, a)[0] == a.spec_code());
    assert(preimage(parts, b)[0] == b.spec_code());
}

/// Every part is short enough for its length to fit the eight-byte prefix.
pub open spec fn parts_fit(parts: Seq<Seq<u8>>) -> bool {
    forall|i: int| 0 <= i < parts.len() ==> #[trigger] parts[i].len() <= u64::MAX
}

proof fn lemma_frame_front(parts: Seq<Seq<u8>>)
    requires
        parts.len() > 0,
    ensures
        frame_parts(parts) == frame_part(parts[0]) + frame_parts(
            parts.subrange(1, parts.len() as int),
        ),
    decreases parts.len(),
{
    let tail = parts.subrange(1, parts.len() as int);
    if parts.len() == 1 {
        assert(parts.drop_last() =~= Seq::<Seq<u8>>::empty());
        assert(tail =~= Seq::<Seq<u8>>::empty());
        assert(frame_parts(parts) =~= frame_part(parts[0]) + frame_parts(tail));
    } else {
        let dl = parts.drop_last();
        lemma_frame_front(dl);
        assert(tail.drop_last() =~= dl.subrange(1, dl.len() as int));
        assert(tail.last() == parts.last());
        assert(dl[0] == parts[0]);
        assert(frame_parts(parts) =~= frame_part(parts[0]) + frame_parts(tail));
    }
}

proof fn lemma_frame_injective(xs: Seq<Seq<u8>>, ys: Seq<Seq<u8>>)
    requires
        parts_fit(xs),
        parts_fit(ys),
        frame_parts(xs) == frame_parts(ys),
    ensures
        xs == ys,
    decreases xs.len(),
{
    lemma_auto_spec_u64_to_from_le_bytes();
    if xs.len() == 0 {
        if ys.len() > 0 {
            lemma_frame_front(ys);
            assert(frame_parts(ys).len() >= 8);
        }
        assert(xs =~= ys);
    } else if ys.len() == 0 {
        lemma_frame_front(xs);
        assert(frame_parts(xs).len() >= 8);
    } else {
        lemma_frame_front(xs);
        lemma_frame_front(ys);
        let s = frame_parts(xs);
        let a = xs[0];
        let b = ys[0];
        let la = spec_u64_to_le_bytes(a.len() as u64);
        let lb = spec_u64_to_le_bytes(b.len() as u64);
        let rest_x = xs.subrange(1, xs.len() as int);
        let rest_y = ys.subrange(1, ys.len() as int);
        assert(s.subrange(0, 8) =~= la);
        assert(s.subrange(0, 8) =~= lb);
        assert(a.len() == b.len());
        let n: int = 8 + a.len() as int;
        assert(s.subrange(8, n) =~= a);
        assert(s.subrange(8, n) =~= b);
        assert(s.subrange(n, s.len() as int) =~= frame_parts(rest_x));
        assert(s.subrange(n, s.len() as int) =~= frame_parts(rest_y));
        assert(parts_fit(rest_x)) by {
            assert forall|i: int| 0 <= i < rest_x.len() implies #[trigger] rest_x[i].len() <= u64::MAX by {
                assert(rest_x[i] == xs[i + 1]);
            }
        }
        assert(parts_fit(rest_y)) by {
            assert forall|i: int| 0 <= i < rest_y.len() implies #[trigger] rest_y[i].len() <= u64::MAX by {
                assert(rest_y[i] == ys[i + 1]);
            }
        }
        lemma_frame_injective(rest_x, rest_y);
        assert forall|i: int| 0 <= i < xs.len() implies xs[i] == ys[i] by {
            if i > 0 {
                assert(xs[i] == rest_x[i - 1]);
                assert(ys[i] == rest_y[i - 1]);
            }
        }
        assert(xs =~= ys);
    }
}

/// Two derivations hash the same message only when they have the same tag
/// and the same parts: distinct inputs can share an identifier only through
/// a collision of SHA-256.
pub proof fn lemma_preimage_injective(
    xs: Seq<Seq<u8>>,
    tag_x: DomainTag,
    ys: Seq<Seq<u8>>,
    tag_y: DomainTag,
)
    requires
        parts_fit(xs),
        parts_fit(ys),
        preimage(xs, tag_x) == preimage(ys, tag_y),
    ensures
        xs == ys,
        tag_x == tag_y,
{
    let m = preimage(xs, tag_x);
    assert(m[0] == tag_x.spec_code());
    assert(m[0] == tag_y.spec_code());
    assert(m.subrange(1, m.len() as int) =~= frame_parts(xs));
    assert(m.subrange(1, m.len() as int) =~= frame_parts(ys));
    lemma_frame_injective(xs, ys);
}

} // verus!
