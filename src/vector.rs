use embeddenator_vsa::{ReversibleVSAConfig, SparseVec};
use vstd::prelude::*;

verus! {

/// A sparse ternary hypervector: the dimensions set to +1 and those set to -1.
#[derive(Debug, PartialEq, Eq)]
pub struct Hypervector {
    pub pos: Vec<usize>,
    pub neg: Vec<usize>,
}

impl View for Hypervector {
    type V = (Seq<usize>, Seq<usize>);

    open spec fn view(&self) -> (Seq<usize>, Seq<usize>) {
        (self.pos@, self.neg@)
    }
}

/// The hypervector that the VSA encoder gives for the UTF-8 bytes of a text,
/// under the default reversible configuration and no path.
pub uninterp spec fn text_vector(s: Seq<char>) -> (Seq<usize>, Seq<usize>);

/// The VSA binding of two hypervectors.
pub uninterp spec fn bound(a: (Seq<usize>, Seq<usize>), b: (Seq<usize>, Seq<usize>)) -> (
    Seq<usize>,
    Seq<usize>,
);

/// The VSA superposition (bundle) of two hypervectors.
pub uninterp spec fn superposed(a: (Seq<usize>, Seq<usize>), b: (Seq<usize>, Seq<usize>)) -> (
    Seq<usize>,
    Seq<usize>,
);

/// Left fold of `superposed` over a non-empty sequence, seeded with its first element.
pub open spec fn bundle_of(vs: Seq<(Seq<usize>, Seq<usize>)>) -> (Seq<usize>, Seq<usize>)
    decreases vs.len(),
{
    if vs.len() <= 1 {
        vs[0]
    } else {
        superposed(bundle_of(vs.drop_last()), vs.last())
    }
}

/// The views of a sequence of hypervectors.
pub open spec fn views(vs: Seq<Hypervector>) -> Seq<(Seq<usize>, Seq<usize>)> {
    vs.map_values(|v: Hypervector| v@)
}

/// Relies on `SparseVec::encode_data` with `ReversibleVSAConfig::default()` and no
/// path: a deterministic function of the text's bytes.
#[verifier::external_body]
pub(crate) fn encode_text(s: &str) -> (r: Hypervector)
    ensures
        r@ == text_vector(s@),
{
    let v = SparseVec::encode_data(s.as_bytes(), &ReversibleVSAConfig::default(), None);
    Hypervector { pos: v.pos, neg: v.neg }
}

/// Relies on `SparseVec::bind`: a deterministic function of its two operands.
#[verifier::external_body]
pub(crate) fn bind_vectors(a: &Hypervector, b: &Hypervector) -> (r: Hypervector)
    ensures
        r@ == bound(a@, b@),
{
    let a = SparseVec { pos: a.pos.clone(), neg: a.neg.clone() };
    let b = SparseVec { pos: b.pos.clone(), neg: b.neg.clone() };
    let v = a.bind(&b);
    Hypervector { pos: v.pos, neg: v.neg }
}

/// Relies on `SparseVec::bundle`: a deterministic function of its two operands.
#[verifier::external_body]
pub(crate) fn bundle_vectors(a: &Hypervector, b: &Hypervector) -> (r: Hypervector)
    ensures
        r@ == superposed(a@, b@),
{
    let a = SparseVec { pos: a.pos.clone(), neg: a.neg.clone() };
    let b = SparseVec { pos: b.pos.clone(), neg: b.neg.clone() };
    let v = a.bundle(&b);
    Hypervector { pos: v.pos, neg: v.neg }
}

impl Hypervector {
    /// A copy with the same dimensions.
    pub fn duplicate(&self) -> (r: Hypervector)
        ensures
            r@ == self@,
    {
        let mut pos: Vec<usize> = Vec::new();
        let mut i: usize = 0;
        while i < self.pos.len()
            invariant
                i <= self.pos@.len(),
                pos@ == self.pos@.subrange(0, i as int),
            decreases self.pos@.len() - i,
        {
            pos.push(self.pos[i]);
            i = i + 1;
        }
        let mut neg: Vec<usize> = Vec::new();
        let mut j: usize = 0;
        while j < self.neg.len()
            invariant
                j <= self.neg@.len(),
                neg@ == self.neg@.subrange(0, j as int),
            decreases self.neg@.len() - j,
        {
            neg.push(self.neg[j]);
            j = j + 1;
        }
        assert(pos@ == self.pos@);
        assert(neg@ == self.neg@);
        Hypervector { pos, neg }
    }
}

/// Folds all field vectors, in field-id order, into one bundle vector;
/// `None` exactly when there are no field vectors.
pub fn build_master_bundle(vectors: &Vec<Hypervector>) -> (r: Option<Hypervector>)
    ensures
        r is None <==> vectors@.len() == 0,
        r is Some ==> r->Some_0@ == bundle_of(views(vectors@)),
{
    if vectors.len() == 0 {
        return None;
    }
    let mut acc = vectors[0].duplicate();
    let mut i: usize = 1;
    while i < vectors.len()
        invariant
            1 <= i <= vectors@.len(),
            acc@ == bundle_of(views(vectors@.subrange(0, i as int))),
        decreases vectors@.len() - i,
    {
        let ghost prefix = vectors@.subrange(0, i as int);
        let ghost next = vectors@.subrange(0, i + 1);
        assert(views(next).drop_last() == views(prefix));
        acc = bundle_vectors(&acc, &vectors[i]);
        i = i + 1;
    }
    assert(vectors@.subrange(0, vectors@.len() as int) == vectors@);
    Some(acc)
}

} // verus!
