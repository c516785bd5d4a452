//! Capability sets: unordered collections of permission labels with
//! subset comparison, the basis of authorization decisions.

use vstd::prelude::*;

verus! {

/// An unordered set of permission labels attached to a principal.
///
/// Viewed as a `Set<Seq<char>>`; the representation keeps each label at most
/// once, as a set of interned strings would.
pub struct CapabilitySet {
    labels: Vec<String>,
}

impl View for CapabilitySet {
    type V = Set<Seq<char>>;

    closed spec fn view(&self) -> Set<Seq<char>> {
        Set::new(
            |c: Seq<char>|
                exists|i: int| 0 <= i < self.labels@.len() && self.labels@[i]@ == c,
        )
    }
}

impl CapabilitySet {
    /// Each label occurs at most once.
    #[verifier::type_invariant]
    closed spec fn wf(self) -> bool {
        forall|i: int, j: int|
            0 <= i < j < self.labels@.len() ==> self.labels@[i]@ != self.labels@[j]@
    }

    /// The empty capability set.
    pub fn new() -> (r: CapabilitySet)
        ensures
            r@ == Set::<Seq<char>>::empty(),
    {
        let r = CapabilitySet { labels: Vec::new() };
        proof {
            assert(r@ =~= Set::<Seq<char>>::empty());
        }
        r
    }

    /// Whether the set holds `label`.
    pub fn contains(&self, label: &String) -> (r: bool)
        ensures
            r == self@.contains(label@),
    {
        let n = self.labels.len();
        let mut i: usize = 0;
        while i < n
            invariant
                n == self.labels.len(),
                i <= n,
                forall|j: int| 0 <= j < i ==> self.labels@[j]@ != label@,
            decreases n - i,
        {
            if self.labels[i] == *label {
                proof {
                    assert(self.labels@[i as int]@ == label@);
                }
                return true;
            }
            i = i + 1;
        }
        false
    }

    /// Add `label` to the set; adding a label that is already present leaves
    /// the set unchanged.
    pub fn insert(&mut self, label: String)
        ensures
            final(self)@ == old(self)@.insert(label@),
    {
        proof {
            use_type_invariant(&*self);
        }
        if !self.contains(&label) {
            let ghost prior = self.labels@;
            let ghost l = label@;
            let mut labels: Vec<String> = Vec::new();
            std::mem::swap(&mut labels, &mut self.labels);
            labels.push(label);
            *self = CapabilitySet { labels };
            proof {
                assert(self.labels@ =~= prior.push(label));
                assert forall|c: Seq<char>| self@.contains(c) implies old(
                    self,
                )@.insert(l).contains(c) by {
                    let i = choose|i: int|
                        0 <= i < self.labels@.len() && self.labels@[i]@ == c;
                    if i < prior.len() {
                        assert(prior[i]@ == c);
                        assert(old(self)@.contains(c));
                    } else {
                        assert(self.labels@[i]@ == l);
                    }
                }
                assert forall|c: Seq<char>| old(self)@.insert(l).contains(c) implies self@.contains(
                    c,
                ) by {
                    if c == l {
                        assert(self.labels@[prior.len() as int]@ == c);
                    } else {
                        assert(old(self)@.contains(c));
                        let i = choose|i: int| 0 <= i < prior.len() && prior[i]@ == c;
                        assert(self.labels@[i]@ == c);
                    }
                }
                assert(final(self)@ =~= old(self)@.insert(l));
            }
        } else {
            proof {
                assert(final(self)@ =~= old(self)@.insert(label@));
            }
        }
    }

    /// Whether this set is a superset of `other`, that is, whether every label
    /// of `other` is held here. This is the authorization comparison:
    /// `required ⊆ granted`.
    pub fn is_superset(&self, other: &CapabilitySet) -> (r: bool)
        ensures
            r == other@.subset_of(self@),
    {
        let n = other.labels.len();
        let mut i: usize = 0;
        while i < n
            invariant
                n == other.labels.len(),
                i <= n,
                forall|j: int| 0 <= j < i ==> self@.contains(#[trigger] other.labels@[j]@),
            decreases n - i,
        {
            if !self.contains(&other.labels[i]) {
                proof {
                    assert(other@.contains(other.labels@[i as int]@));
                }
                return false;
            }
            i = i + 1;
        }
        proof {
            assert forall|c: Seq<char>| other@.contains(c) implies self@.contains(c) by {
                let j = choose|j: int| 0 <= j < other.labels@.len() && other.labels@[j]@ == c;
                assert(self@.contains(other.labels@[j]@));
            }
        }
        true
    }
}

/// The capability labels the example configurations grant access by.
#[derive(Clone, Copy, PartialEq, Eq, Structural, Debug)]
pub enum Capabilities {
    UserRead,
    AdminRead,
}

impl Capabilities {
    /// The permission label this capability is written as.
    pub open spec fn spec_label(self) -> Seq<char> {
        match self {
            Capabilities::UserRead => "UserRead"@,
            Capabilities::AdminRead => "AdminRead"@,
        }
    }

    /// The permission label this capability is written as.
    pub fn label(&self) -> (r: String)
        ensures
            r@ == self.spec_label(),
    {
        match self {
            Capabilities::UserRead => "UserRead".to_owned(),
            Capabilities::AdminRead => "AdminRead".to_owned(),
        }
    }
}

} // verus!
