//! Refusals of the host-independent vocabulary.

use vstd::prelude::*;

verus! {

/// Construction that lowering asks of the host-independent vocabulary and that may be
/// refused: a vertex layout by its stream, the scope of a read by the position of the use,
/// and a transition or barrier by the position of its command.
#[derive(Clone, Copy, Debug, PartialEq, Eq, Hash, Structural)]
#[allow(inconsistent_fields)]
pub enum NeutralConstruction {
    ColorClear,
    DepthStencilClear,
    VertexLayout { stream: u8 },
    RenderPassDescription,
    DescriptorTable,
    ReadScope { position: usize },
    PreparedDraw,
    ViewportTransform,
    RenderPassBegin,
    Draw,
    DrawArguments,
    Transition { command: usize, access: usize },
    Barrier { command: usize },
    Submission,
}

/// Constructions that are refused while one operation is lowered, each with the reason.
/// What the vocabulary accepts is its own affair, so whoever constructs states it here.
#[derive(Clone, Debug, PartialEq, Eq)]
pub struct NeutralRefusals {
    pub refused: Vec<(NeutralConstruction, &'static str)>,
}

/// Whether an entry is of a construction.
pub open spec fn is_construction(construction: NeutralConstruction) -> spec_fn(
    (NeutralConstruction, &'static str),
) -> bool {
    |entry: (NeutralConstruction, &'static str)| entry.0 == construction
}

impl NeutralRefusals {
    /// Nothing is refused.
    #[must_use]
    pub fn none() -> (r: NeutralRefusals)
        ensures
            r.refused@.len() == 0,
    {
        NeutralRefusals { refused: Vec::new() }
    }

    /// Reason why a construction is refused, if it is; the first entry counts.
    pub open spec fn spec_reason(&self, construction: NeutralConstruction) -> Option<&'static str> {
        match crate::lists::first_where(self.refused@, is_construction(construction)) {
            Some(position) => Some(self.refused@[position].1),
            None => None,
        }
    }

    #[must_use]
    #[verifier::loop_isolation(false)]
    #[verifier::when_used_as_spec(spec_reason)]
    pub fn reason(&self, construction: NeutralConstruction) -> (r: Option<&'static str>)
        ensures
            r == self.spec_reason(construction),
    {
        let ghost wanted = is_construction(construction);
        let mut index: usize = 0;
        while index < self.refused.len()
            invariant
                index <= self.refused@.len(),
                forall|i: int|
                    #![trigger self.refused@[i]]
                    0 <= i < index ==> !wanted(self.refused@[i]),
            decreases self.refused@.len() - index,
        {
            if self.refused[index].0 == construction {
                proof {
                    crate::lists::lemma_first_where_at(self.refused@, wanted, index as int);
                }
                return Some(self.refused[index].1);
            }
            index = index + 1;
        }
        proof {
            crate::lists::lemma_first_where_at(self.refused@, wanted, index as int);
        }
        None
    }
}

/// Where nothing is refused, no construction is.
pub proof fn law_nothing_refused(refusals: &NeutralRefusals, construction: NeutralConstruction)
    requires
        refusals.refused@.len() == 0,
    ensures
        refusals.reason(construction) is None,
{
}

} // verus!
