//! The discovery engine's decision core: which advertising device gets a
//! connection attempt, and how the identity filter advances.
//!
//! The engine itself (scanning, connecting, subscribing) is I/O and lives
//! outside this crate; it feeds every advertisement through
//! [`Discovery::should_attempt`] and reports every successful connection
//! with [`Discovery::note_connected`].

use vstd::prelude::*;
use crate::catalog::{catalog_entry, catalog_label, CATALOG_LEN};
use crate::ident::{derive_identity, identity_of, str_eq};

verus! {

/// The identity filter: accept any eligible device, any member of a set
/// of labels, or — order preserved — exactly the head of a queue of
/// labels.
pub enum FilterMode {
    Unfiltered,
    Filtered(Vec<String>),
    OrderedFiltered(Vec<String>),
}

/// Mathematical image of a `FilterMode`, labels as character sequences.
pub enum FilterModeV {
    Unfiltered,
    Filtered(Seq<Seq<char>>),
    OrderedFiltered(Seq<Seq<char>>),
}

impl View for FilterMode {
    type V = FilterModeV;

    open spec fn view(&self) -> FilterModeV {
        match self {
            FilterMode::Unfiltered => FilterModeV::Unfiltered,
            FilterMode::Filtered(labels) => FilterModeV::Filtered(
                labels@.map_values(|s: String| s@),
            ),
            FilterMode::OrderedFiltered(labels) => FilterModeV::OrderedFiltered(
                labels@.map_values(|s: String| s@),
            ),
        }
    }
}

/// Decision state of the discovery engine.
pub struct Discovery {
    mode: FilterMode,
}

impl View for Discovery {
    type V = FilterModeV;

    closed spec fn view(&self) -> FilterModeV {
        self.mode@
    }
}

/// Whether a candidate earns a connection attempt, and under which
/// identity. A device already connected is never attempted; an eligible
/// identity must be a member of a plain filter, or exactly the head of an
/// ordered one.
pub open spec fn spec_should_attempt(
    m: FilterModeV,
    name: Seq<char>,
    already_connected: bool,
) -> Option<Seq<char>> {
    if already_connected {
        None
    } else {
        match identity_of(name) {
            Option::None => None,
            Option::Some(id) => match m {
                FilterModeV::Unfiltered => Some(id),
                FilterModeV::Filtered(labels) => if labels.contains(id) {
                    Some(id)
                } else {
                    None
                },
                FilterModeV::OrderedFiltered(labels) => if labels.len() > 0 && labels[0] == id {
                    Some(id)
                } else {
                    None
                },
            },
        }
    }
}

/// The filter state after a successful connection: an ordered filter
/// consumes its head permanently; the other modes never change.
pub open spec fn spec_after_success(m: FilterModeV) -> FilterModeV {
    match m {
        FilterModeV::OrderedFiltered(labels) => if labels.len() > 0 {
            FilterModeV::OrderedFiltered(labels.skip(1))
        } else {
            m
        },
        _ => m,
    }
}

impl Discovery {
    /// An engine that attempts every eligible device.
    pub fn new() -> (r: Discovery)
        ensures
            r@ == FilterModeV::Unfiltered,
    {
        Discovery { mode: FilterMode::Unfiltered }
    }

    /// An engine restricted to the cubes with the given catalog numbers;
    /// with `ordered` the numbers are honoured strictly in the given
    /// order.
    pub fn new_with_filter(ordered: bool, filter: Vec<usize>) -> (r: Discovery)
        requires
            forall|i: int| 0 <= i < filter@.len() ==> filter@[i] < CATALOG_LEN,
        ensures
            ({
                let labels = Seq::new(filter@.len(), |i: int| catalog_label(filter@[i] as int));
                r@ == if ordered {
                    FilterModeV::OrderedFiltered(labels)
                } else {
                    FilterModeV::Filtered(labels)
                }
            }),
    {
        let ghost target = Seq::new(filter@.len(), |i: int| catalog_label(filter@[i] as int));
        let mut labels: Vec<String> = Vec::new();
        let mut i: usize = 0;
        while i < filter.len()
            invariant
                i <= filter.len(),
                forall|j: int| 0 <= j < filter@.len() ==> filter@[j] < CATALOG_LEN,
                target == Seq::new(filter@.len(), |j: int| catalog_label(filter@[j] as int)),
                labels@.len() == i,
                forall|j: int| 0 <= j < i ==> labels@[j]@ == target[j],
            decreases filter.len() - i,
        {
            labels.push(catalog_entry(filter[i]).to_owned());
            i += 1;
        }
        proof {
            assert(labels@.map_values(|s: String| s@) =~= target);
        }
        if ordered {
            Discovery { mode: FilterMode::OrderedFiltered(labels) }
        } else {
            Discovery { mode: FilterMode::Filtered(labels) }
        }
    }

    /// Decides whether an advertisement earns a connection attempt;
    /// returns the identity to register the device under if so.
    pub fn should_attempt(&self, name: &str, already_connected: bool) -> (r: Option<String>)
        ensures
            match r {
                Some(id) => spec_should_attempt(self@, name@, already_connected) == Some(id@),
                None => spec_should_attempt(self@, name@, already_connected) is None,
            },
    {
        if already_connected {
            return None;
        }
        let id = match derive_identity(name) {
            Some(id) => id,
            None => { return None; },
        };
        match &self.mode {
            FilterMode::Unfiltered => Some(id),
            FilterMode::Filtered(labels) => {
                let mut i: usize = 0;
                while i < labels.len()
                    invariant
                        i <= labels.len(),
                        !already_connected,
                        self@ == FilterModeV::Filtered(labels@.map_values(|s: String| s@)),
                        identity_of(name@) == Some(id@),
                        forall|j: int| 0 <= j < i ==> labels@[j]@ != id@,
                    decreases labels.len() - i,
                {
                    if str_eq(labels[i].as_str(), id.as_str()) {
                        proof {
                            let mapped = labels@.map_values(|s: String| s@);
                            assert(mapped[i as int] == id@);
                            assert(mapped.contains(id@));
                        }
                        return Some(id);
                    }
                    i += 1;
                }
                proof {
                    let mapped = labels@.map_values(|s: String| s@);
                    assert forall|j: int| 0 <= j < mapped.len() implies #[trigger] mapped[j]
                        != id@ by {
                        assert(mapped[j] == labels@[j]@);
                    }
                    assert(!mapped.contains(id@));
                }
                None
            },
            FilterMode::OrderedFiltered(labels) => {
                if labels.len() > 0 && str_eq(labels[0].as_str(), id.as_str()) {
                    proof {
                        assert(labels@.map_values(|s: String| s@)[0] == id@);
                    }
                    Some(id)
                } else {
                    None
                }
            },
        }
    }

    /// Records a successful connection: an ordered filter drops its head,
    /// so later candidates are matched against the next label; any other
    /// mode is left as it is.
    pub fn note_connected(&mut self)
        ensures
            final(self)@ == spec_after_success(old(self)@),
    {
        match &mut self.mode {
            FilterMode::OrderedFiltered(labels) => {
                if labels.len() > 0 {
                    labels.remove(0);
                    proof {
                        match old(self)@ {
                            FilterModeV::OrderedFiltered(old_labels) => {
                                assert(labels@.map_values(|s: String| s@) =~= old_labels.skip(1));
                            },
                            _ => {},
                        }
                    }
                }
            },
            _ => {},
        }
    }
}

/// Ordered filter consumption: while the head of an ordered queue is one
/// label, a candidate carrying a different label — even the very next one
/// in the queue — is refused; once a device for the head connects and the
/// head is consumed, that same candidate is accepted.
pub proof fn lemma_ordered_filter_consumption(labels: Seq<Seq<char>>, name: Seq<char>)
    requires
        labels.len() >= 2,
        identity_of(name) == Some(labels[1]),
        labels[0] != labels[1],
    ensures
        spec_should_attempt(FilterModeV::OrderedFiltered(labels), name, false) is None,
        spec_after_success(FilterModeV::OrderedFiltered(labels))
            == FilterModeV::OrderedFiltered(labels.skip(1)),
        spec_should_attempt(FilterModeV::OrderedFiltered(labels.skip(1)), name, false)
            == Some(labels[1]),
{
    assert(labels.skip(1)[0] == labels[1]);
}

} // verus!
