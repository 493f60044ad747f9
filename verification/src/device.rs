//! Physical devices and their queue families, and which of them the renderer
//! takes.

use vstd::prelude::*;

verus! {

/// What a queue family of a physical device can do.
#[derive(Clone, Copy, Debug, PartialEq, Eq, Structural)]
pub struct QueueFamily {
    /// Whether its queues take graphics operations.
    pub supports_graphics: bool,
    /// Whether the surface confirms that its queues can present to it.
    pub presentable: bool,
}

/// A physical device as enumerated, with its queue families in order.
#[derive(Clone, Debug)]
pub struct PhysicalDevice {
    pub queue_families: Vec<QueueFamily>,
}

impl QueueFamily {
    /// Whether the renderer can use this family: it draws and presents.
    pub open spec fn usable(self) -> bool {
        self.supports_graphics && self.presentable
    }
}

/// The index of the first usable family, if there is one.
pub open spec fn spec_select_queue_family(families: Seq<QueueFamily>) -> Option<int>
    decreases families.len(),
{
    if families.len() == 0 {
        None
    } else {
        match spec_select_queue_family(families.drop_last()) {
            Some(i) => Some(i),
            None => if families.last().usable() {
                Some(families.len() - 1)
            } else {
                None
            },
        }
    }
}

/// `spec_select_queue_family` yields a usable family before which none is
/// usable, and yields nothing only where no family is usable.
pub proof fn lemma_select_queue_family(families: Seq<QueueFamily>)
    ensures
        match spec_select_queue_family(families) {
            Some(i) => 0 <= i < families.len() && families[i].usable() && forall|j: int|
                0 <= j < i ==> !(#[trigger] families[j]).usable(),
            None => forall|j: int| 0 <= j < families.len() ==> !(#[trigger] families[j]).usable(),
        },
    decreases families.len(),
{
    if families.len() > 0 {
        let front = families.drop_last();
        lemma_select_queue_family(front);
        assert(forall|j: int| 0 <= j < front.len() ==> front[j] == families[j]);
    }
}

/// Picks the first queue family that takes graphics operations and can
/// present to the surface.
pub fn select_queue_family(families: &Vec<QueueFamily>) -> (family: Option<usize>)
    ensures
        match family {
            Some(i) => spec_select_queue_family(families@) == Some(i as int),
            None => spec_select_queue_family(families@) is None,
        },
        match family {
            Some(i) => i < families@.len() && families@[i as int].usable() && forall|j: int|
                0 <= j < i ==> !(#[trigger] families@[j]).usable(),
            None => forall|j: int| 0 <= j < families@.len() ==> !(#[trigger] families@[j]).usable(),
        },
{
    let mut i: usize = 0;
    while i < families.len()
        invariant
            i <= families@.len(),
            forall|j: int| 0 <= j < i ==> !(#[trigger] families@[j]).usable(),
        decreases families@.len() - i,
    {
        let family = families[i];
        if family.supports_graphics && family.presentable {
            proof {
                lemma_select_queue_family(families@);
            }
            return Some(i);
        }
        i += 1;
    }
    proof {
        lemma_select_queue_family(families@);
    }
    None
}

} // verus!
