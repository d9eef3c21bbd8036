//! Port descriptors: value ranges and class matching.
use crate::collection::{holds_value, Nodes};
use crate::node::Node;
use vstd::prelude::*;

verus! {

/// The value range of a port; each bound may be absent.
pub struct Range {
    /// The default value of the port.
    pub default: Option<Node>,
    /// The minimum value of the port.
    pub minimum: Option<Node>,
    /// The maximum value of the port.
    pub maximum: Option<Node>,
}

/// Whether a port with the declared classes `port` is of every class in `classes`.
pub open spec fn of_all_classes(port: Seq<Node>, classes: Seq<Node>) -> bool {
    forall|i: int| 0 <= i < classes.len() ==> holds_value(port, #[trigger] classes[i])
}

/// The number of ports, each given by its declared classes, that are of every
/// class in `classes`.
pub open spec fn count_of_class(ports: Seq<Seq<Node>>, classes: Seq<Node>) -> nat
    decreases ports.len(),
{
    if ports.len() == 0 {
        0
    } else {
        count_of_class(ports.drop_last(), classes) + if of_all_classes(ports.last(), classes) {
            1nat
        } else {
            0nat
        }
    }
}

/// Whether a port with the declared classes `port_classes` is of class `class`.
pub fn is_a(port_classes: &Nodes, class: &Node) -> (r: bool)
    ensures
        r == holds_value(port_classes@, *class),
{
    port_classes.contains(class)
}

/// Whether a port with the declared classes `port_classes` is of every class in `classes`.
pub fn is_of_all(port_classes: &Nodes, classes: &Vec<Node>) -> (r: bool)
    ensures
        r == of_all_classes(port_classes@, classes@),
{
    let mut i: usize = 0;
    while i < classes.len()
        invariant
            i <= classes@.len(),
            forall|j: int| 0 <= j < i ==> holds_value(port_classes@, #[trigger] classes@[j]),
        decreases classes@.len() - i,
    {
        if !port_classes.contains(&classes[i]) {
            return false;
        }
        i = i + 1;
    }
    true
}

/// The declared classes of each port, as a sequence of sequences.
pub open spec fn classes_view(ports: Seq<Nodes>) -> Seq<Seq<Node>> {
    ports.map_values(|p: Nodes| p@)
}

/// The number of ports, each given by its declared classes, that are of every
/// class in `classes`.
pub fn num_ports_of_class(ports: &Vec<Nodes>, classes: &Vec<Node>) -> (r: usize)
    ensures
        r == count_of_class(classes_view(ports@), classes@),
{
    let mut n: usize = 0;
    let mut i: usize = 0;
    while i < ports.len()
        invariant
            i <= ports@.len(),
            n <= i,
            n == count_of_class(classes_view(ports@.take(i as int)), classes@),
        decreases ports@.len() - i,
    {
        let hit = is_of_all(&ports[i], classes);
        proof {
            let next = classes_view(ports@.take(i + 1));
            assert(next.drop_last() =~= classes_view(ports@.take(i as int)));
            assert(next.last() == ports@[i as int]@);
        }
        if hit {
            n = n + 1;
        }
        i = i + 1;
    }
    assert(ports@.take(ports@.len() as int) =~= ports@);
    n
}

} // verus!
