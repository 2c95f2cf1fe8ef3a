//! A compiled schematic: the ordered elements, the ground aliases, and
//! the netlist text they serialize to.

use vstd::prelude::*;

use crate::element::{element_line, Element};
use crate::simulation::{sim_text, Simulation};
use crate::simulator_error::SimulatorError;
use crate::text::lines_of;

verus! {

/// The netlist lines of a sequence of elements, in order.
pub open spec fn element_lines(elems: Seq<Element>, g: Seq<String>) -> Seq<char>
    decreases elems.len(),
{
    if elems.len() == 0 {
        Seq::empty()
    } else {
        element_lines(elems.drop_last(), g) + element_line(&elems.last(), g)
    }
}

/// The whole netlist: header, one line per element, the options
/// directive, the analysis directive, and the terminator.
pub open spec fn netlist_text(elems: Seq<Element>, g: Seq<String>, sim: &Simulation) -> Seq<char> {
    "Graphic Spice Netlist\n"@ + element_lines(elems, g) + ".options savecurrents\n"@ + sim_text(
        sim,
    ) + ".end\n"@
}

/// An ordered sequence of circuit elements and the node names that are
/// electrically the reference node.
#[derive(Debug, Clone)]
pub struct Schematic {
    elements: Vec<Element>,
    ground_alias: Vec<String>,
}

impl Schematic {
    pub closed spec fn spec_elements(&self) -> Seq<Element> {
        self.elements@
    }

    pub closed spec fn spec_ground(&self) -> Seq<String> {
        self.ground_alias@
    }

    pub fn new() -> (r: Self)
        ensures
            r.spec_elements() == Seq::<Element>::empty(),
            r.spec_ground() == Seq::<String>::empty(),
    {
        Self { elements: Vec::new(), ground_alias: Vec::new() }
    }

    pub fn insert(&mut self, element: Element)
        ensures
            final(self).spec_elements() == old(self).spec_elements().push(element),
            final(self).spec_ground() == old(self).spec_ground(),
    {
        self.elements.push(element);
    }

    /// Records one more ground alias; a name already recorded is kept
    /// once.
    pub fn insert_ground_alias(&mut self, alias: &String)
        ensures
            final(self).spec_elements() == old(self).spec_elements(),
            final(self).spec_ground() == (if crate::element::in_aliases(
                old(self).spec_ground(),
                alias@,
            ) {
                old(self).spec_ground()
            } else {
                old(self).spec_ground().push(*alias)
            }),
    {
        let len = self.ground_alias.len();
        let mut i: usize = 0;
        #[verifier::loop_isolation(false)]
        while i < len
            invariant
                0 <= i <= len,
                forall|j: int| 0 <= j < i ==> #[trigger] self.ground_alias@[j]@ != alias@,
            decreases len - i,
        {
            if crate::text::str_eq(self.ground_alias[i].as_str(), alias.as_str()) {
                return ;
            }
            i += 1;
        }
        self.ground_alias.push(alias.clone());
    }

    fn get_netlist_header() -> (r: String)
        ensures
            r@ == "Graphic Spice Netlist\n"@,
    {
        String::from_str("Graphic Spice Netlist\n")
    }

    fn get_netlist_options() -> (r: String)
        ensures
            r@ == ".options savecurrents\n"@,
    {
        String::from_str(".options savecurrents\n")
    }

    fn get_netlist_footer() -> (r: String)
        ensures
            r@ == ".end\n"@,
    {
        String::from_str(".end\n")
    }

    /// Serializes the schematic and one analysis into netlist text.
    #[verifier::loop_isolation(false)]
    pub fn build_netlist(&self, sim_config: Simulation) -> (r: Result<String, SimulatorError>)
        ensures
            r matches Ok(netlist) && netlist@ == netlist_text(
                self.spec_elements(),
                self.spec_ground(),
                &sim_config,
            ),
    {
        let mut netlist = Self::get_netlist_header();
        let n = self.elements.len();
        let mut i: usize = 0;
        while i < n
            invariant
                0 <= i <= n,
                netlist@ == "Graphic Spice Netlist\n"@ + element_lines(
                    self.spec_elements().take(i as int),
                    self.spec_ground(),
                ),
            decreases n - i,
        {
            let line = match self.elements[i].get_netlist_representation(&self.ground_alias) {
                Ok(line) => line,
                Err(e) => {
                    return Err(e);
                },
            };
            netlist.append(line.as_str());
            proof {
                assert(self.spec_elements().take(i + 1).drop_last() =~= self.spec_elements().take(
                    i as int,
                ));
                assert(self.spec_elements().take(i + 1).last() == self.spec_elements()[i as int]);
            }
            i += 1;
        }
        proof {
            assert(self.spec_elements().take(n as int) =~= self.spec_elements());
        }
        let options = Self::get_netlist_options();
        netlist.append(options.as_str());
        let directive = sim_config.format();
        netlist.append(directive.as_str());
        let footer = Self::get_netlist_footer();
        netlist.append(footer.as_str());
        assert(netlist@ =~= netlist_text(self.spec_elements(), self.spec_ground(), &sim_config));
        Ok(netlist)
    }
}

/// The engine commands that load and start one netlist: each line fed
/// through `circbyline`, then the background-run command.
#[verifier::loop_isolation(false)]
pub fn netlist_commands(netlist: &str) -> (r: Vec<String>)
    ensures
        r@.len() == lines_of(netlist@).len() + 1,
        forall|i: int| 0 <= i < lines_of(netlist@).len() ==> #[trigger] r@[i]@ == "circbyline "@
            + lines_of(netlist@)[i],
        r@.last()@ == "bg_run"@,
{
    let lines = crate::text::split_lines(netlist);
    let mut r: Vec<String> = Vec::new();
    let n = lines.len();
    let mut i: usize = 0;
    while i < n
        invariant
            0 <= i <= n,
            r@.len() == i,
            forall|j: int| 0 <= j < i ==> #[trigger] r@[j]@ == "circbyline "@ + lines_of(
                netlist@,
            )[j],
        decreases n - i,
    {
        let mut cmd = String::from_str("circbyline ");
        cmd.append(lines[i].as_str());
        proof {
            assert(lines@.map_values(|t: String| t@)[i as int] == lines@[i as int]@);
        }
        r.push(cmd);
        i += 1;
    }
    r.push(String::from_str("bg_run"));
    r
}

} // verus!
