//! The decoder's top-level handle: accumulates the section sets of every
//! parsed buffer and looks up human-facing parameter descriptions that a
//! host layer has registered.

use crate::framer::{empty_view, parse, scan};
use crate::sectionset::SectionSets;
use vstd::prelude::*;

verus! {

/// A human-facing name and unit for one parameter code.
pub struct ParameterDescription {
    pub name: String,
    pub unit: String,
}

/// One registered parameter description, keyed by discipline, category
/// and number.
pub struct ParameterInfo {
    pub discipline: usize,
    pub category: usize,
    pub number: usize,
    pub description: ParameterDescription,
}

/// Whether an entry carries the looked-up key.
pub open spec fn info_matches(e: ParameterInfo, discipline: int, category: int, number: int) -> bool {
    &&& e.discipline == discipline
    &&& e.category == category
    &&& e.number == number
}

/// The decoder: the section sets seen so far and the registered
/// parameter descriptions.
pub struct Grib2 {
    parameter_descriptions: Vec<ParameterInfo>,
    sectionsets: SectionSets,
}

impl Grib2 {
    /// The registered descriptions, in registration order.
    pub closed spec fn entries(&self) -> Seq<ParameterInfo> {
        self.parameter_descriptions@
    }

    /// The emitted section sets of every parsed buffer, in order.
    pub closed spec fn sets(&self) -> Seq<crate::sectionset::SectionSetView> {
        self.sectionsets@
    }

    /// Every held section set is usable.
    pub closed spec fn wf(&self) -> bool {
        self.sectionsets.all_wf()
    }

    /// A decoder with nothing parsed and no description registered.
    pub fn new() -> (r: Grib2)
        ensures
            r.entries().len() == 0,
            r.sets().len() == 0,
            r.wf(),
    {
        Grib2 { parameter_descriptions: Vec::new(), sectionsets: SectionSets::new() }
    }

    /// Registers one parameter description.
    pub fn add_parameter_description(&mut self, info: ParameterInfo)
        ensures
            final(self).entries() == old(self).entries().push(info),
            final(self).sets() == old(self).sets(),
            final(self).wf() == old(self).wf(),
    {
        self.parameter_descriptions.push(info);
    }

    /// Frames `buf` and appends every emitted section set.
    pub fn parse(&mut self, buf: &[u8])
        requires
            old(self).wf(),
        ensures
            final(self).wf(),
            final(self).sets() == old(self).sets() + scan(buf@, 0, empty_view(), Seq::empty()),
            final(self).entries() == old(self).entries(),
    {
        let parsed = parse(buf);
        self.sectionsets.extend(parsed);
    }

    /// The section sets seen so far.
    pub fn sectionsets(&self) -> (r: &SectionSets)
        ensures
            r@ == self.sets(),
            self.wf() ==> r.all_wf(),
    {
        &self.sectionsets
    }

    /// The registered description of a parameter code: the earliest
    /// matching entry, if any was registered.
    pub fn parameter_description(
        &self,
        discipline: usize,
        parameter_category: usize,
        parameter_number: usize,
    ) -> (r: Option<&ParameterDescription>)
        ensures
            r is Some <==> exists|i: int|
                0 <= i < self.entries().len() && info_matches(
                    #[trigger] self.entries()[i],
                    discipline as int,
                    parameter_category as int,
                    parameter_number as int,
                ),
            r matches Some(d) ==> exists|i: int|
                {
                    &&& 0 <= i < self.entries().len()
                    &&& info_matches(
                        #[trigger] self.entries()[i],
                        discipline as int,
                        parameter_category as int,
                        parameter_number as int,
                    )
                    &&& *d == self.entries()[i].description
                    &&& forall|j: int|
                        0 <= j < i ==> !info_matches(
                            #[trigger] self.entries()[j],
                            discipline as int,
                            parameter_category as int,
                            parameter_number as int,
                        )
                },
    {
        let n = self.parameter_descriptions.len();
        let mut i: usize = 0;
        while i < n
            invariant
                i <= n,
                n == self.entries().len(),
                forall|j: int|
                    0 <= j < i ==> !info_matches(
                        #[trigger] self.entries()[j],
                        discipline as int,
                        parameter_category as int,
                        parameter_number as int,
                    ),
            decreases n - i,
        {
            let e = &self.parameter_descriptions[i];
            if e.discipline == discipline && e.category == parameter_category && e.number
                == parameter_number {
                return Some(&self.parameter_descriptions[i].description);
            }
            i = i + 1;
        }
        None
    }
}

} // verus!
