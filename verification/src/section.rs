//! The closed set of business sections.
//!
//! Each section receives its own node, entry and path tables; the two
//! order sections additionally receive an order/entry/settlement triad.

use vstd::prelude::*;

verus! {

/// One business domain of the ledger schema.
#[derive(Clone, Copy, Debug, PartialEq, Eq, Structural)]
pub enum Section {
    Finance,
    Stakeholder,
    Item,
    Task,
    Sale,
    Purchase,
}

/// The table-name prefix of a section.
pub open spec fn section_name(s: Section) -> Seq<char> {
    match s {
        Section::Finance => "finance"@,
        Section::Stakeholder => "stakeholder"@,
        Section::Item => "item"@,
        Section::Task => "task"@,
        Section::Sale => "sale"@,
        Section::Purchase => "purchase"@,
    }
}

/// The fixed order in which sections are provisioned.
pub open spec fn all_sections() -> Seq<Section> {
    seq![
        Section::Finance,
        Section::Stakeholder,
        Section::Item,
        Section::Task,
        Section::Sale,
        Section::Purchase,
    ]
}

/// The sections that carry order, order-entry and settlement tables.
pub open spec fn order_sections() -> Seq<Section> {
    seq![Section::Sale, Section::Purchase]
}

impl Section {
    /// The table-name prefix of this section.
    pub fn name(&self) -> (r: &'static str)
        ensures
            r@ == section_name(*self),
    {
        match self {
            Section::Finance => "finance",
            Section::Stakeholder => "stakeholder",
            Section::Item => "item",
            Section::Task => "task",
            Section::Sale => "sale",
            Section::Purchase => "purchase",
        }
    }

    /// Whether this section carries the order/entry/settlement triad.
    pub fn is_order(&self) -> (r: bool)
        ensures
            r == order_sections().contains(*self),
    {
        proof {
            assert(order_sections()[0] == Section::Sale);
            assert(order_sections()[1] == Section::Purchase);
        }
        match self {
            Section::Sale => true,
            Section::Purchase => true,
            _ => false,
        }
    }

    /// Every section, in provisioning order.
    pub fn all() -> (r: Vec<Section>)
        ensures
            r@ == all_sections(),
    {
        let mut v: Vec<Section> = Vec::new();
        v.push(Section::Finance);
        v.push(Section::Stakeholder);
        v.push(Section::Item);
        v.push(Section::Task);
        v.push(Section::Sale);
        v.push(Section::Purchase);
        proof {
            assert(v@ =~= all_sections());
        }
        v
    }
}

} // verus!
