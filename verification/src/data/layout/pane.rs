use vstd::prelude::*;

verus! {

/// The direction a pane is split in.
#[derive(Debug, Clone, Copy, PartialEq, Eq, Structural)]
pub enum Axis {
    Horizontal,
    Vertical,
}

/// A group of panes that follow the same ticker.
#[derive(Debug, Clone, Copy, PartialEq, Eq, Hash, Structural)]
pub enum LinkGroup {
    A,
    B,
    C,
    D,
    E,
    F,
    G,
    H,
    I,
}

/// The position of a link group, numbered from one.
pub open spec fn spec_link_number(g: LinkGroup) -> int {
    match g {
        LinkGroup::A => 1,
        LinkGroup::B => 2,
        LinkGroup::C => 3,
        LinkGroup::D => 4,
        LinkGroup::E => 5,
        LinkGroup::F => 6,
        LinkGroup::G => 7,
        LinkGroup::H => 8,
        LinkGroup::I => 9,
    }
}

impl LinkGroup {
    pub const ALL: [LinkGroup; 9] = [
        LinkGroup::A,
        LinkGroup::B,
        LinkGroup::C,
        LinkGroup::D,
        LinkGroup::E,
        LinkGroup::F,
        LinkGroup::G,
        LinkGroup::H,
        LinkGroup::I,
    ];

    /// The digit shown for the group, "1" for A up to "9" for I.
    pub fn label(&self) -> (s: &'static str)
        ensures
            s@.len() == 1,
            s@[0] == (spec_link_number(*self) + '0' as int) as char,
    {
        proof {
            reveal_strlit("1");
            reveal_strlit("2");
            reveal_strlit("3");
            reveal_strlit("4");
            reveal_strlit("5");
            reveal_strlit("6");
            reveal_strlit("7");
            reveal_strlit("8");
            reveal_strlit("9");
        }
        match self {
            LinkGroup::A => "1",
            LinkGroup::B => "2",
            LinkGroup::C => "3",
            LinkGroup::D => "4",
            LinkGroup::E => "5",
            LinkGroup::F => "6",
            LinkGroup::G => "7",
            LinkGroup::H => "8",
            LinkGroup::I => "9",
        }
    }
}

/// The groups are listed in `ALL` in order, each at its number less one.
pub proof fn law_link_groups_numbered_in_order(i: int)
    requires
        0 <= i < 9,
    ensures
        spec_link_number(LinkGroup::ALL@[i]) == i + 1,
{
}

} // verus!
