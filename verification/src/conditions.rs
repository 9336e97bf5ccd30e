//! Time and volume conditions of an order.
use crate::text;
use vstd::prelude::*;
use vstd::utf8;

verus! {

/// How long an order stays valid.
#[derive(Debug, Clone, Copy, PartialEq, Eq, Structural)]
pub enum TimeCondition {
    /// Immediate or cancel: fill at once what can be filled, cancel the rest.
    IOC,
    /// Good for the session.
    GFS,
    /// Good for the day (the default).
    GFD,
    /// Good till a date.
    GTD,
    /// Good till cancelled.
    GTC,
    /// Good for the auction.
    GFA,
}

/// How much of an order has to be filled.
#[derive(Debug, Clone, Copy, PartialEq, Eq, Structural)]
pub enum VolumeCondition {
    /// Any volume (the default).
    ANY,
    /// A minimum volume.
    MIN,
    /// The whole volume.
    ALL,
}

impl Default for TimeCondition {
    fn default() -> (r: Self)
        ensures
            r == TimeCondition::GFD,
    {
        TimeCondition::GFD
    }
}

impl Default for VolumeCondition {
    fn default() -> (r: Self)
        ensures
            r == VolumeCondition::ANY,
    {
        VolumeCondition::ANY
    }
}

impl TimeCondition {
    /// The upper-case name of the condition.
    pub open spec fn name(self) -> Seq<char> {
        match self {
            TimeCondition::IOC => "IOC"@,
            TimeCondition::GFS => "GFS"@,
            TimeCondition::GFD => "GFD"@,
            TimeCondition::GTD => "GTD"@,
            TimeCondition::GTC => "GTC"@,
            TimeCondition::GFA => "GFA"@,
        }
    }

    /// The condition of an upper-case name; good for the day where no condition
    /// has that name.
    pub open spec fn named(s: Seq<char>) -> TimeCondition {
        if s == "IOC"@ {
            TimeCondition::IOC
        } else if s == "GFS"@ {
            TimeCondition::GFS
        } else if s == "GTD"@ {
            TimeCondition::GTD
        } else if s == "GTC"@ {
            TimeCondition::GTC
        } else if s == "GFA"@ {
            TimeCondition::GFA
        } else {
            TimeCondition::GFD
        }
    }

    /// Writes the name of the condition.
    pub fn to_string(&self) -> (r: String)
        ensures
            r@ == self.name(),
    {
        match self {
            TimeCondition::IOC => "IOC".to_string(),
            TimeCondition::GFS => "GFS".to_string(),
            TimeCondition::GFD => "GFD".to_string(),
            TimeCondition::GTD => "GTD".to_string(),
            TimeCondition::GTC => "GTC".to_string(),
            TimeCondition::GFA => "GFA".to_string(),
        }
    }

    /// Reads an upper-case name.
    pub fn from_upper(s: &str) -> (r: Self)
        ensures
            r == Self::named(s@),
    {
        if text::same(s, "IOC") {
            TimeCondition::IOC
        } else if text::same(s, "GFS") {
            TimeCondition::GFS
        } else if text::same(s, "GTD") {
            TimeCondition::GTD
        } else if text::same(s, "GTC") {
            TimeCondition::GTC
        } else if text::same(s, "GFA") {
            TimeCondition::GFA
        } else {
            TimeCondition::GFD
        }
    }

    /// Reads a name in any case; an unknown name is good for the day.
    pub fn from_str(s: &str) -> (r: Self)
        ensures
            r == Self::named(text::uppercase(s@)),
            utf8::is_ascii_chars(s@) ==> r == Self::named(text::ascii_uppercase(s@)),
    {
        Self::from_upper(text::to_uppercase(s).as_str())
    }
}

impl VolumeCondition {
    /// The upper-case name of the condition.
    pub open spec fn name(self) -> Seq<char> {
        match self {
            VolumeCondition::ANY => "ANY"@,
            VolumeCondition::MIN => "MIN"@,
            VolumeCondition::ALL => "ALL"@,
        }
    }

    /// The condition of an upper-case name; any volume where no condition has
    /// that name.
    pub open spec fn named(s: Seq<char>) -> VolumeCondition {
        if s == "MIN"@ {
            VolumeCondition::MIN
        } else if s == "ALL"@ {
            VolumeCondition::ALL
        } else {
            VolumeCondition::ANY
        }
    }

    /// Writes the name of the condition.
    pub fn to_string(&self) -> (r: String)
        ensures
            r@ == self.name(),
    {
        match self {
            VolumeCondition::ANY => "ANY".to_string(),
            VolumeCondition::MIN => "MIN".to_string(),
            VolumeCondition::ALL => "ALL".to_string(),
        }
    }

    /// Reads an upper-case name.
    pub fn from_upper(s: &str) -> (r: Self)
        ensures
            r == Self::named(s@),
    {
        if text::same(s, "MIN") {
            VolumeCondition::MIN
        } else if text::same(s, "ALL") {
            VolumeCondition::ALL
        } else {
            VolumeCondition::ANY
        }
    }

    /// Reads a name in any case; an unknown name is any volume.
    pub fn from_str(s: &str) -> (r: Self)
        ensures
            r == Self::named(text::uppercase(s@)),
            utf8::is_ascii_chars(s@) ==> r == Self::named(text::ascii_uppercase(s@)),
    {
        Self::from_upper(text::to_uppercase(s).as_str())
    }
}

/// The name of a time condition is read back as that condition, whatever the
/// case of its letters: any ASCII spelling whose upper-case form is the name
/// stands for it.
pub proof fn time_condition_name_reads_back(t: TimeCondition, s: Seq<char>)
    requires
        text::ascii_uppercase(s) == t.name(),
    ensures
        TimeCondition::named(text::ascii_uppercase(s)) == t,
        utf8::is_ascii_chars(t.name()),
        text::ascii_uppercase(t.name()) == t.name(),
{
    reveal_strlit("IOC");
    reveal_strlit("GFS");
    reveal_strlit("GFD");
    reveal_strlit("GTD");
    reveal_strlit("GTC");
    reveal_strlit("GFA");
    assert("IOC"@[0] == 'I');
    assert("GFS"@[2] == 'S' && "GFS"@[1] == 'F');
    assert("GFD"@[2] == 'D' && "GFD"@[1] == 'F');
    assert("GTD"@[2] == 'D' && "GTD"@[1] == 'T');
    assert("GTC"@[2] == 'C');
    assert("GFA"@[2] == 'A');
    assert(text::ascii_uppercase(t.name()) =~= t.name());
}

/// The name of a volume condition is read back as that condition, whatever the
/// case of its letters.
pub proof fn volume_condition_name_reads_back(v: VolumeCondition, s: Seq<char>)
    requires
        text::ascii_uppercase(s) == v.name(),
    ensures
        VolumeCondition::named(text::ascii_uppercase(s)) == v,
        utf8::is_ascii_chars(v.name()),
        text::ascii_uppercase(v.name()) == v.name(),
{
    reveal_strlit("ANY");
    reveal_strlit("MIN");
    reveal_strlit("ALL");
    assert("ANY"@[1] == 'N');
    assert("MIN"@[0] == 'M');
    assert("ALL"@[1] == 'L' && "ALL"@[0] == 'A');
    assert(text::ascii_uppercase(v.name()) =~= v.name());
}

/// Each condition is named as it is written, and that name alone stands for it; any
/// other word stands for the usual condition.
pub proof fn conditions_are_named(s: Seq<char>)
    ensures
        s == "IOC"@ <==> TimeCondition::named(s) == TimeCondition::IOC,
        s == "GFS"@ <==> TimeCondition::named(s) == TimeCondition::GFS,
        s == "GTD"@ <==> TimeCondition::named(s) == TimeCondition::GTD,
        s == "GTC"@ <==> TimeCondition::named(s) == TimeCondition::GTC,
        s == "GFA"@ <==> TimeCondition::named(s) == TimeCondition::GFA,
        s != "IOC"@ && s != "GFS"@ && s != "GTD"@ && s != "GTC"@ && s != "GFA"@
            ==> TimeCondition::named(s) == TimeCondition::GFD,
        TimeCondition::IOC.name() == "IOC"@,
        TimeCondition::GFS.name() == "GFS"@,
        TimeCondition::GFD.name() == "GFD"@,
        TimeCondition::GTD.name() == "GTD"@,
        TimeCondition::GTC.name() == "GTC"@,
        TimeCondition::GFA.name() == "GFA"@,
        s == "MIN"@ <==> VolumeCondition::named(s) == VolumeCondition::MIN,
        s == "ALL"@ <==> VolumeCondition::named(s) == VolumeCondition::ALL,
        s != "MIN"@ && s != "ALL"@ ==> VolumeCondition::named(s) == VolumeCondition::ANY,
        VolumeCondition::ANY.name() == "ANY"@,
        VolumeCondition::MIN.name() == "MIN"@,
        VolumeCondition::ALL.name() == "ALL"@,
{
    reveal_strlit("IOC");
    reveal_strlit("GFS");
    reveal_strlit("GTD");
    reveal_strlit("GTC");
    reveal_strlit("GFA");
    reveal_strlit("MIN");
    reveal_strlit("ALL");
    assert("IOC"@[0] == 'I' && "GFS"@[0] == 'G');
    assert("GFS"@[2] == 'S' && "GTD"@[2] == 'D' && "GTC"@[2] == 'C' && "GFA"@[2] == 'A');
    assert("GTD"@[0] == 'G' && "GTC"@[0] == 'G' && "GFA"@[0] == 'G');
    assert("MIN"@[0] == 'M' && "ALL"@[0] == 'A');
}

} // verus!
