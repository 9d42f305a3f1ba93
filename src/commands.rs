use vstd::prelude::*;

verus! {

/// The status a peer is given on the command line.
#[derive(Debug, Clone, Copy, PartialEq, Eq, Structural)]
pub enum PeerStatus {
    Active,
    Disabled,
}

/// The text stored for a status in the table of peer statuses.
pub open spec fn status_text(s: PeerStatus) -> Seq<char> {
    match s {
        PeerStatus::Active => "active"@,
        PeerStatus::Disabled => "disabled"@,
    }
}

impl PeerStatus {
    /// The text stored for this status.
    pub fn as_text(&self) -> (r: String)
        ensures
            r@ == status_text(*self),
    {
        match self {
            PeerStatus::Active => String::from_str("active"),
            PeerStatus::Disabled => String::from_str("disabled"),
        }
    }

    /// The status stored as `text`, if it is one.
    pub fn from_text(text: &String) -> (r: Option<PeerStatus>)
        ensures
            r matches Some(s) ==> status_text(s) == text@,
            r is None ==> text@ != "active"@ && text@ != "disabled"@,
    {
        if *text == String::from_str("active") {
            Some(PeerStatus::Active)
        } else if *text == String::from_str("disabled") {
            Some(PeerStatus::Disabled)
        } else {
            None
        }
    }
}

} // verus!
