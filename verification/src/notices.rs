//! The texts that the operations answer with.

use vstd::prelude::*;

verus! {

/// What an operation tells the people in the conversation.
#[derive(Clone, Copy, Debug, PartialEq, Eq, Structural)]
pub enum Notice {
    /// A case was opened.
    CaseOpened,
    /// Helpers were asked for outside a case thread.
    CallOutsideCase,
    /// Helpers were asked for before the cooldown was over.
    CallCooldown,
    /// The helpers were summoned.
    HelpersCalled,
    /// Closing was asked for outside a case thread.
    CloseOutsideCase,
    /// The case has no record, so its owner is not known.
    OwnerUnknown,
    /// The requester may not close the case.
    CloseDenied,
    /// The case was closed.
    CaseClosed,
}

/// The exact text of each notice.
pub open spec fn notice_text(notice: Notice) -> Seq<char> {
    match notice {
        Notice::CaseOpened => "Support case opened."@,
        Notice::CallOutsideCase => "The call command can only be used within support cases."@,
        Notice::CallCooldown => "You cannot call the helpers until at least 30m after opening your support case! We do this because all of our staff team is volunteers and we want to give them a chance to see and respond to your support case first before pinging them."@,
        Notice::HelpersCalled => "The helpers have been called to your support case."@,
        Notice::CloseOutsideCase => "The close command can only be used within support cases."@,
        Notice::OwnerUnknown => "Unable to get the owner of this support case. As a result, the support case must manually be closed by staff."@,
        Notice::CloseDenied => "Only the support case author and staff members can close a support case!"@,
        Notice::CaseClosed => "This support case has been closed and can only be re-opened by a staff member."@,
    }
}

impl Notice {
    /// The exact text of the notice.
    pub fn text(self) -> (text: &'static str)
        ensures
            text@ == notice_text(self),
    {
        match self {
            Notice::CaseOpened => "Support case opened.",
            Notice::CallOutsideCase => "The call command can only be used within support cases.",
            Notice::CallCooldown => "You cannot call the helpers until at least 30m after opening your support case! We do this because all of our staff team is volunteers and we want to give them a chance to see and respond to your support case first before pinging them.",
            Notice::HelpersCalled => "The helpers have been called to your support case.",
            Notice::CloseOutsideCase => "The close command can only be used within support cases.",
            Notice::OwnerUnknown => "Unable to get the owner of this support case. As a result, the support case must manually be closed by staff.",
            Notice::CloseDenied => "Only the support case author and staff members can close a support case!",
            Notice::CaseClosed => "This support case has been closed and can only be re-opened by a staff member.",
        }
    }
}

} // verus!
