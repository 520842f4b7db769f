//! Email addresses, as the email fields of a form hold them.

use email_address::EmailAddress;
use vstd::prelude::*;
use crate::text::string_of;

verus! {

/// Names the verdict of the `email_address` crate on a text: whether it reads
/// the text as an email address. The text alone decides it.
pub uninterp spec fn email_address_accepts(text: Seq<char>) -> bool;

/// Calls `EmailAddress::is_valid` of the `email_address` crate, which tells
/// whether `EmailAddress::from_str` succeeds on the text. Nothing is proved of
/// it: the contract names the result.
#[verifier::external_body]
fn read_email_address(text: &str) -> (accepted: bool)
    ensures
        accepted == email_address_accepts(text@),
{
    EmailAddress::is_valid(text)
}

/// An email address, kept as it was written.
#[derive(Debug, PartialEq, Eq)]
pub struct EmailText {
    text: String,
}

impl View for EmailText {
    type V = Seq<char>;

    closed spec fn view(&self) -> Seq<char> {
        self.text@
    }
}

impl DeepView for EmailText {
    type V = Seq<char>;

    open spec fn deep_view(&self) -> Seq<char> {
        self@
    }
}

/// The address that `text` writes, if it writes one.
pub open spec fn email_of(text: Seq<char>) -> Option<Seq<char>> {
    if email_address_accepts(text) {
        Some(text)
    } else {
        None
    }
}

impl EmailText {
    #[verifier::type_invariant]
    spec fn well_formed(&self) -> bool {
        email_address_accepts(self.text@)
    }

    /// The address that `text` writes, where `accepted` is the verdict on it.
    pub fn from_verdict(text: &[char], accepted: bool) -> (r: Option<EmailText>)
        requires
            accepted == email_address_accepts(text@),
        ensures
            match r {
                Some(e) => accepted && e@ == text@,
                None => !accepted,
            },
    {
        if accepted {
            Some(EmailText { text: string_of(text) })
        } else {
            None
        }
    }

    /// The address that `text` writes, if it writes one.
    pub fn new(text: &[char]) -> (r: Option<EmailText>)
        ensures
            match r {
                Some(e) => email_of(text@) == Some(e@),
                None => email_of(text@) is None,
            },
    {
        let owned = string_of(text);
        let accepted = read_email_address(owned.as_str());
        EmailText::from_verdict(text, accepted)
    }

    /// The address as text.
    pub fn text(&self) -> (t: &str)
        ensures
            t@ == self@,
            email_address_accepts(t@),
    {
        proof {
            use_type_invariant(self);
        }
        self.text.as_str()
    }
}

} // verus!
