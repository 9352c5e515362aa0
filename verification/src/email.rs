//! Outgoing e-mail: the message the service hands to the mail provider and
//! the one way sending it can fail.
use vstd::prelude::*;
use vstd::string::*;

verus! {

/// Sending an e-mail failed on the network.
#[derive(Debug, Clone, Copy, PartialEq, Eq, Structural)]
pub enum EmailError {
    NetworkError,
}

/// An e-mail: sender, recipient, subject and HTML body.
#[derive(Debug)]
pub struct EmailParams {
    pub from: String,
    pub to: String,
    pub subject: String,
    pub html: String,
}

impl Default for EmailParams {
    /// An e-mail with every part empty.
    fn default() -> (r: EmailParams)
        ensures
            r.from@ == Seq::<char>::empty(),
            r.to@ == Seq::<char>::empty(),
            r.subject@ == Seq::<char>::empty(),
            r.html@ == Seq::<char>::empty(),
    {
        EmailParams { from: String::new(), to: String::new(), subject: String::new(), html: String::new() }
    }
}

} // verus!
