//! The account that signed a message. The core carries it through to the
//! host, which decides whether it is acceptable.

use vstd::prelude::*;

verus! {

/// An opaque signer address.
#[derive(Debug, PartialEq, Eq, Hash)]
pub struct Signer {
    pub account: String,
}

impl Clone for Signer {
    fn clone(&self) -> (r: Self)
        ensures
            r.account@ == self.account@,
    {
        Signer { account: self.account.clone() }
    }
}

impl View for Signer {
    type V = Seq<char>;

    open spec fn view(&self) -> Seq<char> {
        self.account@
    }
}

impl Signer {
    pub fn from_string(account: String) -> (r: Signer)
        ensures
            r@ == account@,
    {
        Signer { account }
    }

    pub fn as_str(&self) -> (r: &str)
        ensures
            r@ == self@,
    {
        self.account.as_str()
    }

    pub fn clone_string(&self) -> (r: String)
        ensures
            r@ == self@,
    {
        self.account.clone()
    }
}

} // verus!
