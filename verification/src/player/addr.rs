//! The network address of a player, which the server can be told to keep out
//! of what it prints.

use vstd::prelude::*;
use vstd::string::*;

verus! {

/// The address of a player, held as the text that displays it: an IP address
/// and a port, as a socket address is written.
#[derive(Debug, PartialEq, Eq)]
pub struct PlayerAddr {
    text: String,
}

impl View for PlayerAddr {
    type V = Seq<char>;

    /// The address as it is displayed.
    closed spec fn view(&self) -> Seq<char> {
        self.text@
    }
}

impl Clone for PlayerAddr {
    fn clone(&self) -> (addr: Self)
        ensures
            addr == *self,
    {
        PlayerAddr { text: self.text.clone() }
    }
}

/// What stands in place of an address that is withheld.
pub open spec fn redacted_text() -> Seq<char> {
    "<redacted>"@
}

impl PlayerAddr {
    /// The address that a text displays. The text is taken as it is.
    pub fn new(text: String) -> (addr: PlayerAddr)
        ensures
            addr@ == text@,
    {
        PlayerAddr { text }
    }

    /// The address in full, whatever the privacy setting.
    pub fn as_str(&self) -> (s: &str)
        ensures
            s@ == self@,
    {
        self.text.as_str()
    }

    /// The address as it may be printed: in full, or a placeholder where
    /// addresses are withheld.
    pub fn display(&self, withheld: bool) -> (s: String)
        ensures
            s@ == (if withheld {
                redacted_text()
            } else {
                self@
            }),
    {
        if withheld {
            String::from_str("<redacted>")
        } else {
            self.text.clone()
        }
    }
}

} // verus!
