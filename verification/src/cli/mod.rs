//! What the command line selects.

use vstd::prelude::*;
use vstd::string::*;
use vstd::utf8::*;

verus! {

/// The operations that the command line offers.
#[derive(Debug, Clone, Copy, PartialEq, Eq, Structural)]
pub enum Operation {
    SendAudio,
    SendDocument,
    SendLocation,
    SendMessage,
    SendPhoto,
    SendPoll,
    SendVideo,
}

/// The operation that the subcommands `scope`, `group` and `command`
/// select, in this order from the outermost.
pub open spec fn selected(scope: Seq<char>, group: Seq<char>, command: Seq<char>) -> Option<Operation> {
    if scope != "bot"@ || group != "send"@ {
        None
    } else if command == "audio"@ {
        Some(Operation::SendAudio)
    } else if command == "document"@ {
        Some(Operation::SendDocument)
    } else if command == "location"@ {
        Some(Operation::SendLocation)
    } else if command == "message"@ {
        Some(Operation::SendMessage)
    } else if command == "photo"@ {
        Some(Operation::SendPhoto)
    } else if command == "poll"@ {
        Some(Operation::SendPoll)
    } else if command == "video"@ {
        Some(Operation::SendVideo)
    } else {
        None
    }
}

/// Whether two texts are the same.
pub fn same_text(left: &str, right: &str) -> (same: bool)
    ensures
        same == (left@ == right@),
{
    let a = left.as_bytes();
    let b = right.as_bytes();
    proof {
        encode_utf8_decode_utf8(left@);
        encode_utf8_decode_utf8(right@);
    }
    if a.len() != b.len() {
        return false;
    }
    let mut i: usize = 0;
    while i < a.len()
        invariant
            i <= a@.len(),
            a@.len() == b@.len(),
            a@ == left.spec_bytes(),
            b@ == right.spec_bytes(),
            forall|j: int| 0 <= j < i ==> a@[j] == b@[j],
        decreases a.len() - i,
    {
        if a[i] != b[i] {
            return false;
        }
        i += 1;
    }
    assert(a@ =~= b@);
    true
}

/// The operation that the subcommands `scope`, `group` and `command`
/// select; `None` where they select none.
pub fn select(scope: &str, group: &str, command: &str) -> (operation: Option<Operation>)
    ensures
        operation == selected(scope@, group@, command@),
{
    if !same_text(scope, "bot") || !same_text(group, "send") {
        None
    } else if same_text(command, "audio") {
        Some(Operation::SendAudio)
    } else if same_text(command, "document") {
        Some(Operation::SendDocument)
    } else if same_text(command, "location") {
        Some(Operation::SendLocation)
    } else if same_text(command, "message") {
        Some(Operation::SendMessage)
    } else if same_text(command, "photo") {
        Some(Operation::SendPhoto)
    } else if same_text(command, "poll") {
        Some(Operation::SendPoll)
    } else if same_text(command, "video") {
        Some(Operation::SendVideo)
    } else {
        None
    }
}

} // verus!
