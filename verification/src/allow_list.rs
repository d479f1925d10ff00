//! The fixed set of command names that the relay knows by name.

use crate::text::chars_of;
use vstd::prelude::*;

verus! {

/// The names on the allow-list, in the order in which they are kept.
pub open spec fn allowed_names() -> Seq<Seq<char>> {
    seq![
        "play"@,
        "pause"@,
        "stop"@,
        "next"@,
        "prev"@,
        "playlist"@,
        "frame"@,
        "pi_restart_vlc"@,
        "pi_shutdown"@,
        "pi_reboot"@,
    ]
}

/// Whether `text` is one of the names on the allow-list.
pub open spec fn is_allowed(text: Seq<char>) -> bool {
    allowed_names().contains(text)
}

/// Whether `a` and `b` hold the same characters.
pub fn same_text(a: &Vec<char>, b: &Vec<char>) -> (same: bool)
    ensures
        same == (a@ == b@),
{
    if a.len() != b.len() {
        return false;
    }
    let mut i: usize = 0;
    while i < a.len()
        invariant
            a.len() == b.len(),
            i <= a.len(),
            a@.subrange(0, i as int) == b@.subrange(0, i as int),
        decreases a.len() - i,
    {
        if a[i] != b[i] {
            return false;
        }
        assert(a@.subrange(0, i + 1) =~= a@.subrange(0, i as int).push(a@[i as int]));
        assert(b@.subrange(0, i + 1) =~= b@.subrange(0, i as int).push(b@[i as int]));
        i += 1;
    }
    assert(a@ =~= a@.subrange(0, i as int));
    assert(b@ =~= b@.subrange(0, i as int));
    true
}

/// The allow-list: made once, never changed, and handed to whoever classifies
/// commands.
pub struct AllowList {
    names: Vec<Vec<char>>,
}

impl AllowList {
    /// The names held, in order.
    pub closed spec fn names(&self) -> Seq<Seq<char>> {
        self.names@.map_values(|name: Vec<char>| name@)
    }

    #[verifier::type_invariant]
    spec fn holds_the_fixed_names(&self) -> bool {
        self.names() == allowed_names()
    }

    /// Builds the allow-list.
    pub fn new() -> (list: AllowList)
        ensures
            list.names() == allowed_names(),
    {
        let mut names: Vec<Vec<char>> = Vec::new();
        names.push(chars_of("play"));
        names.push(chars_of("pause"));
        names.push(chars_of("stop"));
        names.push(chars_of("next"));
        names.push(chars_of("prev"));
        names.push(chars_of("playlist"));
        names.push(chars_of("frame"));
        names.push(chars_of("pi_restart_vlc"));
        names.push(chars_of("pi_shutdown"));
        names.push(chars_of("pi_reboot"));
        assert(names@.map_values(|name: Vec<char>| name@) =~= allowed_names());
        AllowList { names }
    }

    /// Whether `text` is on the list.
    pub fn contains(&self, text: &Vec<char>) -> (found: bool)
        ensures
            found == is_allowed(text@),
    {
        proof {
            use_type_invariant(self);
        }
        let mut i: usize = 0;
        while i < self.names.len()
            invariant
                i <= self.names.len(),
                self.names() == allowed_names(),
                forall|k: int| 0 <= k < i ==> self.names()[k] != text@,
            decreases self.names.len() - i,
        {
            if same_text(&self.names[i], text) {
                assert(self.names()[i as int] == text@);
                return true;
            }
            i += 1;
        }
        false
    }
}

} // verus!
