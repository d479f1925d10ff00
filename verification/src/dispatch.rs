//! The command dispatcher: from the bytes received to the one path that the
//! command takes.

use crate::allow_list::{is_allowed, same_text, AllowList};
use crate::local_action::{action_named, LocalAction};
use crate::text::{chars_of, decode, trim, trimmed};
use vstd::prelude::*;
use vstd::slice::slice_to_vec;
use vstd::utf8::{decode_utf8, valid_utf8};

verus! {

/// The largest command accepted, in bytes.
pub const MAX_COMMAND_SIZE: usize = 128;

/// Why a command was not carried out.
#[derive(Copy, Clone, PartialEq, Eq, Structural, Debug)]
pub enum DispatchError {
    /// The command is longer than `MAX_COMMAND_SIZE` bytes.
    SizeExceeded,
    /// The command is not well-formed UTF-8.
    InvalidEncoding,
    /// The command bears the privileged prefix and is not on the allow-list.
    Unauthorized,
    /// The backend could not be reached within the attempts allowed.
    BackendUnreachable,
}

/// The path that an accepted command takes.
#[derive(PartialEq, Eq, Debug)]
pub enum Route {
    /// Carry out a privileged action on the host.
    Local(LocalAction),
    /// Send these bytes to the backend, unchanged.
    Forward(Vec<u8>),
}

/// A route, with the bytes to forward as a sequence.
pub enum RouteView {
    Local(LocalAction),
    Forward(Seq<u8>),
}

impl View for Route {
    type V = RouteView;

    open spec fn view(&self) -> RouteView {
        match self {
            Route::Local(action) => RouteView::Local(*action),
            Route::Forward(bytes) => RouteView::Forward(bytes@),
        }
    }
}

/// What came of carrying out the route of a command.
#[derive(Copy, Clone, PartialEq, Eq, Structural, Debug)]
pub enum Outcome {
    /// The local action ran and reported success.
    ActionSucceeded,
    /// The local action could not be started, or reported failure.
    ActionFailed,
    /// The backend took the command.
    Delivered,
    /// The backend could not be reached within the attempts allowed.
    Unreachable,
}

/// The result of a dispatch whose route came to `outcome`: only an unreachable
/// backend is a failure of the dispatch; a local action that failed is not.
pub open spec fn result_of(outcome: Outcome) -> Result<(), DispatchError> {
    match outcome {
        Outcome::Unreachable => Err(DispatchError::BackendUnreachable),
        _ => Ok(()),
    }
}

/// Whether `text` bears the prefix reserved for privileged commands.
pub open spec fn is_privileged(text: Seq<char>) -> bool {
    "pi_"@.is_prefix_of(text)
}

/// The path of a command whose trimmed text is `text` and whose bytes, as
/// received, are `data`. A text without the privileged prefix is forwarded,
/// whether it is on the allow-list or not; one with the prefix is never
/// forwarded: it must be on the allow-list and name a local action.
pub open spec fn route_of_text(text: Seq<char>, data: Seq<u8>) -> Result<RouteView, DispatchError> {
    if !is_privileged(text) {
        Ok(RouteView::Forward(data))
    } else if !is_allowed(text) {
        Err(DispatchError::Unauthorized)
    } else {
        match action_named(text) {
            Some(action) => Ok(RouteView::Local(action)),
            None => Err(DispatchError::Unauthorized),
        }
    }
}

/// The path of the command received as `data`: the size is checked first, then
/// the encoding, then the trimmed text is classified.
pub open spec fn route_of(data: Seq<u8>) -> Result<RouteView, DispatchError> {
    if data.len() > MAX_COMMAND_SIZE {
        Err(DispatchError::SizeExceeded)
    } else if !valid_utf8(data) {
        Err(DispatchError::InvalidEncoding)
    } else {
        route_of_text(trimmed(decode_utf8(data)), data)
    }
}

/// The result of a dispatch, with the route taken by its view.
pub open spec fn dispatched(result: Result<Route, DispatchError>) -> Result<
    RouteView,
    DispatchError,
> {
    match result {
        Ok(route) => Ok(route@),
        Err(error) => Err(error),
    }
}

/// A command longer than `MAX_COMMAND_SIZE` bytes is refused for its size,
/// whatever it holds: it takes neither path.
pub proof fn lemma_oversized_is_refused(data: Seq<u8>)
    requires
        data.len() > MAX_COMMAND_SIZE,
    ensures
        route_of(data) == Err::<RouteView, DispatchError>(DispatchError::SizeExceeded),
{
}

/// A text that bears the privileged prefix and is not on the allow-list is
/// refused as unauthorized: it takes neither path.
pub proof fn lemma_unlisted_privileged_is_refused(text: Seq<char>, data: Seq<u8>)
    requires
        is_privileged(text),
        !is_allowed(text),
    ensures
        route_of_text(text, data) == Err::<RouteView, DispatchError>(DispatchError::Unauthorized),
{
}

/// A command of accepted size and encoding whose trimmed text bears the
/// privileged prefix and is not on the allow-list is refused as unauthorized.
pub proof fn lemma_unlisted_privileged_command_is_refused(data: Seq<u8>)
    requires
        data.len() <= MAX_COMMAND_SIZE,
        valid_utf8(data),
        is_privileged(trimmed(decode_utf8(data))),
        !is_allowed(trimmed(decode_utf8(data))),
    ensures
        route_of(data) == Err::<RouteView, DispatchError>(DispatchError::Unauthorized),
{
}

/// The names on the allow-list that bear the privileged prefix are exactly the
/// names of the three local actions.
pub proof fn lemma_privileged_allowed_names(text: Seq<char>)
    ensures
        is_privileged(text) && is_allowed(text) <==> action_named(text) is Some,
{
    reveal_strlit("pi_");
    reveal_strlit("play");
    reveal_strlit("pause");
    reveal_strlit("stop");
    reveal_strlit("next");
    reveal_strlit("prev");
    reveal_strlit("playlist");
    reveal_strlit("frame");
    reveal_strlit("pi_restart_vlc");
    reveal_strlit("pi_shutdown");
    reveal_strlit("pi_reboot");
    let names = crate::allow_list::allowed_names();
    if is_privileged(text) && is_allowed(text) {
        let k = choose|k: int| 0 <= k < names.len() && names[k] == text;
        assert(text.subrange(0, 3) == "pi_"@);
        assert(text[0] == 'p' && text[1] == 'i' && text[2] == '_') by {
            assert(text.subrange(0, 3)[0] == 'p');
            assert(text.subrange(0, 3)[1] == 'i');
            assert(text.subrange(0, 3)[2] == '_');
        }
        assert(k == 7 || k == 8 || k == 9);
    }
    if action_named(text) is Some {
        assert(names[7] == "pi_restart_vlc"@);
        assert(names[8] == "pi_shutdown"@);
        assert(names[9] == "pi_reboot"@);
        assert("pi_"@ =~= text.subrange(0, 3));
    }
}

/// Every text takes exactly one of three ways: a text without the privileged
/// prefix is forwarded with the bytes received, unchanged; one that names a
/// local action has that action carried out and is not forwarded; any other is
/// refused as unauthorized.
pub proof fn lemma_one_path(text: Seq<char>, data: Seq<u8>)
    ensures
        !is_privileged(text) ==> route_of_text(text, data) == Ok::<RouteView, DispatchError>(
            RouteView::Forward(data),
        ),
        action_named(text) is Some ==> route_of_text(text, data) == Ok::<RouteView, DispatchError>(
            RouteView::Local(action_named(text)->0),
        ),
        is_privileged(text) && action_named(text) is None ==> route_of_text(text, data) == Err::<
            RouteView,
            DispatchError,
        >(DispatchError::Unauthorized),
{
    lemma_privileged_allowed_names(text);
}

/// Whether `text` begins with `prefix`.
pub fn starts_with(text: &Vec<char>, prefix: &Vec<char>) -> (found: bool)
    ensures
        found == prefix@.is_prefix_of(text@),
{
    if prefix.len() > text.len() {
        return false;
    }
    let mut i: usize = 0;
    while i < prefix.len()
        invariant
            i <= prefix.len() <= text.len(),
            forall|k: int| 0 <= k < i ==> prefix@[k] == text@[k],
        decreases prefix.len() - i,
    {
        if prefix[i] != text[i] {
            assert(prefix@[i as int] != text@.subrange(0, prefix@.len() as int)[i as int]);
            return false;
        }
        i += 1;
    }
    assert(prefix@ =~= text@.subrange(0, prefix@.len() as int));
    true
}

/// The privileged action that the command name `text` asks for, if any.
pub fn local_action(text: &Vec<char>) -> (action: Option<LocalAction>)
    ensures
        action == action_named(text@),
{
    if same_text(text, &chars_of("pi_restart_vlc")) {
        Some(LocalAction::RestartService)
    } else if same_text(text, &chars_of("pi_shutdown")) {
        Some(LocalAction::Shutdown)
    } else if same_text(text, &chars_of("pi_reboot")) {
        Some(LocalAction::Reboot)
    } else {
        None
    }
}

/// The result that the sender of a command is given, once its route has come
/// to `outcome`.
pub fn conclude(outcome: Outcome) -> (result: Result<(), DispatchError>)
    ensures
        result == result_of(outcome),
{
    match outcome {
        Outcome::Unreachable => Err(DispatchError::BackendUnreachable),
        _ => Ok(()),
    }
}

/// Decides the path of each command against the allow-list it was made with.
pub struct Dispatcher {
    allow_list: AllowList,
}

impl Dispatcher {
    /// The names on the allow-list held, in order.
    pub closed spec fn names(&self) -> Seq<Seq<char>> {
        self.allow_list.names()
    }

    /// A dispatcher that holds `allow_list`.
    pub fn new(allow_list: AllowList) -> (dispatcher: Dispatcher)
        ensures
            dispatcher.names() == allow_list.names(),
    {
        Dispatcher { allow_list }
    }

    /// The path of a command whose trimmed text is `text` and whose bytes are
    /// `data`.
    pub fn classify(&self, text: &Vec<char>, data: &[u8]) -> (result: Result<Route, DispatchError>)
        ensures
            dispatched(result) == route_of_text(text@, data@),
    {
        if !starts_with(text, &chars_of("pi_")) {
            Ok(Route::Forward(slice_to_vec(data)))
        } else if !self.allow_list.contains(text) {
            Err(DispatchError::Unauthorized)
        } else {
            match local_action(text) {
                Some(action) => Ok(Route::Local(action)),
                None => Err(DispatchError::Unauthorized),
            }
        }
    }

    /// Decides what to do with the command received as `data`. An oversized
    /// command is refused before anything else is looked at; one that is not
    /// text is refused next; a privileged command that is not on the allow-list
    /// is refused and takes no path at all.
    pub fn dispatch(&self, data: &[u8]) -> (result: Result<Route, DispatchError>)
        ensures
            dispatched(result) == route_of(data@),
    {
        if data.len() > MAX_COMMAND_SIZE {
            return Err(DispatchError::SizeExceeded);
        }
        match decode(data) {
            None => Err(DispatchError::InvalidEncoding),
            Some(text) => self.classify(&trim(&text), data),
        }
    }
}

} // verus!
