//! App containers: telling from a process's token whether the process runs in
//! one, and naming the pipe endpoint through which it can be reached.

use vstd::prelude::*;
use crate::text::{
    decimal, decode_prefix, find_null, is_decimal_digit, lemma_decimal_is_digits, push_decimal,
    terminated_len, terminated_units, utf16_lossy,
};

verus! {

/// The number of UTF-16 code units in the buffer that receives a container's
/// named-object path.
pub const MAX_OBJECT_PATH_SIZE: usize = 1024;

/// What was learnt about a process's token.
#[derive(Clone, Copy, Debug, PartialEq, Eq, Structural)]
pub enum TokenProbe {
    /// The token could not be opened.
    Unopened,
    /// The token was opened, but the query for its container flag failed.
    Unanswered,
    /// The token's container flag, as the operating system reported it.
    Flag(u32),
}

/// Whether a process runs inside an app container.
#[derive(Clone, Copy, Debug, PartialEq, Eq, Structural)]
pub enum TokenClass {
    /// The token says that the process runs outside any app container.
    NotContainer,
    /// The token says that the process runs inside an app container.
    Container,
    /// The token could not be asked: the process is passed over.
    Indeterminate,
}

/// The class of a process, given what was learnt about its token.
pub open spec fn token_class(probe: TokenProbe) -> TokenClass {
    match probe {
        TokenProbe::Unopened => TokenClass::Indeterminate,
        TokenProbe::Unanswered => TokenClass::Indeterminate,
        TokenProbe::Flag(flag) => if flag != 0 {
            TokenClass::Container
        } else {
            TokenClass::NotContainer
        },
    }
}

/// Classifies a process by what was learnt about its token.
pub fn classify_token(probe: TokenProbe) -> (class: TokenClass)
    ensures
        class == token_class(probe),
{
    match probe {
        TokenProbe::Unopened => TokenClass::Indeterminate,
        TokenProbe::Unanswered => TokenClass::Indeterminate,
        TokenProbe::Flag(flag) => if flag != 0 {
            TokenClass::Container
        } else {
            TokenClass::NotContainer
        },
    }
}

/// The text that opens every endpoint path: `\\.\pipe\Sessions\`.
pub open spec fn endpoint_prefix() -> Seq<char> {
    "\\\\.\\pipe\\Sessions\\"@
}

/// The endpoint path of the container with the given named-object path in the
/// given session: `\\.\pipe\Sessions\<session id>\<object path>`.
pub open spec fn endpoint_path(session_id: u32, object_path: Seq<char>) -> Seq<char> {
    endpoint_prefix() + decimal(session_id as nat) + seq!['\\'] + object_path
}

/// The endpoint path that follows from a token's session id and from the
/// buffer that received its named-object path, each absent where its query
/// failed. There is one only if both are present, the buffer holds a zero
/// code unit, which ends the object path, and the object path before it is
/// not empty, as code units and as text.
pub open spec fn endpoint_of(session_id: Option<u32>, object_path: Option<Seq<u16>>) -> Option<
    Seq<char>,
> {
    match (session_id, object_path) {
        (Some(id), Some(units)) => {
            let path = utf16_lossy(terminated_units(units));
            if 0 < terminated_len(units) < units.len() && path.len() > 0 {
                Some(endpoint_path(id, path))
            } else {
                None
            }
        },
        _ => None,
    }
}

/// Whether `text` has the form `\\.\pipe\Sessions\<digits>\<path>` with at
/// least one decimal digit and a path that is not empty.
pub open spec fn is_endpoint_path(text: Seq<char>) -> bool {
    exists|digits: Seq<char>, path: Seq<char>|
        {
            &&& #[trigger] endpoint_shape(digits, path) == text
            &&& digits.len() > 0
            &&& forall|i: int| 0 <= i < digits.len() ==> is_decimal_digit(#[trigger] digits[i])
            &&& path.len() > 0
        }
}

/// The prefix, then `digits`, a backslash and `path`.
pub open spec fn endpoint_shape(digits: Seq<char>, path: Seq<char>) -> Seq<char> {
    endpoint_prefix() + digits + seq!['\\'] + path
}

/// Builds the endpoint path of a container process from its token's session
/// id and the buffer that received its named-object path. Either is `None`
/// where its query failed. A buffer without a zero code unit gives no path,
/// and neither does one whose object path is empty: a path is whole or absent.
pub fn add_app_container_process_name(
    session_id: Option<u32>,
    object_path: Option<&Vec<u16>>,
) -> (name: Option<String>)
    ensures
        match name {
            Some(text) => endpoint_of(session_id, option_units(object_path)) == Some(text@),
            None => endpoint_of(session_id, option_units(object_path)) is None,
        },
        name matches Some(text) ==> is_endpoint_path(text@),
{
    let id: u32 = match session_id {
        Some(id) => id,
        None => {
            return None;
        },
    };
    let mut pipe_name: String = "\\\\.\\pipe\\Sessions\\".to_owned();
    push_decimal(&mut pipe_name, id);
    pipe_name.append("\\");
    proof {
        reveal_strlit("\\");
        assert("\\"@ =~= seq!['\\']);
    }
    let units: &Vec<u16> = match object_path {
        Some(units) => units,
        None => {
            return None;
        },
    };
    let end: usize = match find_null(units) {
        Some(at) => at,
        None => {
            return None;
        },
    };
    if end == 0 {
        return None;
    }
    let object_path_str: String = decode_prefix(units, end);
    if object_path_str.as_str().is_empty() {
        return None;
    }
    pipe_name.append(object_path_str.as_str());
    proof {
        lemma_endpoint_path_is_well_formed(id, object_path_str@);
    }
    Some(pipe_name)
}

/// The code units of a buffer that may be absent.
pub open spec fn option_units(buffer: Option<&Vec<u16>>) -> Option<Seq<u16>> {
    match buffer {
        Some(units) => Some(units@),
        None => None,
    }
}

/// An endpoint path built from an object path that is not empty has the form
/// `\\.\pipe\Sessions\<digits>\<path>`.
pub proof fn lemma_endpoint_path_is_well_formed(session_id: u32, object_path: Seq<char>)
    requires
        object_path.len() > 0,
    ensures
        is_endpoint_path(endpoint_path(session_id, object_path)),
{
    lemma_decimal_is_digits(session_id as nat);
    assert(endpoint_shape(decimal(session_id as nat), object_path) == endpoint_path(
        session_id,
        object_path,
    ));
}

/// An endpoint path is never empty, whatever the object path.
pub proof fn lemma_endpoint_path_is_not_empty(session_id: u32, object_path: Seq<char>)
    ensures
        endpoint_path(session_id, object_path).len() >= 20 + object_path.len(),
        endpoint_prefix().is_prefix_of(endpoint_path(session_id, object_path)),
{
    reveal_strlit("\\\\.\\pipe\\Sessions\\");
    lemma_decimal_is_digits(session_id as nat);
    assert(endpoint_prefix() =~= endpoint_path(session_id, object_path).subrange(
        0,
        endpoint_prefix().len() as int,
    ));
}

/// Every endpoint path that a session id and a path buffer give has the form
/// `\\.\pipe\Sessions\<digits>\<path>`, with a path that is not empty.
pub proof fn lemma_endpoint_of_is_well_formed(
    session_id: Option<u32>,
    object_path: Option<Seq<u16>>,
)
    ensures
        endpoint_of(session_id, object_path) matches Some(text) ==> is_endpoint_path(text),
{
    match (session_id, object_path) {
        (Some(id), Some(units)) => {
            let path = utf16_lossy(terminated_units(units));
            if path.len() > 0 {
                lemma_endpoint_path_is_well_formed(id, path);
            }
        },
        _ => {},
    }
}

} // verus!
