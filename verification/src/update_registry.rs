//! The dispatch table: from the tag of a record type to the handler that
//! is specialised for it.

use vstd::hash_map::StringHashMap;
use vstd::prelude::*;
use vstd::string::StringExecFns;
use crate::handlers::{RegisterRequest, RegisterResponse, UpdateError};

verus! {

/// Whether `c` has the Unicode property Uppercase.
pub uninterp spec fn char_is_uppercase(c: char) -> bool;

/// What the lowercase mapping of `c` gives first.
pub uninterp spec fn char_lowercase(c: char) -> Option<char>;

/// `char::is_uppercase`.
#[verifier::external_body]
fn is_uppercase(c: char) -> (upper: bool)
    ensures
        upper == char_is_uppercase(c),
{
    c.is_uppercase()
}

/// `char::to_lowercase`: what the iterator over the lowercase mapping of
/// `c` gives first.
#[verifier::external_body]
fn to_lowercase(c: char) -> (first: Option<char>)
    ensures
        first == char_lowercase(c),
{
    c.to_lowercase().next()
}

/// The character that stands for `c` in a tag: the first of its lowercase
/// mapping, or `c` itself where the mapping gives nothing.
pub open spec fn lowered(c: char) -> char {
    match char_lowercase(c) {
        Some(lower) => lower,
        None => c,
    }
}

/// The character that stands for `c` in a tag.
fn lower(c: char) -> (lower: char)
    ensures
        lower == lowered(c),
{
    match to_lowercase(c) {
        Some(lower) => lower,
        None => c,
    }
}

/// `String::push`: appends one character.
#[verifier::external_body]
fn push_char(text: &mut String, c: char)
    ensures
        final(text)@ == old(text)@.push(c),
{
    text.push(c)
}

/// The tag of a record type, from the name of the type: every character
/// is lowered, and an underscore goes before each uppercase character but
/// the first character of the name.
pub open spec fn spec_component_name(type_tag: Seq<char>) -> Seq<char>
    decreases type_tag.len(),
{
    if type_tag.len() == 0 {
        Seq::empty()
    } else {
        let head = spec_component_name(type_tag.drop_last());
        let c = type_tag.last();
        if type_tag.len() > 1 && char_is_uppercase(c) {
            head.push('_').push(lowered(c))
        } else {
            head.push(lowered(c))
        }
    }
}

/// The tag of a record type, from the name of the type.
pub fn component_name(type_tag: &str) -> (tag: String)
    ensures
        tag@ == spec_component_name(type_tag@),
{
    let mut tag = String::new();
    let count = type_tag.unicode_len();
    let mut i: usize = 0;
    while i < count
        invariant
            i <= count,
            count == type_tag@.len(),
            tag@ == spec_component_name(type_tag@.take(i as int)),
        decreases count - i,
    {
        let c = type_tag.get_char(i);
        proof {
            assert(type_tag@.take(i + 1).drop_last() =~= type_tag@.take(i as int));
        }
        if i > 0 && is_uppercase(c) {
            push_char(&mut tag, '_');
        }
        push_char(&mut tag, lower(c));
        i += 1;
    }
    proof {
        assert(type_tag@.take(count as int) =~= type_tag@);
    }
    tag
}

/// Why a request did not reach a handler, or what the handler answered.
#[derive(Debug)]
pub enum DispatchError {
    /// The table holds no handler under the tag.
    UnknownType(String),
    /// The handler turned the request down.
    Handler(UpdateError),
}

impl DispatchError {
    /// The text of [`DispatchError::to_string`].
    pub open spec fn message(self) -> Seq<char> {
        match self {
            DispatchError::UnknownType(tag) => "Unknown component type: "@ + tag@,
            DispatchError::Handler(error) => error.message(),
        }
    }

    /// The HTTP status that goes with this error.
    pub open spec fn spec_status_code(self) -> u16 {
        match self {
            DispatchError::UnknownType(_) => 500,
            DispatchError::Handler(error) => error.spec_status_code(),
        }
    }

    /// The error in words.
    pub fn to_string(&self) -> (text: String)
        ensures
            text@ == self.message(),
    {
        match self {
            DispatchError::UnknownType(tag) => String::from_str("Unknown component type: ").concat(
                tag.as_str(),
            ),
            DispatchError::Handler(error) => error.to_string(),
        }
    }

    /// The HTTP status that goes with this error: 500 for a tag that the
    /// table does not hold, and the status of the handler's error
    /// otherwise.
    pub fn status_code(&self) -> (status: u16)
        ensures
            status == self.spec_status_code(),
    {
        match self {
            DispatchError::UnknownType(_) => 500,
            DispatchError::Handler(error) => error.status_code(),
        }
    }
}

/// The dispatch table: a hash map from the tag of a record type to its
/// handler. It is filled once, at start, and only read after.
#[verifier::reject_recursive_types(H)]
pub struct UpdateRegistry<H> {
    handlers: StringHashMap<H>,
}

impl<H> View for UpdateRegistry<H> {
    type V = Map<Seq<char>, H>;

    closed spec fn view(&self) -> Map<Seq<char>, H> {
        self.handlers@
    }
}

impl<H> UpdateRegistry<H> {
    /// The handler under `tag`.
    pub open spec fn handler(&self, tag: Seq<char>) -> Option<H> {
        if self@.contains_key(tag) {
            Some(self@[tag])
        } else {
            None
        }
    }

    /// The table that holds no handler.
    pub fn new() -> (table: UpdateRegistry<H>)
        ensures
            table@ == Map::<Seq<char>, H>::empty(),
    {
        UpdateRegistry { handlers: StringHashMap::new() }
    }

    /// Whether the table holds a handler under `tag`.
    pub fn contains(&self, tag: &str) -> (held: bool)
        ensures
            held == self@.contains_key(tag@),
    {
        self.handlers.contains_key(tag)
    }

    /// Puts `handler` under the tag `type_tag`. A tag is registered once:
    /// the table must not hold it yet.
    pub fn register(&mut self, type_tag: &str, handler: H)
        requires
            !old(self)@.contains_key(type_tag@),
        ensures
            final(self)@ == old(self)@.insert(type_tag@, handler),
    {
        self.handlers.insert(String::from_str(type_tag), handler);
    }

    /// The handler under the tag `component_type`, if the table holds one.
    pub fn get_handler(&self, component_type: &str) -> (found: Option<&H>)
        ensures
            match found {
                Some(handler) => self.handler(component_type@) == Some(*handler),
                None => self.handler(component_type@) is None,
            },
    {
        self.handlers.get(component_type)
    }
}

impl<H> UpdateRegistry<H> {
    /// Routes a request to the handler under `tag` and hands back what the
    /// handler answers. A tag that the table does not hold is an error, and
    /// no handler runs.
    pub fn dispatch<S>(&self, tag: &str, state: &S, request: &RegisterRequest) -> (answer: Result<
        RegisterResponse,
        DispatchError,
    >) where H: Fn(&S, &RegisterRequest) -> Result<RegisterResponse, UpdateError>
        requires
            self.handler(tag@) is Some ==> call_requires(
                self.handler(tag@)->Some_0,
                (state, request),
            ),
        ensures
            match self.handler(tag@) {
                None => answer matches Err(DispatchError::UnknownType(unknown)) && unknown@
                    == tag@,
                Some(handler) => match answer {
                    Ok(response) => call_ensures(
                        handler,
                        (state, request),
                        Ok::<RegisterResponse, UpdateError>(response),
                    ),
                    Err(DispatchError::Handler(error)) => call_ensures(
                        handler,
                        (state, request),
                        Err::<RegisterResponse, UpdateError>(error),
                    ),
                    Err(DispatchError::UnknownType(_)) => false,
                },
            },
    {
        match self.get_handler(tag) {
            None => Err(DispatchError::UnknownType(String::from_str(tag))),
            Some(handler) => match handler(state, request) {
                Ok(response) => Ok(response),
                Err(error) => Err(DispatchError::Handler(error)),
            },
        }
    }
}

} // verus!
