//! The bus values that the monitor reads: who sent a request, and which
//! connection has left the bus.
//!
//! Headers, names and signals are types of the `zbus` crate. This module takes
//! out of them, as plain text, what the rest of the library works on.
use vstd::prelude::*;
use vstd::string::StrSliceExecFns;

use crate::error::MonitorError;

verus! {

#[verifier::external_type_specification]
#[verifier::external_body]
pub struct ExHeader<'m>(zbus::message::Header<'m>);

#[verifier::external_type_specification]
#[verifier::external_body]
pub struct ExUniqueName<'name>(zbus::names::UniqueName<'name>);

#[verifier::external_type_specification]
#[verifier::external_body]
pub struct ExNameOwnerChanged(zbus::fdo::NameOwnerChanged);

#[verifier::external_type_specification]
#[verifier::external_body]
pub struct ExError(zbus::Error);

/// The text of a unique bus name.
pub uninterp spec fn unique_name_text(name: zbus::names::UniqueName<'_>) -> Seq<char>;

/// The text of the unique name in a message header's sender field, or `None`
/// where the header has no such field.
pub uninterp spec fn header_sender_text(header: zbus::message::Header<'_>) -> Option<Seq<char>>;

/// The texts that a `NameOwnerChanged` signal carries, namely the bus name that
/// changes hands, its old owner and its new owner, or `None` where the signal's
/// body does not decode.
pub uninterp spec fn signal_owner_texts(signal: zbus::fdo::NameOwnerChanged) -> Option<
    (Seq<char>, Option<Seq<char>>, Option<Seq<char>>),
>;

/// Calls `zbus::names::UniqueName::as_str`, which hands out the text that the
/// name holds. The result is a function of the name.
#[verifier::external_body]
fn name_text<'a>(name: &'a zbus::names::UniqueName<'_>) -> (text: &'a str)
    ensures
        text@ == unique_name_text(*name),
{
    name.as_str()
}

/// Calls `zbus::message::Header::sender`, which hands out the header's sender
/// field. The text of the name that comes out is a function of the header.
#[verifier::external_body]
fn header_sender<'a, 'm>(header: &'a zbus::message::Header<'m>) -> (sender: Option<
    &'a zbus::names::UniqueName<'m>,
>)
    ensures
        sender matches Some(name) ==> header_sender_text(*header) == Some(unique_name_text(*name)),
        sender is None ==> header_sender_text(*header) is None,
{
    header.sender()
}

/// Calls `zbus::fdo::NameOwnerChanged::args`, which decodes the signal's body,
/// and copies the text of the name and of its two owners out of what it returns.
/// Whether the body decodes, and to which texts, is a function of the signal. Of
/// the error nothing is claimed.
#[verifier::external_body]
fn signal_owners(signal: &zbus::fdo::NameOwnerChanged) -> (owners: Result<
    (String, Option<String>, Option<String>),
    zbus::Error,
>)
    ensures
        owners matches Ok((name, old_owner, new_owner)) ==> signal_owner_texts(*signal) == Some(
            (name@, text_view(old_owner), text_view(new_owner)),
        ),
        owners is Err ==> signal_owner_texts(*signal) is None,
{
    let args = signal.args()?;
    let name = args.name.as_str().to_owned();
    let old_owner = match args.old_owner.as_ref() {
        Some(name) => Some(name.as_str().to_owned()),
        None => None,
    };
    let new_owner = match args.new_owner.as_ref() {
        Some(name) => Some(name.as_str().to_owned()),
        None => None,
    };
    Ok((name, old_owner, new_owner))
}

/// An optional text as a sequence of characters.
pub open spec fn text_view(text: Option<String>) -> Option<Seq<char>> {
    match text {
        Some(text) => Some(text@),
        None => None,
    }
}

/// An optional owner as a sequence of characters.
pub open spec fn owner_view(owner: Option<OwnerName>) -> Option<Seq<char>> {
    match owner {
        Some(owner) => Some(owner@),
        None => None,
    }
}

/// The unique bus name of the connection that owns a watch.
#[derive(Clone, Debug)]
pub struct OwnerName {
    /// The name's text, such as `:1.5`.
    pub name: String,
}

impl View for OwnerName {
    type V = Seq<char>;

    open spec fn view(&self) -> Seq<char> {
        self.name@
    }
}

impl OwnerName {
    /// The owner with the given unique bus name.
    pub fn from_unique_name(name: &zbus::names::UniqueName<'_>) -> (owner: OwnerName)
        ensures
            owner@ == unique_name_text(*name),
    {
        OwnerName { name: name_text(name).to_owned() }
    }

    /// Whether two owners are the same connection.
    pub fn same_as(&self, other: &OwnerName) -> (same: bool)
        ensures
            same == (self@ == other@),
    {
        self.name == other.name
    }
}

/// The connection that sent the request with the given header. A request
/// without a sender is refused.
pub fn sender_from_header(header: &zbus::message::Header<'_>) -> (sender: Result<
    OwnerName,
    MonitorError,
>)
    ensures
        match sender {
            Ok(owner) => header_sender_text(*header) == Some(owner@),
            Err(error) => header_sender_text(*header) is None && error is NoSender,
        },
{
    let sender = match header_sender(header) {
        Some(name) => Some(OwnerName::from_unique_name(name)),
        None => None,
    };
    require_sender(sender)
}

/// Refuses a request that has no sender.
pub fn require_sender(sender: Option<OwnerName>) -> (checked: Result<OwnerName, MonitorError>)
    ensures
        match sender {
            Some(owner) => checked == Ok::<OwnerName, MonitorError>(owner),
            None => checked == Err::<OwnerName, MonitorError>(MonitorError::NoSender),
        },
{
    match sender {
        Some(owner) => Ok(owner),
        None => Err(MonitorError::NoSender),
    }
}

/// Whether a valid bus name is a unique name, one that stands for a connection,
/// rather than a well-known name. Unique names begin with a colon; the bus
/// itself goes by a name without one.
pub open spec fn unique_name(name: Seq<char>) -> bool {
    (name.len() > 0 && name[0] == ':') || name == "org.freedesktop.DBus"@
}

/// Tells a unique name from a well-known name.
pub fn is_unique_name(name: &String) -> (unique: bool)
    ensures
        unique == unique_name(name@),
{
    let text = name.as_str();
    (text.unicode_len() > 0 && text.get_char(0) == ':') || *name
        == "org.freedesktop.DBus".to_owned()
}

/// A change of the owner of a bus name.
#[derive(Clone, Debug)]
pub struct OwnerChange {
    /// The bus name that changes hands, unique or well-known.
    pub name: String,
    /// The connection that owned the name before, if any.
    pub old_owner: Option<OwnerName>,
    /// The connection that owns the name now, if any.
    pub new_owner: Option<OwnerName>,
}

impl View for OwnerChange {
    type V = (Seq<char>, Option<Seq<char>>, Option<Seq<char>>);

    open spec fn view(&self) -> (Seq<char>, Option<Seq<char>>, Option<Seq<char>>) {
        (self.name@, owner_view(self.old_owner), owner_view(self.new_owner))
    }
}

/// The change of owners that a `NameOwnerChanged` signal tells of, or the error
/// where its body does not decode.
pub fn owner_change(signal: &zbus::fdo::NameOwnerChanged) -> (change: Result<
    OwnerChange,
    zbus::Error,
>)
    ensures
        match change {
            Ok(change) => signal_owner_texts(*signal) == Some(change@),
            Err(_) => signal_owner_texts(*signal) is None,
        },
{
    match signal_owners(signal) {
        Ok((name, old_owner, new_owner)) => Ok(
            OwnerChange {
                name,
                old_owner: owner_named(old_owner),
                new_owner: owner_named(new_owner),
            },
        ),
        Err(error) => Err(error),
    }
}

/// The owner with the given name, if there is one.
fn owner_named(name: Option<String>) -> (owner: Option<OwnerName>)
    ensures
        owner_view(owner) == text_view(name),
{
    match name {
        Some(name) => Some(OwnerName { name }),
        None => None,
    }
}

} // verus!
