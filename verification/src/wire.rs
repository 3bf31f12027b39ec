//! The command message: what the queue carries from the producer to the worker.
//!
//! A message is one JSON object with the members `job_id`, `operation` and, where the
//! operation needs them, `item_id` and `title`. Identifiers travel in their
//! hyphenated spelling. JSON text is written and read by `serde_json`; which members a
//! command has, and which command a set of members makes, is decided here.

use crate::ident::{hyphenated, id_text, parse_id, parsed_id, reads_back};
use vstd::prelude::*;
use vstd::string::*;

verus! {

/// The value of one member of a JSON object, as far as a command message cares.
#[derive(Clone, Debug, PartialEq, Eq)]
pub enum Field {
    /// JSON `null`.
    Null,
    /// A JSON string.
    Text(String),
    /// Any other JSON value: a boolean, a number, an array or an object.
    Other,
}

/// The mathematical value of a [`Field`].
pub enum FieldView {
    Null,
    Text(Seq<char>),
    Other,
}

impl View for Field {
    type V = FieldView;

    open spec fn view(&self) -> FieldView {
        match self {
            Field::Null => FieldView::Null,
            Field::Text(s) => FieldView::Text(s@),
            Field::Other => FieldView::Other,
        }
    }
}

/// One member of a JSON object: its key and its value.
#[derive(Clone, Debug, PartialEq, Eq)]
pub struct Member {
    pub key: String,
    pub value: Field,
}

/// The mathematical value of a [`Member`].
pub struct MemberView {
    pub key: Seq<char>,
    pub value: FieldView,
}

impl View for Member {
    type V = MemberView;

    open spec fn view(&self) -> MemberView {
        MemberView { key: self.key@, value: self.value@ }
    }
}

/// The members of a sequence, each by its value.
pub open spec fn members_view(members: Seq<Member>) -> Seq<MemberView> {
    members.map_values(|m: Member| m@)
}

/// What reading a payload as JSON gave.
#[derive(Debug, PartialEq, Eq)]
pub enum Document {
    /// A JSON object, with its members.
    Object(Vec<Member>),
    /// Well-formed JSON that is no object.
    Other,
    /// No well-formed JSON.
    Malformed,
}

/// The mathematical value of a [`Document`].
pub enum DocumentView {
    Object(Seq<MemberView>),
    Other,
    Malformed,
}

impl View for Document {
    type V = DocumentView;

    open spec fn view(&self) -> DocumentView {
        match self {
            Document::Object(members) => DocumentView::Object(members_view(members@)),
            Document::Other => DocumentView::Other,
            Document::Malformed => DocumentView::Malformed,
        }
    }
}

/// What `serde_json::from_slice` makes of a payload, read as a JSON value.
pub uninterp spec fn json_document(payload: Seq<u8>) -> DocumentView;

/// The JSON text that `serde_json::to_vec` writes for an object with the given
/// members, or `None` where it reports an error.
pub uninterp spec fn json_text(members: Seq<MemberView>) -> Option<Seq<u8>>;

/// Whether every member can be written: its value is a string or `null`.
pub open spec fn writable(members: Seq<MemberView>) -> bool {
    forall|i: int| 0 <= i < members.len() ==> !((#[trigger] members[i]).value is Other)
}

/// Reads a payload with `serde_json::from_slice`, as a `serde_json::Value`. Trusted:
/// the result is named by [`json_document`], a function of the payload alone. The
/// members of an object are handed on one for one.
#[verifier::external_body]
fn read_document(payload: &[u8]) -> (doc: Document)
    ensures
        doc@ == json_document(payload@),
{
    match serde_json::from_slice::<serde_json::Value>(payload) {
        Ok(serde_json::Value::Object(map)) => Document::Object(
            map.into_iter().map(|(key, v)| Member { key, value: match v {
                serde_json::Value::Null => Field::Null,
                serde_json::Value::String(s) => Field::Text(s),
                _ => Field::Other,
            } }).collect(),
        ),
        Ok(_) => Document::Other,
        Err(_) => Document::Malformed,
    }
}

/// Writes an object with `serde_json::to_vec`. Trusted: the result is named by
/// [`json_text`], a function of the members alone. The members are put into a
/// `serde_json::Map` in their order.
#[verifier::external_body]
fn write_object(members: &Vec<Member>) -> (text: Option<Vec<u8>>)
    requires
        writable(members_view(members@)),
    ensures
        text is Some == json_text(members_view(members@)) is Some,
        text matches Some(bytes) ==> json_text(members_view(members@)) == Some(bytes@),
{
    let mut map = serde_json::Map::new();
    for m in members.iter() {
        let value = match &m.value {
            Field::Text(s) => serde_json::Value::String(s.clone()),
            _ => serde_json::Value::Null,
        };
        map.insert(m.key.clone(), value);
    }
    serde_json::to_vec(&serde_json::Value::Object(map)).ok()
}

/// A command: the job it belongs to, the operation by name, and the operands that
/// the operation needs.
#[derive(Clone, Debug, PartialEq, Eq)]
pub struct Command {
    pub job_id: u128,
    pub operation: String,
    pub item_id: Option<u128>,
    pub title: Option<String>,
}

/// The mathematical value of a [`Command`].
pub struct CommandView {
    pub job_id: u128,
    pub operation: Seq<char>,
    pub item_id: Option<u128>,
    pub title: Option<Seq<char>>,
}

impl View for Command {
    type V = CommandView;

    open spec fn view(&self) -> CommandView {
        CommandView {
            job_id: self.job_id,
            operation: self.operation@,
            item_id: self.item_id,
            title: match self.title {
                Some(t) => Some(t@),
                None => None,
            },
        }
    }
}

/// Why a payload is no command.
#[derive(Clone, Copy, Debug, PartialEq, Eq, Structural)]
pub enum DecodeError {
    /// The payload is no well-formed JSON.
    Malformed,
    /// The payload is JSON, but no object.
    NotAnObject,
    /// The object has no member `job_id`.
    MissingJobId,
    /// The member `job_id` is no string that spells an identifier.
    InvalidJobId,
    /// The object has no member `operation`.
    MissingOperation,
    /// The member `operation` is no string.
    InvalidOperation,
    /// The member `item_id` is neither `null` nor a string that spells an identifier.
    InvalidItemId,
    /// The member `title` is neither `null` nor a string.
    InvalidTitle,
}

/// The key of the member that names the job.
pub open spec fn key_job_id() -> Seq<char> {
    "job_id"@
}

/// The key of the member that names the operation.
pub open spec fn key_operation() -> Seq<char> {
    "operation"@
}

/// The key of the member that names the item.
pub open spec fn key_item_id() -> Seq<char> {
    "item_id"@
}

/// The key of the member that holds the title.
pub open spec fn key_title() -> Seq<char> {
    "title"@
}

/// The members that a command is written as: `job_id` and `operation` always,
/// `item_id` and `title` only where the command has them, in this order.
pub open spec fn command_members(c: CommandView) -> Seq<MemberView> {
    seq![
        MemberView { key: key_job_id(), value: FieldView::Text(hyphenated(c.job_id)) },
        MemberView { key: key_operation(), value: FieldView::Text(c.operation) },
    ] + (match c.item_id {
        Some(id) => seq![MemberView { key: key_item_id(), value: FieldView::Text(hyphenated(id)) }],
        None => seq![],
    }) + (match c.title {
        Some(t) => seq![MemberView { key: key_title(), value: FieldView::Text(t) }],
        None => seq![],
    })
}

/// The value of the first member with the given key, if there is one.
pub open spec fn lookup(members: Seq<MemberView>, key: Seq<char>) -> Option<FieldView>
    decreases members.len(),
{
    if members.len() == 0 {
        None
    } else if members[0].key == key {
        Some(members[0].value)
    } else {
        lookup(members.subrange(1, members.len() as int), key)
    }
}

/// An optional identifier: absent and `null` mean none, a string must spell one.
pub open spec fn optional_id(field: Option<FieldView>) -> Result<Option<u128>, DecodeError> {
    match field {
        None | Some(FieldView::Null) => Ok(None),
        Some(FieldView::Text(t)) => match parsed_id(t) {
            Some(id) => Ok(Some(id)),
            None => Err(DecodeError::InvalidItemId),
        },
        Some(FieldView::Other) => Err(DecodeError::InvalidItemId),
    }
}

/// An optional title: absent and `null` mean none, anything else must be a string.
pub open spec fn optional_title(field: Option<FieldView>) -> Result<Option<Seq<char>>, DecodeError> {
    match field {
        None | Some(FieldView::Null) => Ok(None),
        Some(FieldView::Text(t)) => Ok(Some(t)),
        Some(FieldView::Other) => Err(DecodeError::InvalidTitle),
    }
}

/// The command that the members of an object make. The members are examined in the
/// order `job_id`, `operation`, `item_id`, `title`, and the first that is wrong
/// decides the error. Members with other keys are passed over.
pub open spec fn members_command(members: Seq<MemberView>) -> Result<CommandView, DecodeError> {
    match lookup(members, key_job_id()) {
        None => Err(DecodeError::MissingJobId),
        Some(FieldView::Text(j)) => match parsed_id(j) {
            None => Err(DecodeError::InvalidJobId),
            Some(job_id) => match lookup(members, key_operation()) {
                None => Err(DecodeError::MissingOperation),
                Some(FieldView::Text(operation)) => match optional_id(
                    lookup(members, key_item_id()),
                ) {
                    Err(e) => Err(e),
                    Ok(item_id) => match optional_title(lookup(members, key_title())) {
                        Err(e) => Err(e),
                        Ok(title) => Ok(CommandView { job_id, operation, item_id, title }),
                    },
                },
                Some(_) => Err(DecodeError::InvalidOperation),
            },
        },
        Some(_) => Err(DecodeError::InvalidJobId),
    }
}

/// The command that a payload carries.
pub open spec fn decoded(payload: Seq<u8>) -> Result<CommandView, DecodeError> {
    match json_document(payload) {
        DocumentView::Malformed => Err(DecodeError::Malformed),
        DocumentView::Other => Err(DecodeError::NotAnObject),
        DocumentView::Object(members) => members_command(members),
    }
}

/// The payload that a command is sent as, or `None` where it cannot be written.
pub open spec fn encoded(c: CommandView) -> Option<Seq<u8>> {
    json_text(command_members(c))
}

/// Whether a decoding result stands for the given mathematical result.
pub open spec fn decodes_to(r: Result<Command, DecodeError>, v: Result<CommandView, DecodeError>) -> bool {
    match r {
        Ok(c) => v == Ok::<CommandView, DecodeError>(c@),
        Err(e) => v == Err::<CommandView, DecodeError>(e),
    }
}

/// The four keys are pairwise different.
pub proof fn lemma_keys_differ()
    ensures
        key_job_id() != key_operation(),
        key_job_id() != key_item_id(),
        key_job_id() != key_title(),
        key_operation() != key_item_id(),
        key_operation() != key_title(),
        key_item_id() != key_title(),
{
    reveal_strlit("job_id");
    reveal_strlit("operation");
    reveal_strlit("item_id");
    reveal_strlit("title");
    assert(key_job_id().len() == 6);
    assert(key_operation().len() == 9);
    assert(key_item_id().len() == 7);
    assert(key_title().len() == 5);
}

/// Writing a command as members and reading the members back gives the command,
/// optional operands that are absent staying absent, provided that the identifiers
/// in it read back from their canonical spelling.
pub proof fn lemma_members_round_trip(c: CommandView)
    requires
        reads_back(c.job_id),
        c.item_id matches Some(id) ==> reads_back(id),
    ensures
        members_command(command_members(c)) == Ok::<CommandView, DecodeError>(c),
{
    lemma_keys_differ();
    let ms = command_members(c);
    reveal_with_fuel(lookup, 5);
    let t1 = ms.subrange(1, ms.len() as int);
    let t2 = t1.subrange(1, t1.len() as int);
    let t3 = t2.subrange(1, t2.len() as int);
    assert(ms[0].key == key_job_id());
    assert(ms[1].key == key_operation());
    assert(t1[0] == ms[1]);
    if c.item_id is Some {
        assert(ms[2].key == key_item_id());
        assert(t2[0] == ms[2]);
        if c.title is Some {
            assert(ms[3].key == key_title());
            assert(t3[0] == ms[3]);
        }
    } else {
        if c.title is Some {
            assert(ms[2].key == key_title());
            assert(t2[0] == ms[2]);
        }
    }
}

/// Dropping the first `i` members and then one more drops the first `i + 1`.
proof fn lemma_lookup_step(members: Seq<MemberView>, key: Seq<char>, i: int)
    requires
        0 <= i < members.len(),
    ensures
        lookup(members.subrange(i, members.len() as int), key) == (if members[i].key == key {
            Some(members[i].value)
        } else {
            lookup(members.subrange(i + 1, members.len() as int), key)
        }),
{
    let rest = members.subrange(i, members.len() as int);
    assert(rest[0] == members[i]);
    assert(rest.subrange(1, rest.len() as int) =~= members.subrange(i + 1, members.len() as int));
}

/// Pushing a member onto a vector pushes its value onto the vector's value.
proof fn lemma_view_push(members: Seq<Member>, m: Member)
    ensures
        members_view(members.push(m)) == members_view(members).push(m@),
{
    assert(members_view(members.push(m)) =~= members_view(members).push(m@));
}

/// The value of the first member with the given key.
fn find<'a>(members: &'a Vec<Member>, key: &str) -> (r: Option<&'a Field>)
    ensures
        match r {
            Some(f) => lookup(members_view(members@), key@) == Some(f@),
            None => lookup(members_view(members@), key@) is None,
        },
{
    let wanted = String::from_str(key);
    let ghost all = members_view(members@);
    let mut i: usize = 0;
    assert(all.subrange(0, all.len() as int) =~= all);
    while i < members.len()
        invariant
            i <= members.len(),
            wanted@ == key@,
            all == members_view(members@),
            lookup(all, key@) == lookup(all.subrange(i as int, all.len() as int), key@),
        decreases members.len() - i,
    {
        proof {
            lemma_lookup_step(all, key@, i as int);
        }
        if members[i].key == wanted {
            return Some(&members[i].value);
        }
        i += 1;
    }
    None
}

impl Command {
    /// The members that this command is written as. Reading them back gives the
    /// command again: every operand as it was, and an absent operand absent.
    pub fn to_members(&self) -> (r: Vec<Member>)
        ensures
            members_view(r@) == command_members(self@),
            writable(members_view(r@)),
            members_command(members_view(r@)) == Ok::<CommandView, DecodeError>(self@),
    {
        let mut members: Vec<Member> = Vec::new();
        assert(members_view(members@) =~= Seq::<MemberView>::empty());
        let job = Member { key: String::from_str("job_id"), value: Field::Text(id_text(self.job_id)) };
        proof {
            lemma_view_push(members@, job);
        }
        members.push(job);
        let operation = Member {
            key: String::from_str("operation"),
            value: Field::Text(self.operation.clone()),
        };
        proof {
            lemma_view_push(members@, operation);
        }
        members.push(operation);
        match self.item_id {
            Some(id) => {
                let item = Member { key: String::from_str("item_id"), value: Field::Text(id_text(id)) };
                proof {
                    lemma_view_push(members@, item);
                }
                members.push(item);
            },
            None => {},
        }
        match &self.title {
            Some(t) => {
                let title = Member { key: String::from_str("title"), value: Field::Text(t.clone()) };
                proof {
                    lemma_view_push(members@, title);
                }
                members.push(title);
            },
            None => {},
        }
        proof {
            assert(members_view(members@) =~= command_members(self@));
            lemma_members_round_trip(self@);
        }
        members
    }

    /// The payload that this command is sent as: the JSON text of its members.
    /// `None` where the text could not be written.
    pub fn encode(&self) -> (r: Option<Vec<u8>>)
        ensures
            r is Some == encoded(self@) is Some,
            r matches Some(bytes) ==> encoded(self@) == Some(bytes@),
    {
        let members = self.to_members();
        write_object(&members)
    }
}

/// Reads an optional identifier from the member found under `item_id`.
fn item_id_of(field: Option<&Field>) -> (r: Result<Option<u128>, DecodeError>)
    ensures
        r == optional_id(
            match field {
                Some(f) => Some(f@),
                None => None,
            },
        ),
{
    match field {
        None => Ok(None),
        Some(Field::Null) => Ok(None),
        Some(Field::Text(t)) => match parse_id(t.as_str()) {
            Some(id) => Ok(Some(id)),
            None => Err(DecodeError::InvalidItemId),
        },
        Some(Field::Other) => Err(DecodeError::InvalidItemId),
    }
}

/// Makes a command of the members of an object, or says which member is wrong.
pub fn command_from_members(members: &Vec<Member>) -> (r: Result<Command, DecodeError>)
    ensures
        decodes_to(r, members_command(members_view(members@))),
{
    let job_id: u128 = match find(members, "job_id") {
        None => {
            return Err(DecodeError::MissingJobId);
        },
        Some(Field::Text(t)) => match parse_id(t.as_str()) {
            Some(id) => id,
            None => {
                return Err(DecodeError::InvalidJobId);
            },
        },
        Some(_) => {
            return Err(DecodeError::InvalidJobId);
        },
    };
    let operation: String = match find(members, "operation") {
        None => {
            return Err(DecodeError::MissingOperation);
        },
        Some(Field::Text(t)) => t.clone(),
        Some(_) => {
            return Err(DecodeError::InvalidOperation);
        },
    };
    let item_id: Option<u128> = match item_id_of(find(members, "item_id")) {
        Ok(id) => id,
        Err(e) => {
            return Err(e);
        },
    };
    let title: Option<String> = match find(members, "title") {
        None => None,
        Some(Field::Null) => None,
        Some(Field::Text(t)) => Some(t.clone()),
        Some(Field::Other) => {
            return Err(DecodeError::InvalidTitle);
        },
    };
    Ok(Command { job_id, operation, item_id, title })
}

/// Reads a payload as a command, or says why it is none.
pub fn decode(payload: &[u8]) -> (r: Result<Command, DecodeError>)
    ensures
        decodes_to(r, decoded(payload@)),
{
    match read_document(payload) {
        Document::Malformed => Err(DecodeError::Malformed),
        Document::Other => Err(DecodeError::NotAnObject),
        Document::Object(members) => command_from_members(&members),
    }
}

} // verus!
