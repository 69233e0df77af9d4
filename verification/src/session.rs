//! Sessions: a conversation as JSON that the host keeps.
//!
//! A session is the object `{"v": 1, "history": [{"role": .., "text": ..}, ..]}`.

use std::sync::Arc;

use vstd::prelude::*;

use crate::events::{messages_to_values, messages_view, number_view};
use crate::json::{
    contents_seq, json_array, json_as_array, json_as_i64, json_as_str, json_contents, json_field,
    json_get, json_i64, json_object, json_plain, json_set, json_text, json_text_field,
    json_to_string, json_u64, reads_as, JsonView,
};
use crate::messages::{
    content_texts, entry_view, message_role, message_text, message_view, now, AgentMessage,
    AssistantMessage, AssistantMessageKind, ContentBlock, Timestamp, UserMessage,
};
use crate::text::{enclosed, same_text};

verus! {

/// Who speaks in a message that a session can restore.
#[derive(Clone, Copy, PartialEq, Eq, Structural)]
pub enum Role {
    User,
    Assistant,
}

/// A message of a session.
pub struct SessionEntry {
    pub role: Role,
    pub text: String,
}

/// A message of a session, as plain values.
pub struct EntryView {
    pub role: Role,
    pub text: Seq<char>,
}

impl View for SessionEntry {
    type V = EntryView;

    open spec fn view(&self) -> EntryView {
        EntryView { role: self.role, text: self.text@ }
    }
}

/// The object that a history is kept as.
pub open spec fn session_view(history: Seq<Arc<AgentMessage>>) -> JsonView {
    JsonView::Object(
        map!["v"@ => number_view(1), "history"@ => JsonView::Array(messages_view(history))],
    )
}

/// The name of a role.
pub open spec fn role_name(role: Role) -> Seq<char> {
    match role {
        Role::User => "user"@,
        Role::Assistant => "assistant"@,
    }
}

/// A list of entries, each as an object.
pub open spec fn entries_view(entries: Seq<EntryView>) -> Seq<JsonView> {
    Seq::new(entries.len(), |i: int| entry_view(role_name(entries[i].role), entries[i].text))
}

/// The session that holds these entries.
pub open spec fn session_of(entries: Seq<EntryView>) -> JsonView {
    JsonView::Object(
        map!["v"@ => number_view(1), "history"@ => JsonView::Array(entries_view(entries))],
    )
}

/// The role that an entry names.
pub open spec fn entry_role(entry: JsonView) -> Seq<char> {
    match json_text_field(entry, "role"@) {
        Some(role) => role,
        None => "unknown"@,
    }
}

/// The text that an entry holds.
pub open spec fn entry_text(entry: JsonView) -> Seq<char> {
    match json_text_field(entry, "text"@) {
        Some(text) => text,
        None => Seq::empty(),
    }
}

/// The message that an entry stands for, or why it stands for none.
pub open spec fn read_entry(entry: JsonView) -> Result<EntryView, Seq<char>> {
    if entry_role(entry) == "user"@ {
        Ok(EntryView { role: Role::User, text: entry_text(entry) })
    } else if entry_role(entry) == "assistant"@ {
        Ok(EntryView { role: Role::Assistant, text: entry_text(entry) })
    } else {
        Err("session entry role '"@ + entry_role(entry) + "' is not importable (run-internal)"@)
    }
}

/// The messages that entries stand for, or what the first that stands for none is refused
/// with.
pub open spec fn read_entries(entries: Seq<JsonView>) -> Result<Seq<EntryView>, Seq<char>>
    decreases entries.len(),
{
    if entries.len() == 0 {
        Ok(Seq::empty())
    } else {
        match read_entries(entries.drop_last()) {
            Ok(before) => match read_entry(entries.last()) {
                Ok(entry) => Ok(before.push(entry)),
                Err(reason) => Err(reason),
            },
            Err(reason) => Err(reason),
        }
    }
}

/// The messages of a session, or why it is refused.
pub open spec fn read_session(session: JsonView) -> Result<Seq<EntryView>, Seq<char>> {
    if (match json_field(session, "v"@) {
        Some(version) => json_i64(version),
        None => None,
    }) != Some(1int) {
        Err("unsupported session version (expected 1)"@)
    } else {
        match json_field(session, "history"@) {
            Some(JsonView::Array(entries)) => read_entries(entries),
            _ => Err("session json missing history array"@),
        }
    }
}

/// The messages of a session that was read out of a text, or why it is refused.
pub open spec fn read_session_text(parsed: Result<JsonView, Seq<char>>) -> Result<
    Seq<EntryView>,
    Seq<char>,
> {
    match parsed {
        Ok(session) => read_session(session),
        Err(reason) => Err("invalid session json: "@ + reason),
    }
}

/// Whether content is one text.
pub open spec fn is_text(content: Seq<ContentBlock>, text: Seq<char>) -> bool {
    &&& content.len() == 1
    &&& content[0] matches ContentBlock::Text { text: found } && found@ == text
}

/// Whether `message` is the message that `entry` stands for: made here, of that role, with
/// one block of that text.
pub open spec fn is_restored(message: AgentMessage, entry: EntryView) -> bool {
    match entry.role {
        Role::User => {
            &&& message matches AgentMessage::User(m)
            &&& is_text(m.content@, entry.text)
            &&& m.origin is None
        },
        Role::Assistant => {
            &&& message matches AgentMessage::Assistant(m)
            &&& m.kind == AssistantMessageKind::FinalAnswer
            &&& m.message_id@ == Seq::<char>::empty()
            &&& m.turn_id@ == Seq::<char>::empty()
            &&& is_text(m.content@, entry.text)
            &&& m.text@ == entry.text
            &&& m.usage is None
            &&& m.origin is None
        },
    }
}

/// Whether a history holds the messages that entries stand for, one by one.
pub open spec fn is_history_of(
    history: Seq<Arc<AgentMessage>>,
    entries: Seq<EntryView>,
) -> bool {
    &&& history.len() == entries.len()
    &&& forall|i: int| 0 <= i < entries.len() ==> is_restored(*#[trigger] history[i], entries[i])
}

/// Whether a session can restore every message of a history.
pub open spec fn is_restorable(history: Seq<Arc<AgentMessage>>) -> bool {
    forall|i: int|
        0 <= i < history.len() ==> (*#[trigger] history[i] is User || *history[i] is Assistant)
}

/// The entries of a history that a session can restore.
pub open spec fn entries_of(history: Seq<Arc<AgentMessage>>) -> Seq<EntryView> {
    Seq::new(
        history.len(),
        |i: int|
            EntryView {
                role: if *history[i] is User {
                    Role::User
                } else {
                    Role::Assistant
                },
                text: message_text(*history[i]),
            },
    )
}

/// The value of the field `key` that holds a text.
fn text_field<'a>(value: &'a serde_json::Value, key: &str) -> (text: Option<&'a str>)
    ensures
        match text {
            Some(found) => json_text_field(json_contents(*value), key@) == Some(found@),
            None => json_text_field(json_contents(*value), key@) is None,
        },
{
    match json_get(value, key) {
        Some(field) => json_as_str(field),
        None => None,
    }
}

/// Reads one entry of a session.
fn decode_entry(value: &serde_json::Value) -> (entry: Result<SessionEntry, String>)
    ensures
        match entry {
            Ok(entry) => read_entry(json_contents(*value)) matches Ok(read) && read == entry@,
            Err(message) => read_entry(json_contents(*value)) matches Err(reason) && reason
                == message@,
        },
{
    let role: &str = match text_field(value, "role") {
        Some(role) => role,
        None => "unknown",
    };
    let text: String = match text_field(value, "text") {
        Some(text) => text.to_owned(),
        None => String::new(),
    };
    if same_text(role, "user") {
        Ok(SessionEntry { role: Role::User, text })
    } else if same_text(role, "assistant") {
        Ok(SessionEntry { role: Role::Assistant, text })
    } else {
        Err(enclosed("session entry role '", role, "' is not importable (run-internal)"))
    }
}

/// The entries of a session, as plain values.
pub open spec fn entry_views(entries: Seq<SessionEntry>) -> Seq<EntryView> {
    Seq::new(entries.len(), |i: int| entries[i]@)
}

/// A session that is refused within its first entries is refused for the same reason.
pub proof fn first_refusal_stays(entries: Seq<JsonView>, shorter: int)
    requires
        0 <= shorter <= entries.len(),
        read_entries(entries.take(shorter)) is Err,
    ensures
        read_entries(entries) == read_entries(entries.take(shorter)),
    decreases entries.len() - shorter,
{
    if shorter == entries.len() {
        assert(entries.take(shorter) =~= entries);
    } else {
        assert(entries.take(shorter + 1).drop_last() =~= entries.take(shorter));
        first_refusal_stays(entries, shorter + 1);
    }
}

/// Reads the messages of a session out of the value that it was parsed to.
pub fn decode_session(session: &serde_json::Value) -> (entries: Result<Vec<SessionEntry>, String>)
    ensures
        match entries {
            Ok(entries) => read_session(json_contents(*session)) matches Ok(read) && read
                == entry_views(entries@),
            Err(message) => read_session(json_contents(*session)) matches Err(reason) && reason
                == message@,
        },
{
    let version: Option<i64> = match json_get(session, "v") {
        Some(version) => json_as_i64(version),
        None => None,
    };
    let supported: bool = match version {
        Some(version) => version == 1,
        None => false,
    };
    if !supported {
        return Err("unsupported session version (expected 1)".to_owned());
    }
    let items: &Vec<serde_json::Value> = match json_get(session, "history") {
        Some(history) => match json_as_array(history) {
            Some(items) => items,
            None => {
                return Err("session json missing history array".to_owned());
            },
        },
        None => {
            return Err("session json missing history array".to_owned());
        },
    };
    let ghost views = contents_seq(items@);
    let mut entries: Vec<SessionEntry> = Vec::new();
    let mut i: usize = 0;
    assert(views.take(0) =~= Seq::empty());
    assert(entry_views(entries@) =~= Seq::empty());
    while i < items.len()
        invariant
            i <= items@.len(),
            views == contents_seq(items@),
            read_session(json_contents(*session)) == read_entries(views),
            read_entries(views.take(i as int)) == Ok::<Seq<EntryView>, Seq<char>>(
                entry_views(entries@),
            ),
        decreases items@.len() - i,
    {
        let ghost before = entry_views(entries@);
        proof {
            assert(views.take(i + 1).drop_last() =~= views.take(i as int));
            assert(views.take(i + 1).last() == json_contents(items@[i as int]));
        }
        match decode_entry(&items[i]) {
            Ok(entry) => {
                entries.push(entry);
                assert(entry_views(entries@) =~= before.push(entry@));
            },
            Err(message) => {
                proof {
                    first_refusal_stays(views, i + 1);
                }
                return Err(message);
            },
        }
        i += 1;
    }
    assert(views.take(i as int) =~= views);
    Ok(entries)
}

/// Makes the message that an entry stands for.
pub fn restore_entry(entry: &SessionEntry, timestamp: Timestamp) -> (message: AgentMessage)
    ensures
        is_restored(message, entry@),
        match message {
            AgentMessage::User(m) => m.timestamp == timestamp,
            AgentMessage::Assistant(m) => m.timestamp == timestamp,
            _ => false,
        },
{
    let mut content: Vec<ContentBlock> = Vec::new();
    content.push(ContentBlock::Text { text: entry.text.clone() });
    match entry.role {
        Role::User => AgentMessage::User(UserMessage { content, timestamp, origin: None }),
        Role::Assistant => AgentMessage::Assistant(
            AssistantMessage {
                kind: AssistantMessageKind::FinalAnswer,
                message_id: String::new(),
                turn_id: String::new(),
                content,
                text: entry.text.clone(),
                timestamp,
                usage: None,
                origin: None,
            },
        ),
    }
}

/// Makes the messages that entries stand for, each with the moment at which it is made.
pub fn restore_entries(entries: &Vec<SessionEntry>) -> (history: Vec<Arc<AgentMessage>>)
    ensures
        is_history_of(history@, entry_views(entries@)),
{
    let mut history: Vec<Arc<AgentMessage>> = Vec::new();
    let mut i: usize = 0;
    while i < entries.len()
        invariant
            i <= entries@.len(),
            history@.len() == i,
            forall|j: int|
                0 <= j < i ==> is_restored(*#[trigger] history@[j], entries@[j]@),
        decreases entries@.len() - i,
    {
        history.push(Arc::new(restore_entry(&entries[i], now())));
        i += 1;
    }
    history
}

/// Writes a history as a session.
pub fn write_session(history: &Vec<Arc<AgentMessage>>) -> (text: String)
    ensures
        text@ == json_text(session_view(history@)),
        reads_as(text@, session_view(history@)),
{
    let mut session = json_object();
    json_set(&mut session, "v", json_u64(1));
    json_set(&mut session, "history", json_array(messages_to_values(history)));
    proof {
        session_is_plain(history@);
    }
    json_to_string(&session)
}

/// A session nests three levels, and its one number is an integer.
proof fn session_is_plain(history: Seq<Arc<AgentMessage>>)
    ensures
        json_plain(session_view(history), 127),
{
    let entries = messages_view(history);
    assert forall|i: int| 0 <= i < entries.len() implies json_plain(#[trigger] entries[i], 125) by {
        assert(entries[i] == message_view(*history[i]));
        assert forall|key: Seq<char>| #[trigger]
            entries[i]->Object_0.contains_key(key) implies json_plain(
            entries[i]->Object_0[key],
            124,
        ) by {
            reveal_with_fuel(json_plain, 2);
        }
    }
    assert(json_plain(JsonView::Array(entries), 126));
    let fields = session_view(history)->Object_0;
    assert forall|key: Seq<char>| #[trigger] fields.contains_key(key) implies json_plain(
        fields[key],
        126,
    ) by {
        if key != "history"@ {
            assert(fields[key] == number_view(1));
        }
    }
}

/// What one entry of a session is read as.
proof fn message_entry_is_read(message: Arc<AgentMessage>)
    ensures
        entry_role(message_view(*message)) == message_role(*message),
        entry_text(message_view(*message)) == message_text(*message),
        *message is User ==> message_role(*message) == "user"@,
        *message is Assistant ==> message_role(*message) == "assistant"@ && message_role(*message)
            != "user"@,
        !(*message is User) && !(*message is Assistant) ==> message_role(*message) != "user"@
            && message_role(*message) != "assistant"@,
{
    reveal_strlit("role");
    reveal_strlit("text");
    reveal_strlit("user");
    reveal_strlit("assistant");
    reveal_strlit("tool_result");
    reveal_strlit("branch_summary");
    reveal_strlit("compaction_summary");
    reveal_strlit("custom");
    reveal_strlit("unknown");
    assert("role"@[0] != "text"@[0]);
    assert("assistant"@.len() == 9);
    assert("user"@.len() == 4);
    assert("tool_result"@.len() == 11);
    assert("branch_summary"@.len() == 14);
    assert("compaction_summary"@.len() == 18);
    assert("custom"@.len() == 6);
    assert("unknown"@.len() == 7);
}

/// The first messages of a history are read back as their entries, as long as a session can
/// restore them.
proof fn entries_are_read(history: Seq<Arc<AgentMessage>>, count: int)
    requires
        0 <= count <= history.len(),
        is_restorable(history.take(count)),
    ensures
        read_entries(messages_view(history).take(count)) == Ok::<Seq<EntryView>, Seq<char>>(
            entries_of(history.take(count)),
        ),
    decreases count,
{
    let views = messages_view(history);
    if count == 0 {
        assert(entries_of(history.take(0)) =~= Seq::empty());
    } else {
        let last = history[count - 1];
        assert(history.take(count)[count - 1] == history[count - 1]);
        assert forall|i: int| 0 <= i < count - 1 implies (*#[trigger] history.take(count - 1)[i]
            is User || *history.take(count - 1)[i] is Assistant) by {
            assert(history.take(count)[i] == history.take(count - 1)[i]);
        }
        entries_are_read(history, count - 1);
        assert(views.take(count).drop_last() =~= views.take(count - 1));
        assert(views.take(count).last() == message_view(*last));
        message_entry_is_read(last);
        assert(entries_of(history.take(count)) =~= entries_of(history.take(count - 1)).push(
            EntryView {
                role: if *last is User {
                    Role::User
                } else {
                    Role::Assistant
                },
                text: message_text(*last),
            },
        ));
    }
}

/// The version and the history of a session are found under their names.
proof fn session_is_taken_apart(history: Seq<Arc<AgentMessage>>)
    ensures
        read_session(session_view(history)) == read_entries(messages_view(history)),
{
    reveal_strlit("v");
    reveal_strlit("history");
    assert("v"@.len() != "history"@.len());
}

/// A history of what the user and the assistant said is read back out of the session that it
/// is written as, and the history that is made from it is written as the same session.
pub proof fn session_round_trip(
    history: Seq<Arc<AgentMessage>>,
    restored: Seq<Arc<AgentMessage>>,
)
    requires
        is_restorable(history),
    ensures
        read_session(session_view(history)) == Ok::<Seq<EntryView>, Seq<char>>(
            entries_of(history),
        ),
        is_history_of(restored, entries_of(history)) ==> entries_of(restored) == entries_of(history)
            && session_view(restored) == session_view(history),
{
    assert(history.take(history.len() as int) =~= history);
    assert(messages_view(history).take(history.len() as int) =~= messages_view(history));
    entries_are_read(history, history.len() as int);
    session_is_taken_apart(history);
    if is_history_of(restored, entries_of(history)) {
        assert forall|i: int| 0 <= i < restored.len() implies #[trigger] messages_view(restored)[i]
            == messages_view(history)[i] by {
            let entry = entries_of(history)[i];
            assert(is_restored(*restored[i], entry));
            if let AgentMessage::User(m) = *restored[i] {
                reveal_with_fuel(content_texts, 2);
                assert(m.content@.drop_last() =~= Seq::empty());
                assert(content_texts(m.content@) =~= seq![entry.text]);
            }
            message_entry_is_read(history[i]);
            message_entry_is_read(restored[i]);
        }
        assert(messages_view(restored) =~= messages_view(history));
        assert forall|i: int| 0 <= i < restored.len() implies #[trigger] entries_of(restored)[i]
            == entries_of(history)[i] by {
            assert(is_restored(*restored[i], entries_of(history)[i]));
            assert(messages_view(restored)[i] == messages_view(history)[i]);
            message_entry_is_read(history[i]);
            message_entry_is_read(restored[i]);
        }
        assert(entries_of(restored) =~= entries_of(history));
    }
}

/// The message that an entry stands for has the role and the text of the entry.
proof fn restored_message_says_the_same(message: Arc<AgentMessage>, entry: EntryView)
    requires
        is_restored(*message, entry),
    ensures
        message_role(*message) == role_name(entry.role),
        message_text(*message) == entry.text,
{
    if let AgentMessage::User(m) = *message {
        reveal_with_fuel(content_texts, 2);
        assert(m.content@.drop_last() =~= Seq::empty());
        assert(content_texts(m.content@) =~= seq![entry.text]);
    }
}

/// A history of the messages that entries stand for is written as the session that holds the
/// entries, which is read back as them.
pub proof fn restored_entries_are_written(
    history: Seq<Arc<AgentMessage>>,
    entries: Seq<EntryView>,
)
    requires
        is_history_of(history, entries),
    ensures
        session_view(history) == session_of(entries),
        read_session(session_of(entries)) == Ok::<Seq<EntryView>, Seq<char>>(entries),
{
    assert forall|i: int| 0 <= i < entries.len() implies #[trigger] messages_view(history)[i]
        == entries_view(entries)[i] by {
        assert(is_restored(*history[i], entries[i]));
        restored_message_says_the_same(history[i], entries[i]);
    }
    assert(messages_view(history) =~= entries_view(entries));
    assert forall|i: int| 0 <= i < history.len() implies (*#[trigger] history[i] is User
        || *history[i] is Assistant) by {
        assert(is_restored(*history[i], entries[i]));
    }
    session_round_trip(history, history);
    assert forall|i: int| 0 <= i < entries.len() implies #[trigger] entries_of(history)[i]
        == entries[i] by {
        assert(is_restored(*history[i], entries[i]));
        restored_message_says_the_same(history[i], entries[i]);
    }
    assert(entries_of(history) =~= entries);
}

/// The session of a history with any other message in it is refused, with the role of the
/// first such message.
pub proof fn session_with_other_message_is_refused(history: Seq<Arc<AgentMessage>>, first: int)
    requires
        0 <= first < history.len(),
        is_restorable(history.take(first)),
        !(*history[first] is User),
        !(*history[first] is Assistant),
    ensures
        read_session(session_view(history)) == Err::<Seq<EntryView>, Seq<char>>(
            "session entry role '"@ + message_role(*history[first])
                + "' is not importable (run-internal)"@,
        ),
{
    let views = messages_view(history);
    entries_are_read(history, first);
    session_is_taken_apart(history);
    message_entry_is_read(history[first]);
    assert(views.take(first + 1).drop_last() =~= views.take(first));
    assert(views.take(first + 1).last() == message_view(*history[first]));
    first_refusal_stays(views, first + 1);
}

} // verus!
