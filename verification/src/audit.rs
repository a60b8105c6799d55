//! The audit trail: what is recorded of sensitive actions.
use vstd::prelude::*;
use vstd::string::*;
use crate::clock::unix_millis;
use crate::error::{GhostHandError, Result};
use crate::json::{
    empty_object, json_bool, json_copy, json_error_text, json_i64, json_list, json_object,
    json_parsed, json_render, json_rendered, json_text, json_u64, json_view, json_with,
    lemma_empty_object_plain, lemma_with_member_plain, plain_tree, views_of,
    with_member, JsonTree, MAX_JSON_DEPTH,
};
use crate::text::{concat, decimal, decimal_string};

verus! {

/// How much an audited event matters.
#[derive(Debug, Clone, Copy, PartialEq, Eq, Structural)]
pub enum AuditLevel {
    Info,
    Warning,
    Error,
    /// Events critical to security
    Security,
}

/// The events that are audited.
#[derive(Debug)]
#[allow(inconsistent_fields)]
pub enum AuditEvent {
    /// A connection with a peer was established
    ConnectionEstablished { peer_id: String, direction: String, password_used: Option<bool> },
    /// A connection ended
    ConnectionClosed { peer_id: String, reason: String },
    /// A connection request came in
    ConnectionRequestReceived { from: String, password_required: Option<bool> },
    /// A connection request was accepted
    ConnectionRequestAccepted { peer_id: String },
    /// A connection request was refused
    ConnectionRequestRejected { peer_id: String, reason: String },
    /// The peer acted on the mouse
    MouseControl { peer_id: String, action: String, position: Option<(i32, i32)> },
    /// The peer acted on the keyboard; the keys themselves are not recorded
    KeyboardControl { peer_id: String, action: String },
    /// A breach of a security rule was detected
    SecurityError { error_code: String, description: String, peer_id: Option<String> },
    /// Something suspicious was noticed
    SuspiciousActivity { description: String, peer_id: Option<String> },
    /// A setting changed
    ConfigurationChange { setting: String, old_value: String, new_value: String },
    /// Streaming started or stopped
    StreamingStateChange { peer_id: String, state: String },
}

/// The name under which the level is written.
pub open spec fn level_name(level: AuditLevel) -> Seq<char> {
    match level {
        AuditLevel::Info => "INFO"@,
        AuditLevel::Warning => "WARNING"@,
        AuditLevel::Error => "ERROR"@,
        AuditLevel::Security => "SECURITY"@,
    }
}

impl AuditLevel {
    /// The name under which the level is written.
    pub fn name(&self) -> (name: &'static str)
        ensures
            name@ == level_name(*self),
    {
        match self {
            AuditLevel::Info => "INFO",
            AuditLevel::Warning => "WARNING",
            AuditLevel::Error => "ERROR",
            AuditLevel::Security => "SECURITY",
        }
    }
}

/// The name under which the kind of an event is written.
pub open spec fn event_type_name(event: AuditEvent) -> Seq<char> {
    match event {
        AuditEvent::ConnectionEstablished { .. } => "connection_established"@,
        AuditEvent::ConnectionClosed { .. } => "connection_closed"@,
        AuditEvent::ConnectionRequestReceived { .. } => "connection_request_received"@,
        AuditEvent::ConnectionRequestAccepted { .. } => "connection_request_accepted"@,
        AuditEvent::ConnectionRequestRejected { .. } => "connection_request_rejected"@,
        AuditEvent::MouseControl { .. } => "mouse_control"@,
        AuditEvent::KeyboardControl { .. } => "keyboard_control"@,
        AuditEvent::SecurityError { .. } => "security_error"@,
        AuditEvent::SuspiciousActivity { .. } => "suspicious_activity"@,
        AuditEvent::ConfigurationChange { .. } => "configuration_change"@,
        AuditEvent::StreamingStateChange { .. } => "streaming_state_change"@,
    }
}

impl AuditEvent {
    /// The name under which the kind of the event is written.
    pub fn event_type(&self) -> (name: &'static str)
        ensures
            name@ == event_type_name(*self),
    {
        match self {
            AuditEvent::ConnectionEstablished { .. } => "connection_established",
            AuditEvent::ConnectionClosed { .. } => "connection_closed",
            AuditEvent::ConnectionRequestReceived { .. } => "connection_request_received",
            AuditEvent::ConnectionRequestAccepted { .. } => "connection_request_accepted",
            AuditEvent::ConnectionRequestRejected { .. } => "connection_request_rejected",
            AuditEvent::MouseControl { .. } => "mouse_control",
            AuditEvent::KeyboardControl { .. } => "keyboard_control",
            AuditEvent::SecurityError { .. } => "security_error",
            AuditEvent::SuspiciousActivity { .. } => "suspicious_activity",
            AuditEvent::ConfigurationChange { .. } => "configuration_change",
            AuditEvent::StreamingStateChange { .. } => "streaming_state_change",
        }
    }
}


/// Bytes a log file may hold, where no other size is asked for: 10 MiB.
pub const DEFAULT_MAX_LOG_BYTES: u64 = 10485760;

/// One entry of the audit trail.
#[derive(Debug)]
pub struct AuditEntry {
    /// When it happened, in milliseconds since the epoch
    pub timestamp: u64,
    /// How much it matters
    pub level: AuditLevel,
    /// The local identity
    pub device_id: String,
    /// What happened
    pub event: AuditEvent,
    /// More about it, if anything
    pub metadata: Option<serde_json::Value>,
}

/// The audit logger: where the trail is kept, for which identity, and how
/// large a file of it may grow.
#[derive(Debug)]
pub struct AuditLogger {
    log_dir: String,
    log_path: String,
    device_id: String,
    max_size_bytes: u64,
}

/// What is to be written for an entry: the line to append to the log file
/// and, where the file has grown too large, the name under which it is to be
/// put aside first.
#[derive(Debug)]
pub struct LogWrite {
    pub line: String,
    pub rotate_to: Option<String>,
}

/// The tree with `key` bound to the text, where there is one.
pub open spec fn with_optional_text(tree: JsonTree, key: Seq<char>, text: Option<String>)
    -> JsonTree {
    match text {
        Some(value) => with_member(tree, key, JsonTree::Text(value@)),
        None => tree,
    }
}

/// The tree with `key` bound to the truth value, where there is one.
pub open spec fn with_optional_bool(tree: JsonTree, key: Seq<char>, value: Option<bool>)
    -> JsonTree {
    match value {
        Some(b) => with_member(tree, key, JsonTree::Bool(b)),
        None => tree,
    }
}

/// The tree with the fields of the event, each under its name; a field that
/// is not there is left out.
pub open spec fn with_event(tree: JsonTree, event: AuditEvent) -> JsonTree {
    let tagged = with_member(tree, "event_type"@, JsonTree::Text(event_type_name(event)));
    match event {
        AuditEvent::ConnectionEstablished { peer_id, direction, password_used } =>
            with_optional_bool(
            with_member(
                with_member(tagged, "peer_id"@, JsonTree::Text(peer_id@)),
                "direction"@,
                JsonTree::Text(direction@),
            ),
            "password_used"@,
            password_used,
        ),
        AuditEvent::ConnectionClosed { peer_id, reason } => with_member(
            with_member(tagged, "peer_id"@, JsonTree::Text(peer_id@)),
            "reason"@,
            JsonTree::Text(reason@),
        ),
        AuditEvent::ConnectionRequestReceived { from, password_required } => with_optional_bool(
            with_member(tagged, "from"@, JsonTree::Text(from@)),
            "password_required"@,
            password_required,
        ),
        AuditEvent::ConnectionRequestAccepted { peer_id } => with_member(
            tagged,
            "peer_id"@,
            JsonTree::Text(peer_id@),
        ),
        AuditEvent::ConnectionRequestRejected { peer_id, reason } => with_member(
            with_member(tagged, "peer_id"@, JsonTree::Text(peer_id@)),
            "reason"@,
            JsonTree::Text(reason@),
        ),
        AuditEvent::MouseControl { peer_id, action, position } => {
            let base = with_member(
                with_member(tagged, "peer_id"@, JsonTree::Text(peer_id@)),
                "action"@,
                JsonTree::Text(action@),
            );
            match position {
                Some((x, y)) => with_member(
                    base,
                    "position"@,
                    JsonTree::List(seq![JsonTree::Int(x as int), JsonTree::Int(y as int)]),
                ),
                None => base,
            }
        },
        AuditEvent::KeyboardControl { peer_id, action } => with_member(
            with_member(tagged, "peer_id"@, JsonTree::Text(peer_id@)),
            "action"@,
            JsonTree::Text(action@),
        ),
        AuditEvent::SecurityError { error_code, description, peer_id } => with_optional_text(
            with_member(
                with_member(tagged, "error_code"@, JsonTree::Text(error_code@)),
                "description"@,
                JsonTree::Text(description@),
            ),
            "peer_id"@,
            peer_id,
        ),
        AuditEvent::SuspiciousActivity { description, peer_id } => with_optional_text(
            with_member(tagged, "description"@, JsonTree::Text(description@)),
            "peer_id"@,
            peer_id,
        ),
        AuditEvent::ConfigurationChange { setting, old_value, new_value } => with_member(
            with_member(
                with_member(tagged, "setting"@, JsonTree::Text(setting@)),
                "old_value"@,
                JsonTree::Text(old_value@),
            ),
            "new_value"@,
            JsonTree::Text(new_value@),
        ),
        AuditEvent::StreamingStateChange { peer_id, state } => with_member(
            with_member(tagged, "peer_id"@, JsonTree::Text(peer_id@)),
            "state"@,
            JsonTree::Text(state@),
        ),
    }
}

/// The JSON object that stands for an entry: the time, the level and the
/// local identity, then the kind of the event and its fields, then what more
/// is known, if anything.
pub open spec fn entry_tree(entry: AuditEntry) -> JsonTree {
    let head = with_member(
        with_member(
            with_member(empty_object(), "timestamp"@, JsonTree::Int(entry.timestamp as int)),
            "level"@,
            JsonTree::Text(level_name(entry.level)),
        ),
        "device_id"@,
        JsonTree::Text(entry.device_id@),
    );
    let body = with_event(head, entry.event);
    match entry.metadata {
        Some(value) => with_member(body, "metadata"@, json_view(value)),
        None => body,
    }
}

/// The object of the entry holds no `Real` number and does not nest too
/// deep: such an entry is written, and read back, as it stands.
pub open spec fn plain_entry(entry: AuditEntry) -> bool {
    plain_tree(entry_tree(entry), MAX_JSON_DEPTH as nat)
}

/// The line of the log file that stands for a plain entry: what is written
/// for its object.
pub open spec fn entry_line(entry: AuditEntry) -> Seq<char> {
    json_rendered(entry_tree(entry))
}

/// A plain object stays plain with the fields of an event.
proof fn lemma_event_plain(tree: JsonTree, event: AuditEvent, depth: nat)
    requires
        depth > 2,
        plain_tree(tree, depth),
    ensures
        plain_tree(with_event(tree, event), depth),
{
    assert forall|t: JsonTree, k: Seq<char>, v: JsonTree|
        plain_tree(t, depth) && plain_tree(v, (depth - 1) as nat) implies plain_tree(
        #[trigger] with_member(t, k, v),
        depth,
    ) by {
        lemma_with_member_plain(t, k, v, depth);
    }
    match event {
        AuditEvent::MouseControl { peer_id, action, position } => {
            match position {
                Some((x, y)) => {
                    let pair = seq![JsonTree::Int(x as int), JsonTree::Int(y as int)];
                    assert forall|i: int| 0 <= i < pair.len() implies plain_tree(
                        #[trigger] pair[i],
                        (depth - 2) as nat,
                    ) by {}
                    assert(plain_tree(JsonTree::List(pair), (depth - 1) as nat));
                },
                None => {},
            }
        },
        _ => {},
    }
}

/// Only what more is known of an event can keep its entry from being
/// plain: an entry without metadata is plain, whatever the event.
pub proof fn lemma_bare_entry_plain(entry: AuditEntry)
    requires
        entry.metadata is None,
    ensures
        plain_entry(entry),
{
    let depth = MAX_JSON_DEPTH as nat;
    lemma_empty_object_plain(depth);
    let stamped = with_member(empty_object(), "timestamp"@, JsonTree::Int(entry.timestamp as int));
    lemma_with_member_plain(
        empty_object(),
        "timestamp"@,
        JsonTree::Int(entry.timestamp as int),
        depth,
    );
    let levelled = with_member(stamped, "level"@, JsonTree::Text(level_name(entry.level)));
    lemma_with_member_plain(stamped, "level"@, JsonTree::Text(level_name(entry.level)), depth);
    let head = with_member(levelled, "device_id"@, JsonTree::Text(entry.device_id@));
    lemma_with_member_plain(levelled, "device_id"@, JsonTree::Text(entry.device_id@), depth);
    lemma_event_plain(head, entry.event, depth);
}

/// An entry is plain where what more is known of its event is plain one
/// level down.
pub proof fn lemma_entry_plain(entry: AuditEntry)
    requires
        entry.metadata matches Some(value) ==> plain_tree(
            json_view(value),
            (MAX_JSON_DEPTH - 1) as nat,
        ),
    ensures
        plain_entry(entry),
{
    let bare = AuditEntry {
        timestamp: entry.timestamp,
        level: entry.level,
        device_id: entry.device_id,
        event: entry.event,
        metadata: None,
    };
    lemma_bare_entry_plain(bare);
    match entry.metadata {
        Some(value) => {
            lemma_with_member_plain(
                entry_tree(bare),
                "metadata"@,
                json_view(value),
                MAX_JSON_DEPTH as nat,
            );
        },
        None => {},
    }
}

fn add_text(tree: serde_json::Value, key: &str, text: &String) -> (r: serde_json::Value)
    ensures
        json_view(r) == with_member(json_view(tree), key@, JsonTree::Text(text@)),
{
    json_with(tree, key, json_text(text.as_str()))
}

fn add_optional_text(tree: serde_json::Value, key: &str, text: &Option<String>) -> (r:
    serde_json::Value)
    ensures
        json_view(r) == with_optional_text(json_view(tree), key@, *text),
{
    match text {
        Some(value) => add_text(tree, key, value),
        None => tree,
    }
}

fn add_optional_bool(tree: serde_json::Value, key: &str, value: Option<bool>) -> (r:
    serde_json::Value)
    ensures
        json_view(r) == with_optional_bool(json_view(tree), key@, value),
{
    match value {
        Some(b) => json_with(tree, key, json_bool(b)),
        None => tree,
    }
}

fn add_event(tree: serde_json::Value, event: &AuditEvent) -> (r: serde_json::Value)
    ensures
        json_view(r) == with_event(json_view(tree), *event),
{
    let tagged = json_with(tree, "event_type", json_text(event.event_type()));
    match event {
        AuditEvent::ConnectionEstablished { peer_id, direction, password_used } => {
            let tree = add_text(tagged, "peer_id", peer_id);
            let tree = add_text(tree, "direction", direction);
            add_optional_bool(tree, "password_used", *password_used)
        },
        AuditEvent::ConnectionClosed { peer_id, reason } => {
            let tree = add_text(tagged, "peer_id", peer_id);
            add_text(tree, "reason", reason)
        },
        AuditEvent::ConnectionRequestReceived { from, password_required } => {
            let tree = add_text(tagged, "from", from);
            add_optional_bool(tree, "password_required", *password_required)
        },
        AuditEvent::ConnectionRequestAccepted { peer_id } => add_text(tagged, "peer_id", peer_id),
        AuditEvent::ConnectionRequestRejected { peer_id, reason } => {
            let tree = add_text(tagged, "peer_id", peer_id);
            add_text(tree, "reason", reason)
        },
        AuditEvent::MouseControl { peer_id, action, position } => {
            let tree = add_text(tagged, "peer_id", peer_id);
            let tree = add_text(tree, "action", action);
            match position {
                Some((x, y)) => {
                    let mut items: Vec<serde_json::Value> = Vec::new();
                    items.push(json_i64(*x as i64));
                    items.push(json_i64(*y as i64));
                    assert(views_of(items@) =~= seq![
                        JsonTree::Int(*x as int),
                        JsonTree::Int(*y as int),
                    ]);
                    json_with(tree, "position", json_list(items))
                },
                None => tree,
            }
        },
        AuditEvent::KeyboardControl { peer_id, action } => {
            let tree = add_text(tagged, "peer_id", peer_id);
            add_text(tree, "action", action)
        },
        AuditEvent::SecurityError { error_code, description, peer_id } => {
            let tree = add_text(tagged, "error_code", error_code);
            let tree = add_text(tree, "description", description);
            add_optional_text(tree, "peer_id", peer_id)
        },
        AuditEvent::SuspiciousActivity { description, peer_id } => {
            let tree = add_text(tagged, "description", description);
            add_optional_text(tree, "peer_id", peer_id)
        },
        AuditEvent::ConfigurationChange { setting, old_value, new_value } => {
            let tree = add_text(tagged, "setting", setting);
            let tree = add_text(tree, "old_value", old_value);
            add_text(tree, "new_value", new_value)
        },
        AuditEvent::StreamingStateChange { peer_id, state } => {
            let tree = add_text(tagged, "peer_id", peer_id);
            add_text(tree, "state", state)
        },
    }
}

impl AuditEntry {
    /// The JSON object that stands for the entry.
    pub fn to_json_value(&self) -> (tree: serde_json::Value)
        ensures
            json_view(tree) == entry_tree(*self),
    {
        let tree = json_with(json_object(), "timestamp", json_u64(self.timestamp));
        let tree = json_with(tree, "level", json_text(self.level.name()));
        let tree = add_text(tree, "device_id", &self.device_id);
        let tree = add_event(tree, &self.event);
        match &self.metadata {
            Some(value) => json_with(tree, "metadata", json_copy(value)),
            None => tree,
        }
    }

    /// The line of the log file that stands for the entry: its JSON object as
    /// text, which is always written. For a plain entry, which only the
    /// metadata can keep it from being, that is its line, which reads back
    /// as the object.
    pub fn to_line(&self) -> (r: Result<String>)
        ensures
            r matches Ok(text) && (plain_entry(*self) ==> text@ == entry_line(*self)
                && json_parsed(text@) == Some(entry_tree(*self))),
    {
        let tree = self.to_json_value();
        match json_render(&tree) {
            Ok(line) => Ok(line),
            Err(error) => Err(GhostHandError::Serialization(json_error_text(&error))),
        }
    }
}

/// The name under which the log file is put aside at the time `now_secs`.
pub open spec fn archive_name(log_dir: Seq<char>, now_secs: u64) -> Seq<char> {
    log_dir + "/audit_"@ + decimal(now_secs as nat) + ".jsonl"@
}

impl AuditLogger {
    /// The directory of the trail.
    pub closed spec fn dir(&self) -> Seq<char> {
        self.log_dir@
    }

    /// The file of the trail.
    pub closed spec fn path(&self) -> Seq<char> {
        self.log_path@
    }

    /// The local identity.
    pub closed spec fn identity(&self) -> Seq<char> {
        self.device_id@
    }

    /// Bytes the file of the trail may hold before it is put aside.
    pub closed spec fn max_size(&self) -> u64 {
        self.max_size_bytes
    }

    /// The logger of the identity `device_id` for the directory `log_dir`,
    /// whose file may grow to `max_size_bytes` bytes, 10 MiB where no size is
    /// given.
    pub fn new(log_dir: &str, device_id: String, max_size_bytes: Option<u64>) -> (logger: Self)
        ensures
            logger.dir() == log_dir@,
            logger.path() == log_dir@ + "/audit.jsonl"@,
            logger.identity() == device_id@,
            logger.max_size() == match max_size_bytes {
                Some(size) => size,
                None => DEFAULT_MAX_LOG_BYTES,
            },
    {
        AuditLogger {
            log_dir: String::from_str(log_dir),
            log_path: concat(log_dir, "/audit.jsonl"),
            device_id,
            max_size_bytes: match max_size_bytes {
                Some(size) => size,
                None => DEFAULT_MAX_LOG_BYTES,
            },
        }
    }

    /// Where the trail is kept now.
    pub fn log_path(&self) -> (path: &String)
        ensures
            path@ == self.path(),
    {
        &self.log_path
    }

    /// What is to be written for an event that happens now, given the size
    /// of the log file: as `log_at` says, for some time.
    pub fn log(&self, level: AuditLevel, event: AuditEvent, file_size: u64) -> (r: Result<
        LogWrite,
    >)
        ensures
            exists|now_ms: u64| self.logged(level, event, None, now_ms, file_size, r),
    {
        self.log_with_metadata(level, event, None, file_size)
    }

    /// What is to be written for an event that happens now, with what more
    /// is known of it, given the size of the log file: as `log_at` says, for
    /// some time.
    pub fn log_with_metadata(
        &self,
        level: AuditLevel,
        event: AuditEvent,
        metadata: Option<serde_json::Value>,
        file_size: u64,
    ) -> (r: Result<LogWrite>)
        ensures
            exists|now_ms: u64| self.logged(level, event, metadata, now_ms, file_size, r),
    {
        let now_ms = unix_millis();
        let r = self.log_at(level, event, metadata, now_ms, file_size);
        assert(self.logged(level, event, metadata, now_ms, file_size, r));
        r
    }

    /// The entry of this logger for the event at the time `now_ms`.
    pub open spec fn entry_at(
        &self,
        level: AuditLevel,
        event: AuditEvent,
        metadata: Option<serde_json::Value>,
        now_ms: u64,
    ) -> AuditEntry {
        AuditEntry { timestamp: now_ms, level, device_id: self.device_id_text(), event, metadata }
    }

    /// The name to put the log file aside under before an entry of the time
    /// `now_ms` is written: made of the time in seconds, where the file holds
    /// more than it may; `None` where it does not.
    pub open spec fn rotation(&self, now_ms: u64, file_size: u64) -> Option<Seq<char>> {
        if file_size > self.max_size() {
            Some(archive_name(self.dir(), now_ms / 1000))
        } else {
            None
        }
    }

    /// `r` is what is to be written for the event at the time `now_ms`: the
    /// line of its entry, and, where the log file holds more than it may, the
    /// name to put the file aside under. There is always something to write.
    pub open spec fn logged(
        &self,
        level: AuditLevel,
        event: AuditEvent,
        metadata: Option<serde_json::Value>,
        now_ms: u64,
        file_size: u64,
        r: Result<LogWrite>,
    ) -> bool {
        let entry = self.entry_at(level, event, metadata, now_ms);
        r matches Ok(write) && {
            &&& plain_entry(entry) ==> write.line@ == entry_line(entry) && json_parsed(
                write.line@,
            ) == Some(entry_tree(entry))
            &&& match write.rotate_to {
                Some(name) => self.rotation(now_ms, file_size) == Some(name@),
                None => self.rotation(now_ms, file_size) is None,
            }
        }
    }

    /// The local identity, as the entries carry it.
    pub closed spec fn device_id_text(&self) -> String {
        self.device_id
    }

    /// What is to be written for an event that happened at `now_ms`, given
    /// the size of the log file.
    pub fn log_at(
        &self,
        level: AuditLevel,
        event: AuditEvent,
        metadata: Option<serde_json::Value>,
        now_ms: u64,
        file_size: u64,
    ) -> (r: Result<LogWrite>)
        ensures
            self.logged(level, event, metadata, now_ms, file_size, r),
    {
        let entry = AuditEntry {
            timestamp: now_ms,
            level,
            device_id: self.device_id.clone(),
            event,
            metadata,
        };
        let line = match entry.to_line() {
            Ok(line) => line,
            Err(error) => {
                return Err(error);
            },
        };
        let rotate_to = if file_size > self.max_size_bytes {
            let mut name = self.log_dir.clone();
            name.append("/audit_");
            name.append(decimal_string(now_ms / 1000).as_str());
            name.append(".jsonl");
            Some(name)
        } else {
            None
        };
        Ok(LogWrite { line, rotate_to })
    }
}

/// The audit logger of the identity `device_id` for the directory `log_dir`,
/// with the default size of file.
pub fn init_global_logger(log_dir: &str, device_id: String) -> (logger: AuditLogger)
    ensures
        logger.dir() == log_dir@,
        logger.path() == log_dir@ + "/audit.jsonl"@,
        logger.identity() == device_id@,
        logger.max_size() == DEFAULT_MAX_LOG_BYTES,
{
    AuditLogger::new(log_dir, device_id, None)
}

/// What is to be written for an event that happens now: as
/// `AuditLogger::log` says, for some time, the line being that of the entry,
/// for an entry without metadata is plain. Nothing where there is no logger,
/// and only there.
pub fn audit_log(logger: Option<&AuditLogger>, level: AuditLevel, event: AuditEvent, file_size: u64)
    -> (r: Option<LogWrite>)
    ensures
        match logger {
            Some(logger) => r matches Some(write) && exists|now_ms: u64|
                {
                    &&& logger.logged(level, event, None, now_ms, file_size, Ok(write))
                    &&& plain_entry(logger.entry_at(level, event, None, now_ms))
                },
            None => r is None,
        },
{
    match logger {
        Some(logger) => {
            let r = logger.log(level, event, file_size);
            let ghost now_ms = choose|now_ms: u64|
                logger.logged(level, event, None, now_ms, file_size, r);
            proof {
                lemma_bare_entry_plain(logger.entry_at(level, event, None, now_ms));
            }
            match r {
                Ok(write) => Some(write),
                Err(_) => None,
            }
        },
        None => None,
    }
}

/// What is to be written for an event that happens now, with what more is
/// known of it: as `AuditLogger::log_with_metadata` says, for some time.
/// Nothing where there is no logger, and only there.
pub fn audit_log_with_metadata(
    logger: Option<&AuditLogger>,
    level: AuditLevel,
    event: AuditEvent,
    metadata: serde_json::Value,
    file_size: u64,
) -> (r: Option<LogWrite>)
    ensures
        match logger {
            Some(logger) => r matches Some(write) && exists|now_ms: u64|
                logger.logged(level, event, Some(metadata), now_ms, file_size, Ok(write)),
            None => r is None,
        },
{
    match logger {
        Some(logger) => {
            let r = logger.log_with_metadata(level, event, Some(metadata), file_size);
            match r {
                Ok(write) => Some(write),
                Err(_) => None,
            }
        },
        None => None,
    }
}

} // verus!
