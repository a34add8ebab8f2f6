//! Typed host operations.
//!
//! A registered command identifier names one host operation.  Dispatch
//! decodes a command envelope's arguments into a [`HostOp`]; the embedding
//! host performs the operation (it may take several frames) and hands back an
//! [`OpOutput`], which is serialized to the JSON payload of the caller's
//! reply.

use vstd::prelude::*;
use vstd::string::*;

use crate::fsapi::{base_directory_of_name, spec_base_directory_of_name, BaseDirectory};
use crate::json::{
    json_bool, json_data, json_member, json_str, spec_member, spec_member_str, JsonData,
};
use crate::strutil::{dec_rep_signed, i64_to_dec};

verus! {

/// Which system-information value an OS query reads.
#[derive(Clone, Copy, Debug, PartialEq, Eq, Structural)]
pub enum OsQuery {
    Arch,
    Family,
    HostName,
    KernelVersion,
    Locale,
    LongVersion,
    SystemName,
    Version,
}

/// Which window operation a web-window command performs.
#[derive(Clone, Copy, Debug, PartialEq, Eq, Structural)]
pub enum WebWindowOp {
    Center,
    Focus,
    IsDecorated,
    IsFocused,
    IsFullscreen,
    IsMaximizable,
    IsMaximized,
    IsResizable,
    Maximize,
    OuterPosition,
    UnFocus,
    UnMinimize,
}

/// The kind of handler a command identifier is registered with: how its
/// arguments are decoded and which host operation it invokes.
#[derive(Clone, Copy, Debug, PartialEq, Eq, Structural)]
pub enum OpKind {
    AppGetName,
    AppGetVersion,
    AppExit,
    FsCreateDir,
    FsExists,
    FsRemoveDir,
    NotificationSend,
    Os(OsQuery),
    WebWindow(WebWindowOp),
}

/// A decoded host operation, ready for the host to perform.
pub enum HostOp {
    /// Reads the application's name.
    AppGetName,
    /// Reads the application's version.
    AppGetVersion,
    /// Exits the application.
    AppExit,
    /// Creates a directory, optionally under a base directory, optionally
    /// with its missing parents.
    FsCreateDir { path: String, dir: Option<BaseDirectory>, recursive: bool },
    /// Checks whether a path exists, optionally under a base directory.
    FsExists { path: String, dir: Option<BaseDirectory> },
    /// Removes a directory, optionally under a base directory, recursively
    /// when asked.
    FsRemoveDir { path: String, dir: Option<BaseDirectory>, recursive: bool },
    /// Shows a system notification.
    NotificationSend { message: String, title: Option<String>, icon: Option<String> },
    /// Reads one system-information value.
    Os { query: OsQuery },
    /// Operates on the window named by the identifier.
    WebWindow { op: WebWindowOp, identifier: String },
}

/// The mathematical model of a decoded host operation.
pub ghost enum HostOpData {
    AppGetName,
    AppGetVersion,
    AppExit,
    FsCreateDir { path: Seq<char>, dir: Option<BaseDirectory>, recursive: bool },
    FsExists { path: Seq<char>, dir: Option<BaseDirectory> },
    FsRemoveDir { path: Seq<char>, dir: Option<BaseDirectory>, recursive: bool },
    NotificationSend {
        message: Seq<char>,
        title: Option<Seq<char>>,
        icon: Option<Seq<char>>,
    },
    Os { query: OsQuery },
    WebWindow { op: WebWindowOp, identifier: Seq<char> },
}

/// Whether a decoded operation agrees with its model.
pub open spec fn op_matches(op: HostOp, m: HostOpData) -> bool {
    match (op, m) {
        (HostOp::AppGetName, HostOpData::AppGetName) => true,
        (HostOp::AppGetVersion, HostOpData::AppGetVersion) => true,
        (HostOp::AppExit, HostOpData::AppExit) => true,
        (
            HostOp::FsCreateDir { path, dir, recursive },
            HostOpData::FsCreateDir { path: mp, dir: md, recursive: mr },
        ) => path@ == mp && dir == md && recursive == mr,
        (
            HostOp::FsExists { path, dir },
            HostOpData::FsExists { path: mp, dir: md },
        ) => path@ == mp && dir == md,
        (
            HostOp::FsRemoveDir { path, dir, recursive },
            HostOpData::FsRemoveDir { path: mp, dir: md, recursive: mr },
        ) => path@ == mp && dir == md && recursive == mr,
        (
            HostOp::NotificationSend { message, title, icon },
            HostOpData::NotificationSend { message: mm, title: mt, icon: mi },
        ) => message@ == mm && opt_str_matches(title, mt) && opt_str_matches(icon, mi),
        (HostOp::Os { query }, HostOpData::Os { query: mq }) => query == mq,
        (
            HostOp::WebWindow { op: wop, identifier },
            HostOpData::WebWindow { op: mop, identifier: mi },
        ) => wop == mop && identifier@ == mi,
        _ => false,
    }
}

/// Whether an optional string agrees with its model.
pub open spec fn opt_str_matches(s: Option<String>, m: Option<Seq<char>>) -> bool {
    match (s, m) {
        (Option::None, Option::None) => true,
        (Option::Some(a), Option::Some(b)) => a@ == b,
        _ => false,
    }
}

/// The required `path` member of filesystem arguments.
pub open spec fn spec_path_arg(d: JsonData) -> Option<Seq<char>> {
    spec_member_str(d, "path"@)
}

/// The optional `dir` member: absent or null means no base directory; a
/// string must name one; any other shape is malformed.
pub open spec fn spec_dir_arg(d: JsonData) -> Option<Option<BaseDirectory>> {
    match spec_member(d, "dir"@) {
        None => Some(None),
        Some(JsonData::Null) => Some(None),
        Some(JsonData::Str(s)) => match spec_base_directory_of_name(s) {
            Some(b) => Some(Some(b)),
            None => None,
        },
        Some(_) => None,
    }
}

/// The optional `recursive` member: absent or null means `false`; a boolean
/// is taken as is; any other shape is malformed.
pub open spec fn spec_recursive_arg(d: JsonData) -> Option<bool> {
    match spec_member(d, "recursive"@) {
        None => Some(false),
        Some(JsonData::Null) => Some(false),
        Some(JsonData::Bool(b)) => Some(b),
        Some(_) => None,
    }
}

/// An optional string member: absent or null means none; a string is taken;
/// any other shape is malformed.
pub open spec fn spec_opt_str_arg(d: JsonData, key: Seq<char>) -> Option<Option<Seq<char>>> {
    match spec_member(d, key) {
        None => Some(None),
        Some(JsonData::Null) => Some(None),
        Some(JsonData::Str(s)) => Some(Some(s)),
        Some(_) => None,
    }
}

/// What decoding arguments for a registered kind yields: `None` exactly when
/// the arguments are malformed for that kind.
pub open spec fn spec_decode_op(kind: OpKind, d: JsonData) -> Option<HostOpData> {
    match kind {
        OpKind::AppGetName => Some(HostOpData::AppGetName),
        OpKind::AppGetVersion => Some(HostOpData::AppGetVersion),
        OpKind::AppExit => Some(HostOpData::AppExit),
        OpKind::FsCreateDir => match (spec_path_arg(d), spec_dir_arg(d), spec_recursive_arg(d)) {
            (Some(p), Some(dir), Some(rec)) => Some(
                HostOpData::FsCreateDir { path: p, dir, recursive: rec },
            ),
            _ => None,
        },
        OpKind::FsExists => match (spec_path_arg(d), spec_dir_arg(d)) {
            (Some(p), Some(dir)) => Some(HostOpData::FsExists { path: p, dir }),
            _ => None,
        },
        OpKind::FsRemoveDir => match (spec_path_arg(d), spec_dir_arg(d), spec_recursive_arg(d)) {
            (Some(p), Some(dir), Some(rec)) => Some(
                HostOpData::FsRemoveDir { path: p, dir, recursive: rec },
            ),
            _ => None,
        },
        OpKind::NotificationSend => match (
            spec_member_str(d, "message"@),
            spec_opt_str_arg(d, "title"@),
            spec_opt_str_arg(d, "icon"@),
        ) {
            (Some(m), Some(t), Some(i)) => Some(
                HostOpData::NotificationSend { message: m, title: t, icon: i },
            ),
            _ => None,
        },
        OpKind::Os(query) => Some(HostOpData::Os { query }),
        OpKind::WebWindow(wop) => match d {
            JsonData::Str(s) => Some(HostOpData::WebWindow { op: wop, identifier: s }),
            _ => None,
        },
    }
}

/// Decodes the `dir` member.
fn decode_dir_arg(args: &serde_json::Value) -> (r: Option<Option<BaseDirectory>>)
    ensures
        r == spec_dir_arg(json_data(*args)),
{
    match json_member(args, "dir") {
        None => Some(None),
        Some(v) => {
            if crate::json::json_is_null(&v) {
                Some(None)
            } else {
                match json_str(&v) {
                    Some(name) => match base_directory_of_name(name.as_str()) {
                        Some(b) => Some(Some(b)),
                        None => None,
                    },
                    None => None,
                }
            }
        },
    }
}

/// Decodes the `recursive` member.
fn decode_recursive_arg(args: &serde_json::Value) -> (r: Option<bool>)
    ensures
        r == spec_recursive_arg(json_data(*args)),
{
    match json_member(args, "recursive") {
        None => Some(false),
        Some(v) => {
            if crate::json::json_is_null(&v) {
                Some(false)
            } else {
                json_bool(&v)
            }
        },
    }
}

/// Decodes an optional string member.
fn decode_opt_str_arg(args: &serde_json::Value, key: &str) -> (r: Option<Option<String>>)
    ensures
        match spec_opt_str_arg(json_data(*args), key@) {
            Some(m) => r matches Some(s) && opt_str_matches(s, m),
            None => r.is_none(),
        },
{
    match json_member(args, key) {
        None => Some(None),
        Some(v) => {
            if crate::json::json_is_null(&v) {
                Some(None)
            } else {
                match json_str(&v) {
                    Some(s) => Some(Some(s)),
                    None => None,
                }
            }
        },
    }
}

/// Decodes a command envelope's arguments for a registered kind.  Returns
/// `None` exactly when the arguments are malformed for that kind; such a
/// message is dropped with a diagnostic and never affects the rest of its
/// batch.
pub fn decode_op(kind: OpKind, args: &serde_json::Value) -> (r: Option<HostOp>)
    ensures
        r.is_some() == spec_decode_op(kind, json_data(*args)).is_some(),
        r matches Some(op) ==> op_matches(op, spec_decode_op(kind, json_data(*args)).unwrap()),
{
    match kind {
        OpKind::AppGetName => Some(HostOp::AppGetName),
        OpKind::AppGetVersion => Some(HostOp::AppGetVersion),
        OpKind::AppExit => Some(HostOp::AppExit),
        OpKind::FsCreateDir => {
            let path = crate::json::member_str(args, "path");
            let dir = decode_dir_arg(args);
            let rec = decode_recursive_arg(args);
            match (path, dir, rec) {
                (Some(p), Some(d), Some(r)) => Some(
                    HostOp::FsCreateDir { path: p, dir: d, recursive: r },
                ),
                _ => None,
            }
        },
        OpKind::FsExists => {
            let path = crate::json::member_str(args, "path");
            let dir = decode_dir_arg(args);
            match (path, dir) {
                (Some(p), Some(d)) => Some(HostOp::FsExists { path: p, dir: d }),
                _ => None,
            }
        },
        OpKind::FsRemoveDir => {
            let path = crate::json::member_str(args, "path");
            let dir = decode_dir_arg(args);
            let rec = decode_recursive_arg(args);
            match (path, dir, rec) {
                (Some(p), Some(d), Some(r)) => Some(
                    HostOp::FsRemoveDir { path: p, dir: d, recursive: r },
                ),
                _ => None,
            }
        },
        OpKind::NotificationSend => {
            let message = crate::json::member_str(args, "message");
            let title = decode_opt_str_arg(args, "title");
            let icon = decode_opt_str_arg(args, "icon");
            match (message, title, icon) {
                (Some(m), Some(t), Some(i)) => Some(
                    HostOp::NotificationSend { message: m, title: t, icon: i },
                ),
                _ => None,
            }
        },
        OpKind::Os(query) => Some(HostOp::Os { query }),
        OpKind::WebWindow(wop) => match json_str(args) {
            Some(identifier) => Some(HostOp::WebWindow { op: wop, identifier }),
            None => None,
        },
    }
}

/// The application metadata the application-control commands answer with.
pub struct AppMetadata {
    /// The application's name.
    pub name: String,
    /// The application's version.
    pub version: String,
}

/// The output of an application-control operation: the name, the version, or
/// — for an exit, which only acts — no value.  Any other operation is not an
/// application-control operation and yields `None`.
pub fn app_output(op: &HostOp, meta: &AppMetadata) -> (r: Option<OpOutput>)
    ensures
        match *op {
            HostOp::AppGetName => r matches Some(OpOutput::Text(n)) && n@ == meta.name@,
            HostOp::AppGetVersion => r matches Some(OpOutput::Text(v)) && v@ == meta.version@,
            HostOp::AppExit => r matches Some(OpOutput::Null),
            _ => r.is_none(),
        },
{
    match op {
        HostOp::AppGetName => Some(OpOutput::Text(meta.name.clone())),
        HostOp::AppGetVersion => Some(OpOutput::Text(meta.version.clone())),
        HostOp::AppExit => Some(OpOutput::Null),
        _ => None,
    }
}

/// The escape sequence for one character inside a JSON string literal.
pub open spec fn spec_json_escape_char(c: char) -> Seq<char> {
    if c == '"' {
        seq!['\\', '"']
    } else if c == '\\' {
        seq!['\\', '\\']
    } else if c == '\n' {
        seq!['\\', 'n']
    } else if c == '\r' {
        seq!['\\', 'r']
    } else if c == '\t' {
        seq!['\\', 't']
    } else {
        seq![c]
    }
}

/// A text with its quotes, backslashes, newlines, carriage returns and tabs
/// escaped for a JSON string literal.
pub open spec fn spec_json_escape(s: Seq<char>) -> Seq<char>
    decreases s.len(),
{
    if s.len() == 0 {
        Seq::empty()
    } else {
        spec_json_escape(s.drop_last()) + spec_json_escape_char(s.last())
    }
}

/// A JSON string literal for a text.
pub open spec fn spec_json_string(s: Seq<char>) -> Seq<char> {
    seq!['"'] + spec_json_escape(s) + seq!['"']
}

/// Escapes a text for use inside a JSON string literal.
pub fn json_escape(s: &str) -> (r: String)
    ensures
        r@ == spec_json_escape(s@),
{
    let n = s.unicode_len();
    let mut r = String::new();
    let mut i: usize = 0;
    while i < n
        invariant
            n == s@.len(),
            i <= n,
            r@ == spec_json_escape(s@.subrange(0, i as int)),
        decreases n - i,
    {
        let c = s.get_char(i);
        if c == '"' {
            r.append("\\\"");
            proof {
                reveal_strlit("\\\"");
            }
        } else if c == '\\' {
            r.append("\\\\");
            proof {
                reveal_strlit("\\\\");
            }
        } else if c == '\n' {
            r.append("\\n");
            proof {
                reveal_strlit("\\n");
            }
        } else if c == '\r' {
            r.append("\\r");
            proof {
                reveal_strlit("\\r");
            }
        } else if c == '\t' {
            r.append("\\t");
            proof {
                reveal_strlit("\\t");
            }
        } else {
            let one = s.substring_char(i, i + 1);
            r.append(one);
        }
        proof {
            let pre = s@.subrange(0, i as int);
            let cur = s@.subrange(0, i + 1);
            assert(cur.drop_last() =~= pre);
            assert(cur.last() == s@[i as int]);
            assert(r@ =~= spec_json_escape(cur));
        }
        i += 1;
    }
    proof {
        assert(s@.subrange(0, n as int) =~= s@);
    }
    r
}

/// Builds a JSON string literal for a text.
pub fn json_string_literal(s: &str) -> (r: String)
    ensures
        r@ == spec_json_string(s@),
{
    let mut r: String = "\"".to_owned();
    r.append(json_escape(s).as_str());
    r.append("\"");
    proof {
        reveal_strlit("\"");
        assert(r@ =~= spec_json_string(s@));
    }
    r
}

/// What a finished host operation produced; serialized into the reply's
/// payload.
pub enum OpOutput {
    /// No value (a command that only acts).
    Null,
    /// A boolean value.
    Bool(bool),
    /// A text value.
    Text(String),
    /// A text value that may be missing.
    OptText(Option<String>),
    /// A window position.
    Position { x: i64, y: i64 },
    /// A failed operation, with its error message.
    Error(String),
}

/// The JSON payload an output serializes to.
pub open spec fn spec_encode_output(o: OpOutput) -> Seq<char> {
    match o {
        OpOutput::Null => "null"@,
        OpOutput::Bool(b) => if b {
            "true"@
        } else {
            "false"@
        },
        OpOutput::Text(s) => spec_json_string(s@),
        OpOutput::OptText(s) => match s {
            Some(t) => spec_json_string(t@),
            None => "null"@,
        },
        OpOutput::Position { x, y } => "{\"x\":"@ + dec_rep_signed(x as int) + ",\"y\":"@
            + dec_rep_signed(y as int) + "}"@,
        OpOutput::Error(m) => "{\"error\":"@ + spec_json_string(m@) + "}"@,
    }
}

/// Serializes an output into the reply's JSON payload.
pub fn encode_output(o: &OpOutput) -> (r: String)
    ensures
        r@ == spec_encode_output(*o),
{
    match o {
        OpOutput::Null => "null".to_owned(),
        OpOutput::Bool(b) => {
            if *b {
                "true".to_owned()
            } else {
                "false".to_owned()
            }
        },
        OpOutput::Text(s) => json_string_literal(s.as_str()),
        OpOutput::OptText(s) => match s {
            Some(t) => json_string_literal(t.as_str()),
            None => "null".to_owned(),
        },
        OpOutput::Position { x, y } => {
            let mut r: String = "{\"x\":".to_owned();
            r.append(i64_to_dec(*x).as_str());
            r.append(",\"y\":");
            r.append(i64_to_dec(*y).as_str());
            r.append("}");
            proof {
                assert(r@ =~= spec_encode_output(*o));
            }
            r
        },
        OpOutput::Error(m) => {
            let mut r: String = "{\"error\":".to_owned();
            r.append(json_string_literal(m.as_str()).as_str());
            r.append("}");
            proof {
                assert(r@ =~= spec_encode_output(*o));
            }
            r
        },
    }
}

} // verus!
