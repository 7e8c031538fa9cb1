//! The JSON wire format of a job record.
//!
//! Records travel as JSON objects with the keys `id`, `artifact_url`,
//! `artifact_local_path`, `status`, `processed_at`, `error`, `raw_body` and
//! `context`. The serializer emits every key in that order, writing absent
//! optional fields as `null`; the parser accepts keys in any order, skips
//! unknown members, and treats a missing or `null` optional member as absent.
//! `artifact_url` is required. The pass-through `context` member may hold any
//! JSON value: a string is taken as the metadata text itself, any other value
//! is captured verbatim.

use vstd::prelude::*;

use crate::message::JobStatus;
use crate::message::Message;
use crate::message::MessageView;
use crate::strutil::chars_to_string;
use crate::strutil::push_char;
use crate::strutil::str_to_chars;

verus! {

// ---------------------------------------------------------------------------
// Text building blocks
// ---------------------------------------------------------------------------
pub open spec fn is_ws_char(c: char) -> bool {
    c == ' ' || c == '\n' || c == '\t' || c == '\r'
}

/// How one character is written inside a JSON string literal.
pub open spec fn escape_char(c: char) -> Seq<char> {
    if c == '"' {
        seq!['\\', '"']
    } else if c == '\\' {
        seq!['\\', '\\']
    } else if c == '\n' {
        seq!['\\', 'n']
    } else if c == '\t' {
        seq!['\\', 't']
    } else if c == '\r' {
        seq!['\\', 'r']
    } else {
        seq![c]
    }
}

pub open spec fn escape_chars(s: Seq<char>) -> Seq<char>
    decreases s.len(),
{
    if s.len() == 0 {
        Seq::empty()
    } else {
        escape_char(s[0]) + escape_chars(s.skip(1))
    }
}

/// A JSON string literal holding `s`.
pub open spec fn quoted(s: Seq<char>) -> Seq<char> {
    seq!['"'] + escape_chars(s) + seq!['"']
}

pub open spec fn null_text() -> Seq<char> {
    seq!['n', 'u', 'l', 'l']
}

/// An optional text field: a string literal when present, `null` otherwise.
pub open spec fn opt_text(v: Option<Seq<char>>) -> Seq<char> {
    match v {
        Some(s) => quoted(s),
        None => null_text(),
    }
}

/// The wire name of each processing status.
pub open spec fn status_name(st: JobStatus) -> Seq<char> {
    match st {
        JobStatus::Unknown => "unknown"@,
        JobStatus::Valid => "valid"@,
        JobStatus::Invalid => "invalid"@,
    }
}

pub open spec fn status_of_name(name: Seq<char>) -> Option<JobStatus> {
    if name == status_name(JobStatus::Unknown) {
        Some(JobStatus::Unknown)
    } else if name == status_name(JobStatus::Valid) {
        Some(JobStatus::Valid)
    } else if name == status_name(JobStatus::Invalid) {
        Some(JobStatus::Invalid)
    } else {
        None
    }
}

pub open spec fn key_id() -> Seq<char> {
    "id"@
}

pub open spec fn key_artifact_url() -> Seq<char> {
    "artifact_url"@
}

pub open spec fn key_artifact_local_path() -> Seq<char> {
    "artifact_local_path"@
}

pub open spec fn key_status() -> Seq<char> {
    "status"@
}

pub open spec fn key_processed_at() -> Seq<char> {
    "processed_at"@
}

pub open spec fn key_error() -> Seq<char> {
    "error"@
}

pub open spec fn key_raw_body() -> Seq<char> {
    "raw_body"@
}

pub open spec fn key_context() -> Seq<char> {
    "context"@
}

/// `"key":` — the opening of one object member.
pub open spec fn member_prefix(key: Seq<char>) -> Seq<char> {
    seq!['"'] + key + seq!['"', ':']
}

// ---------------------------------------------------------------------------
// Canonical serialization
// ---------------------------------------------------------------------------
// The literal chunks between the values of the canonical text.
pub open spec fn lit_open_id() -> Seq<char> {
    "{\"id\":"@
}

pub open spec fn lit_artifact_url() -> Seq<char> {
    ",\"artifact_url\":"@
}

pub open spec fn lit_artifact_local_path() -> Seq<char> {
    ",\"artifact_local_path\":"@
}

pub open spec fn lit_status() -> Seq<char> {
    ",\"status\":"@
}

pub open spec fn lit_processed_at() -> Seq<char> {
    ",\"processed_at\":"@
}

pub open spec fn lit_error() -> Seq<char> {
    ",\"error\":"@
}

pub open spec fn lit_raw_body() -> Seq<char> {
    ",\"raw_body\":"@
}

pub open spec fn lit_context() -> Seq<char> {
    ",\"context\":"@
}

pub open spec fn lit_close() -> Seq<char> {
    "}"@
}

/// The canonical text of a record: all eight members, in a fixed order,
/// without any whitespace, absent optional fields written as `null`.
pub open spec fn spec_serialize(m: MessageView) -> Seq<char> {
    lit_open_id() + opt_text(m.id) + lit_artifact_url() + quoted(m.artifact_url)
        + lit_artifact_local_path() + opt_text(m.artifact_local_path) + lit_status() + quoted(
        status_name(m.status),
    ) + lit_processed_at() + opt_text(m.processed_at) + lit_error() + opt_text(m.error)
        + lit_raw_body() + opt_text(m.raw_body) + lit_context() + opt_text(m.context) + lit_close()
}

proof fn lemma_escape_snoc(t: Seq<char>, c: char)
    ensures
        escape_chars(t.push(c)) == escape_chars(t) + escape_char(c),
    decreases t.len(),
{
    if t.len() == 0 {
        assert(t.push(c)[0] == c);
        assert(t.push(c).skip(1) =~= Seq::<char>::empty());
        assert(escape_chars(Seq::<char>::empty()) =~= Seq::<char>::empty());
        assert(t =~= Seq::<char>::empty());
        assert(escape_chars(t.push(c)) =~= escape_chars(t) + escape_char(c));
    } else {
        lemma_escape_snoc(t.skip(1), c);
        assert(t.push(c).skip(1) =~= t.skip(1).push(c));
        assert(t.push(c)[0] == t[0]);
        assert(escape_chars(t.push(c)) == escape_char(t[0]) + (escape_chars(t.skip(1))
            + escape_char(c)));
        assert(escape_char(t[0]) + (escape_chars(t.skip(1)) + escape_char(c)) =~= (escape_char(t[0])
            + escape_chars(t.skip(1))) + escape_char(c));
    }
}

/// Appends the characters of `s`, escaped for a JSON string literal.
fn append_escaped(out: &mut String, s: &str)
    ensures
        final(out)@ == old(out)@ + escape_chars(s@),
{
    let n = s.unicode_len();
    let mut i: usize = 0;
    proof {
        assert(s@.take(0) =~= Seq::<char>::empty());
        assert(old(out)@ + escape_chars(s@.take(0)) =~= old(out)@);
    }
    while i < n
        invariant
            n == s@.len(),
            i <= n,
            out@ == old(out)@ + escape_chars(s@.take(i as int)),
        decreases n - i,
    {
        let c = s.get_char(i);
        if c == '"' {
            push_char(out, '\\');
            push_char(out, '"');
        } else if c == '\\' {
            push_char(out, '\\');
            push_char(out, '\\');
        } else if c == '\n' {
            push_char(out, '\\');
            push_char(out, 'n');
        } else if c == '\t' {
            push_char(out, '\\');
            push_char(out, 't');
        } else if c == '\r' {
            push_char(out, '\\');
            push_char(out, 'r');
        } else {
            push_char(out, c);
        }
        proof {
            lemma_escape_snoc(s@.take(i as int), c);
            assert(s@.take(i + 1) =~= s@.take(i as int).push(c));
            assert(out@ =~= old(out)@ + escape_chars(s@.take(i + 1)));
        }
        i = i + 1;
    }
    proof {
        assert(s@.take(n as int) =~= s@);
    }
}

/// Appends a JSON string literal holding `s`.
fn append_quoted(out: &mut String, s: &str)
    ensures
        final(out)@ == old(out)@ + quoted(s@),
{
    push_char(out, '"');
    append_escaped(out, s);
    push_char(out, '"');
    proof {
        assert(out@ =~= old(out)@ + quoted(s@));
    }
}

/// Appends an optional text field: a string literal or `null`.
fn append_opt(out: &mut String, v: &Option<String>)
    ensures
        final(out)@ == old(out)@ + opt_text(v.deep_view()),
{
    match v {
        Some(s) => {
            append_quoted(out, s.as_str());
        },
        None => {
            out.append("null");
            proof {
                reveal_strlit("null");
                assert("null"@ =~= null_text());
            }
        },
    }
}

/// The canonical JSON text of a record.
pub fn serialize_message(m: &Message) -> (out: String)
    ensures
        out@ == spec_serialize(m@),
{
    let mut out = String::new();
    out.append("{\"id\":");
    proof {
        assert(Seq::<char>::empty() + lit_open_id() =~= lit_open_id());
    }
    append_opt(&mut out, &m.id);
    out.append(",\"artifact_url\":");
    append_quoted(&mut out, m.artifact_url.as_str());
    out.append(",\"artifact_local_path\":");
    append_opt(&mut out, &m.artifact_local_path);
    out.append(",\"status\":");
    match m.status {
        JobStatus::Unknown => {
            append_quoted(&mut out, "unknown");
        },
        JobStatus::Valid => {
            append_quoted(&mut out, "valid");
        },
        JobStatus::Invalid => {
            append_quoted(&mut out, "invalid");
        },
    }
    out.append(",\"processed_at\":");
    append_opt(&mut out, &m.processed_at);
    out.append(",\"error\":");
    append_opt(&mut out, &m.error);
    out.append(",\"raw_body\":");
    append_opt(&mut out, &m.raw_body);
    out.append(",\"context\":");
    append_opt(&mut out, &m.context);
    out.append("}");
    out
}

// ---------------------------------------------------------------------------
// Parsing: specification
// ---------------------------------------------------------------------------
/// The character named by an escape sequence `\c`, if `\c` is understood.
pub open spec fn unescape_char(c: char) -> Option<char> {
    if c == '"' {
        Some('"')
    } else if c == '\\' {
        Some('\\')
    } else if c == '/' {
        Some('/')
    } else if c == 'n' {
        Some('\n')
    } else if c == 't' {
        Some('\t')
    } else if c == 'r' {
        Some('\r')
    } else {
        None
    }
}

pub open spec fn spec_skip_ws(s: Seq<char>) -> Seq<char>
    decreases s.len(),
{
    if s.len() > 0 && is_ws_char(s[0]) {
        spec_skip_ws(s.skip(1))
    } else {
        s
    }
}

/// Reads a string literal from after its opening quote up to its closing
/// quote; yields the unescaped content and the remaining input.
pub open spec fn spec_parse_string_body(s: Seq<char>) -> Option<(Seq<char>, Seq<char>)>
    decreases s.len(),
{
    if s.len() == 0 {
        None
    } else if s[0] == '"' {
        Some((Seq::empty(), s.skip(1)))
    } else if s[0] == '\\' {
        if s.len() < 2 {
            None
        } else {
            match unescape_char(s[1]) {
                Some(c) => match spec_parse_string_body(s.skip(2)) {
                    Some(p) => Some((seq![c] + p.0, p.1)),
                    None => None,
                },
                None => None,
            }
        }
    } else {
        match spec_parse_string_body(s.skip(1)) {
            Some(p) => Some((seq![s[0]] + p.0, p.1)),
            None => None,
        }
    }
}

/// Reads a complete string literal, opening quote included.
pub open spec fn spec_parse_string(s: Seq<char>) -> Option<(Seq<char>, Seq<char>)> {
    if s.len() > 0 && s[0] == '"' {
        spec_parse_string_body(s.skip(1))
    } else {
        None
    }
}

/// Walks over the tail of a bracketed value (object or array), one character
/// at a time, until the bracket depth returns to zero. String literals met on
/// the way are stepped through so that brackets inside them do not count.
pub open spec fn spec_skip_composite(s: Seq<char>, depth: nat, in_str: bool, esc: bool) -> Option<
    Seq<char>,
>
    decreases s.len(),
{
    if s.len() == 0 {
        None
    } else {
        let c = s[0];
        let t = s.skip(1);
        if in_str {
            if esc {
                spec_skip_composite(t, depth, true, false)
            } else if c == '\\' {
                spec_skip_composite(t, depth, true, true)
            } else if c == '"' {
                spec_skip_composite(t, depth, false, false)
            } else {
                spec_skip_composite(t, depth, true, false)
            }
        } else if c == '"' {
            spec_skip_composite(t, depth, true, false)
        } else if c == '{' || c == '[' {
            spec_skip_composite(t, depth + 1, false, false)
        } else if c == '}' || c == ']' {
            if depth == 1 {
                Some(t)
            } else {
                spec_skip_composite(t, (depth - 1) as nat, false, false)
            }
        } else {
            spec_skip_composite(t, depth, false, false)
        }
    }
}

/// Consumes the characters of an unquoted scalar (number, boolean or other
/// bare word) up to the next delimiter.
pub open spec fn spec_skip_scalar_rest(s: Seq<char>) -> Seq<char>
    decreases s.len(),
{
    if s.len() == 0 {
        s
    } else if s[0] == ',' || s[0] == '}' || s[0] == ']' || is_ws_char(s[0]) {
        s
    } else {
        spec_skip_scalar_rest(s.skip(1))
    }
}

/// Steps over one JSON value of any shape.
pub open spec fn spec_skip_value(s: Seq<char>) -> Option<Seq<char>> {
    if s.len() == 0 {
        None
    } else if s[0] == '"' {
        match spec_parse_string(s) {
            Some(p) => Some(p.1),
            None => None,
        }
    } else if s[0] == '{' || s[0] == '[' {
        spec_skip_composite(s.skip(1), 1, false, false)
    } else if s[0] == ',' || s[0] == '}' || s[0] == ']' || is_ws_char(s[0]) {
        None
    } else {
        Some(spec_skip_scalar_rest(s.skip(1)))
    }
}

pub open spec fn starts_with(s: Seq<char>, p: Seq<char>) -> bool {
    s.len() >= p.len() && s.take(p.len() as int) == p
}

/// The fields gathered while reading the members of a record object.
pub ghost struct RecordAcc {
    pub id: Option<Seq<char>>,
    pub artifact_url: Option<Seq<char>>,
    pub artifact_local_path: Option<Seq<char>>,
    pub status: JobStatus,
    pub processed_at: Option<Seq<char>>,
    pub error: Option<Seq<char>>,
    pub raw_body: Option<Seq<char>>,
    pub context: Option<Seq<char>>,
}

pub open spec fn empty_acc() -> RecordAcc {
    RecordAcc {
        id: None,
        artifact_url: None,
        artifact_local_path: None,
        status: JobStatus::Unknown,
        processed_at: None,
        error: None,
        raw_body: None,
        context: None,
    }
}

/// The keys whose value is an optional text field.
pub open spec fn is_text_key(key: Seq<char>) -> bool {
    key == key_id() || key == key_artifact_url() || key == key_artifact_local_path() || key
        == key_processed_at() || key == key_error() || key == key_raw_body()
}

pub open spec fn assign_text_key(key: Seq<char>, acc: RecordAcc, v: Option<Seq<char>>) -> RecordAcc {
    if key == key_id() {
        RecordAcc { id: v, ..acc }
    } else if key == key_artifact_url() {
        RecordAcc { artifact_url: v, ..acc }
    } else if key == key_artifact_local_path() {
        RecordAcc { artifact_local_path: v, ..acc }
    } else if key == key_processed_at() {
        RecordAcc { processed_at: v, ..acc }
    } else if key == key_error() {
        RecordAcc { error: v, ..acc }
    } else {
        RecordAcc { raw_body: v, ..acc }
    }
}

/// Reads a `status` value: one of the three names, or `null`.
pub open spec fn spec_parse_status_value(s: Seq<char>, acc: RecordAcc) -> Option<
    (RecordAcc, Seq<char>),
> {
    if starts_with(s, null_text()) {
        Some((RecordAcc { status: JobStatus::Unknown, ..acc }, s.skip(4)))
    } else {
        match spec_parse_string(s) {
            Some(p) => match status_of_name(p.0) {
                Some(st) => Some((RecordAcc { status: st, ..acc }, p.1)),
                None => None,
            },
            None => None,
        }
    }
}

/// Reads a `context` value: any JSON value, captured verbatim unless it is
/// a string or `null`.
pub open spec fn spec_parse_context_value(s: Seq<char>, acc: RecordAcc) -> Option<
    (RecordAcc, Seq<char>),
> {
    if starts_with(s, null_text()) {
        Some((RecordAcc { context: None, ..acc }, s.skip(4)))
    } else if s.len() > 0 && s[0] == '"' {
        match spec_parse_string(s) {
            Some(p) => Some((RecordAcc { context: Some(p.0), ..acc }, p.1)),
            None => None,
        }
    } else {
        match spec_skip_value(s) {
            Some(rest) => Some(
                (RecordAcc { context: Some(s.take(s.len() - rest.len())), ..acc }, rest),
            ),
            None => None,
        }
    }
}

/// Reads the value of a known text member: a string or `null`.
pub open spec fn spec_parse_text_value(key: Seq<char>, s: Seq<char>, acc: RecordAcc) -> Option<
    (RecordAcc, Seq<char>),
> {
    if starts_with(s, null_text()) {
        Some((assign_text_key(key, acc, None), s.skip(4)))
    } else {
        match spec_parse_string(s) {
            Some(p) => Some((assign_text_key(key, acc, Some(p.0)), p.1)),
            None => None,
        }
    }
}

/// Reads the value of one member and folds it into the gathered fields.
/// An unknown member is stepped over.
pub open spec fn spec_parse_value_for_key(key: Seq<char>, s: Seq<char>, acc: RecordAcc) -> Option<
    (RecordAcc, Seq<char>),
> {
    if key == key_status() {
        spec_parse_status_value(s, acc)
    } else if key == key_context() {
        spec_parse_context_value(s, acc)
    } else if is_text_key(key) {
        spec_parse_text_value(key, s, acc)
    } else {
        match spec_skip_value(s) {
            Some(rest) => Some((acc, rest)),
            None => None,
        }
    }
}

/// Reads the members of a record object, starting at the first key and
/// ending just after the closing brace.
pub open spec fn spec_parse_members(s: Seq<char>, acc: RecordAcc, fuel: nat) -> Option<
    (RecordAcc, Seq<char>),
>
    decreases fuel,
{
    if fuel == 0 {
        None
    } else {
        let s1 = spec_skip_ws(s);
        match spec_parse_string(s1) {
            None => None,
            Some(kp) => {
                let s2 = spec_skip_ws(kp.1);
                if s2.len() == 0 || s2[0] != ':' {
                    None
                } else {
                    let s3 = spec_skip_ws(s2.skip(1));
                    match spec_parse_value_for_key(kp.0, s3, acc) {
                        None => None,
                        Some(vp) => {
                            let s4 = spec_skip_ws(vp.1);
                            if s4.len() == 0 {
                                None
                            } else if s4[0] == ',' {
                                spec_parse_members(s4.skip(1), vp.0, (fuel - 1) as nat)
                            } else if s4[0] == '}' {
                                Some((vp.0, s4.skip(1)))
                            } else {
                                None
                            }
                        },
                    }
                }
            },
        }
    }
}

/// A record is complete when its required artifact location was present.
pub open spec fn finish_acc(acc: RecordAcc) -> Option<MessageView> {
    match acc.artifact_url {
        Some(u) => Some(
            MessageView {
                id: acc.id,
                artifact_url: u,
                artifact_local_path: acc.artifact_local_path,
                status: acc.status,
                processed_at: acc.processed_at,
                error: acc.error,
                raw_body: acc.raw_body,
                context: acc.context,
            },
        ),
        None => None,
    }
}

/// What a complete record text denotes: one JSON object with a required
/// `artifact_url` member and nothing but whitespace after it.
pub open spec fn spec_parse_record(s: Seq<char>) -> Option<MessageView> {
    let s1 = spec_skip_ws(s);
    if s1.len() == 0 || s1[0] != '{' {
        None
    } else {
        match spec_parse_members(s1.skip(1), empty_acc(), s.len()) {
            None => None,
            Some(p) => {
                if spec_skip_ws(p.1).len() == 0 {
                    finish_acc(p.0)
                } else {
                    None
                }
            },
        }
    }
}

// ---------------------------------------------------------------------------
// Parsing: executable code
// ---------------------------------------------------------------------------
fn ws_char(c: char) -> (r: bool)
    ensures
        r == is_ws_char(c),
{
    c == ' ' || c == '\n' || c == '\t' || c == '\r'
}

fn exec_unescape(c: char) -> (r: Option<char>)
    ensures
        r == unescape_char(c),
{
    if c == '"' {
        Some('"')
    } else if c == '\\' {
        Some('\\')
    } else if c == '/' {
        Some('/')
    } else if c == 'n' {
        Some('\n')
    } else if c == 't' {
        Some('\t')
    } else if c == 'r' {
        Some('\r')
    } else {
        None
    }
}

fn skip_ws(v: &Vec<char>, i: usize) -> (j: usize)
    requires
        i <= v@.len(),
    ensures
        i <= j <= v@.len(),
        v@.skip(j as int) == spec_skip_ws(v@.skip(i as int)),
{
    let mut j = i;
    while j < v.len() && ws_char(v[j])
        invariant
            i <= j <= v@.len(),
            spec_skip_ws(v@.skip(i as int)) == spec_skip_ws(v@.skip(j as int)),
        decreases v@.len() - j,
    {
        proof {
            assert(v@.skip(j as int).skip(1) =~= v@.skip(j + 1));
        }
        j = j + 1;
    }
    j
}

fn parse_string_body(v: &Vec<char>, i: usize) -> (r: Option<(Vec<char>, usize)>)
    requires
        i <= v@.len(),
    ensures
        match r {
            Some(p) => i <= p.1 <= v@.len() && spec_parse_string_body(v@.skip(i as int)) == Some(
                (p.0@, v@.skip(p.1 as int)),
            ),
            None => spec_parse_string_body(v@.skip(i as int)) is None,
        },
    decreases v@.len() - i,
{
    if i == v.len() {
        return None;
    }
    proof {
        assert(v@.skip(i as int).skip(1) =~= v@.skip(i + 1));
    }
    let c = v[i];
    if c == '"' {
        let content: Vec<char> = Vec::new();
        proof {
            assert(content@ =~= Seq::<char>::empty());
        }
        return Some((content, i + 1));
    }
    if c == '\\' {
        if i + 1 == v.len() {
            return None;
        }
        let u = exec_unescape(v[i + 1]);
        proof {
            assert(v@.skip(i as int)[1] == v@[i + 1]);
            assert(v@.skip(i as int).skip(2) =~= v@.skip(i + 2));
        }
        match u {
            Some(uc) => {
                match parse_string_body(v, i + 2) {
                    Some(p) => {
                        let (mut content, j) = p;
                        let ghost tail = content@;
                        content.insert(0, uc);
                        proof {
                            assert(content@ =~= seq![uc] + tail);
                        }
                        Some((content, j))
                    },
                    None => None,
                }
            },
            None => None,
        }
    } else {
        match parse_string_body(v, i + 1) {
            Some(p) => {
                let (mut content, j) = p;
                let ghost tail = content@;
                content.insert(0, c);
                proof {
                    assert(content@ =~= seq![c] + tail);
                }
                Some((content, j))
            },
            None => None,
        }
    }
}

fn parse_string(v: &Vec<char>, i: usize) -> (r: Option<(Vec<char>, usize)>)
    requires
        i <= v@.len(),
    ensures
        match r {
            Some(p) => i <= p.1 <= v@.len() && spec_parse_string(v@.skip(i as int)) == Some(
                (p.0@, v@.skip(p.1 as int)),
            ),
            None => spec_parse_string(v@.skip(i as int)) is None,
        },
{
    if i < v.len() && v[i] == '"' {
        proof {
            assert(v@.skip(i as int).skip(1) =~= v@.skip(i + 1));
        }
        parse_string_body(v, i + 1)
    } else {
        None
    }
}

fn skip_composite(v: &Vec<char>, i: usize, depth: u128, in_str: bool, esc: bool) -> (r: Option<
    usize,
>)
    requires
        i <= v@.len(),
        1 <= depth,
        depth as int <= 1 + i,
    ensures
        match r {
            Some(j) => i <= j <= v@.len() && spec_skip_composite(
                v@.skip(i as int),
                depth as nat,
                in_str,
                esc,
            ) == Some(v@.skip(j as int)),
            None => spec_skip_composite(v@.skip(i as int), depth as nat, in_str, esc) is None,
        },
    decreases v@.len() - i,
{
    if i == v.len() {
        return None;
    }
    proof {
        assert(v@.skip(i as int).skip(1) =~= v@.skip(i + 1));
    }
    let c = v[i];
    if in_str {
        if esc {
            skip_composite(v, i + 1, depth, true, false)
        } else if c == '\\' {
            skip_composite(v, i + 1, depth, true, true)
        } else if c == '"' {
            skip_composite(v, i + 1, depth, false, false)
        } else {
            skip_composite(v, i + 1, depth, true, false)
        }
    } else if c == '"' {
        skip_composite(v, i + 1, depth, true, false)
    } else if c == '{' || c == '[' {
        skip_composite(v, i + 1, depth + 1, false, false)
    } else if c == '}' || c == ']' {
        if depth == 1 {
            Some(i + 1)
        } else {
            skip_composite(v, i + 1, depth - 1, false, false)
        }
    } else {
        skip_composite(v, i + 1, depth, false, false)
    }
}

fn skip_scalar_rest(v: &Vec<char>, i: usize) -> (j: usize)
    requires
        i <= v@.len(),
    ensures
        i <= j <= v@.len(),
        v@.skip(j as int) == spec_skip_scalar_rest(v@.skip(i as int)),
{
    let mut j = i;
    while j < v.len() && !(v[j] == ',' || v[j] == '}' || v[j] == ']' || ws_char(v[j]))
        invariant
            i <= j <= v@.len(),
            spec_skip_scalar_rest(v@.skip(i as int)) == spec_skip_scalar_rest(v@.skip(j as int)),
        decreases v@.len() - j,
    {
        proof {
            assert(v@.skip(j as int).skip(1) =~= v@.skip(j + 1));
        }
        j = j + 1;
    }
    j
}

fn skip_value(v: &Vec<char>, i: usize) -> (r: Option<usize>)
    requires
        i <= v@.len(),
    ensures
        match r {
            Some(j) => i <= j <= v@.len() && spec_skip_value(v@.skip(i as int)) == Some(
                v@.skip(j as int),
            ),
            None => spec_skip_value(v@.skip(i as int)) is None,
        },
{
    if i == v.len() {
        return None;
    }
    let c = v[i];
    if c == '"' {
        match parse_string(v, i) {
            Some(p) => Some(p.1),
            None => None,
        }
    } else if c == '{' || c == '[' {
        proof {
            assert(v@.skip(i as int).skip(1) =~= v@.skip(i + 1));
        }
        skip_composite(v, i + 1, 1, false, false)
    } else if c == ',' || c == '}' || c == ']' || ws_char(c) {
        None
    } else {
        proof {
            assert(v@.skip(i as int).skip(1) =~= v@.skip(i + 1));
        }
        Some(skip_scalar_rest(v, i + 1))
    }
}

fn chars_eq_str(k: &Vec<char>, s: &str) -> (r: bool)
    ensures
        r == (k@ == s@),
{
    let n = s.unicode_len();
    if k.len() != n {
        proof {
            if k@ == s@ {
                assert(k@.len() == s@.len());
            }
        }
        return false;
    }
    let mut i: usize = 0;
    while i < n
        invariant
            n == s@.len(),
            k@.len() == n,
            i <= n,
            forall|t: int| 0 <= t < i ==> k@[t] == s@[t],
        decreases n - i,
    {
        if k[i] != s.get_char(i) {
            proof {
                if k@ == s@ {
                    assert(k@[i as int] == s@[i as int]);
                }
            }
            return false;
        }
        i = i + 1;
    }
    proof {
        assert(k@ =~= s@);
    }
    true
}

fn at_null(v: &Vec<char>, i: usize) -> (r: bool)
    requires
        i <= v@.len(),
    ensures
        r == starts_with(v@.skip(i as int), null_text()),
{
    let r = v.len() - i >= 4 && v[i] == 'n' && v[i + 1] == 'u' && v[i + 2] == 'l' && v[i + 3]
        == 'l';
    proof {
        let s = v@.skip(i as int);
        if s.len() >= 4 {
            assert(s.take(4).len() == 4);
            assert(s.take(4)[0] == v@[i as int]);
            assert(s.take(4)[1] == v@[i + 1]);
            assert(s.take(4)[2] == v@[i + 2]);
            assert(s.take(4)[3] == v@[i + 3]);
            if v@[i as int] == 'n' && v@[i + 1] == 'u' && v@[i + 2] == 'l' && v@[i + 3] == 'l' {
                assert(s.take(4) =~= null_text());
            }
        }
    }
    r
}

/// The fields gathered by the executable parser, before the required ones
/// are checked.
struct RecordBuilder {
    id: Option<String>,
    artifact_url: Option<String>,
    artifact_local_path: Option<String>,
    status: JobStatus,
    processed_at: Option<String>,
    error: Option<String>,
    raw_body: Option<String>,
    context: Option<String>,
}

impl View for RecordBuilder {
    type V = RecordAcc;

    closed spec fn view(&self) -> RecordAcc {
        RecordAcc {
            id: self.id.deep_view(),
            artifact_url: self.artifact_url.deep_view(),
            artifact_local_path: self.artifact_local_path.deep_view(),
            status: self.status,
            processed_at: self.processed_at.deep_view(),
            error: self.error.deep_view(),
            raw_body: self.raw_body.deep_view(),
            context: self.context.deep_view(),
        }
    }
}

fn exec_is_text_key(key: &Vec<char>) -> (r: bool)
    ensures
        r == is_text_key(key@),
{
    chars_eq_str(key, "id") || chars_eq_str(key, "artifact_url") || chars_eq_str(
        key,
        "artifact_local_path",
    ) || chars_eq_str(key, "processed_at") || chars_eq_str(key, "error") || chars_eq_str(
        key,
        "raw_body",
    )
}

fn exec_assign_text(key: &Vec<char>, b: RecordBuilder, val: Option<String>) -> (r: RecordBuilder)
    requires
        is_text_key(key@),
    ensures
        r@ == assign_text_key(key@, b@, val.deep_view()),
{
    if chars_eq_str(key, "id") {
        RecordBuilder { id: val, ..b }
    } else if chars_eq_str(key, "artifact_url") {
        RecordBuilder { artifact_url: val, ..b }
    } else if chars_eq_str(key, "artifact_local_path") {
        RecordBuilder { artifact_local_path: val, ..b }
    } else if chars_eq_str(key, "processed_at") {
        RecordBuilder { processed_at: val, ..b }
    } else if chars_eq_str(key, "error") {
        RecordBuilder { error: val, ..b }
    } else {
        RecordBuilder { raw_body: val, ..b }
    }
}

fn copy_range(v: &Vec<char>, i: usize, j: usize) -> (r: Vec<char>)
    requires
        i <= j <= v@.len(),
    ensures
        r@ == v@.subrange(i as int, j as int),
{
    let mut r: Vec<char> = Vec::new();
    let mut k = i;
    while k < j
        invariant
            i <= k <= j <= v@.len(),
            r@ == v@.subrange(i as int, k as int),
        decreases j - k,
    {
        r.push(v[k]);
        k = k + 1;
        proof {
            assert(r@ =~= v@.subrange(i as int, k as int));
        }
    }
    r
}

fn parse_status_value(v: &Vec<char>, i: usize, b: RecordBuilder) -> (r: Option<
    (RecordBuilder, usize),
>)
    requires
        i <= v@.len(),
    ensures
        match r {
            Some(p) => i <= p.1 <= v@.len() && spec_parse_status_value(v@.skip(i as int), b@)
                == Some((p.0@, v@.skip(p.1 as int))),
            None => spec_parse_status_value(v@.skip(i as int), b@) is None,
        },
{
    if at_null(v, i) {
        let nlen = v.len();
        proof {
            assert(v@.skip(i as int).len() == v@.len() - i);
            assert(v@.skip(i as int).len() >= 4);
            assert(i + 4 <= nlen);
            assert(v@.skip(i as int).skip(4) =~= v@.skip(i + 4));
        }
        Some((RecordBuilder { status: JobStatus::Unknown, ..b }, i + 4))
    } else {
        match parse_string(v, i) {
            Some(p) => {
                let (content, j) = p;
                if chars_eq_str(&content, "unknown") {
                    Some((RecordBuilder { status: JobStatus::Unknown, ..b }, j))
                } else if chars_eq_str(&content, "valid") {
                    Some((RecordBuilder { status: JobStatus::Valid, ..b }, j))
                } else if chars_eq_str(&content, "invalid") {
                    Some((RecordBuilder { status: JobStatus::Invalid, ..b }, j))
                } else {
                    None
                }
            },
            None => None,
        }
    }
}

fn parse_context_value(v: &Vec<char>, i: usize, b: RecordBuilder) -> (r: Option<
    (RecordBuilder, usize),
>)
    requires
        i <= v@.len(),
    ensures
        match r {
            Some(p) => i <= p.1 <= v@.len() && spec_parse_context_value(v@.skip(i as int), b@)
                == Some((p.0@, v@.skip(p.1 as int))),
            None => spec_parse_context_value(v@.skip(i as int), b@) is None,
        },
{
    if at_null(v, i) {
        let nlen = v.len();
        proof {
            assert(v@.skip(i as int).len() == v@.len() - i);
            assert(v@.skip(i as int).len() >= 4);
            assert(i + 4 <= nlen);
            assert(v@.skip(i as int).skip(4) =~= v@.skip(i + 4));
        }
        Some((RecordBuilder { context: None, ..b }, i + 4))
    } else if i < v.len() && v[i] == '"' {
        match parse_string(v, i) {
            Some(p) => {
                let (content, j) = p;
                Some((RecordBuilder { context: Some(chars_to_string(&content)), ..b }, j))
            },
            None => None,
        }
    } else {
        match skip_value(v, i) {
            Some(j) => {
                let raw = copy_range(v, i, j);
                proof {
                    let s = v@.skip(i as int);
                    let rest = v@.skip(j as int);
                    assert(s.take(s.len() - rest.len()) =~= v@.subrange(i as int, j as int));
                }
                Some((RecordBuilder { context: Some(chars_to_string(&raw)), ..b }, j))
            },
            None => None,
        }
    }
}

fn parse_text_value(v: &Vec<char>, i: usize, key: &Vec<char>, b: RecordBuilder) -> (r: Option<
    (RecordBuilder, usize),
>)
    requires
        i <= v@.len(),
        is_text_key(key@),
    ensures
        match r {
            Some(p) => i <= p.1 <= v@.len() && spec_parse_text_value(key@, v@.skip(i as int), b@)
                == Some((p.0@, v@.skip(p.1 as int))),
            None => spec_parse_text_value(key@, v@.skip(i as int), b@) is None,
        },
{
    if at_null(v, i) {
        let nlen = v.len();
        proof {
            assert(v@.skip(i as int).len() == v@.len() - i);
            assert(v@.skip(i as int).len() >= 4);
            assert(i + 4 <= nlen);
            assert(v@.skip(i as int).skip(4) =~= v@.skip(i + 4));
        }
        Some((exec_assign_text(key, b, None), i + 4))
    } else {
        match parse_string(v, i) {
            Some(p) => {
                let (content, j) = p;
                Some((exec_assign_text(key, b, Some(chars_to_string(&content))), j))
            },
            None => None,
        }
    }
}

fn parse_value_for_key(v: &Vec<char>, i: usize, key: &Vec<char>, b: RecordBuilder) -> (r: Option<
    (RecordBuilder, usize),
>)
    requires
        i <= v@.len(),
    ensures
        match r {
            Some(p) => i <= p.1 <= v@.len() && spec_parse_value_for_key(
                key@,
                v@.skip(i as int),
                b@,
            ) == Some((p.0@, v@.skip(p.1 as int))),
            None => spec_parse_value_for_key(key@, v@.skip(i as int), b@) is None,
        },
{
    if chars_eq_str(key, "status") {
        parse_status_value(v, i, b)
    } else if chars_eq_str(key, "context") {
        parse_context_value(v, i, b)
    } else if exec_is_text_key(key) {
        parse_text_value(v, i, key, b)
    } else {
        match skip_value(v, i) {
            Some(j) => Some((b, j)),
            None => None,
        }
    }
}

#[verifier::rlimit(100)]
fn parse_members(v: &Vec<char>, i: usize, b: RecordBuilder, fuel: usize) -> (r: Option<
    (RecordBuilder, usize),
>)
    requires
        i <= v@.len(),
    ensures
        match r {
            Some(p) => p.1 <= v@.len() && spec_parse_members(
                v@.skip(i as int),
                b@,
                fuel as nat,
            ) == Some((p.0@, v@.skip(p.1 as int))),
            None => spec_parse_members(v@.skip(i as int), b@, fuel as nat) is None,
        },
    decreases fuel,
{
    if fuel == 0 {
        return None;
    }
    let i1 = skip_ws(v, i);
    match parse_string(v, i1) {
        None => None,
        Some(kp) => {
            let (key, j2) = kp;
            let i2 = skip_ws(v, j2);
            if i2 == v.len() {
                return None;
            }
            if v[i2] != ':' {
                return None;
            }
            proof {
                assert(v@.skip(i2 as int).skip(1) =~= v@.skip(i2 + 1));
            }
            let i3 = skip_ws(v, i2 + 1);
            match parse_value_for_key(v, i3, &key, b) {
                None => None,
                Some(vp) => {
                    let (b2, j4) = vp;
                    let i4 = skip_ws(v, j4);
                    if i4 == v.len() {
                        return None;
                    }
                    let c = v[i4];
                    if c == ',' {
                        proof {
                            assert(v@.skip(i4 as int).skip(1) =~= v@.skip(i4 + 1));
                        }
                        parse_members(v, i4 + 1, b2, fuel - 1)
                    } else if c == '}' {
                        proof {
                            assert(v@.skip(i4 as int).skip(1) =~= v@.skip(i4 + 1));
                        }
                        Some((b2, i4 + 1))
                    } else {
                        None
                    }
                },
            }
        },
    }
}

/// Reads a record out of its JSON text. Yields nothing when the text is not
/// a single well-formed object carrying an `artifact_url` member.
#[verifier::rlimit(100)]
pub fn parse_message(s: &str) -> (r: Option<Message>)
    ensures
        match r {
            Some(m) => spec_parse_record(s@) == Some(m@),
            None => spec_parse_record(s@) is None,
        },
{
    let v = str_to_chars(s);
    proof {
        assert(v@.skip(0) =~= v@);
    }
    let i1 = skip_ws(&v, 0);
    if i1 == v.len() {
        return None;
    }
    if v[i1] != '{' {
        return None;
    }
    let b0 = RecordBuilder {
        id: None,
        artifact_url: None,
        artifact_local_path: None,
        status: JobStatus::Unknown,
        processed_at: None,
        error: None,
        raw_body: None,
        context: None,
    };
    proof {
        assert(b0@ == empty_acc());
        assert(v@.skip(i1 as int).skip(1) =~= v@.skip(i1 + 1));
    }
    match parse_members(&v, i1 + 1, b0, v.len()) {
        None => None,
        Some(p) => {
            let (b, j) = p;
            let j2 = skip_ws(&v, j);
            if j2 != v.len() {
                return None;
            }
            if b.artifact_url.is_some() {
                let u = b.artifact_url.unwrap();
                let m = Message {
                    id: b.id,
                    artifact_url: u,
                    artifact_local_path: b.artifact_local_path,
                    status: b.status,
                    processed_at: b.processed_at,
                    error: b.error,
                    raw_body: b.raw_body,
                    context: b.context,
                };
                Some(m)
            } else {
                None
            }
        },
    }
}

// ---------------------------------------------------------------------------
// The round trip: parsing a serialized record gives the record back
// ---------------------------------------------------------------------------
/// A character that the serializer writes as itself, unescaped.
pub open spec fn plain_char(c: char) -> bool {
    c != '"' && c != '\\' && c != '\n' && c != '\t' && c != '\r'
}

pub open spec fn plain_seq(s: Seq<char>) -> bool {
    forall|i: int| 0 <= i < s.len() ==> plain_char(#[trigger] s[i])
}

proof fn lemma_escape_plain(s: Seq<char>)
    requires
        plain_seq(s),
    ensures
        escape_chars(s) == s,
    decreases s.len(),
{
    if s.len() == 0 {
        assert(escape_chars(s) =~= s);
    } else {
        assert(plain_seq(s.skip(1)));
        lemma_escape_plain(s.skip(1));
        assert(plain_char(s[0]));
        assert(escape_chars(s) == seq![s[0]] + s.skip(1));
        assert(seq![s[0]] + s.skip(1) =~= s);
    }
}

#[verifier::rlimit(100)]
proof fn lemma_parse_string_body_escape(content: Seq<char>, rest: Seq<char>)
    ensures
        spec_parse_string_body(escape_chars(content) + seq!['"'] + rest) == Some((content, rest)),
    decreases content.len(),
{
    let s = escape_chars(content) + seq!['"'] + rest;
    if content.len() == 0 {
        assert(s =~= seq!['"'] + rest);
        assert(s[0] == '"');
        assert(s.skip(1) =~= rest);
    } else {
        let c = content[0];
        lemma_parse_string_body_escape(content.skip(1), rest);
        let s2 = escape_chars(content.skip(1)) + seq!['"'] + rest;
        assert(escape_chars(content) == escape_char(c) + escape_chars(content.skip(1)));
        if c == '"' || c == '\\' || c == '\n' || c == '\t' || c == '\r' {
            assert(escape_char(c).len() == 2);
            assert(s[0] == escape_char(c)[0]);
            assert(s[1] == escape_char(c)[1]);
            assert(s[0] == '\\');
            assert(s.len() >= 2);
            assert(unescape_char(s[1]) == Some(c));
            assert(s.skip(2) =~= s2);
            assert(seq![c] + content.skip(1) =~= content);
        } else {
            assert(escape_char(c) =~= seq![c]);
            assert(s[0] == c);
            assert(s.skip(1) =~= s2);
            assert(seq![c] + content.skip(1) =~= content);
        }
    }
}

proof fn lemma_parse_quoted(content: Seq<char>, rest: Seq<char>)
    ensures
        spec_parse_string(quoted(content) + rest) == Some((content, rest)),
{
    let s = quoted(content) + rest;
    assert(s[0] == '"');
    assert(s.skip(1) =~= escape_chars(content) + seq!['"'] + rest);
    lemma_parse_string_body_escape(content, rest);
}

proof fn lemma_parse_member_prefix(key: Seq<char>, tail: Seq<char>)
    requires
        plain_seq(key),
    ensures
        spec_parse_string(member_prefix(key) + tail) == Some((key, seq![':'] + tail)),
{
    lemma_escape_plain(key);
    assert(member_prefix(key) + tail =~= quoted(key) + (seq![':'] + tail));
    lemma_parse_quoted(key, seq![':'] + tail);
}

proof fn lemma_value_not_null(vv: Option<Seq<char>>, rest: Seq<char>)
    ensures
        vv is Some ==> !starts_with(quoted(vv.unwrap()) + rest, null_text()),
        vv is None ==> starts_with(null_text() + rest, null_text()) && (null_text() + rest).skip(4)
            == rest,
{
    match vv {
        Some(x) => {
            let s = quoted(x) + rest;
            assert(s[0] == '"');
            if starts_with(s, null_text()) {
                assert(s.take(4)[0] == s[0]);
                assert(s.take(4)[0] == 'n');
            }
        },
        None => {
            let s = null_text() + rest;
            assert(s.take(4) =~= null_text());
            assert(s.skip(4) =~= rest);
        },
    }
}

proof fn lemma_value_opt(key: Seq<char>, vv: Option<Seq<char>>, rest: Seq<char>, acc: RecordAcc)
    requires
        is_text_key(key),
        key != key_status(),
        key != key_context(),
    ensures
        spec_parse_value_for_key(key, opt_text(vv) + rest, acc) == Some(
            (assign_text_key(key, acc, vv), rest),
        ),
{
    lemma_value_not_null(vv, rest);
    match vv {
        Some(x) => {
            let s = quoted(x) + rest;
            assert(s[0] == '"');
            lemma_parse_quoted(x, rest);
        },
        None => {},
    }
}

proof fn lemma_status_name_facts()
    ensures
        status_name(JobStatus::Unknown).len() == 7,
        status_name(JobStatus::Valid).len() == 5,
        status_name(JobStatus::Invalid).len() == 7,
        status_name(JobStatus::Invalid)[0] == 'i',
        status_name(JobStatus::Unknown)[0] == 'u',
{
    reveal_strlit("unknown");
    reveal_strlit("valid");
    reveal_strlit("invalid");
}

#[verifier::rlimit(100)]
proof fn lemma_value_status(st: JobStatus, rest: Seq<char>, acc: RecordAcc)
    ensures
        spec_parse_value_for_key(key_status(), quoted(status_name(st)) + rest, acc) == Some(
            (RecordAcc { status: st, ..acc }, rest),
        ),
{
    let s = quoted(status_name(st)) + rest;
    assert(s[0] == '"');
    if starts_with(s, null_text()) {
        assert(s.take(4)[0] == s[0]);
        assert(s.take(4)[0] == 'n');
    }
    lemma_parse_quoted(status_name(st), rest);
    lemma_status_name_facts();
    assert(status_name(JobStatus::Invalid) != status_name(JobStatus::Unknown)) by {
        assert(status_name(JobStatus::Invalid)[0] == 'i');
        assert(status_name(JobStatus::Unknown)[0] == 'u');
    }
    assert(status_of_name(status_name(st)) == Some(st));
}

proof fn lemma_value_context(vv: Option<Seq<char>>, rest: Seq<char>, acc: RecordAcc)
    requires
        key_context() != key_status(),
    ensures
        spec_parse_value_for_key(key_context(), opt_text(vv) + rest, acc) == Some(
            (RecordAcc { context: vv, ..acc }, rest),
        ),
{
    lemma_value_not_null(vv, rest);
    match vv {
        Some(x) => {
            let s = quoted(x) + rest;
            assert(s[0] == '"');
            lemma_parse_quoted(x, rest);
        },
        None => {},
    }
}

/// One member of the canonical text, seen by the member reader: the key, its
/// value, then either a comma and the rest or the closing brace.
#[verifier::rlimit(100)]
proof fn lemma_member_step(
    key: Seq<char>,
    value: Seq<char>,
    acc2: RecordAcc,
    cont: Seq<char>,
    acc: RecordAcc,
    fuel: nat,
)
    requires
        plain_seq(key),
        1 <= fuel,
        cont.len() > 0,
        cont[0] == ',' || cont[0] == '}',
        value.len() > 0,
        !is_ws_char(value[0]),
        spec_parse_value_for_key(key, value + cont, acc) == Some((acc2, cont)),
    ensures
        spec_parse_members(member_prefix(key) + value + cont, acc, fuel) == (if cont[0] == ',' {
            spec_parse_members(cont.skip(1), acc2, (fuel - 1) as nat)
        } else {
            Some((acc2, cont.skip(1)))
        }),
{
    let s = member_prefix(key) + value + cont;
    assert(s[0] == '"');
    assert(spec_skip_ws(s) == s);
    assert(s =~= member_prefix(key) + (value + cont));
    lemma_parse_member_prefix(key, value + cont);
    let r1 = seq![':'] + (value + cont);
    assert(spec_parse_string(s) == Some((key, r1)));
    assert(r1[0] == ':');
    assert(spec_skip_ws(r1) == r1);
    assert(r1.skip(1) =~= value + cont);
    assert((value + cont)[0] == value[0]);
    assert(spec_skip_ws(value + cont) == value + cont);
    assert(spec_skip_ws(cont) == cont);
}

proof fn lemma_opt_text_head(vv: Option<Seq<char>>)
    ensures
        opt_text(vv).len() > 0,
        !is_ws_char(opt_text(vv)[0]),
{
    match vv {
        Some(x) => {
            assert(quoted(x)[0] == '"');
        },
        None => {
            assert(null_text()[0] == 'n');
        },
    }
}

// The decomposition of the canonical text that the member reader walks
// through: `tail_k` starts at the key of member `k`, `cont_k` is what
// follows member `k`'s value.
spec fn rt_cont8() -> Seq<char> {
    seq!['}']
}

spec fn rt_tail8(m: MessageView) -> Seq<char> {
    member_prefix(key_context()) + opt_text(m.context) + rt_cont8()
}

spec fn rt_cont7(m: MessageView) -> Seq<char> {
    seq![','] + rt_tail8(m)
}

spec fn rt_tail7(m: MessageView) -> Seq<char> {
    member_prefix(key_raw_body()) + opt_text(m.raw_body) + rt_cont7(m)
}

spec fn rt_cont6(m: MessageView) -> Seq<char> {
    seq![','] + rt_tail7(m)
}

spec fn rt_tail6(m: MessageView) -> Seq<char> {
    member_prefix(key_error()) + opt_text(m.error) + rt_cont6(m)
}

spec fn rt_cont5(m: MessageView) -> Seq<char> {
    seq![','] + rt_tail6(m)
}

spec fn rt_tail5(m: MessageView) -> Seq<char> {
    member_prefix(key_processed_at()) + opt_text(m.processed_at) + rt_cont5(m)
}

spec fn rt_cont4(m: MessageView) -> Seq<char> {
    seq![','] + rt_tail5(m)
}

spec fn rt_tail4(m: MessageView) -> Seq<char> {
    member_prefix(key_status()) + quoted(status_name(m.status)) + rt_cont4(m)
}

spec fn rt_cont3(m: MessageView) -> Seq<char> {
    seq![','] + rt_tail4(m)
}

spec fn rt_tail3(m: MessageView) -> Seq<char> {
    member_prefix(key_artifact_local_path()) + opt_text(m.artifact_local_path) + rt_cont3(m)
}

spec fn rt_cont2(m: MessageView) -> Seq<char> {
    seq![','] + rt_tail3(m)
}

spec fn rt_tail2(m: MessageView) -> Seq<char> {
    member_prefix(key_artifact_url()) + opt_text(Some(m.artifact_url)) + rt_cont2(m)
}

spec fn rt_cont1(m: MessageView) -> Seq<char> {
    seq![','] + rt_tail2(m)
}

spec fn rt_tail1(m: MessageView) -> Seq<char> {
    member_prefix(key_id()) + opt_text(m.id) + rt_cont1(m)
}

// The accumulator after each member.
spec fn rt_acc1(m: MessageView) -> RecordAcc {
    assign_text_key(key_id(), empty_acc(), m.id)
}

spec fn rt_acc2(m: MessageView) -> RecordAcc {
    assign_text_key(key_artifact_url(), rt_acc1(m), Some(m.artifact_url))
}

spec fn rt_acc3(m: MessageView) -> RecordAcc {
    assign_text_key(key_artifact_local_path(), rt_acc2(m), m.artifact_local_path)
}

spec fn rt_acc4(m: MessageView) -> RecordAcc {
    RecordAcc { status: m.status, ..rt_acc3(m) }
}

spec fn rt_acc5(m: MessageView) -> RecordAcc {
    assign_text_key(key_processed_at(), rt_acc4(m), m.processed_at)
}

spec fn rt_acc6(m: MessageView) -> RecordAcc {
    assign_text_key(key_error(), rt_acc5(m), m.error)
}

spec fn rt_acc7(m: MessageView) -> RecordAcc {
    assign_text_key(key_raw_body(), rt_acc6(m), m.raw_body)
}

spec fn rt_acc8(m: MessageView) -> RecordAcc {
    RecordAcc { context: m.context, ..rt_acc7(m) }
}

proof fn lemma_reveal_keys()
    ensures
        plain_seq(key_id()),
        plain_seq(key_artifact_url()),
        plain_seq(key_artifact_local_path()),
        plain_seq(key_status()),
        plain_seq(key_processed_at()),
        plain_seq(key_error()),
        plain_seq(key_raw_body()),
        plain_seq(key_context()),
        key_id() != key_status(),
        key_id() != key_context(),
        is_text_key(key_id()),
        key_artifact_url() != key_status(),
        key_artifact_url() != key_context(),
        is_text_key(key_artifact_url()),
        key_artifact_local_path() != key_status(),
        key_artifact_local_path() != key_context(),
        is_text_key(key_artifact_local_path()),
        key_processed_at() != key_status(),
        key_processed_at() != key_context(),
        is_text_key(key_processed_at()),
        key_error() != key_status(),
        key_error() != key_context(),
        is_text_key(key_error()),
        key_raw_body() != key_status(),
        key_raw_body() != key_context(),
        is_text_key(key_raw_body()),
        key_context() != key_status(),
        key_processed_at() != key_artifact_url(),
        key_processed_at() != key_id(),
        key_processed_at() != key_artifact_local_path(),
        key_id() != key_artifact_url(),
        key_artifact_local_path() != key_id(),
        key_artifact_local_path() != key_artifact_url(),
        key_error() != key_id(),
        key_error() != key_artifact_url(),
        key_error() != key_artifact_local_path(),
        key_error() != key_processed_at(),
        key_raw_body() != key_id(),
        key_raw_body() != key_artifact_url(),
        key_raw_body() != key_artifact_local_path(),
        key_raw_body() != key_processed_at(),
        key_raw_body() != key_error(),
{
    reveal_strlit("id");
    reveal_strlit("artifact_url");
    reveal_strlit("artifact_local_path");
    reveal_strlit("status");
    reveal_strlit("processed_at");
    reveal_strlit("error");
    reveal_strlit("raw_body");
    reveal_strlit("context");
    assert(key_id().len() == 2);
    assert(key_artifact_url().len() == 12);
    assert(key_artifact_local_path().len() == 19);
    assert(key_status().len() == 6);
    assert(key_processed_at().len() == 12);
    assert(key_error().len() == 5);
    assert(key_raw_body().len() == 8);
    assert(key_context().len() == 7);
    assert(key_processed_at() != key_artifact_url()) by {
        assert(key_processed_at()[0] == 'p');
        assert(key_artifact_url()[0] == 'a');
    }
}

/// Each literal chunk of the canonical text is the separator plus the
/// member opening that the member reader sees.
proof fn lemma_lit_shapes()
    ensures
        lit_open_id() == seq!['{'] + member_prefix(key_id()),
        lit_artifact_url() == seq![','] + member_prefix(key_artifact_url()),
        lit_artifact_local_path() == seq![','] + member_prefix(key_artifact_local_path()),
        lit_status() == seq![','] + member_prefix(key_status()),
        lit_processed_at() == seq![','] + member_prefix(key_processed_at()),
        lit_error() == seq![','] + member_prefix(key_error()),
        lit_raw_body() == seq![','] + member_prefix(key_raw_body()),
        lit_context() == seq![','] + member_prefix(key_context()),
        lit_close() == seq!['}'],
{
    reveal_strlit("{\"id\":");
    reveal_strlit(",\"artifact_url\":");
    reveal_strlit(",\"artifact_local_path\":");
    reveal_strlit(",\"status\":");
    reveal_strlit(",\"processed_at\":");
    reveal_strlit(",\"error\":");
    reveal_strlit(",\"raw_body\":");
    reveal_strlit(",\"context\":");
    reveal_strlit("}");
    reveal_strlit("id");
    reveal_strlit("artifact_url");
    reveal_strlit("artifact_local_path");
    reveal_strlit("status");
    reveal_strlit("processed_at");
    reveal_strlit("error");
    reveal_strlit("raw_body");
    reveal_strlit("context");
    assert(lit_open_id() =~= seq!['{'] + member_prefix(key_id()));
    assert(lit_artifact_url() =~= seq![','] + member_prefix(key_artifact_url()));
    assert(lit_artifact_local_path() =~= seq![','] + member_prefix(key_artifact_local_path()));
    assert(lit_status() =~= seq![','] + member_prefix(key_status()));
    assert(lit_processed_at() =~= seq![','] + member_prefix(key_processed_at()));
    assert(lit_error() =~= seq![','] + member_prefix(key_error()));
    assert(lit_raw_body() =~= seq![','] + member_prefix(key_raw_body()));
    assert(lit_context() =~= seq![','] + member_prefix(key_context()));
    assert(lit_close() =~= seq!['}']);
}

#[verifier::rlimit(100)]
proof fn lemma_serialize_shape(m: MessageView)
    ensures
        spec_serialize(m) == seq!['{'] + rt_tail1(m),
        spec_serialize(m).len() >= 9,
        spec_serialize(m)[0] == '{',
{
    lemma_lit_shapes();
    let p1 = lit_open_id() + opt_text(m.id);
    let p2 = p1 + lit_artifact_url() + quoted(m.artifact_url);
    let p3 = p2 + lit_artifact_local_path() + opt_text(m.artifact_local_path);
    let p4 = p3 + lit_status() + quoted(status_name(m.status));
    let p5 = p4 + lit_processed_at() + opt_text(m.processed_at);
    let p6 = p5 + lit_error() + opt_text(m.error);
    let p7 = p6 + lit_raw_body() + opt_text(m.raw_body);
    let p8 = p7 + lit_context() + opt_text(m.context);
    assert(spec_serialize(m) == p8 + lit_close());
    assert(lit_close() =~= rt_cont8());
    assert(p8 + rt_cont8() =~= p7 + rt_cont7(m));
    assert(p7 + rt_cont7(m) =~= p6 + rt_cont6(m));
    assert(p6 + rt_cont6(m) =~= p5 + rt_cont5(m));
    assert(p5 + rt_cont5(m) =~= p4 + rt_cont4(m));
    assert(p4 + rt_cont4(m) =~= p3 + rt_cont3(m));
    assert(p3 + rt_cont3(m) =~= p2 + rt_cont2(m));
    assert(p2 + rt_cont2(m) =~= p1 + rt_cont1(m));
    assert(p1 + rt_cont1(m) =~= seq!['{'] + rt_tail1(m));
    assert((seq!['{'] + rt_tail1(m))[0] == '{');
    assert(member_prefix(key_id()).len() >= 3);
}

/// Members five to eight, from `processed_at` onward.
#[verifier::rlimit(100)]
proof fn lemma_members_back_half(m: MessageView, fuel: nat)
    requires
        fuel >= 4,
    ensures
        spec_parse_members(rt_tail5(m), rt_acc4(m), fuel) == Some(
            (rt_acc8(m), Seq::<char>::empty()),
        ),
{
    lemma_reveal_keys();
    let f5 = fuel;
    let f6 = (f5 - 1) as nat;
    let f7 = (f6 - 1) as nat;
    let f8 = (f7 - 1) as nat;

    lemma_opt_text_head(m.processed_at);
    lemma_value_opt(key_processed_at(), m.processed_at, rt_cont5(m), rt_acc4(m));
    lemma_member_step(
        key_processed_at(),
        opt_text(m.processed_at),
        rt_acc5(m),
        rt_cont5(m),
        rt_acc4(m),
        f5,
    );
    assert(rt_cont5(m)[0] == ',');
    assert(rt_cont5(m).skip(1) =~= rt_tail6(m));
    assert(spec_parse_members(rt_tail5(m), rt_acc4(m), f5) == spec_parse_members(
        rt_tail6(m),
        rt_acc5(m),
        f6,
    ));

    lemma_opt_text_head(m.error);
    lemma_value_opt(key_error(), m.error, rt_cont6(m), rt_acc5(m));
    lemma_member_step(key_error(), opt_text(m.error), rt_acc6(m), rt_cont6(m), rt_acc5(m), f6);
    assert(rt_cont6(m)[0] == ',');
    assert(rt_cont6(m).skip(1) =~= rt_tail7(m));
    assert(spec_parse_members(rt_tail6(m), rt_acc5(m), f6) == spec_parse_members(
        rt_tail7(m),
        rt_acc6(m),
        f7,
    ));

    lemma_opt_text_head(m.raw_body);
    lemma_value_opt(key_raw_body(), m.raw_body, rt_cont7(m), rt_acc6(m));
    lemma_member_step(
        key_raw_body(),
        opt_text(m.raw_body),
        rt_acc7(m),
        rt_cont7(m),
        rt_acc6(m),
        f7,
    );
    assert(rt_cont7(m)[0] == ',');
    assert(rt_cont7(m).skip(1) =~= rt_tail8(m));
    assert(spec_parse_members(rt_tail7(m), rt_acc6(m), f7) == spec_parse_members(
        rt_tail8(m),
        rt_acc7(m),
        f8,
    ));

    lemma_opt_text_head(m.context);
    lemma_value_context(m.context, rt_cont8(), rt_acc7(m));
    lemma_member_step(
        key_context(),
        opt_text(m.context),
        rt_acc8(m),
        rt_cont8(),
        rt_acc7(m),
        f8,
    );
    assert(rt_cont8()[0] == '}');
    assert(rt_cont8().skip(1) =~= Seq::<char>::empty());
    assert(spec_parse_members(rt_tail8(m), rt_acc7(m), f8) == Some(
        (rt_acc8(m), Seq::<char>::empty()),
    ));
}

/// Members one to four, `id` through `status`.
#[verifier::rlimit(100)]
proof fn lemma_members_front_half(m: MessageView, fuel: nat)
    requires
        fuel >= 8,
    ensures
        spec_parse_members(rt_tail1(m), empty_acc(), fuel) == Some(
            (rt_acc8(m), Seq::<char>::empty()),
        ),
{
    lemma_reveal_keys();
    let f1 = fuel;
    let f2 = (f1 - 1) as nat;
    let f3 = (f2 - 1) as nat;
    let f4 = (f3 - 1) as nat;
    let f5 = (f4 - 1) as nat;

    lemma_opt_text_head(m.id);
    lemma_value_opt(key_id(), m.id, rt_cont1(m), empty_acc());
    lemma_member_step(key_id(), opt_text(m.id), rt_acc1(m), rt_cont1(m), empty_acc(), f1);
    assert(rt_cont1(m)[0] == ',');
    assert(rt_cont1(m).skip(1) =~= rt_tail2(m));
    assert(spec_parse_members(rt_tail1(m), empty_acc(), f1) == spec_parse_members(
        rt_tail2(m),
        rt_acc1(m),
        f2,
    ));

    lemma_opt_text_head(Some(m.artifact_url));
    lemma_value_opt(key_artifact_url(), Some(m.artifact_url), rt_cont2(m), rt_acc1(m));
    lemma_member_step(
        key_artifact_url(),
        opt_text(Some(m.artifact_url)),
        rt_acc2(m),
        rt_cont2(m),
        rt_acc1(m),
        f2,
    );
    assert(rt_cont2(m)[0] == ',');
    assert(rt_cont2(m).skip(1) =~= rt_tail3(m));
    assert(spec_parse_members(rt_tail2(m), rt_acc1(m), f2) == spec_parse_members(
        rt_tail3(m),
        rt_acc2(m),
        f3,
    ));

    lemma_opt_text_head(m.artifact_local_path);
    lemma_value_opt(key_artifact_local_path(), m.artifact_local_path, rt_cont3(m), rt_acc2(m));
    lemma_member_step(
        key_artifact_local_path(),
        opt_text(m.artifact_local_path),
        rt_acc3(m),
        rt_cont3(m),
        rt_acc2(m),
        f3,
    );
    assert(rt_cont3(m)[0] == ',');
    assert(rt_cont3(m).skip(1) =~= rt_tail4(m));
    assert(spec_parse_members(rt_tail3(m), rt_acc2(m), f3) == spec_parse_members(
        rt_tail4(m),
        rt_acc3(m),
        f4,
    ));

    lemma_opt_text_head(Some(status_name(m.status)));
    lemma_value_status(m.status, rt_cont4(m), rt_acc3(m));
    lemma_member_step(
        key_status(),
        quoted(status_name(m.status)),
        rt_acc4(m),
        rt_cont4(m),
        rt_acc3(m),
        f4,
    );
    assert(rt_cont4(m)[0] == ',');
    assert(rt_cont4(m).skip(1) =~= rt_tail5(m));
    assert(spec_parse_members(rt_tail4(m), rt_acc3(m), f4) == spec_parse_members(
        rt_tail5(m),
        rt_acc4(m),
        f5,
    ));

    lemma_members_back_half(m, f5);
}

/// After all eight members, every field of the gathered record is the
/// corresponding field of the serialized one.
proof fn lemma_acc_fields(m: MessageView)
    ensures
        rt_acc8(m) == (RecordAcc {
            id: m.id,
            artifact_url: Some(m.artifact_url),
            artifact_local_path: m.artifact_local_path,
            status: m.status,
            processed_at: m.processed_at,
            error: m.error,
            raw_body: m.raw_body,
            context: m.context,
        }),
{
    lemma_reveal_keys();
    assert(rt_acc1(m) == (RecordAcc { id: m.id, ..empty_acc() }));
    assert(rt_acc2(m) == (RecordAcc { artifact_url: Some(m.artifact_url), ..rt_acc1(m) }));
    assert(rt_acc3(m) == (RecordAcc {
        artifact_local_path: m.artifact_local_path,
        ..rt_acc2(m)
    }));
    assert(rt_acc5(m) == (RecordAcc { processed_at: m.processed_at, ..rt_acc4(m) }));
    assert(rt_acc6(m) == (RecordAcc { error: m.error, ..rt_acc5(m) }));
    assert(rt_acc7(m) == (RecordAcc { raw_body: m.raw_body, ..rt_acc6(m) }));
}

/// The serializer and the parser agree: reading back the canonical text of
/// any record yields that record, field for field, absent optional fields
/// included.
#[verifier::rlimit(100)]
pub proof fn lemma_record_round_trip(m: MessageView)
    ensures
        spec_parse_record(spec_serialize(m)) == Some(m),
{
    let s = spec_serialize(m);
    lemma_reveal_keys();
    lemma_serialize_shape(m);
    assert(s[0] == '{');
    assert(spec_skip_ws(s) == s);
    assert(s.skip(1) =~= rt_tail1(m));
    lemma_members_front_half(m, s.len());
    assert(spec_parse_members(s.skip(1), empty_acc(), s.len()) == Some(
        (rt_acc8(m), Seq::<char>::empty()),
    ));
    assert(spec_skip_ws(Seq::<char>::empty()).len() == 0);
    lemma_acc_fields(m);
    assert(finish_acc(rt_acc8(m)) == Some(m));
}

} // verus!
