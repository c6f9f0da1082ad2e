//! The messages exchanged with the API over the WebSocket connection.

use vstd::prelude::*;

verus! {

#[verifier::external_type_specification]
#[verifier::external_body]
pub struct ExJsonError(serde_json::Error);

/// One lower-case hexadecimal digit.
pub open spec fn hex_digit(n: int) -> char {
    seq!['0', '1', '2', '3', '4', '5', '6', '7', '8', '9', 'a', 'b', 'c', 'd', 'e', 'f'][n]
}

/// How one character is written inside a JSON string: quote, backslash and
/// control characters are escaped, everything else is written as it is.
pub open spec fn json_escape_char(c: char) -> Seq<char> {
    if c == '"' {
        seq!['\\', '"']
    } else if c == '\\' {
        seq!['\\', '\\']
    } else if c == '\x08' {
        seq!['\\', 'b']
    } else if c == '\t' {
        seq!['\\', 't']
    } else if c == '\n' {
        seq!['\\', 'n']
    } else if c == '\x0c' {
        seq!['\\', 'f']
    } else if c == '\r' {
        seq!['\\', 'r']
    } else if (c as int) < 0x20 {
        seq!['\\', 'u', '0', '0', hex_digit((c as int) / 16), hex_digit((c as int) % 16)]
    } else {
        seq![c]
    }
}

/// The escaped characters of a JSON string, without the surrounding quotes.
pub open spec fn json_escaped(s: Seq<char>) -> Seq<char>
    decreases s.len(),
{
    if s.len() == 0 {
        Seq::empty()
    } else {
        json_escape_char(s[0]) + json_escaped(s.drop_first())
    }
}

/// A string written as a JSON string literal.
pub open spec fn json_string(s: Seq<char>) -> Seq<char> {
    seq!['"'] + json_escaped(s) + seq!['"']
}

/// One `"key":"value"` member of a JSON object whose value is a string.
pub open spec fn json_member(key: Seq<char>, value: Seq<char>) -> Seq<char> {
    json_string(key) + seq![':'] + json_string(value)
}

/// The value of a hexadecimal digit, or -1 for any other character.
pub open spec fn hex_value(c: char) -> int {
    if '0' <= c && c <= '9' {
        c as int - '0' as int
    } else if 'a' <= c && c <= 'f' {
        c as int - 'a' as int + 10
    } else if 'A' <= c && c <= 'F' {
        c as int - 'A' as int + 10
    } else {
        -1
    }
}

/// The character that a one-letter JSON escape `\x` stands for.
pub open spec fn json_short_escape(c: char) -> Option<char> {
    if c == '"' {
        Some('"')
    } else if c == '\\' {
        Some('\\')
    } else if c == '/' {
        Some('/')
    } else if c == 'b' {
        Some('\x08')
    } else if c == 'f' {
        Some('\x0c')
    } else if c == 'n' {
        Some('\n')
    } else if c == 'r' {
        Some('\r')
    } else if c == 't' {
        Some('\t')
    } else {
        None
    }
}

/// The code point of the four hexadecimal digits after `\u` at the start of
/// `s` (which starts with the backslash), or -1.
pub open spec fn json_unicode_escape_value(s: Seq<char>) -> int {
    if s.len() >= 6 && s[1] == 'u' && hex_value(s[2]) >= 0 && hex_value(s[3]) >= 0 && hex_value(s[4]) >= 0
        && hex_value(s[5]) >= 0 {
        hex_value(s[2]) * 4096 + hex_value(s[3]) * 256 + hex_value(s[4]) * 16 + hex_value(s[5])
    } else {
        -1
    }
}

/// Prepends a decoded character and the length it took to a read result.
pub open spec fn json_prepend(c: char, n: int, r: Option<(Seq<char>, int)>) -> Option<(Seq<char>, int)> {
    match r {
        Some((t, m)) => Some((seq![c] + t, n + m)),
        None => None,
    }
}

/// Reads the rest of a JSON string literal, after its opening quote, as the
/// JSON grammar defines it (escapes of code points outside the surrogate
/// range): the characters it stands for and the length read, the closing
/// quote included; `None` where `s` does not continue a string literal.
pub open spec fn json_read_string_rest(s: Seq<char>) -> Option<(Seq<char>, int)>
    decreases s.len(),
{
    if s.len() == 0 {
        None
    } else if s[0] == '"' {
        Some((Seq::empty(), 1))
    } else if s[0] == '\\' {
        if s.len() >= 2 && json_short_escape(s[1]) is Some {
            json_prepend(json_short_escape(s[1])->0, 2, json_read_string_rest(s.skip(2)))
        } else if json_unicode_escape_value(s) >= 0 && !(0xD800 <= json_unicode_escape_value(s) <= 0xDFFF) {
            json_prepend(json_unicode_escape_value(s) as char, 6, json_read_string_rest(s.skip(6)))
        } else {
            None
        }
    } else if (s[0] as int) < 0x20 {
        None
    } else {
        json_prepend(s[0], 1, json_read_string_rest(s.drop_first()))
    }
}

/// Reads a JSON string literal at the start of `s`: the characters it stands
/// for and its length.
pub open spec fn json_read_string(s: Seq<char>) -> Option<(Seq<char>, int)> {
    if s.len() > 0 && s[0] == '"' {
        match json_read_string_rest(s.drop_first()) {
            Some((t, m)) => Some((t, m + 1)),
            None => None,
        }
    } else {
        None
    }
}

/// A lower-case hexadecimal digit reads back as its value.
proof fn lemma_hex_digit_value(n: int)
    requires
        0 <= n < 16,
    ensures
        hex_value(hex_digit(n)) == n,
{
    assert(seq!['0', '1', '2', '3', '4', '5', '6', '7', '8', '9', 'a', 'b', 'c', 'd', 'e', 'f'][n] == hex_digit(n));
}

/// Reading the escape of one character, followed by anything, gives that
/// character back and goes on right after the escape.
proof fn lemma_read_escaped_char(c: char, rest: Seq<char>)
    ensures
        json_read_string_rest(json_escape_char(c) + rest) == json_prepend(c, json_escape_char(c).len() as int, json_read_string_rest(rest)),
{
    let e = json_escape_char(c);
    let t = e + rest;
    if e.len() == 2 {
        assert(t.skip(2) =~= rest);
    } else if e.len() == 6 {
        let v = c as int;
        lemma_hex_digit_value(v / 16);
        lemma_hex_digit_value(v % 16);
        assert(t[2] == '0' && t[3] == '0');
        assert(json_unicode_escape_value(t) == v);
        assert(t.skip(6) =~= rest);
    } else {
        assert(t.drop_first() =~= rest);
    }
}

/// Reading an escaped string followed by a quote gives the string back and
/// stops at that quote, whatever follows it.
pub proof fn lemma_json_escaped_reads_back(s: Seq<char>, rest: Seq<char>)
    ensures
        json_read_string_rest(json_escaped(s) + seq!['"'] + rest) == Some((s, json_escaped(s).len() + 1 as int)),
    decreases s.len(),
{
    if s.len() == 0 {
        assert(json_escaped(s) + seq!['"'] + rest =~= seq!['"'] + rest);
        assert(s =~= Seq::<char>::empty());
    } else {
        let tail = json_escaped(s.drop_first()) + seq!['"'] + rest;
        lemma_json_escaped_reads_back(s.drop_first(), rest);
        lemma_read_escaped_char(s[0], tail);
        assert(json_escaped(s) + seq!['"'] + rest =~= json_escape_char(s[0]) + tail);
        assert(seq![s[0]] + s.drop_first() =~= s);
    }
}

/// A string written as a JSON string literal reads back as the same string,
/// whatever text follows the literal.
pub proof fn lemma_json_string_reads_back(s: Seq<char>, rest: Seq<char>)
    ensures
        json_read_string(json_string(s) + rest) == Some((s, json_string(s).len() as int)),
{
    let t = json_string(s) + rest;
    assert(t.drop_first() =~= json_escaped(s) + seq!['"'] + rest);
    lemma_json_escaped_reads_back(s, rest);
}

/// Reads the members `"key":"value"` of a JSON object whose values are
/// strings, after its opening brace: comma-separated, up to the closing brace,
/// which must end the text.
#[verifier::opaque]
pub open spec fn json_read_members(s: Seq<char>) -> Option<Seq<(Seq<char>, Seq<char>)>>
    decreases s.len(),
{
    match json_read_string(s) {
        Some((k, n)) => if 0 < n < s.len() && s[n] == ':' {
            match json_read_string(s.skip(n + 1)) {
                Some((v, m)) => {
                    let after = n + 1 + m;
                    if 0 <= m && after < s.len() && s[after] == ',' {
                        match json_read_members(s.skip(after + 1)) {
                            Some(ms) => Some(seq![(k, v)] + ms),
                            None => None,
                        }
                    } else if 0 <= m && after == s.len() - 1 && s[after] == '}' {
                        Some(seq![(k, v)])
                    } else {
                        None
                    }
                },
                None => None,
            }
        } else {
            None
        },
        None => None,
    }
}

/// Reads a JSON object whose values are strings: its members in order.
pub open spec fn json_read_object(s: Seq<char>) -> Option<Seq<(Seq<char>, Seq<char>)>> {
    if s.len() > 0 && s[0] == '{' {
        json_read_members(s.drop_first())
    } else {
        None
    }
}

/// A member followed by a comma reads back as that member, then the members
/// after the comma.
proof fn lemma_read_member_then_more(k: Seq<char>, v: Seq<char>, t: Seq<char>)
    ensures
        json_read_members(json_member(k, v) + seq![','] + t) == (match json_read_members(t) {
            Some(ms) => Some(seq![(k, v)] + ms),
            None => None,
        }),
{
    reveal(json_read_members);
    let s = json_member(k, v) + seq![','] + t;
    let n = json_string(k).len() as int;
    let m = json_string(v).len() as int;
    lemma_json_string_reads_back(k, seq![':'] + json_string(v) + seq![','] + t);
    assert(s =~= json_string(k) + (seq![':'] + json_string(v) + seq![','] + t));
    assert(s.skip(n + 1) =~= json_string(v) + (seq![','] + t));
    lemma_json_string_reads_back(v, seq![','] + t);
    assert(s[n + 1 + m] == ',');
    assert(s.skip(n + 1 + m + 1) =~= t);
}

/// A member followed by the closing brace reads back as that one member.
proof fn lemma_read_last_member(k: Seq<char>, v: Seq<char>)
    ensures
        json_read_members(json_member(k, v) + seq!['}']) == Some(seq![(k, v)]),
{
    reveal(json_read_members);
    let s = json_member(k, v) + seq!['}'];
    let n = json_string(k).len() as int;
    let m = json_string(v).len() as int;
    lemma_json_string_reads_back(k, seq![':'] + json_string(v) + seq!['}']);
    assert(s =~= json_string(k) + (seq![':'] + json_string(v) + seq!['}']));
    assert(s.skip(n + 1) =~= json_string(v) + seq!['}']);
    lemma_json_string_reads_back(v, seq!['}']);
    assert(s[n + 1 + m] == '}');
}

/// `serde_json::to_string` applied to a string slice. Its source writes the
/// string into a `Vec<u8>` (a writer that never fails) as a quoted literal in
/// which `"` and `\` are escaped with a backslash, the controls 08, 09, 0A, 0C
/// and 0D as `\b \t \n \f \r`, the other controls below 0x20 as `\u00xx` with
/// lower-case hex digits, and every other character is copied: so it returns
/// `Ok` with exactly that text.
#[verifier::external_body]
fn json_string_literal(s: &str) -> (r: Result<String, serde_json::Error>)
    ensures
        r is Ok,
        r matches Ok(j) ==> j@ == json_string(s@),
{
    serde_json::to_string(s)
}

/// Appends the JSON string literal of `s` to `out`.
fn push_json_string(out: &mut String, s: &str)
    ensures
        final(out)@ == old(out)@ + json_string(s@),
{
    match json_string_literal(s) {
        Ok(j) => out.append(j.as_str()),
        Err(_) => unreached(),
    }
}

/// Appends the member `"key":"value"` to `out`.
fn push_json_member(out: &mut String, key: &str, value: &str)
    ensures
        final(out)@ == old(out)@ + json_member(key@, value@),
{
    push_json_string(out, key);
    out.append(":");
    proof {
        reveal_strlit(":");
    }
    push_json_string(out, value);
}

/// The message sent first after connecting: it names the server and carries the
/// secret that the API checks.
#[derive(Debug, Clone)]
pub struct AuthMessage {
    /// The message type, always `auth`; written as the `type` member.
    pub action: String,
    pub server: String,
    pub server_type: String,
    pub secret_key: String,
}

/// The JSON text of an authentication message, members in declaration order.
pub open spec fn auth_json(action: Seq<char>, server: Seq<char>, server_type: Seq<char>, secret_key: Seq<char>) -> Seq<char> {
    seq!['{'] + json_member("type"@, action) + seq![','] + json_member("server"@, server) + seq![',']
        + json_member("server_type"@, server_type) + seq![','] + json_member("secret_key"@, secret_key)
        + seq!['}']
}

impl AuthMessage {
    /// A new authentication message for `server` of kind `server_type`.
    pub fn new(server: &str, server_type: &str, secret_key: &str) -> (m: Self)
        ensures
            m.action@ == "auth"@,
            m.server@ == server@,
            m.server_type@ == server_type@,
            m.secret_key@ == secret_key@,
    {
        AuthMessage {
            action: String::from_str("auth"),
            server: String::from_str(server),
            server_type: String::from_str(server_type),
            secret_key: String::from_str(secret_key),
        }
    }

    /// The message as the JSON object that the API reads.
    pub fn to_json(&self) -> (r: Result<String, serde_json::Error>)
        ensures
            r is Ok,
            r matches Ok(j) ==> j@ == auth_json(self.action@, self.server@, self.server_type@, self.secret_key@),
    {
        let mut out = String::from_str("{");
        push_json_member(&mut out, "type", self.action.as_str());
        out.append(",");
        push_json_member(&mut out, "server", self.server.as_str());
        out.append(",");
        push_json_member(&mut out, "server_type", self.server_type.as_str());
        out.append(",");
        push_json_member(&mut out, "secret_key", self.secret_key.as_str());
        out.append("}");
        proof {
            reveal_strlit("{");
            reveal_strlit(",");
            reveal_strlit("}");
        }
        Ok(out)
    }
}

/// One line of the server console, sent as it was read (after filtering).
#[derive(Debug, Clone)]
pub struct StdoutMessage {
    /// The message type, always `stdout`; written as the `type` member.
    pub msg_type: String,
    pub server: String,
    pub content: String,
}

/// The JSON text of a console-line message, members in declaration order.
pub open spec fn stdout_json(msg_type: Seq<char>, server: Seq<char>, content: Seq<char>) -> Seq<char> {
    seq!['{'] + json_member("type"@, msg_type) + seq![','] + json_member("server"@, server) + seq![',']
        + json_member("content"@, content) + seq!['}']
}

impl StdoutMessage {
    /// A new console-line message of `server` holding `content`.
    pub fn new(server: &str, content: String) -> (m: Self)
        ensures
            m.msg_type@ == "stdout"@,
            m.server@ == server@,
            m.content == content,
    {
        StdoutMessage { msg_type: String::from_str("stdout"), server: String::from_str(server), content }
    }

    /// The message as the JSON object that the API reads.
    pub fn to_json(&self) -> (r: Result<String, serde_json::Error>)
        ensures
            r is Ok,
            r matches Ok(j) ==> j@ == stdout_json(self.msg_type@, self.server@, self.content@),
    {
        let mut out = String::from_str("{");
        push_json_member(&mut out, "type", self.msg_type.as_str());
        out.append(",");
        push_json_member(&mut out, "server", self.server.as_str());
        out.append(",");
        push_json_member(&mut out, "content", self.content.as_str());
        out.append("}");
        proof {
            reveal_strlit("{");
            reveal_strlit(",");
            reveal_strlit("}");
        }
        Ok(out)
    }
}

/// A message received from the API, as told apart by its `action` member.
#[derive(Debug, Clone)]
pub enum IncomingMessage {
    /// The API accepted the authentication of `server`.
    AuthSuccess { server: String },
    /// A command that `server` is to write to the console.
    Stdin { server: String, content: String },
    /// Any other action: ignored.
    Unknown,
}

/// The JSON text of an authentication message reads back, as a JSON object,
/// as its four members in order, each value equal to the field it was written from.
pub proof fn lemma_auth_json_reads_back(action: Seq<char>, server: Seq<char>, server_type: Seq<char>, secret_key: Seq<char>)
    ensures
        json_read_object(auth_json(action, server, server_type, secret_key)) == Some(
            seq![("type"@, action), ("server"@, server), ("server_type"@, server_type), ("secret_key"@, secret_key)],
        ),
{
    let m1 = json_member("type"@, action);
    let m2 = json_member("server"@, server);
    let m3 = json_member("server_type"@, server_type);
    let m4 = json_member("secret_key"@, secret_key);
    let s = auth_json(action, server, server_type, secret_key);
    let t4 = m4 + seq!['}'];
    let t3 = m3 + seq![','] + t4;
    let t2 = m2 + seq![','] + t3;
    let r4 = seq![("secret_key"@, secret_key)];
    let r3 = seq![("server_type"@, server_type)] + r4;
    let r2 = seq![("server"@, server)] + r3;
    let r1 = seq![("type"@, action)] + r2;
    assert(json_read_members(t4) == Some(r4)) by {
        lemma_read_last_member("secret_key"@, secret_key);
    }
    assert(json_read_members(t3) == Some(r3)) by {
        lemma_read_member_then_more("server_type"@, server_type, t4);
    }
    assert(json_read_members(t2) == Some(r2)) by {
        lemma_read_member_then_more("server"@, server, t3);
    }
    assert(json_read_members(m1 + seq![','] + t2) == Some(r1)) by {
        lemma_read_member_then_more("type"@, action, t2);
    }
    assert(s.drop_first() =~= m1 + seq![','] + t2);
    assert(s[0] == '{');
    assert(r1 =~= seq![("type"@, action), ("server"@, server), ("server_type"@, server_type), ("secret_key"@, secret_key)]);
}

/// The JSON text of a console-line message reads back, as a JSON object, as
/// its three members in order, each value equal to the field it was written from.
pub proof fn lemma_stdout_json_reads_back(msg_type: Seq<char>, server: Seq<char>, content: Seq<char>)
    ensures
        json_read_object(stdout_json(msg_type, server, content)) == Some(
            seq![("type"@, msg_type), ("server"@, server), ("content"@, content)],
        ),
{
    let m1 = json_member("type"@, msg_type);
    let m2 = json_member("server"@, server);
    let m3 = json_member("content"@, content);
    let s = stdout_json(msg_type, server, content);
    let t3 = m3 + seq!['}'];
    let t2 = m2 + seq![','] + t3;
    let r3 = seq![("content"@, content)];
    let r2 = seq![("server"@, server)] + r3;
    let r1 = seq![("type"@, msg_type)] + r2;
    assert(json_read_members(t3) == Some(r3)) by {
        lemma_read_last_member("content"@, content);
    }
    assert(json_read_members(t2) == Some(r2)) by {
        lemma_read_member_then_more("server"@, server, t3);
    }
    assert(json_read_members(m1 + seq![','] + t2) == Some(r1)) by {
        lemma_read_member_then_more("type"@, msg_type, t2);
    }
    assert(s.drop_first() =~= m1 + seq![','] + t2);
    assert(s[0] == '{');
    assert(r1 =~= seq![("type"@, msg_type), ("server"@, server), ("content"@, content)]);
}

/// Any message that goes to the API.
#[derive(Debug, Clone)]
pub enum OutgoingMessage {
    Auth(AuthMessage),
    Stdout(StdoutMessage),
}

/// The JSON text of an outgoing message.
pub open spec fn outgoing_json(m: OutgoingMessage) -> Seq<char> {
    match m {
        OutgoingMessage::Auth(a) => auth_json(a.action@, a.server@, a.server_type@, a.secret_key@),
        OutgoingMessage::Stdout(o) => stdout_json(o.msg_type@, o.server@, o.content@),
    }
}

/// Every outgoing message is written as a JSON object that reads back to
/// exactly its fields, in order: the escaping keeps any text inside its
/// string (quotes, backslashes and control characters included).
pub proof fn lemma_outgoing_json_reads_back(m: OutgoingMessage)
    ensures
        m matches OutgoingMessage::Auth(a) ==> json_read_object(outgoing_json(m)) == Some(
            seq![("type"@, a.action@), ("server"@, a.server@), ("server_type"@, a.server_type@), ("secret_key"@, a.secret_key@)],
        ),
        m matches OutgoingMessage::Stdout(o) ==> json_read_object(outgoing_json(m)) == Some(
            seq![("type"@, o.msg_type@), ("server"@, o.server@), ("content"@, o.content@)],
        ),
{
    match m {
        OutgoingMessage::Auth(a) => lemma_auth_json_reads_back(a.action@, a.server@, a.server_type@, a.secret_key@),
        OutgoingMessage::Stdout(o) => lemma_stdout_json_reads_back(o.msg_type@, o.server@, o.content@),
    }
}

impl OutgoingMessage {
    /// The message as the JSON object that the API reads; this never fails.
    pub fn to_json(&self) -> (r: Result<String, serde_json::Error>)
        ensures
            r is Ok,
            r matches Ok(j) ==> j@ == outgoing_json(*self),
    {
        match self {
            OutgoingMessage::Auth(msg) => msg.to_json(),
            OutgoingMessage::Stdout(msg) => msg.to_json(),
        }
    }
}

} // verus!
