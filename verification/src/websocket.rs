//! The streaming client's verified half: the wire protocol's text, the
//! connection state machine with its backoff and liveness rules, and the
//! caller-side cache of connection state. The sockets, threads and queues
//! around it live outside the library.
//!
//! The wire protocol is a stream of single, self-describing tagged JSON
//! messages in the canonical forms below; an inbound message in any other
//! shape is ignored, or fails authentication where a reply is required.

use vstd::prelude::*;
use vstd::string::StrSliceExecFns;
use vstd::string::StringExecFns;
use crate::config::ServerSettings;
use crate::json::append_json_quoted;
use crate::json::json_escape_char;
use crate::json::json_escape_seq;
use crate::json::json_string_seq;
use crate::json::hex_digit_char;
use crate::json::is_json_ws;
use crate::json::lemma_non_ws_concat;
use crate::json::lemma_non_ws_id;
use crate::json::non_ws_of;
use crate::json::hex_val;
use crate::json::lemma_hex_digit_round_trip;
use crate::outside::scheme_of;
use crate::outside::url_scheme;
use crate::route::join_comma;
use crate::route::lemma_join_comma_push;
use crate::strtext::starts_with;
use crate::strtext::str_eq;

verus! {

/// Connection status, as shown to the rest of the program.
#[derive(Debug, Clone, Copy, PartialEq, Eq, Structural)]
pub enum ConnectionStatus {
    /// No connection, and none being made.
    Disconnected,
    /// The transport is being opened.
    Connecting,
    /// The transport is open; the authentication reply is awaited.
    Authenticating,
    /// Authenticated and live.
    Connected,
    /// A dropped connection is about to be retried.
    Reconnecting,
    /// The last attempt failed.
    Error,
}

/// Display text of a connection status.
pub open spec fn status_text_seq(s: ConnectionStatus) -> Seq<char> {
    match s {
        ConnectionStatus::Disconnected => "Disconnected"@,
        ConnectionStatus::Connecting => "Connecting..."@,
        ConnectionStatus::Authenticating => "Authenticating..."@,
        ConnectionStatus::Connected => "Connected"@,
        ConnectionStatus::Reconnecting => "Reconnecting..."@,
        ConnectionStatus::Error => "Error"@,
    }
}

impl ConnectionStatus {
    /// Display text for the status.
    pub fn display_text(&self) -> (r: &'static str)
        ensures
            r@ == status_text_seq(*self),
    {
        match self {
            ConnectionStatus::Disconnected => "Disconnected",
            ConnectionStatus::Connecting => "Connecting...",
            ConnectionStatus::Authenticating => "Authenticating...",
            ConnectionStatus::Connected => "Connected",
            ConnectionStatus::Reconnecting => "Reconnecting...",
            ConnectionStatus::Error => "Error",
        }
    }
}

/// Messages handed to the streaming actor.
#[derive(Debug)]
pub enum OutgoingMessage {
    /// Send a discovery event.
    Discovery {
        /// The crossing's entry zone.
        source: String,
        /// The crossing's exit zone.
        target: String,
    },
    /// Respond to a server ping.
    Pong,
    /// Shut the connection down.
    Shutdown,
}

/// Messages handed back from the streaming actor.
#[derive(Debug)]
pub enum IncomingMessage {
    /// The connection status changed.
    StatusChanged(ConnectionStatus),
    /// The server acknowledged a discovery.
    DiscoveryAck {
        /// The links the server propagated in response.
        propagated: Vec<PropagatedLink>,
    },
    /// The server reported an error.
    Error(String),
    /// The server sent a ping.
    Ping,
}

/// A propagated link from a discovery acknowledgement.
#[derive(Debug, Clone)]
pub struct PropagatedLink {
    /// The link's source zone.
    pub source: String,
    /// The link's target zone.
    pub target: String,
}

/// View of a link: its two zone texts.
pub open spec fn link_view(l: PropagatedLink) -> (Seq<char>, Seq<char>) {
    (l.source@, l.target@)
}

// ---------------------------------------------------------------------
// Wire text
// ---------------------------------------------------------------------

/// The authentication message for a bearer token.
pub open spec fn auth_json_seq(token: Seq<char>) -> Seq<char> {
    "{\"type\":\"auth\",\"token\":"@ + json_string_seq(token) + "}"@
}

/// The discovery message for an entry and exit zone.
pub open spec fn discovery_json_seq(source: Seq<char>, target: Seq<char>) -> Seq<char> {
    "{\"type\":\"discovery\",\"source\":"@ + json_string_seq(source) + ",\"target\":"@
        + json_string_seq(target) + "}"@
}

/// The pong message.
pub open spec fn pong_json_seq() -> Seq<char> {
    "{\"type\":\"pong\"}"@
}

/// The server's authentication success message.
pub open spec fn auth_ok_json_seq() -> Seq<char> {
    "{\"type\":\"auth_ok\"}"@
}

/// The server's ping message.
pub open spec fn ping_json_seq() -> Seq<char> {
    "{\"type\":\"ping\"}"@
}

/// The server's authentication failure message.
pub open spec fn auth_error_json_seq(message: Seq<char>) -> Seq<char> {
    "{\"type\":\"auth_error\",\"message\":"@ + json_string_seq(message) + "}"@
}

/// The server's error message.
pub open spec fn error_json_seq(message: Seq<char>) -> Seq<char> {
    "{\"type\":\"error\",\"message\":"@ + json_string_seq(message) + "}"@
}

/// One link inside a discovery acknowledgement.
pub open spec fn link_json_seq(l: (Seq<char>, Seq<char>)) -> Seq<char> {
    "{\"source\":"@ + json_string_seq(l.0) + ",\"target\":"@ + json_string_seq(l.1) + "}"@
}

/// The server's discovery acknowledgement with its propagated links.
pub open spec fn discovery_ack_json_seq(links: Seq<(Seq<char>, Seq<char>)>) -> Seq<char> {
    "{\"type\":\"discovery_ack\",\"propagated\":["@ + join_comma(
        links.map_values(|l: (Seq<char>, Seq<char>)| link_json_seq(l)),
    ) + "]}"@
}

/// Encode the authentication message for a token.
pub fn encode_auth(token: &str) -> (r: String)
    ensures
        r@ == auth_json_seq(token@),
{
    let mut s = String::new();
    s.append("{\"type\":\"auth\",\"token\":");
    proof {
        assert(s@ =~= "{\"type\":\"auth\",\"token\":"@);
    }
    append_json_quoted(&mut s, token);
    s.append("}");
    proof {
        assert(s@ == auth_json_seq(token@));
    }
    s
}

/// Encode a discovery message for an entry and exit zone.
pub fn encode_discovery(source: &str, target: &str) -> (r: String)
    ensures
        r@ == discovery_json_seq(source@, target@),
{
    let mut s = String::new();
    s.append("{\"type\":\"discovery\",\"source\":");
    proof {
        assert(s@ =~= "{\"type\":\"discovery\",\"source\":"@);
    }
    append_json_quoted(&mut s, source);
    s.append(",\"target\":");
    append_json_quoted(&mut s, target);
    s.append("}");
    proof {
        assert(s@ == discovery_json_seq(source@, target@));
    }
    s
}

/// Encode the pong message.
pub fn encode_pong() -> (r: String)
    ensures
        r@ == pong_json_seq(),
{
    let s = String::from_str("{\"type\":\"pong\"}");
    s
}

/// A classified server message.
#[derive(Debug)]
pub enum ResponseKind {
    /// Authentication succeeded.
    AuthOk,
    /// Authentication failed, with the server's message.
    AuthError(String),
    /// A discovery was acknowledged, with the propagated links.
    DiscoveryAck(Vec<PropagatedLink>),
    /// The server pinged.
    Ping,
    /// The server reported an error.
    Error(String),
    /// Anything else; ignored.
    Unrecognized,
}

/// The character a canonical short escape stands for.
pub open spec fn short_unescape(e: char) -> char {
    if e == '"' {
        '"'
    } else if e == '\\' {
        '\\'
    } else if e == 'n' {
        '\n'
    } else if e == 'r' {
        '\r'
    } else {
        '\t'
    }
}

/// The control character with the given code; used when decoding a
/// canonical `\u00XX` escape.
pub open spec fn control_char_of(v: int) -> char {
    if v == 0 {
        '\u{0}'
    } else if v == 1 {
        '\u{1}'
    } else if v == 2 {
        '\u{2}'
    } else if v == 3 {
        '\u{3}'
    } else if v == 4 {
        '\u{4}'
    } else if v == 5 {
        '\u{5}'
    } else if v == 6 {
        '\u{6}'
    } else if v == 7 {
        '\u{7}'
    } else if v == 8 {
        '\u{8}'
    } else if v == 9 {
        '\u{9}'
    } else if v == 10 {
        '\u{a}'
    } else if v == 11 {
        '\u{b}'
    } else if v == 12 {
        '\u{c}'
    } else if v == 13 {
        '\u{d}'
    } else if v == 14 {
        '\u{e}'
    } else if v == 15 {
        '\u{f}'
    } else if v == 16 {
        '\u{10}'
    } else if v == 17 {
        '\u{11}'
    } else if v == 18 {
        '\u{12}'
    } else if v == 19 {
        '\u{13}'
    } else if v == 20 {
        '\u{14}'
    } else if v == 21 {
        '\u{15}'
    } else if v == 22 {
        '\u{16}'
    } else if v == 23 {
        '\u{17}'
    } else if v == 24 {
        '\u{18}'
    } else if v == 25 {
        '\u{19}'
    } else if v == 26 {
        '\u{1a}'
    } else if v == 27 {
        '\u{1b}'
    } else if v == 28 {
        '\u{1c}'
    } else if v == 29 {
        '\u{1d}'
    } else if v == 30 {
        '\u{1e}'
    } else if v == 31 {
        '\u{1f}'
    } else {
        '\u{1f}'
    }
}

/// A character with a control code is the table's character for that code.
proof fn lemma_control_char(c: char)
    requires
        (c as u32) < 32,
    ensures
        control_char_of((c as u32) as int) == c,
{
    vstd::utf8::char_u32_cast(c, c as u32);
    vstd::utf8::char_u32_cast(control_char_of((c as u32) as int), c as u32);
}

/// Decode a canonically escaped string body from position `i`: the
/// decoded characters up to an unescaped closing quote and the position
/// after it, or nothing when the text is not in canonical form.
pub open spec fn parse_string_body(s: Seq<char>, i: int) -> Option<(Seq<char>, int)>
    decreases s.len() - i,
{
    if i < 0 || i >= s.len() {
        None
    } else if s[i] == '"' {
        Some((Seq::<char>::empty(), i + 1))
    } else if s[i] == '\\' {
        if i + 1 >= s.len() {
            None
        } else {
            let e = s[i + 1];
            if e == '"' || e == '\\' || e == 'n' || e == 'r' || e == 't' {
                match parse_string_body(s, i + 2) {
                    Some(p) => Some((seq![short_unescape(e)] + p.0, p.1)),
                    None => None,
                }
            } else if e == 'u' {
                if i + 5 >= s.len() {
                    None
                } else {
                    let v = 16 * hex_val(s[i + 4]) + hex_val(s[i + 5]);
                    if s[i + 2] == '0' && s[i + 3] == '0' && hex_val(s[i + 4]) < 16 && hex_val(
                        s[i + 5],
                    ) < 16 && v < 32 && v != 9 && v != 10 && v != 13 {
                        match parse_string_body(s, i + 6) {
                            Some(p) => Some((seq![control_char_of(v)] + p.0, p.1)),
                            None => None,
                        }
                    } else {
                        None
                    }
                }
            } else {
                None
            }
        }
    } else if (s[i] as u32) >= 0x20 {
        match parse_string_body(s, i + 1) {
            Some(p) => Some((seq![s[i]] + p.0, p.1)),
            None => None,
        }
    } else {
        None
    }
}

/// Parse a whole canonical JSON string at `start`: an opening quote, a
/// canonical body, a closing quote.
pub open spec fn spec_parse_string(s: Seq<char>, start: int) -> Option<(Seq<char>, int)> {
    if 0 <= start < s.len() && s[start] == '"' {
        parse_string_body(s, start + 1)
    } else {
        None
    }
}

/// What a decoded body covers: exactly the canonical escaping of the
/// decoded characters, then the closing quote.
pub proof fn lemma_string_body_sound(s: Seq<char>, i: int)
    ensures
        parse_string_body(s, i) matches Some(p) ==> 0 <= i < p.1 <= s.len() && s.subrange(
            i,
            p.1,
        ) == json_escape_seq(p.0) + seq!['"'],
    decreases s.len() - i,
{
    if 0 <= i < s.len() && parse_string_body(s, i) is Some {
        let p = parse_string_body(s, i).unwrap();
        if s[i] == '"' {
            assert(s.subrange(i, i + 1) =~= seq![s[i]]);
            assert(json_escape_seq(p.0) + seq!['"'] =~= seq!['"']);
        } else if s[i] == '\\' {
            let e = s[i + 1];
            if e == '"' || e == '\\' || e == 'n' || e == 'r' || e == 't' {
                lemma_string_body_sound(s, i + 2);
                let q = parse_string_body(s, i + 2).unwrap();
                let c = short_unescape(e);
                assert((seq![c] + q.0).drop_first() =~= q.0);
                assert((seq![c] + q.0)[0] == c);
                assert(json_escape_seq(p.0) =~= json_escape_char(c) + json_escape_seq(q.0));
                assert(json_escape_char(c) =~= seq![s[i], s[i + 1]]);
                assert(s.subrange(i, p.1) =~= s.subrange(i, i + 2) + s.subrange(i + 2, p.1));
                assert(s.subrange(i, i + 2) =~= seq![s[i], s[i + 1]]);
                assert(s.subrange(i, p.1) =~= json_escape_seq(p.0) + seq!['"']);
            } else {
                let v = 16 * hex_val(s[i + 4]) + hex_val(s[i + 5]);
                lemma_string_body_sound(s, i + 6);
                let q = parse_string_body(s, i + 6).unwrap();
                let c = control_char_of(v);
                assert((seq![c] + q.0).drop_first() =~= q.0);
                assert((seq![c] + q.0)[0] == c);
                assert(json_escape_seq(p.0) =~= json_escape_char(c) + json_escape_seq(q.0));
                assert((c as u32) as int == v);
                lemma_hex_digit_round_trip(hex_val(s[i + 4]));
                lemma_hex_digit_round_trip(hex_val(s[i + 5]));
                assert(s[i + 4] == hex_digit_char(v / 16));
                assert(s[i + 5] == hex_digit_char(v % 16));
                assert(json_escape_char(c) =~= seq![
                    s[i],
                    s[i + 1],
                    s[i + 2],
                    s[i + 3],
                    s[i + 4],
                    s[i + 5],
                ]);
                assert(s.subrange(i, p.1) =~= s.subrange(i, i + 6) + s.subrange(i + 6, p.1));
                assert(s.subrange(i, i + 6) =~= seq![
                    s[i],
                    s[i + 1],
                    s[i + 2],
                    s[i + 3],
                    s[i + 4],
                    s[i + 5],
                ]);
                assert(s.subrange(i, p.1) =~= json_escape_seq(p.0) + seq!['"']);
            }
        } else {
            lemma_string_body_sound(s, i + 1);
            let q = parse_string_body(s, i + 1).unwrap();
            let c = s[i];
            assert((seq![c] + q.0).drop_first() =~= q.0);
            assert((seq![c] + q.0)[0] == c);
            assert(json_escape_seq(p.0) =~= json_escape_char(c) + json_escape_seq(q.0));
            assert(json_escape_char(c) =~= seq![c]);
            assert(s.subrange(i, p.1) =~= s.subrange(i, i + 1) + s.subrange(i + 1, p.1));
            assert(s.subrange(i, i + 1) =~= seq![c]);
            assert(s.subrange(i, p.1) =~= json_escape_seq(p.0) + seq!['"']);
        }
    }
}

/// Canonically escaped text always decodes: wherever the escaping of `m`
/// and a closing quote sit in the text, the body parser finds exactly `m`.
pub proof fn lemma_string_body_complete(m: Seq<char>, s: Seq<char>, i: int)
    requires
        0 <= i,
        i + json_escape_seq(m).len() + 1 <= s.len(),
        s.subrange(i, i + json_escape_seq(m).len() + 1) == json_escape_seq(m) + seq!['"'],
    ensures
        parse_string_body(s, i) == Some((m, i + json_escape_seq(m).len() + 1)),
    decreases m.len(),
{
    let le = json_escape_seq(m).len() as int;
    let sub = s.subrange(i, i + le + 1);
    assert(forall|j: int| 0 <= j < le + 1 ==> #[trigger] sub[j] == s[i + j]);
    if m.len() == 0 {
        assert(json_escape_seq(m) =~= Seq::<char>::empty());
        assert(sub[0] == s[i]);
        assert(s[i] == '"');
    } else {
        let c = m[0];
        let rest = m.drop_first();
        assert(json_escape_seq(m) =~= json_escape_char(c) + json_escape_seq(rest));
        let k = json_escape_char(c).len() as int;
        assert forall|j: int| 0 <= j < k implies s[i + j] == json_escape_char(c)[j] by {
            assert(sub[j] == s[i + j]);
            assert(sub[j] == json_escape_char(c)[j]);
        }
        let lr = json_escape_seq(rest).len() as int;
        assert(le == k + lr);
        assert(s.subrange(i + k, i + k + lr + 1) =~= json_escape_seq(rest) + seq!['"']) by {
            assert(forall|j: int|
                0 <= j < lr + 1 ==> #[trigger] s.subrange(i + k, i + k + lr + 1)[j] == s[i + k
                    + j]);
            assert(forall|j: int|
                0 <= j < lr + 1 ==> #[trigger] (json_escape_seq(rest) + seq!['"'])[j] == (
                json_escape_seq(m) + seq!['"'])[k + j]);
        }
        lemma_string_body_complete(rest, s, i + k);
        if c == '"' || c == '\\' {
            assert(s[i] == '\\');
            assert(s[i + 1] == c);
            assert(short_unescape(s[i + 1]) == c);
            assert(seq![c] + rest =~= m);
        } else if c == '\n' || c == '\r' || c == '\t' {
            assert(s[i] == '\\');
            assert(short_unescape(s[i + 1]) == c);
            assert(seq![c] + rest =~= m);
        } else if (c as u32) < 0x20 {
            let u = (c as u32) as int;
            assert(s[i] == '\\');
            assert(s[i + 1] == 'u');
            assert(s[i + 2] == '0');
            assert(s[i + 3] == '0');
            assert(s[i + 4] == hex_digit_char(u / 16));
            assert(s[i + 5] == hex_digit_char(u % 16));
            lemma_hex_digit_round_trip(u / 16);
            lemma_hex_digit_round_trip(u % 16);
            assert(hex_val(s[i + 4]) == u / 16);
            assert(hex_val(s[i + 5]) == u % 16);
            assert(16 * hex_val(s[i + 4]) + hex_val(s[i + 5]) == u);
            lemma_control_char(c);
            assert(seq![c] + rest =~= m);
        } else {
            assert(s[i + 0] == json_escape_char(c)[0]);
            assert(json_escape_char(c)[0] == c);
            assert(seq![c] + rest =~= m);
        }
    }
}

/// Parse a canonical JSON string starting at `start`: a quote, characters
/// in their canonical escaping, and a closing quote. The result is exactly
/// what the canonical grammar gives, both ways.
#[verifier::loop_isolation(false)]
#[verifier::rlimit(100)]
fn parse_canonical_string(s: &str, start: usize) -> (r: Option<(String, usize)>)
    requires
        start <= s@.len(),
    ensures
        match r {
            Some(p) => spec_parse_string(s@, start as int) == Some((p.0@, p.1 as int)) && start
                < p.1 <= s@.len() && s@.subrange(start as int, p.1 as int) == json_string_seq(
                p.0@,
            ),
            None => spec_parse_string(s@, start as int) is None,
        },
{
    let n = s.unicode_len();
    if start >= n || s.get_char(start) != '"' {
        return None;
    }
    let mut out = String::new();
    let mut i: usize = start + 1;
    proof {
        assert(out@ =~= Seq::<char>::empty());
    }
    while i < n
        invariant
            start + 1 <= i <= n,
            (match parse_string_body(s@, i as int) {
                Some(p) => parse_string_body(s@, start as int + 1) == Some((out@ + p.0, p.1)),
                None => parse_string_body(s@, start as int + 1) is None,
            }),
        decreases n - i,
    {
        let c = s.get_char(i);
        if c == '"' {
            proof {
                assert(out@ + Seq::<char>::empty() =~= out@);
                lemma_string_body_sound(s@, start as int + 1);
                assert(s@.subrange(start as int, i as int + 1) =~= seq!['"'] + s@.subrange(
                    start as int + 1,
                    i as int + 1,
                ));
            }
            return Some((out, i + 1));
        }
        let ghost pre_out = out@;
        if c == '\\' {
            if n - i <= 1 {
                return None;
            }
            let e = s.get_char(i + 1);
            proof {
                reveal_strlit("\"");
                reveal_strlit("\\");
                reveal_strlit("\n");
                reveal_strlit("\r");
                reveal_strlit("\t");
            }
            if e == '"' {
                out.append("\"");
            } else if e == '\\' {
                out.append("\\");
            } else if e == 'n' {
                out.append("\n");
            } else if e == 'r' {
                out.append("\r");
            } else if e == 't' {
                out.append("\t");
            } else if e == 'u' {
                if n - i <= 5 {
                    return None;
                }
                let d2 = s.get_char(i + 2);
                let d3 = s.get_char(i + 3);
                let h1 = hex_value(s.get_char(i + 4));
                let h2 = hex_value(s.get_char(i + 5));
                let v = 16 * h1 + h2;
                if !(d2 == '0' && d3 == '0' && h1 < 16 && h2 < 16 && v < 32 && v != 9 && v != 10
                    && v != 13) {
                    return None;
                }
                proof {
        reveal_strlit("\u{0}");
        reveal_strlit("\u{1}");
        reveal_strlit("\u{2}");
        reveal_strlit("\u{3}");
        reveal_strlit("\u{4}");
        reveal_strlit("\u{5}");
        reveal_strlit("\u{6}");
        reveal_strlit("\u{7}");
        reveal_strlit("\u{8}");
        reveal_strlit("\u{b}");
        reveal_strlit("\u{c}");
        reveal_strlit("\u{e}");
        reveal_strlit("\u{f}");
        reveal_strlit("\u{10}");
        reveal_strlit("\u{11}");
        reveal_strlit("\u{12}");
        reveal_strlit("\u{13}");
        reveal_strlit("\u{14}");
        reveal_strlit("\u{15}");
        reveal_strlit("\u{16}");
        reveal_strlit("\u{17}");
        reveal_strlit("\u{18}");
        reveal_strlit("\u{19}");
        reveal_strlit("\u{1a}");
        reveal_strlit("\u{1b}");
        reveal_strlit("\u{1c}");
        reveal_strlit("\u{1d}");
        reveal_strlit("\u{1e}");
        reveal_strlit("\u{1f}");
                }
            if v == 0 {
                out.append("\u{0}");
            } else if v == 1 {
                out.append("\u{1}");
            } else if v == 2 {
                out.append("\u{2}");
            } else if v == 3 {
                out.append("\u{3}");
            } else if v == 4 {
                out.append("\u{4}");
            } else if v == 5 {
                out.append("\u{5}");
            } else if v == 6 {
                out.append("\u{6}");
            } else if v == 7 {
                out.append("\u{7}");
            } else if v == 8 {
                out.append("\u{8}");
            } else if v == 11 {
                out.append("\u{b}");
            } else if v == 12 {
                out.append("\u{c}");
            } else if v == 14 {
                out.append("\u{e}");
            } else if v == 15 {
                out.append("\u{f}");
            } else if v == 16 {
                out.append("\u{10}");
            } else if v == 17 {
                out.append("\u{11}");
            } else if v == 18 {
                out.append("\u{12}");
            } else if v == 19 {
                out.append("\u{13}");
            } else if v == 20 {
                out.append("\u{14}");
            } else if v == 21 {
                out.append("\u{15}");
            } else if v == 22 {
                out.append("\u{16}");
            } else if v == 23 {
                out.append("\u{17}");
            } else if v == 24 {
                out.append("\u{18}");
            } else if v == 25 {
                out.append("\u{19}");
            } else if v == 26 {
                out.append("\u{1a}");
            } else if v == 27 {
                out.append("\u{1b}");
            } else if v == 28 {
                out.append("\u{1c}");
            } else if v == 29 {
                out.append("\u{1d}");
            } else if v == 30 {
                out.append("\u{1e}");
            } else if v == 31 {
                out.append("\u{1f}");
                } else {
                    proof {
                        assert(false);
                    }
                    return None;
                }
                proof {
                    assert(out@ =~= pre_out.push(control_char_of(v as int)));
                    ghost_step_cons(s@, start as int + 1, i as int, i as int + 6, pre_out, out@);
                }
                i = i + 6;
                continue ;
            } else {
                return None;
            }
            proof {
                assert(out@ =~= pre_out.push(short_unescape(s@[i as int + 1])));
                ghost_step_cons(s@, start as int + 1, i as int, i as int + 2, pre_out, out@);
            }
            i = i + 2;
        } else {
            let u = c as u32;
            if u < 0x20 {
                return None;
            }
            let piece = s.substring_char(i, i + 1);
            proof {
                assert(piece@ =~= seq![c]);
            }
            out.append(piece);
            proof {
                assert(out@ =~= pre_out.push(c));
                ghost_step_cons(s@, start as int + 1, i as int, i as int + 1, pre_out, out@);
            }
            i = i + 1;
        }
    }
    None
}

/// Lowercase hexadecimal digit value, sixteen for any other character.
fn hex_value(c: char) -> (r: u32)
    ensures
        r == hex_val(c),
{
    let u = c as u32;
    if 48 <= u && u <= 57 {
        u - 48
    } else if 97 <= u && u <= 102 {
        u - 87
    } else {
        16
    }
}

/// One decoding step: when the body from `at` decodes the piece between
/// `at` and `next` to one character appended to the output, the
/// continuation claim carries from `at` to `next`.
proof fn ghost_step_cons(
    s: Seq<char>,
    base: int,
    at: int,
    next: int,
    pre_out: Seq<char>,
    new_out: Seq<char>,
)
    requires
        parse_string_body(s, at) == (match parse_string_body(s, next) {
            Some(p) => Some::<(Seq<char>, int)>((seq![new_out.last()] + p.0, p.1)),
            None => None::<(Seq<char>, int)>,
        }),
        new_out == pre_out.push(new_out.last()),
        (match parse_string_body(s, at) {
            Some(p) => parse_string_body(s, base) == Some::<(Seq<char>, int)>((
                pre_out + p.0,
                p.1,
            )),
            None => parse_string_body(s, base) is None,
        }),
    ensures
        (match parse_string_body(s, next) {
            Some(p) => parse_string_body(s, base) == Some::<(Seq<char>, int)>((
                new_out + p.0,
                p.1,
            )),
            None => parse_string_body(s, base) is None,
        }),
{
    match parse_string_body(s, next) {
        Some(p) => {
            assert(pre_out + (seq![new_out.last()] + p.0) =~= new_out + p.0);
        },
        None => {
        },
    }
}

/// Parse one canonical link object at `pos`: the fixed head, the source
/// string, the fixed separator, the target string, and a closing brace.
pub open spec fn parse_link_at(s: Seq<char>, pos: int) -> Option<((Seq<char>, Seq<char>), int)> {
    let hl = "{\"source\":"@.len() as int;
    let ml = ",\"target\":"@.len() as int;
    if pos < 0 || pos + hl > s.len() || s.subrange(pos, pos + hl) != "{\"source\":"@ {
        None
    } else {
        match spec_parse_string(s, pos + hl) {
            Some(p1) => {
                if p1.1 + ml > s.len() || s.subrange(p1.1, p1.1 + ml) != ",\"target\":"@ {
                    None
                } else {
                    match spec_parse_string(s, p1.1 + ml) {
                        Some(p2) => if p2.1 < s.len() && s[p2.1] == '}' {
                            Some(((p1.0, p2.0), p2.1 + 1))
                        } else {
                            None
                        },
                        None => None,
                    }
                }
            },
            None => None,
        }
    }
}

/// Canonical link text always parses, to exactly its two zones.
pub proof fn lemma_link_complete(a: Seq<char>, b: Seq<char>, s: Seq<char>, pos: int)
    requires
        0 <= pos,
        pos + link_json_seq((a, b)).len() <= s.len(),
        s.subrange(pos, pos + link_json_seq((a, b)).len() as int) == link_json_seq((a, b)),
    ensures
        parse_link_at(s, pos) == Some(((a, b), pos + link_json_seq((a, b)).len() as int)),
{
    reveal_strlit("{\"source\":");
    reveal_strlit(",\"target\":");
    reveal_strlit("}");
    let hl = "{\"source\":"@.len() as int;
    let ml = ",\"target\":"@.len() as int;
    let la = json_escape_seq(a).len() as int;
    let lb = json_escape_seq(b).len() as int;
    let lj = link_json_seq((a, b)).len() as int;
    let sub = s.subrange(pos, pos + lj);
    assert(lj == hl + (la + 2) + ml + (lb + 2) + 1);
    assert(forall|j: int| 0 <= j < lj ==> #[trigger] sub[j] == s[pos + j]);
    assert(s.subrange(pos, pos + hl) =~= "{\"source\":"@) by {
        assert(forall|j: int|
            0 <= j < hl ==> #[trigger] s.subrange(pos, pos + hl)[j] == sub[j]);
    }
    assert(s[pos + hl] == '"') by {
        assert(sub[hl] == json_string_seq(a)[0]);
    }
    assert(s.subrange(pos + hl + 1, pos + hl + 1 + la + 1) =~= json_escape_seq(a) + seq!['"'])
        by {
        assert(forall|j: int|
            0 <= j < la + 1 ==> #[trigger] s.subrange(pos + hl + 1, pos + hl + 1 + la + 1)[j]
                == sub[hl + 1 + j]);
        assert(forall|j: int|
            0 <= j < la + 1 ==> #[trigger] (json_escape_seq(a) + seq!['"'])[j]
                == json_string_seq(a)[1 + j]);
    }
    lemma_string_body_complete(a, s, pos + hl + 1);
    let e1 = pos + hl + la + 2;
    assert(spec_parse_string(s, pos + hl) == Some((a, e1)));
    assert(s.subrange(e1, e1 + ml) =~= ",\"target\":"@) by {
        assert(forall|j: int|
            0 <= j < ml ==> #[trigger] s.subrange(e1, e1 + ml)[j] == sub[hl + la + 2 + j]);
    }
    assert(s[e1 + ml] == '"') by {
        assert(sub[hl + la + 2 + ml] == json_string_seq(b)[0]);
    }
    assert(s.subrange(e1 + ml + 1, e1 + ml + 1 + lb + 1) =~= json_escape_seq(b) + seq!['"'])
        by {
        assert(forall|j: int|
            0 <= j < lb + 1 ==> #[trigger] s.subrange(e1 + ml + 1, e1 + ml + 1 + lb + 1)[j]
                == sub[hl + la + 2 + ml + 1 + j]);
        assert(forall|j: int|
            0 <= j < lb + 1 ==> #[trigger] (json_escape_seq(b) + seq!['"'])[j]
                == json_string_seq(b)[1 + j]);
    }
    lemma_string_body_complete(b, s, e1 + ml + 1);
    let e2 = e1 + ml + lb + 2;
    assert(spec_parse_string(s, e1 + ml) == Some((b, e2)));
    assert(s[e2] == '}') by {
        assert(sub[lj - 1] == '}');
    }
}

/// Parse the members of a canonical acknowledgement list from `pos`: one
/// or more links separated by commas, up to the closing bracket and brace
/// at the very end of the text. The result is the links and the position
/// of the closing bracket.
pub open spec fn parse_links_from(s: Seq<char>, pos: int) -> Option<
    (Seq<(Seq<char>, Seq<char>)>, int),
>
    decreases s.len() - pos,
{
    if pos < 0 || pos > s.len() {
        None
    } else {
        match parse_link_at(s, pos) {
            Some(p) => {
                if p.1 <= pos || p.1 > s.len() {
                    None
                } else if p.1 + 2 == s.len() && p.1 + 1 < s.len() && s[p.1] == ']' && s[p.1 + 1]
                    == '}' {
                    Some((seq![p.0], p.1))
                } else if p.1 < s.len() && s[p.1] == ',' {
                    match parse_links_from(s, p.1 + 1) {
                        Some(q) => Some((seq![p.0] + q.0, q.1)),
                        None => None,
                    }
                } else {
                    None
                }
            },
            None => None,
        }
    }
}

/// The joined members, read from the front: the first member, then a comma
/// and the rest.
pub proof fn lemma_join_comma_front(parts: Seq<Seq<char>>)
    requires
        parts.len() >= 1,
    ensures
        parts.len() == 1 ==> join_comma(parts) == parts[0],
        parts.len() > 1 ==> join_comma(parts) == parts[0] + seq![','] + join_comma(
            parts.drop_first(),
        ),
    decreases parts.len(),
{
    if parts.len() == 2 {
        assert(parts.drop_last() =~= seq![parts[0]]);
        assert(parts.drop_first() =~= seq![parts[1]]);
        assert(join_comma(seq![parts[0]]) == parts[0]);
        assert(join_comma(seq![parts[1]]) == parts[1]);
    } else if parts.len() > 2 {
        let dl = parts.drop_last();
        let dlf = dl.drop_first();
        let df = parts.drop_first();
        lemma_join_comma_front(dl);
        assert(dl[0] == parts[0]);
        assert(df.drop_last() =~= dlf);
        assert(df.last() == parts.last());
        assert(join_comma(df) == join_comma(dlf) + seq![','] + parts.last());
        assert(join_comma(parts) == join_comma(dl) + seq![','] + parts.last());
        assert(join_comma(dl) == parts[0] + seq![','] + join_comma(dlf));
        let a = parts[0] + seq![','];
        let b = join_comma(dlf);
        let c = seq![','];
        let d = parts.last();
        vstd::seq_lib::lemma_concat_associative(a, b, c);
        vstd::seq_lib::lemma_concat_associative(a, b + c, d);
        assert(join_comma(parts) == ((a + b) + c) + d);
        assert(((a + b) + c) + d == (a + (b + c)) + d);
        assert((a + (b + c)) + d == a + ((b + c) + d));
        assert(parts[0] + seq![','] + join_comma(df) == a + ((b + c) + d));
    }
}

/// A canonical acknowledgement list always parses, to exactly its links.
pub proof fn lemma_links_complete(
    links: Seq<(Seq<char>, Seq<char>)>,
    s: Seq<char>,
    pos: int,
)
    requires
        links.len() >= 1,
        0 <= pos,
        s.len() == pos + join_comma(
            links.map_values(|l: (Seq<char>, Seq<char>)| link_json_seq(l)),
        ).len() + 2,
        s.subrange(pos, s.len() - 2) == join_comma(
            links.map_values(|l: (Seq<char>, Seq<char>)| link_json_seq(l)),
        ),
        s[s.len() - 2] == ']',
        s[s.len() - 1] == '}',
    ensures
        parse_links_from(s, pos) == Some((links, s.len() - 2)),
    decreases links.len(),
{
    reveal_strlit("{\"source\":");
    reveal_strlit(",\"target\":");
    let jf = |l: (Seq<char>, Seq<char>)| link_json_seq(l);
    let parts = links.map_values(jf);
    let joined = join_comma(parts);
    let sub = s.subrange(pos, s.len() - 2);
    assert(forall|j: int| 0 <= j < joined.len() ==> #[trigger] sub[j] == s[pos + j]);
    lemma_join_comma_front(parts);
    let l0 = links[0];
    let lj0 = link_json_seq(l0).len() as int;
    assert(parts[0] == link_json_seq(l0));
    if links.len() == 1 {
        assert(joined == link_json_seq(l0));
        assert(s.subrange(pos, pos + lj0) =~= link_json_seq(l0));
        lemma_link_complete(l0.0, l0.1, s, pos);
        assert(lj0 > 0);
        assert(seq![l0] =~= links);
    } else {
        assert(joined == link_json_seq(l0) + seq![','] + join_comma(parts.drop_first()));
        assert(s.subrange(pos, pos + lj0) =~= link_json_seq(l0)) by {
            assert(forall|j: int|
                0 <= j < lj0 ==> #[trigger] s.subrange(pos, pos + lj0)[j] == sub[j]);
        }
        lemma_link_complete(l0.0, l0.1, s, pos);
        let e0 = pos + lj0;
        assert(s[e0] == ',') by {
            assert(sub[lj0] == ',');
        }
        let rest = links.drop_first();
        assert(rest.map_values(jf) =~= parts.drop_first());
        assert(s.subrange(e0 + 1, s.len() - 2) =~= join_comma(parts.drop_first())) by {
            assert(forall|j: int|
                0 <= j < join_comma(parts.drop_first()).len() ==> #[trigger] s.subrange(
                    e0 + 1,
                    s.len() - 2,
                )[j] == sub[lj0 + 1 + j]);
        }
        lemma_links_complete(rest, s, e0 + 1);
        assert(lj0 > 0);
        assert(s[e0] != ']');
        assert(seq![l0] + rest =~= links);
    }
}

/// The fixed prefix holds no whitespace.
#[verifier::rlimit(100)]
proof fn lemma_auth_error_prefix_no_ws()
    ensures
        forall|i: int| 0 <= i < "{\"type\":\"auth_error\",\"message\":"@.len() ==> !is_json_ws(#[trigger] "{\"type\":\"auth_error\",\"message\":"@[i]),
{
    reveal_strlit("{\"type\":\"auth_error\",\"message\":");
    assert forall|i: int| 0 <= i < "{\"type\":\"auth_error\",\"message\":"@.len() implies !is_json_ws(
        #[trigger] "{\"type\":\"auth_error\",\"message\":"@[i],
    ) by {
        if i == 0 {
            assert(!is_json_ws("{\"type\":\"auth_error\",\"message\":"@[0]));
        } else if i == 1 {
            assert(!is_json_ws("{\"type\":\"auth_error\",\"message\":"@[1]));
        } else if i == 2 {
            assert(!is_json_ws("{\"type\":\"auth_error\",\"message\":"@[2]));
        } else if i == 3 {
            assert(!is_json_ws("{\"type\":\"auth_error\",\"message\":"@[3]));
        } else if i == 4 {
            assert(!is_json_ws("{\"type\":\"auth_error\",\"message\":"@[4]));
        } else if i == 5 {
            assert(!is_json_ws("{\"type\":\"auth_error\",\"message\":"@[5]));
        } else if i == 6 {
            assert(!is_json_ws("{\"type\":\"auth_error\",\"message\":"@[6]));
        } else if i == 7 {
            assert(!is_json_ws("{\"type\":\"auth_error\",\"message\":"@[7]));
        } else if i == 8 {
            assert(!is_json_ws("{\"type\":\"auth_error\",\"message\":"@[8]));
        } else if i == 9 {
            assert(!is_json_ws("{\"type\":\"auth_error\",\"message\":"@[9]));
        } else if i == 10 {
            assert(!is_json_ws("{\"type\":\"auth_error\",\"message\":"@[10]));
        } else if i == 11 {
            assert(!is_json_ws("{\"type\":\"auth_error\",\"message\":"@[11]));
        } else if i == 12 {
            assert(!is_json_ws("{\"type\":\"auth_error\",\"message\":"@[12]));
        } else if i == 13 {
            assert(!is_json_ws("{\"type\":\"auth_error\",\"message\":"@[13]));
        } else if i == 14 {
            assert(!is_json_ws("{\"type\":\"auth_error\",\"message\":"@[14]));
        } else if i == 15 {
            assert(!is_json_ws("{\"type\":\"auth_error\",\"message\":"@[15]));
        } else if i == 16 {
            assert(!is_json_ws("{\"type\":\"auth_error\",\"message\":"@[16]));
        } else if i == 17 {
            assert(!is_json_ws("{\"type\":\"auth_error\",\"message\":"@[17]));
        } else if i == 18 {
            assert(!is_json_ws("{\"type\":\"auth_error\",\"message\":"@[18]));
        } else if i == 19 {
            assert(!is_json_ws("{\"type\":\"auth_error\",\"message\":"@[19]));
        } else if i == 20 {
            assert(!is_json_ws("{\"type\":\"auth_error\",\"message\":"@[20]));
        } else if i == 21 {
            assert(!is_json_ws("{\"type\":\"auth_error\",\"message\":"@[21]));
        } else if i == 22 {
            assert(!is_json_ws("{\"type\":\"auth_error\",\"message\":"@[22]));
        } else if i == 23 {
            assert(!is_json_ws("{\"type\":\"auth_error\",\"message\":"@[23]));
        } else if i == 24 {
            assert(!is_json_ws("{\"type\":\"auth_error\",\"message\":"@[24]));
        } else if i == 25 {
            assert(!is_json_ws("{\"type\":\"auth_error\",\"message\":"@[25]));
        } else if i == 26 {
            assert(!is_json_ws("{\"type\":\"auth_error\",\"message\":"@[26]));
        } else if i == 27 {
            assert(!is_json_ws("{\"type\":\"auth_error\",\"message\":"@[27]));
        } else if i == 28 {
            assert(!is_json_ws("{\"type\":\"auth_error\",\"message\":"@[28]));
        } else if i == 29 {
            assert(!is_json_ws("{\"type\":\"auth_error\",\"message\":"@[29]));
        } else if i == 30 {
            assert(!is_json_ws("{\"type\":\"auth_error\",\"message\":"@[30]));
        } else {
        }
    }
}

/// The fixed prefix holds no whitespace.
#[verifier::rlimit(100)]
proof fn lemma_error_prefix_no_ws()
    ensures
        forall|i: int| 0 <= i < "{\"type\":\"error\",\"message\":"@.len() ==> !is_json_ws(#[trigger] "{\"type\":\"error\",\"message\":"@[i]),
{
    reveal_strlit("{\"type\":\"error\",\"message\":");
    assert forall|i: int| 0 <= i < "{\"type\":\"error\",\"message\":"@.len() implies !is_json_ws(
        #[trigger] "{\"type\":\"error\",\"message\":"@[i],
    ) by {
        if i == 0 {
            assert(!is_json_ws("{\"type\":\"error\",\"message\":"@[0]));
        } else if i == 1 {
            assert(!is_json_ws("{\"type\":\"error\",\"message\":"@[1]));
        } else if i == 2 {
            assert(!is_json_ws("{\"type\":\"error\",\"message\":"@[2]));
        } else if i == 3 {
            assert(!is_json_ws("{\"type\":\"error\",\"message\":"@[3]));
        } else if i == 4 {
            assert(!is_json_ws("{\"type\":\"error\",\"message\":"@[4]));
        } else if i == 5 {
            assert(!is_json_ws("{\"type\":\"error\",\"message\":"@[5]));
        } else if i == 6 {
            assert(!is_json_ws("{\"type\":\"error\",\"message\":"@[6]));
        } else if i == 7 {
            assert(!is_json_ws("{\"type\":\"error\",\"message\":"@[7]));
        } else if i == 8 {
            assert(!is_json_ws("{\"type\":\"error\",\"message\":"@[8]));
        } else if i == 9 {
            assert(!is_json_ws("{\"type\":\"error\",\"message\":"@[9]));
        } else if i == 10 {
            assert(!is_json_ws("{\"type\":\"error\",\"message\":"@[10]));
        } else if i == 11 {
            assert(!is_json_ws("{\"type\":\"error\",\"message\":"@[11]));
        } else if i == 12 {
            assert(!is_json_ws("{\"type\":\"error\",\"message\":"@[12]));
        } else if i == 13 {
            assert(!is_json_ws("{\"type\":\"error\",\"message\":"@[13]));
        } else if i == 14 {
            assert(!is_json_ws("{\"type\":\"error\",\"message\":"@[14]));
        } else if i == 15 {
            assert(!is_json_ws("{\"type\":\"error\",\"message\":"@[15]));
        } else if i == 16 {
            assert(!is_json_ws("{\"type\":\"error\",\"message\":"@[16]));
        } else if i == 17 {
            assert(!is_json_ws("{\"type\":\"error\",\"message\":"@[17]));
        } else if i == 18 {
            assert(!is_json_ws("{\"type\":\"error\",\"message\":"@[18]));
        } else if i == 19 {
            assert(!is_json_ws("{\"type\":\"error\",\"message\":"@[19]));
        } else if i == 20 {
            assert(!is_json_ws("{\"type\":\"error\",\"message\":"@[20]));
        } else if i == 21 {
            assert(!is_json_ws("{\"type\":\"error\",\"message\":"@[21]));
        } else if i == 22 {
            assert(!is_json_ws("{\"type\":\"error\",\"message\":"@[22]));
        } else if i == 23 {
            assert(!is_json_ws("{\"type\":\"error\",\"message\":"@[23]));
        } else if i == 24 {
            assert(!is_json_ws("{\"type\":\"error\",\"message\":"@[24]));
        } else if i == 25 {
            assert(!is_json_ws("{\"type\":\"error\",\"message\":"@[25]));
        } else {
        }
    }
}

/// The fixed prefix holds no whitespace.
#[verifier::rlimit(100)]
proof fn lemma_ack_prefix_no_ws()
    ensures
        forall|i: int| 0 <= i < "{\"type\":\"discovery_ack\",\"propagated\":["@.len() ==> !is_json_ws(#[trigger] "{\"type\":\"discovery_ack\",\"propagated\":["@[i]),
{
    reveal_strlit("{\"type\":\"discovery_ack\",\"propagated\":[");
    assert forall|i: int| 0 <= i < "{\"type\":\"discovery_ack\",\"propagated\":["@.len() implies !is_json_ws(
        #[trigger] "{\"type\":\"discovery_ack\",\"propagated\":["@[i],
    ) by {
        if i == 0 {
            assert(!is_json_ws("{\"type\":\"discovery_ack\",\"propagated\":["@[0]));
        } else if i == 1 {
            assert(!is_json_ws("{\"type\":\"discovery_ack\",\"propagated\":["@[1]));
        } else if i == 2 {
            assert(!is_json_ws("{\"type\":\"discovery_ack\",\"propagated\":["@[2]));
        } else if i == 3 {
            assert(!is_json_ws("{\"type\":\"discovery_ack\",\"propagated\":["@[3]));
        } else if i == 4 {
            assert(!is_json_ws("{\"type\":\"discovery_ack\",\"propagated\":["@[4]));
        } else if i == 5 {
            assert(!is_json_ws("{\"type\":\"discovery_ack\",\"propagated\":["@[5]));
        } else if i == 6 {
            assert(!is_json_ws("{\"type\":\"discovery_ack\",\"propagated\":["@[6]));
        } else if i == 7 {
            assert(!is_json_ws("{\"type\":\"discovery_ack\",\"propagated\":["@[7]));
        } else if i == 8 {
            assert(!is_json_ws("{\"type\":\"discovery_ack\",\"propagated\":["@[8]));
        } else if i == 9 {
            assert(!is_json_ws("{\"type\":\"discovery_ack\",\"propagated\":["@[9]));
        } else if i == 10 {
            assert(!is_json_ws("{\"type\":\"discovery_ack\",\"propagated\":["@[10]));
        } else if i == 11 {
            assert(!is_json_ws("{\"type\":\"discovery_ack\",\"propagated\":["@[11]));
        } else if i == 12 {
            assert(!is_json_ws("{\"type\":\"discovery_ack\",\"propagated\":["@[12]));
        } else if i == 13 {
            assert(!is_json_ws("{\"type\":\"discovery_ack\",\"propagated\":["@[13]));
        } else if i == 14 {
            assert(!is_json_ws("{\"type\":\"discovery_ack\",\"propagated\":["@[14]));
        } else if i == 15 {
            assert(!is_json_ws("{\"type\":\"discovery_ack\",\"propagated\":["@[15]));
        } else if i == 16 {
            assert(!is_json_ws("{\"type\":\"discovery_ack\",\"propagated\":["@[16]));
        } else if i == 17 {
            assert(!is_json_ws("{\"type\":\"discovery_ack\",\"propagated\":["@[17]));
        } else if i == 18 {
            assert(!is_json_ws("{\"type\":\"discovery_ack\",\"propagated\":["@[18]));
        } else if i == 19 {
            assert(!is_json_ws("{\"type\":\"discovery_ack\",\"propagated\":["@[19]));
        } else if i == 20 {
            assert(!is_json_ws("{\"type\":\"discovery_ack\",\"propagated\":["@[20]));
        } else if i == 21 {
            assert(!is_json_ws("{\"type\":\"discovery_ack\",\"propagated\":["@[21]));
        } else if i == 22 {
            assert(!is_json_ws("{\"type\":\"discovery_ack\",\"propagated\":["@[22]));
        } else if i == 23 {
            assert(!is_json_ws("{\"type\":\"discovery_ack\",\"propagated\":["@[23]));
        } else if i == 24 {
            assert(!is_json_ws("{\"type\":\"discovery_ack\",\"propagated\":["@[24]));
        } else if i == 25 {
            assert(!is_json_ws("{\"type\":\"discovery_ack\",\"propagated\":["@[25]));
        } else if i == 26 {
            assert(!is_json_ws("{\"type\":\"discovery_ack\",\"propagated\":["@[26]));
        } else if i == 27 {
            assert(!is_json_ws("{\"type\":\"discovery_ack\",\"propagated\":["@[27]));
        } else if i == 28 {
            assert(!is_json_ws("{\"type\":\"discovery_ack\",\"propagated\":["@[28]));
        } else if i == 29 {
            assert(!is_json_ws("{\"type\":\"discovery_ack\",\"propagated\":["@[29]));
        } else if i == 30 {
            assert(!is_json_ws("{\"type\":\"discovery_ack\",\"propagated\":["@[30]));
        } else if i == 31 {
            assert(!is_json_ws("{\"type\":\"discovery_ack\",\"propagated\":["@[31]));
        } else if i == 32 {
            assert(!is_json_ws("{\"type\":\"discovery_ack\",\"propagated\":["@[32]));
        } else if i == 33 {
            assert(!is_json_ws("{\"type\":\"discovery_ack\",\"propagated\":["@[33]));
        } else if i == 34 {
            assert(!is_json_ws("{\"type\":\"discovery_ack\",\"propagated\":["@[34]));
        } else if i == 35 {
            assert(!is_json_ws("{\"type\":\"discovery_ack\",\"propagated\":["@[35]));
        } else if i == 36 {
            assert(!is_json_ws("{\"type\":\"discovery_ack\",\"propagated\":["@[36]));
        } else if i == 37 {
            assert(!is_json_ws("{\"type\":\"discovery_ack\",\"propagated\":["@[37]));
        } else {
        }
    }
}

/// A whitespace-free front keeps its length through whitespace removal.
proof fn lemma_prefix_survives_ws(t: Seq<char>, prefix: Seq<char>, rest: Seq<char>)
    requires
        t == prefix + rest,
        forall|i: int| 0 <= i < prefix.len() ==> !is_json_ws(#[trigger] prefix[i]),
    ensures
        non_ws_of(t).len() >= prefix.len(),
{
    lemma_non_ws_concat(prefix, rest);
    lemma_non_ws_id(prefix);
}

/// A canonical tagged message with one string payload: the prefix is the
/// text's front, and the rest parses to exactly the payload.
proof fn lemma_payload_parses(m: Seq<char>, s: Seq<char>, prefix: Seq<char>)
    requires
        s == prefix + json_string_seq(m) + seq!['}'],
    ensures
        s.len() == prefix.len() + json_escape_seq(m).len() + 3,
        s.take(prefix.len() as int) == prefix,
        spec_parse_string(s, prefix.len() as int) == Some((m, s.len() - 1)),
        s[s.len() - 1] == '}',
{
    let pl = prefix.len() as int;
    let le = json_escape_seq(m).len() as int;
    assert(json_string_seq(m).len() == le + 2);
    assert(s.take(pl) =~= prefix) by {
        assert(forall|j: int| 0 <= j < pl ==> #[trigger] s.take(pl)[j] == s[j]);
    }
    assert(s[pl] == '"');
    assert(s.subrange(pl + 1, pl + 1 + le + 1) =~= json_escape_seq(m) + seq!['"']) by {
        assert(forall|j: int|
            0 <= j < le + 1 ==> #[trigger] s.subrange(pl + 1, pl + 1 + le + 1)[j] == s[pl + 1
                + j]);
        assert(forall|j: int|
            0 <= j < le + 1 ==> #[trigger] (json_escape_seq(m) + seq!['"'])[j]
                == json_string_seq(m)[1 + j]);
    }
    lemma_string_body_complete(m, s, pl + 1);
}

/// What being in a canonical payload-bearing form entails: the form's
/// length, prefix and tag character, and that the payload parses. A text
/// under one tag can therefore be in no other form.
#[verifier::rlimit(100)]
proof fn lemma_forms_shape(t: Seq<char>)
    ensures
        forall|m: Seq<char>| t == #[trigger] auth_error_json_seq(m) ==> t.len() >= "{\"type\":\"auth_error\",\"message\":"@.len() + 3 && non_ws_of(t).len()
            >= "{\"type\":\"auth_error\",\"message\":"@.len() && t[9] == 'a'
            && t.take("{\"type\":\"auth_error\",\"message\":"@.len() as int)
            == "{\"type\":\"auth_error\",\"message\":"@ && spec_parse_string(
            t,
            "{\"type\":\"auth_error\",\"message\":"@.len() as int,
        ) == Some((m, t.len() - 1)) && t[t.len() - 1] == '}',
        forall|m: Seq<char>| t == #[trigger] error_json_seq(m) ==> t.len() >= "{\"type\":\"error\",\"message\":"@.len() + 3 && non_ws_of(t).len()
            >= "{\"type\":\"error\",\"message\":"@.len() && t[9] == 'e' && t.take(
            "{\"type\":\"error\",\"message\":"@.len() as int,
        ) == "{\"type\":\"error\",\"message\":"@ && spec_parse_string(
            t,
            "{\"type\":\"error\",\"message\":"@.len() as int,
        ) == Some((m, t.len() - 1)) && t[t.len() - 1] == '}',
        forall|links: Seq<(Seq<char>, Seq<char>)>|
            #[trigger] discovery_ack_json_seq(links) == t ==> t.len() >= "{\"type\":\"discovery_ack\",\"propagated\":["@.len() + 2 && non_ws_of(t).len()
                >= "{\"type\":\"discovery_ack\",\"propagated\":["@.len() && t[9] == 'd'
                && t.take("{\"type\":\"discovery_ack\",\"propagated\":["@.len() as int)
                == "{\"type\":\"discovery_ack\",\"propagated\":["@ && (links.len() == 0 ==> t.len()
                == "{\"type\":\"discovery_ack\",\"propagated\":["@.len() + 2 && t["{\"type\":\"discovery_ack\",\"propagated\":["@.len() as int] == ']' && t["{\"type\":\"discovery_ack\",\"propagated\":["@.len() as int + 1] == '}') && (links.len() >= 1 ==> t.len() >= "{\"type\":\"discovery_ack\",\"propagated\":["@.len() + 12
                && parse_links_from(
                t,
                "{\"type\":\"discovery_ack\",\"propagated\":["@.len() as int,
            ) == Some((links, t.len() - 2))),
{
    reveal_strlit("{\"type\":\"auth_error\",\"message\":");
    reveal_strlit("{\"type\":\"error\",\"message\":");
    reveal_strlit("{\"type\":\"discovery_ack\",\"propagated\":[");
    reveal_strlit("{\"source\":");
    reveal_strlit("}");
    assert forall|m: Seq<char>| t == #[trigger] auth_error_json_seq(m) implies t.len()
        >= "{\"type\":\"auth_error\",\"message\":"@.len() + 3 && non_ws_of(t).len()
        >= "{\"type\":\"auth_error\",\"message\":"@.len() && t[9] == 'a'
        && t.take("{\"type\":\"auth_error\",\"message\":"@.len() as int)
        == "{\"type\":\"auth_error\",\"message\":"@ && spec_parse_string(
        t,
        "{\"type\":\"auth_error\",\"message\":"@.len() as int,
    ) == Some((m, t.len() - 1)) && t[t.len() - 1] == '}' by {
        let prefix = "{\"type\":\"auth_error\",\"message\":"@;
        assert(t =~= prefix + json_string_seq(m) + seq!['}']);
        lemma_payload_parses(m, t, prefix);
        assert(t[9] == prefix[9]);
        lemma_auth_error_prefix_no_ws();
        assert(forall|i: int| 0 <= i < prefix.len() ==> !is_json_ws(#[trigger] prefix[i]));
        assert(t =~= prefix + (json_string_seq(m) + seq!['}']));
        lemma_prefix_survives_ws(t, prefix, json_string_seq(m) + seq!['}']);
    }
    assert forall|m: Seq<char>| t == #[trigger] error_json_seq(m) implies t.len()
        >= "{\"type\":\"error\",\"message\":"@.len() + 3 && non_ws_of(t).len()
        >= "{\"type\":\"error\",\"message\":"@.len() && t[9] == 'e'
        && t.take("{\"type\":\"error\",\"message\":"@.len() as int)
        == "{\"type\":\"error\",\"message\":"@ && spec_parse_string(
        t,
        "{\"type\":\"error\",\"message\":"@.len() as int,
    ) == Some((m, t.len() - 1)) && t[t.len() - 1] == '}' by {
        let prefix = "{\"type\":\"error\",\"message\":"@;
        assert(t =~= prefix + json_string_seq(m) + seq!['}']);
        lemma_payload_parses(m, t, prefix);
        assert(t[9] == prefix[9]);
        lemma_error_prefix_no_ws();
        assert(forall|i: int| 0 <= i < prefix.len() ==> !is_json_ws(#[trigger] prefix[i]));
        assert(t =~= prefix + (json_string_seq(m) + seq!['}']));
        lemma_prefix_survives_ws(t, prefix, json_string_seq(m) + seq!['}']);
    }
    assert forall|links: Seq<(Seq<char>, Seq<char>)>|
        #[trigger] discovery_ack_json_seq(links) == t implies t.len()
        >= "{\"type\":\"discovery_ack\",\"propagated\":["@.len() + 2 && non_ws_of(t).len()
        >= "{\"type\":\"discovery_ack\",\"propagated\":["@.len() && t[9] == 'd'
        && t.take("{\"type\":\"discovery_ack\",\"propagated\":["@.len() as int)
        == "{\"type\":\"discovery_ack\",\"propagated\":["@ && (links.len() == 0 ==> t.len()
        == "{\"type\":\"discovery_ack\",\"propagated\":["@.len() + 2 && t["{\"type\":\"discovery_ack\",\"propagated\":["@.len() as int] == ']' && t["{\"type\":\"discovery_ack\",\"propagated\":["@.len() as int + 1] == '}') && (links.len() >= 1 ==> t.len()
        >= "{\"type\":\"discovery_ack\",\"propagated\":["@.len() + 12
        && parse_links_from(t, "{\"type\":\"discovery_ack\",\"propagated\":["@.len() as int)
        == Some((links, t.len() - 2))) by {
        let prefix = "{\"type\":\"discovery_ack\",\"propagated\":["@;
        let pl = prefix.len() as int;
        let jf = |l: (Seq<char>, Seq<char>)| link_json_seq(l);
        let joined = join_comma(links.map_values(jf));
        assert(t =~= prefix + joined + seq![']', '}']) by {
            reveal_strlit("]}");
            assert("]}"@ =~= seq![']', '}']);
        }
        assert(t.take(pl) =~= prefix) by {
            assert(forall|j: int| 0 <= j < pl ==> #[trigger] t.take(pl)[j] == t[j]);
        }
        assert(t[9] == prefix[9]);
        lemma_ack_prefix_no_ws();
        assert(forall|i: int| 0 <= i < prefix.len() ==> !is_json_ws(#[trigger] prefix[i]));
        assert(t =~= prefix + (joined + seq![']', '}']));
        lemma_prefix_survives_ws(t, prefix, joined + seq![']', '}']);
        if links.len() == 0 {
            assert(links.map_values(jf) =~= Seq::<Seq<char>>::empty());
            assert(joined =~= Seq::<char>::empty());
        } else {
            lemma_join_comma_front(links.map_values(jf));
            assert(links.map_values(jf)[0] == link_json_seq(links[0]));
            assert(link_json_seq(links[0]).len() >= 10);
            assert(joined.len() >= 10);
            assert(t.subrange(pl, t.len() - 2) =~= joined) by {
                assert(forall|j: int|
                    0 <= j < joined.len() ==> #[trigger] t.subrange(pl, t.len() - 2)[j] == t[pl
                        + j]);
            }
            lemma_links_complete(links, t, pl);
        }
    }
}

/// Remove JSON whitespace from the text, for matching the two constant,
/// payload-free messages whatever their spacing.
#[verifier::loop_isolation(false)]
fn strip_json_ws(text: &str) -> (r: String)
    ensures
        r@ == non_ws_of(text@),
{
    let n = text.unicode_len();
    let mut out = String::new();
    let mut i: usize = 0;
    proof {
        assert(out@ + non_ws_of(text@.skip(0)) =~= non_ws_of(text@)) by {
            assert(text@.skip(0) =~= text@);
        }
    }
    while i < n
        invariant
            0 <= i <= n,
            out@ + non_ws_of(text@.skip(i as int)) =~= non_ws_of(text@),
        decreases n - i,
    {
        let c = text.get_char(i);
        let ghost tail = text@.skip(i as int);
        proof {
            assert(tail[0] == c);
            assert(tail.drop_first() =~= text@.skip(i as int + 1));
        }
        if !(c == ' ' || c == '\t' || c == '\n' || c == '\r') {
            let piece = text.substring_char(i, i + 1);
            proof {
                assert(piece@ =~= seq![c]);
                assert(non_ws_of(tail) =~= seq![c] + non_ws_of(text@.skip(i as int + 1)));
                assert(out@ + (seq![c] + non_ws_of(text@.skip(i as int + 1))) =~= (out@ + seq![
                    c,
                ]) + non_ws_of(text@.skip(i as int + 1)));
            }
            out.append(piece);
        }
        i = i + 1;
    }
    proof {
        assert(text@.skip(n as int) =~= Seq::<char>::empty());
        assert(out@ + Seq::<char>::empty() =~= out@);
    }
    out
}

/// Classify text that begins like a discovery acknowledgement: its link
/// list in full, or nothing.
#[verifier::loop_isolation(false)]
#[verifier::rlimit(100)]
fn classify_ack(text: &str) -> (r: ResponseKind)
    requires
        text@.len() >= "{\"type\":\"discovery_ack\",\"propagated\":["@.len(),
        text@.take("{\"type\":\"discovery_ack\",\"propagated\":["@.len() as int)
            == "{\"type\":\"discovery_ack\",\"propagated\":["@,
    ensures
        r matches ResponseKind::DiscoveryAck(links) ==> text@ == discovery_ack_json_seq(
            links@.map_values(|l: PropagatedLink| link_view(l)),
        ),
        forall|links: Seq<(Seq<char>, Seq<char>)>|
            #[trigger] discovery_ack_json_seq(links) == text@ ==> (r matches
                ResponseKind::DiscoveryAck(ls) && ls@.map_values(
                |l: PropagatedLink| link_view(l),
            ) == links),
        r is Unrecognized || r is DiscoveryAck,
{
    proof {
        lemma_forms_shape(text@);
    }
    let n = text.unicode_len();
        let plen = "{\"type\":\"discovery_ack\",\"propagated\":[".unicode_len();
        let mut links: Vec<PropagatedLink> = Vec::new();
        let mut pos = plen;
        let ghost jf = |l: (Seq<char>, Seq<char>)| link_json_seq(l);
        if n - pos == 2 && text.get_char(pos) == ']' && text.get_char(pos + 1) == '}' {
            proof {
                reveal_strlit("]}");
                assert("]}"@ =~= seq![']', '}']);
                assert(links@.map_values(|l: PropagatedLink| link_view(l)).map_values(jf)
                    =~= Seq::<Seq<char>>::empty());
                assert(text@ =~= text@.take(plen as int) + seq![
                    text@[plen as int],
                    text@[plen as int + 1],
                ]);
                assert(text@ =~= discovery_ack_json_seq(
                    links@.map_values(|l: PropagatedLink| link_view(l)),
                ));
                assert forall|links2: Seq<(Seq<char>, Seq<char>)>|
                    #[trigger] discovery_ack_json_seq(links2) == text@ implies links@.map_values(
                    |l: PropagatedLink| link_view(l),
                ) == links2 by {
                    assert(links2.len() == 0);
                    assert(links@.map_values(|l: PropagatedLink| link_view(l)) =~= links2);
                }
            }
            return ResponseKind::DiscoveryAck(links);
        }
        proof {
            assert(links@.map_values(|l: PropagatedLink| link_view(l)).map_values(jf)
                =~= Seq::<Seq<char>>::empty());
            match parse_links_from(text@, plen as int) {
                Some(q) => {
                    assert(Seq::<(Seq<char>, Seq<char>)>::empty() + q.0 =~= q.0);
                },
                None => {},
            }
        }
        loop
            invariant
                plen <= pos <= n,
                n == text@.len(),
                text@.subrange(plen as int, pos as int) =~= join_comma(
                    links@.map_values(|l: PropagatedLink| link_view(l)).map_values(jf),
                ) + (if links@.len() > 0 {
                    seq![',']
                } else {
                    Seq::<char>::empty()
                }),
                (match parse_links_from(text@, pos as int) {
                    Some(q) => parse_links_from(text@, plen as int) == Some((
                        links@.map_values(|l: PropagatedLink| link_view(l)) + q.0,
                        q.1,
                    )),
                    None => parse_links_from(text@, plen as int) is None,
                }),
            decreases n - pos,
        {
            let ghost head_pos = pos as int;
            let parsed = match parse_canonical_link(text, pos) {
                Some(p) => p,
                None => {
                    return ResponseKind::Unrecognized;
                },
            };
            let (l, end) = parsed;
            let ghost prev = links@.map_values(|x: PropagatedLink| link_view(x));
            let ghost lv = link_view(l);
            links.push(l);
            proof {
                assert(links@.map_values(|x: PropagatedLink| link_view(x)) =~= prev.push(lv));
                assert(prev.push(lv).map_values(jf) =~= prev.map_values(jf).push(
                    link_json_seq(lv),
                ));
                lemma_join_comma_push(prev.map_values(jf), link_json_seq(lv));
                assert(prev.map_values(jf).len() == prev.len());
                assert(text@.subrange(plen as int, end as int) =~= text@.subrange(
                    plen as int,
                    head_pos,
                ) + text@.subrange(head_pos, end as int));
                assert(text@.subrange(plen as int, end as int) =~= join_comma(
                    prev.push(lv).map_values(jf),
                ));
            }
            pos = end;
            if n - pos == 2 && text.get_char(pos) == ']' && text.get_char(pos + 1) == '}' {
                proof {
                    reveal_strlit("]}");
                    assert("]}"@ =~= seq![']', '}']);
                    assert(text@ =~= text@.take(plen as int) + text@.subrange(
                        plen as int,
                        pos as int,
                    ) + seq![text@[pos as int], text@[pos as int + 1]]);
                    assert(text@ =~= discovery_ack_json_seq(
                        links@.map_values(|x: PropagatedLink| link_view(x)),
                    ));
                    assert(parse_links_from(text@, head_pos) == Some((seq![lv], end as int)));
                    assert(parse_links_from(text@, plen as int) == Some((
                        prev + seq![lv],
                        end as int,
                    )));
                    assert(prev + seq![lv] =~= links@.map_values(
                        |x: PropagatedLink| link_view(x),
                    ));
                }
                return ResponseKind::DiscoveryAck(links);
            }
            if pos < n && text.get_char(pos) == ',' {
                proof {
                    assert(text@[pos as int] != ']');
                    assert(parse_links_from(text@, head_pos) == (match parse_links_from(
                        text@,
                        pos as int + 1,
                    ) {
                        Some(q) => Some::<(Seq<(Seq<char>, Seq<char>)>, int)>((
                            seq![lv] + q.0,
                            q.1,
                        )),
                        None => None::<(Seq<(Seq<char>, Seq<char>)>, int)>,
                    }));
                    match parse_links_from(text@, pos as int + 1) {
                        Some(q) => {
                            vstd::seq_lib::lemma_concat_associative(prev, seq![lv], q.0);
                            assert(prev + (seq![lv] + q.0) =~= (prev + seq![lv]) + q.0);
                            assert((prev + seq![lv]) =~= links@.map_values(
                                |x: PropagatedLink| link_view(x),
                            ));
                        },
                        None => {},
                    }
                }
                pos = pos + 1;
                proof {
                    assert(text@.subrange(plen as int, pos as int) =~= text@.subrange(
                        plen as int,
                        pos as int - 1,
                    ) + seq![text@[pos as int - 1]]);
                }
            } else {
                proof {
                    assert(parse_links_from(text@, head_pos) is None);
                }
                return ResponseKind::Unrecognized;
            }
        }
    ResponseKind::Unrecognized
}

/// Classify one inbound message, both ways exactly: the two constant,
/// payload-free messages are recognised whatever their JSON whitespace;
/// text in a payload-bearing canonical form always yields the matching
/// result with that payload; everything else is unrecognised.
#[verifier::loop_isolation(false)]
#[verifier::rlimit(100)]
pub fn classify_response(text: &str) -> (r: ResponseKind)
    ensures
        (r is AuthOk) == (non_ws_of(text@) == auth_ok_json_seq()),
        (r is Ping) == (non_ws_of(text@) == ping_json_seq()),
        r matches ResponseKind::AuthError(m) ==> text@ == auth_error_json_seq(m@),
        r matches ResponseKind::Error(m) ==> text@ == error_json_seq(m@),
        r matches ResponseKind::DiscoveryAck(links) ==> text@ == discovery_ack_json_seq(
            links@.map_values(|l: PropagatedLink| link_view(l)),
        ),
        forall|m: Seq<char>| text@ == auth_error_json_seq(m) ==> (r matches
            ResponseKind::AuthError(p) && p@ == m),
        forall|m: Seq<char>| text@ == error_json_seq(m) ==> (r matches ResponseKind::Error(p)
            && p@ == m),
        forall|links: Seq<(Seq<char>, Seq<char>)>|
            #[trigger] discovery_ack_json_seq(links) == text@ ==> (r matches
                ResponseKind::DiscoveryAck(ls) && ls@.map_values(
                |l: PropagatedLink| link_view(l),
            ) == links),
{
    proof {
        reveal_strlit("{\"type\":\"auth_ok\"}");
        reveal_strlit("{\"type\":\"ping\"}");
        reveal_strlit("{\"type\":\"auth_error\",\"message\":");
        reveal_strlit("{\"type\":\"error\",\"message\":");
        reveal_strlit("{\"type\":\"discovery_ack\",\"propagated\":[");
        assert(auth_ok_json_seq().len() != ping_json_seq().len());
        lemma_forms_shape(text@);
    }
    let stripped = strip_json_ws(text);
    if str_eq(stripped.as_str(), "{\"type\":\"auth_ok\"}") {
        return ResponseKind::AuthOk;
    }
    if str_eq(stripped.as_str(), "{\"type\":\"ping\"}") {
        return ResponseKind::Ping;
    }
    let n = text.unicode_len();
    if starts_with(text, "{\"type\":\"auth_error\",\"message\":") {
        let plen = "{\"type\":\"auth_error\",\"message\":".unicode_len();
        match parse_canonical_string(text, plen) {
            Some((v, end)) => {
                if end < n && n - end == 1 && text.get_char(end) == '}' {
                    proof {
                        reveal_strlit("}");
                        assert("}"@ =~= seq!['}']);
                        assert(text@ =~= text@.take(plen as int) + text@.subrange(
                            plen as int,
                            end as int,
                        ) + seq![text@[end as int]]);
                        assert(text@ =~= auth_error_json_seq(v@));
                    }
                    return ResponseKind::AuthError(v);
                }
            },
            None => {},
        }
        return ResponseKind::Unrecognized;
    }
    if starts_with(text, "{\"type\":\"error\",\"message\":") {
        let plen = "{\"type\":\"error\",\"message\":".unicode_len();
        match parse_canonical_string(text, plen) {
            Some((v, end)) => {
                if end < n && n - end == 1 && text.get_char(end) == '}' {
                    proof {
                        reveal_strlit("}");
                        assert("}"@ =~= seq!['}']);
                        assert(text@ =~= text@.take(plen as int) + text@.subrange(
                            plen as int,
                            end as int,
                        ) + seq![text@[end as int]]);
                        assert(text@ =~= error_json_seq(v@));
                    }
                    return ResponseKind::Error(v);
                }
            },
            None => {},
        }
        return ResponseKind::Unrecognized;
    }
    if starts_with(text, "{\"type\":\"discovery_ack\",\"propagated\":[") {
        return classify_ack(text);
    }
    ResponseKind::Unrecognized
}

/// Parse one canonical link object at `pos`: exactly what the canonical
/// grammar gives, both ways.
fn parse_canonical_link(s: &str, pos: usize) -> (r: Option<(PropagatedLink, usize)>)
    requires
        pos <= s@.len(),
    ensures
        match r {
            Some(p) => parse_link_at(s@, pos as int) == Some((link_view(p.0), p.1 as int)) && pos
                < p.1 <= s@.len() && s@.subrange(pos as int, p.1 as int) == link_json_seq(
                link_view(p.0),
            ),
            None => parse_link_at(s@, pos as int) is None,
        },
{
    let n = s.unicode_len();
    let head = "{\"source\":";
    let hlen = head.unicode_len();
    if n - pos < hlen {
        return None;
    }
    let sub = s.substring_char(pos, pos + hlen);
    if !str_eq(sub, head) {
        return None;
    }
    let (source, e1) = match parse_canonical_string(s, pos + hlen) {
        Some(p) => p,
        None => {
            return None;
        },
    };
    let mid = ",\"target\":";
    let mlen = mid.unicode_len();
    if n - e1 < mlen {
        return None;
    }
    let sub2 = s.substring_char(e1, e1 + mlen);
    if !str_eq(sub2, mid) {
        return None;
    }
    let (target, e2) = match parse_canonical_string(s, e1 + mlen) {
        Some(p) => p,
        None => {
            return None;
        },
    };
    if e2 >= n || s.get_char(e2) != '}' {
        return None;
    }
    let link = PropagatedLink { source, target };
    proof {
        reveal_strlit("}");
        assert("}"@ =~= seq!['}']);
        assert(s@.subrange(pos as int, e2 as int + 1) =~= s@.subrange(
            pos as int,
            pos as int + hlen as int,
        ) + s@.subrange(pos as int + hlen as int, e1 as int) + s@.subrange(
            e1 as int,
            e1 as int + mlen as int,
        ) + s@.subrange(e1 as int + mlen as int, e2 as int) + seq![s@[e2 as int]]);
        assert(s@.subrange(pos as int, e2 as int + 1) =~= link_json_seq(link_view(link)));
    }
    Some((link, e2 + 1))
}

// ---------------------------------------------------------------------
// Connection state machine
// ---------------------------------------------------------------------

/// First reconnect delay, in seconds.
pub const INITIAL_BACKOFF_SECS: u64 = 1;

/// Ceiling on the reconnect delay, in seconds.
pub const MAX_BACKOFF_SECS: u64 = 30;

/// A connection with no completed ping round-trip for this long is dead.
pub const PING_TIMEOUT_MS: u64 = 60000;

/// The delay after one more failed cycle: doubled, capped at the ceiling.
pub open spec fn next_delay(d: int) -> int {
    if 2 * d <= MAX_BACKOFF_SECS {
        2 * d
    } else {
        MAX_BACKOFF_SECS as int
    }
}

/// The delay before the attempt after `n` consecutive failed cycles.
pub open spec fn delay_after_failures(n: nat) -> int
    decreases n,
{
    if n == 0 {
        INITIAL_BACKOFF_SECS as int
    } else {
        next_delay(delay_after_failures((n - 1) as nat))
    }
}

/// The backoff schedule: a client that fails to connect repeatedly waits
/// one, two, four, then eight seconds between the first attempts, never
/// waits longer than the ceiling, and sits at the ceiling from the sixth
/// wait on. (A cycle that reaches the connected state resets the delay to
/// one second: see `on_connected`.)
pub proof fn lemma_backoff_schedule()
    ensures
        delay_after_failures(0) == 1,
        delay_after_failures(1) == 2,
        delay_after_failures(2) == 4,
        delay_after_failures(3) == 8,
        delay_after_failures(4) == 16,
        forall|n: nat| #[trigger] delay_after_failures(n) <= MAX_BACKOFF_SECS,
        forall|n: nat| n >= 5 ==> #[trigger] delay_after_failures(n) == MAX_BACKOFF_SECS,
{
    assert(delay_after_failures(0) == 1);
    assert(delay_after_failures(1) == 2);
    assert(delay_after_failures(2) == 4);
    assert(delay_after_failures(3) == 8);
    assert(delay_after_failures(4) == 16);
    assert forall|n: nat| #[trigger] delay_after_failures(n) <= MAX_BACKOFF_SECS by {
        lemma_backoff_bounds(n);
    }
    assert forall|n: nat| n >= 5 implies #[trigger] delay_after_failures(n)
        == MAX_BACKOFF_SECS by {
        lemma_backoff_bounds(n);
    }
}

/// Bounds of the backoff recurrence, by induction.
proof fn lemma_backoff_bounds(n: nat)
    ensures
        1 <= delay_after_failures(n) <= MAX_BACKOFF_SECS,
        n >= 5 ==> delay_after_failures(n) == MAX_BACKOFF_SECS,
    decreases n,
{
    if n > 0 {
        lemma_backoff_bounds((n - 1) as nat);
        if n == 5 {
            assert(delay_after_failures(0) == 1);
            assert(delay_after_failures(1) == 2);
            assert(delay_after_failures(2) == 4);
            assert(delay_after_failures(3) == 8);
            assert(delay_after_failures(4) == 16);
            assert(delay_after_failures(5) == 30);
        }
    }
}

/// What the actor does between cycles.
#[derive(Debug, Clone, Copy, PartialEq, Eq, Structural)]
pub enum CycleAction {
    /// Stop for good: reconnection is off or shutdown was asked.
    Stop,
    /// Wait this many seconds, then try again.
    Wait(u64),
}

/// The streaming actor's connection state machine: status, backoff delay,
/// the reconnect and shutdown switches, and the liveness clock.
pub struct StreamMachine {
    status: ConnectionStatus,
    reconnect_delay_secs: u64,
    auto_reconnect: bool,
    shutdown: bool,
    last_live_ms: u64,
}

impl StreamMachine {
    /// The machine's status.
    pub closed spec fn statusv(self) -> ConnectionStatus {
        self.status
    }

    /// The current reconnect delay, in seconds.
    pub closed spec fn delayv(self) -> int {
        self.reconnect_delay_secs as int
    }

    /// Whether reconnection is on.
    pub closed spec fn autov(self) -> bool {
        self.auto_reconnect
    }

    /// Whether shutdown was requested.
    pub closed spec fn shutdownv(self) -> bool {
        self.shutdown
    }

    /// The time of the last completed ping round-trip.
    pub closed spec fn last_livev(self) -> int {
        self.last_live_ms as int
    }

    /// A fresh machine: disconnected, with the initial delay.
    pub fn new(auto_reconnect: bool) -> (r: Self)
        ensures
            r.statusv() == ConnectionStatus::Disconnected,
            r.delayv() == INITIAL_BACKOFF_SECS,
            r.autov() == auto_reconnect,
            !r.shutdownv(),
            r.last_livev() == 0,
    {
        Self {
            status: ConnectionStatus::Disconnected,
            reconnect_delay_secs: INITIAL_BACKOFF_SECS,
            auto_reconnect,
            shutdown: false,
            last_live_ms: 0,
        }
    }

    /// Ask the actor to stop; it observes the flag within its poll
    /// granularity.
    pub fn request_shutdown(&mut self)
        ensures
            final(self).shutdownv(),
            final(self).statusv() == old(self).statusv(),
            final(self).delayv() == old(self).delayv(),
            final(self).autov() == old(self).autov(),
            final(self).last_livev() == old(self).last_livev(),
    {
        self.shutdown = true;
    }

    /// A connection attempt begins: the transport is being opened.
    pub fn begin_connect(&mut self)
        ensures
            final(self).statusv() == ConnectionStatus::Connecting,
            final(self).delayv() == old(self).delayv(),
            final(self).autov() == old(self).autov(),
            final(self).shutdownv() == old(self).shutdownv(),
            final(self).last_livev() == old(self).last_livev(),
    {
        self.status = ConnectionStatus::Connecting;
    }

    /// The transport is open; the authentication reply is awaited.
    pub fn begin_auth(&mut self)
        ensures
            final(self).statusv() == ConnectionStatus::Authenticating,
            final(self).delayv() == old(self).delayv(),
            final(self).autov() == old(self).autov(),
            final(self).shutdownv() == old(self).shutdownv(),
            final(self).last_livev() == old(self).last_livev(),
    {
        self.status = ConnectionStatus::Authenticating;
    }

    /// Authentication succeeded: the cycle reached the connected state, so
    /// the backoff delay resets and the liveness clock starts now.
    pub fn on_connected(&mut self, now_ms: u64)
        ensures
            final(self).statusv() == ConnectionStatus::Connected,
            final(self).delayv() == INITIAL_BACKOFF_SECS,
            final(self).autov() == old(self).autov(),
            final(self).shutdownv() == old(self).shutdownv(),
            final(self).last_livev() == now_ms,
    {
        self.status = ConnectionStatus::Connected;
        self.reconnect_delay_secs = INITIAL_BACKOFF_SECS;
        self.last_live_ms = now_ms;
    }

    /// The connection attempt failed before reaching the connected state.
    pub fn on_connect_failed(&mut self)
        ensures
            final(self).statusv() == ConnectionStatus::Error,
            final(self).delayv() == old(self).delayv(),
            final(self).autov() == old(self).autov(),
            final(self).shutdownv() == old(self).shutdownv(),
            final(self).last_livev() == old(self).last_livev(),
    {
        self.status = ConnectionStatus::Error;
    }

    /// An established session ended with an error; when reconnection is on
    /// and no shutdown was asked, the actor is about to retry.
    pub fn on_session_error(&mut self)
        ensures
            final(self).statusv() == (if old(self).autov() && !old(self).shutdownv() {
                ConnectionStatus::Reconnecting
            } else {
                old(self).statusv()
            }),
            final(self).delayv() == old(self).delayv(),
            final(self).autov() == old(self).autov(),
            final(self).shutdownv() == old(self).shutdownv(),
            final(self).last_livev() == old(self).last_livev(),
    {
        if self.auto_reconnect && !self.shutdown {
            self.status = ConnectionStatus::Reconnecting;
        }
    }

    /// Decide what follows a finished cycle: stop for good when
    /// reconnection is off or shutdown was asked, else wait the current
    /// delay and double it, capped at the ceiling.
    pub fn next_cycle(&mut self) -> (r: CycleAction)
        ensures
            (if !old(self).autov() || old(self).shutdownv() {
                r == CycleAction::Stop && final(self).statusv()
                    == ConnectionStatus::Disconnected && final(self).delayv() == old(
                    self,
                ).delayv()
            } else {
                r == CycleAction::Wait(old(self).delayv() as u64) && final(self).delayv()
                    == next_delay(old(self).delayv()) && final(self).statusv() == old(
                    self,
                ).statusv()
            }),
            final(self).autov() == old(self).autov(),
            final(self).shutdownv() == old(self).shutdownv(),
            final(self).last_livev() == old(self).last_livev(),
    {
        if !self.auto_reconnect || self.shutdown {
            self.status = ConnectionStatus::Disconnected;
            return CycleAction::Stop;
        }
        let wait = self.reconnect_delay_secs;
        let doubled = if self.reconnect_delay_secs <= MAX_BACKOFF_SECS / 2 {
            self.reconnect_delay_secs * 2
        } else {
            MAX_BACKOFF_SECS
        };
        self.reconnect_delay_secs = if doubled <= MAX_BACKOFF_SECS {
            doubled
        } else {
            MAX_BACKOFF_SECS
        };
        CycleAction::Wait(wait)
    }

    /// The machine's status.
    pub fn status(&self) -> (r: ConnectionStatus)
        ensures
            r == self.statusv(),
    {
        self.status
    }

    /// A pong went out: the liveness clock restarts.
    pub fn note_pong_sent(&mut self, now_ms: u64)
        ensures
            final(self).statusv() == old(self).statusv(),
            final(self).delayv() == old(self).delayv(),
            final(self).autov() == old(self).autov(),
            final(self).shutdownv() == old(self).shutdownv(),
            final(self).last_livev() == now_ms,
    {
        self.last_live_ms = now_ms;
    }

    /// Whether the liveness timeout has passed: no completed ping
    /// round-trip for longer than the fixed limit.
    pub fn liveness_expired(&self, now_ms: u64) -> (r: bool)
        requires
            now_ms >= self.last_livev(),
        ensures
            r == (now_ms - self.last_livev() > PING_TIMEOUT_MS),
    {
        now_ms - self.last_live_ms > PING_TIMEOUT_MS
    }
}

/// The two constant messages hold no whitespace: each is its own
/// whitespace removal.
#[verifier::rlimit(100)]
pub proof fn lemma_constant_forms_plain()
    ensures
        non_ws_of(auth_ok_json_seq()) == auth_ok_json_seq(),
        non_ws_of(ping_json_seq()) == ping_json_seq(),
{
    reveal_strlit("{\"type\":\"auth_ok\"}");
    reveal_strlit("{\"type\":\"ping\"}");
    assert forall|i: int| 0 <= i < "{\"type\":\"auth_ok\"}"@.len() implies !is_json_ws(
        #[trigger] "{\"type\":\"auth_ok\"}"@[i],
    ) by {
        if i == 0 {
            assert(!is_json_ws("{\"type\":\"auth_ok\"}"@[0]));
        } else if i == 1 {
            assert(!is_json_ws("{\"type\":\"auth_ok\"}"@[1]));
        } else if i == 2 {
            assert(!is_json_ws("{\"type\":\"auth_ok\"}"@[2]));
        } else if i == 3 {
            assert(!is_json_ws("{\"type\":\"auth_ok\"}"@[3]));
        } else if i == 4 {
            assert(!is_json_ws("{\"type\":\"auth_ok\"}"@[4]));
        } else if i == 5 {
            assert(!is_json_ws("{\"type\":\"auth_ok\"}"@[5]));
        } else if i == 6 {
            assert(!is_json_ws("{\"type\":\"auth_ok\"}"@[6]));
        } else if i == 7 {
            assert(!is_json_ws("{\"type\":\"auth_ok\"}"@[7]));
        } else if i == 8 {
            assert(!is_json_ws("{\"type\":\"auth_ok\"}"@[8]));
        } else if i == 9 {
            assert(!is_json_ws("{\"type\":\"auth_ok\"}"@[9]));
        } else if i == 10 {
            assert(!is_json_ws("{\"type\":\"auth_ok\"}"@[10]));
        } else if i == 11 {
            assert(!is_json_ws("{\"type\":\"auth_ok\"}"@[11]));
        } else if i == 12 {
            assert(!is_json_ws("{\"type\":\"auth_ok\"}"@[12]));
        } else if i == 13 {
            assert(!is_json_ws("{\"type\":\"auth_ok\"}"@[13]));
        } else if i == 14 {
            assert(!is_json_ws("{\"type\":\"auth_ok\"}"@[14]));
        } else if i == 15 {
            assert(!is_json_ws("{\"type\":\"auth_ok\"}"@[15]));
        } else if i == 16 {
            assert(!is_json_ws("{\"type\":\"auth_ok\"}"@[16]));
        } else if i == 17 {
            assert(!is_json_ws("{\"type\":\"auth_ok\"}"@[17]));
        } else {
        }
    }
    assert forall|i: int| 0 <= i < "{\"type\":\"ping\"}"@.len() implies !is_json_ws(
        #[trigger] "{\"type\":\"ping\"}"@[i],
    ) by {
        if i == 0 {
            assert(!is_json_ws("{\"type\":\"ping\"}"@[0]));
        } else if i == 1 {
            assert(!is_json_ws("{\"type\":\"ping\"}"@[1]));
        } else if i == 2 {
            assert(!is_json_ws("{\"type\":\"ping\"}"@[2]));
        } else if i == 3 {
            assert(!is_json_ws("{\"type\":\"ping\"}"@[3]));
        } else if i == 4 {
            assert(!is_json_ws("{\"type\":\"ping\"}"@[4]));
        } else if i == 5 {
            assert(!is_json_ws("{\"type\":\"ping\"}"@[5]));
        } else if i == 6 {
            assert(!is_json_ws("{\"type\":\"ping\"}"@[6]));
        } else if i == 7 {
            assert(!is_json_ws("{\"type\":\"ping\"}"@[7]));
        } else if i == 8 {
            assert(!is_json_ws("{\"type\":\"ping\"}"@[8]));
        } else if i == 9 {
            assert(!is_json_ws("{\"type\":\"ping\"}"@[9]));
        } else if i == 10 {
            assert(!is_json_ws("{\"type\":\"ping\"}"@[10]));
        } else if i == 11 {
            assert(!is_json_ws("{\"type\":\"ping\"}"@[11]));
        } else if i == 12 {
            assert(!is_json_ws("{\"type\":\"ping\"}"@[12]));
        } else if i == 13 {
            assert(!is_json_ws("{\"type\":\"ping\"}"@[13]));
        } else if i == 14 {
            assert(!is_json_ws("{\"type\":\"ping\"}"@[14]));
        } else {
        }
    }
    lemma_non_ws_id(auth_ok_json_seq());
    lemma_non_ws_id(ping_json_seq());
}

/// The outcome of classifying the single authentication reply: only an
/// explicit success advances the connection.
pub fn auth_outcome(text: &str) -> (r: Result<(), String>)
    ensures
        r is Ok <==> non_ws_of(text@) == auth_ok_json_seq(),
        r matches Err(m) ==> non_ws_of(text@) != auth_ok_json_seq(),
        forall|m: Seq<char>| text@ == #[trigger] auth_error_json_seq(m) ==> (r matches Err(msg)
            && msg@ == "Auth failed: "@ + m),
{
    match classify_response(text) {
        ResponseKind::AuthOk => Ok(()),
        ResponseKind::AuthError(message) => {
            let mut msg = String::from_str("Auth failed: ");
            msg.append(message.as_str());
            proof {
                assert(msg@ =~= "Auth failed: "@ + message@);
            }
            Err(msg)
        },
        _ => {
            proof {
                reveal_strlit("Unexpected response during auth");
            }
            Err(String::from_str("Unexpected response during auth"))
        },
    }
}

/// What the steady-state loop forwards for one inbound frame: pings and
/// acknowledgements and errors go to the caller; anything else is ignored.
pub fn handle_incoming(text: &str) -> (r: Option<IncomingMessage>)
    ensures
        r matches Some(m) ==> (match m {
            IncomingMessage::Ping => non_ws_of(text@) == ping_json_seq(),
            IncomingMessage::DiscoveryAck { propagated } => text@ == discovery_ack_json_seq(
                propagated@.map_values(|l: PropagatedLink| link_view(l)),
            ),
            IncomingMessage::Error(e) => text@ == error_json_seq(e@),
            IncomingMessage::StatusChanged(_) => false,
        }),
        non_ws_of(text@) == ping_json_seq() ==> (r matches Some(m) && m is Ping),
        text@ == ping_json_seq() ==> (r matches Some(m) && m is Ping),
        forall|m: Seq<char>| text@ == #[trigger] error_json_seq(m) ==> (r matches Some(
            IncomingMessage::Error(e),
        ) && e@ == m),
        forall|links: Seq<(Seq<char>, Seq<char>)>|
            #[trigger] discovery_ack_json_seq(links) == text@ ==> (r matches Some(
                IncomingMessage::DiscoveryAck { propagated },
            ) && propagated@.map_values(|l: PropagatedLink| link_view(l)) == links),
{
    proof {
        lemma_constant_forms_plain();
    }
    match classify_response(text) {
        ResponseKind::Ping => Some(IncomingMessage::Ping),
        ResponseKind::DiscoveryAck(propagated) => Some(
            IncomingMessage::DiscoveryAck { propagated },
        ),
        ResponseKind::Error(message) => Some(IncomingMessage::Error(message)),
        _ => None,
    }
}

/// What the actor sends for one queued command, or that it must finish.
pub enum OutgoingAction {
    /// Send this frame.
    SendText(String),
    /// A shutdown command: close and finish.
    Finish,
}

/// Turn one queued command into wire text, or into the order to finish.
pub fn handle_outgoing(msg: &OutgoingMessage) -> (r: OutgoingAction)
    ensures
        (match msg {
            OutgoingMessage::Discovery { source, target } => r matches OutgoingAction::SendText(t)
                && t@ == discovery_json_seq(source@, target@),
            OutgoingMessage::Pong => r matches OutgoingAction::SendText(t) && t@
                == pong_json_seq(),
            OutgoingMessage::Shutdown => r is Finish,
        }),
{
    match msg {
        OutgoingMessage::Discovery { source, target } => OutgoingAction::SendText(
            encode_discovery(source.as_str(), target.as_str()),
        ),
        OutgoingMessage::Pong => OutgoingAction::SendText(encode_pong()),
        OutgoingMessage::Shutdown => OutgoingAction::Finish,
    }
}

// ---------------------------------------------------------------------
// Caller-side client state
// ---------------------------------------------------------------------

/// The caller-side cache of the streaming actor's state: the last status
/// it reported and the last error, fed by the inbound queue.
pub struct ClientCore {
    current_status: ConnectionStatus,
    last_error: Option<String>,
}

impl ClientCore {
    /// The cached status.
    pub closed spec fn statusv(self) -> ConnectionStatus {
        self.current_status
    }

    /// The cached error text.
    pub closed spec fn last_errorv(self) -> Option<Seq<char>> {
        match self.last_error {
            Some(e) => Some(e@),
            None => None,
        }
    }

    /// A fresh cache: disconnected, no error.
    pub fn new() -> (r: Self)
        ensures
            r.statusv() == ConnectionStatus::Disconnected,
            r.last_errorv() is None,
    {
        Self { current_status: ConnectionStatus::Disconnected, last_error: None }
    }

    /// Absorb one message from the actor: remember status changes and
    /// errors, and answer whether a pong must be queued.
    pub fn absorb(&mut self, msg: &IncomingMessage) -> (send_pong: bool)
        ensures
            final(self).statusv() == (match msg {
                IncomingMessage::StatusChanged(s) => *s,
                _ => old(self).statusv(),
            }),
            final(self).last_errorv() == (match msg {
                IncomingMessage::Error(e) => Some(e@),
                _ => old(self).last_errorv(),
            }),
            send_pong == (msg is Ping),
    {
        match msg {
            IncomingMessage::StatusChanged(s) => {
                self.current_status = *s;
                false
            },
            IncomingMessage::Error(e) => {
                self.last_error = Some(e.clone());
                false
            },
            IncomingMessage::Ping => true,
            IncomingMessage::DiscoveryAck { propagated: _ } => false,
        }
    }

    /// The actor's channel is gone: the connection is down.
    pub fn on_channel_closed(&mut self)
        ensures
            final(self).statusv() == ConnectionStatus::Disconnected,
            final(self).last_errorv() == old(self).last_errorv(),
    {
        self.current_status = ConnectionStatus::Disconnected;
    }

    /// The cached status.
    pub fn status(&self) -> (r: ConnectionStatus)
        ensures
            r == self.statusv(),
    {
        self.current_status
    }

    /// The cached error text.
    pub fn last_error(&self) -> (r: Option<&str>)
        ensures
            match r {
                Some(e) => self.last_errorv() == Some(e@),
                None => self.last_errorv() is None,
            },
    {
        match &self.last_error {
            Some(e) => Some(e.as_str()),
            None => None,
        }
    }

    /// Whether the cached status is connected.
    pub fn is_connected(&self) -> (r: bool)
        ensures
            r == (self.statusv() == ConnectionStatus::Connected),
    {
        self.current_status == ConnectionStatus::Connected
    }
}

/// Whether server integration is on: enabled, with an endpoint, a token
/// and a game id.
pub fn is_enabled(settings: &ServerSettings) -> (r: bool)
    ensures
        r == (settings.enabled && settings.url@.len() > 0 && settings.api_token@.len() > 0
            && settings.game_id@.len() > 0),
{
    settings.enabled && !settings.url.as_str().is_empty() && !settings.api_token.as_str().is_empty()
        && !settings.game_id.as_str().is_empty()
}

/// The configured URL without trailing slashes.
pub open spec fn rtrim_slashes(s: Seq<char>) -> Seq<char>
    decreases s.len(),
{
    if s.len() > 0 && s.last() == '/' {
        rtrim_slashes(s.drop_last())
    } else {
        s
    }
}

/// The endpoint for a game: the configured URL without trailing slashes,
/// the fixed path, and the game id.
pub open spec fn ws_url_seq(url: Seq<char>, game_id: Seq<char>) -> Seq<char> {
    rtrim_slashes(url) + "/ws/mod/"@ + game_id
}

/// Build the endpoint for a game.
#[verifier::loop_isolation(false)]
pub fn build_ws_url(url: &str, game_id: &str) -> (r: String)
    ensures
        r@ == ws_url_seq(url@, game_id@),
{
    let n = url.unicode_len();
    let mut hi: usize = n;
    while hi > 0 && url.get_char(hi - 1) == '/'
        invariant
            0 <= hi <= n,
            forall|j: int| hi <= j < n ==> url@[j] == '/',
        decreases hi,
    {
        hi = hi - 1;
    }
    let base = url.substring_char(0, hi);
    proof {
        lemma_rtrim_slashes_at(url@, hi as int);
    }
    let mut s = base.to_owned();
    s.append("/ws/mod/");
    s.append(game_id);
    proof {
        assert(s@ =~= ws_url_seq(url@, game_id@));
    }
    s
}

/// Slash trimming keeps the part up to the last non-slash character.
proof fn lemma_rtrim_slashes_at(s: Seq<char>, hi: int)
    requires
        0 <= hi <= s.len(),
        forall|j: int| hi <= j < s.len() ==> s[j] == '/',
        hi > 0 ==> s[hi - 1] != '/',
    ensures
        rtrim_slashes(s) =~= s.subrange(0, hi),
    decreases s.len(),
{
    if s.len() > 0 && s.last() == '/' {
        let t = s.drop_last();
        assert(forall|j: int| 0 <= j < s.len() - 1 ==> t[j] == s[j]);
        lemma_rtrim_slashes_at(t, hi);
        assert(t.subrange(0, hi) =~= s.subrange(0, hi));
    } else {
        assert(s.subrange(0, hi) =~= s);
    }
}

/// Whether the configured URL calls for an encrypted transport: its
/// scheme is `wss`.
pub fn url_is_secure(s: &str) -> (r: bool)
    ensures
        r == (scheme_of(s@) == Some("wss"@)),
{
    match url_scheme(s) {
        Some(sch) => str_eq(sch.as_str(), "wss"),
        None => false,
    }
}

} // verus!
