//! JSON through `serde_json`: the string literals of the payloads this crate assembles,
//! and the few values it reads from replies. Integer literals are plain decimal text.

use vstd::prelude::*;
use crate::text::{decimal, decimal_text, digit_char};

verus! {

/// Lower-case hexadecimal digit of `d < 16`.
pub open spec fn hex_lower(d: nat) -> char {
    if d < 10 { digit_char(d) }
    else if d == 10 { 'a' }
    else if d == 11 { 'b' }
    else if d == 12 { 'c' }
    else if d == 13 { 'd' }
    else if d == 14 { 'e' }
    else { 'f' }
}

/// How `serde_json` writes one character inside a string literal: `"` and `\` behind a
/// backslash; backspace, tab, line feed, form feed and carriage return as `\b`, `\t`,
/// `\n`, `\f`, `\r`; the other control characters below U+0020 as `\u00XX` in
/// lower-case hex; every other character as itself.
pub open spec fn json_escape(c: char) -> Seq<char> {
    if c == '"' {
        seq!['\\', '"']
    } else if c == '\\' {
        seq!['\\', '\\']
    } else if c == '\x08' {
        seq!['\\', 'b']
    } else if c == '\t' {
        seq!['\\', 't']
    } else if c == '\n' {
        seq!['\\', 'n']
    } else if c == '\x0c' {
        seq!['\\', 'f']
    } else if c == '\r' {
        seq!['\\', 'r']
    } else if (c as u32) < 0x20 {
        seq!['\\', 'u', '0', '0', hex_lower(((c as u32) / 16) as nat), hex_lower(((c as u32) % 16) as nat)]
    } else {
        seq![c]
    }
}

/// The escaped contents of a string literal.
pub open spec fn json_escaped(s: Seq<char>) -> Seq<char>
    decreases s.len(),
{
    if s.len() == 0 {
        Seq::empty()
    } else {
        json_escaped(s.drop_last()) + json_escape(s.last())
    }
}

/// The JSON string literal that `serde_json` writes for `s`: its escaped characters
/// between double quotes.
pub open spec fn json_string(s: Seq<char>) -> Seq<char> {
    seq!['"'] + json_escaped(s) + seq!['"']
}

/// What `serde_json` reads from `text` at each path of keys: on success, for each path, the
/// value found there as an unsigned integer and as a string (each `None` where the path
/// is missing or the value is of another JSON type); on failure the parse error's message.
pub uninterp spec fn json_leaves(text: Seq<char>, paths: Seq<Seq<Seq<char>>>) -> Result<Seq<(Option<u64>, Option<Seq<char>>)>, Seq<char>>;

/// The JSON text of an integer, as `serde_json` writes it: its decimal digits, after a
/// minus sign when negative.
pub open spec fn json_integer(n: i64) -> Seq<char> {
    if n < 0 {
        "-"@ + decimal((-n) as nat)
    } else {
        decimal(n as nat)
    }
}

/// View of an optional string.
pub open spec fn opt_text(o: Option<String>) -> Option<Seq<char>> {
    match o {
        Some(s) => Some(s@),
        None => None,
    }
}

/// A value read at a path: as an unsigned integer, and as a string.
#[derive(Debug)]
pub struct JsonLeaf {
    pub number: Option<u64>,
    pub text: Option<String>,
}

impl JsonLeaf {
    pub open spec fn leaf(self) -> (Option<u64>, Option<Seq<char>>) {
        (self.number, opt_text(self.text))
    }
}

/// The views of a list of leaves.
pub open spec fn leaves_view(ls: Seq<JsonLeaf>) -> Seq<(Option<u64>, Option<Seq<char>>)> {
    ls.map_values(|l: JsonLeaf| l.leaf())
}

/// `serde_json::to_string` on a `str`: the quoted, escaped JSON string literal. The
/// contract claims the result is [`json_string`] of `s` (serde_json's escape table and
/// `\u00XX` form); serialising a `str` into memory cannot fail, so the error arm is never
/// taken.
#[verifier::external_body]
pub fn json_quote(s: &str) -> (r: String)
    ensures
        r@ == json_string(s@),
{
    match serde_json::to_string(s) {
        Ok(t) => t,
        Err(_) => String::new(),
    }
}

/// `serde_json::from_str::<serde_json::Value>`, then, for each path, the value reached by
/// indexing with its keys in turn, read with `as_u64` and `as_str`. The contract claims
/// the result is the named reading, with one leaf per path.
#[verifier::external_body]
pub fn read_json_leaves(text: &str, paths: &Vec<Vec<&str>>) -> (r: Result<Vec<JsonLeaf>, String>)
    ensures
        match r {
            Ok(ls) => json_leaves(text@, paths.deep_view()) == Ok::<_, Seq<char>>(leaves_view(ls@))
                && ls@.len() == paths@.len(),
            Err(e) => json_leaves(text@, paths.deep_view()) == Err::<Seq<(Option<u64>, Option<Seq<char>>)>, _>(e@),
        },
{
    match serde_json::from_str::<serde_json::Value>(text) {
        Ok(v) => Ok(paths
            .iter()
            .map(|p| p.iter().fold(&v, |node, key| &node[*key]))
            .map(|leaf| JsonLeaf { number: leaf.as_u64(), text: leaf.as_str().map(|s| s.to_string()) })
            .collect()),
        Err(e) => Err(e.to_string()),
    }
}

/// The JSON text of an integer.
pub fn json_number(n: i64) -> (r: String)
    ensures
        r@ == json_integer(n),
{
    if n < 0 {
        let magnitude: u64 = (-(n as i128)) as u64;
        let mut s = "-".to_owned();
        s.append(decimal_text(magnitude).as_str());
        s
    } else {
        decimal_text(n as u64)
    }
}

// ----------------------------------------------------------------------- gateway frames

/// Fields of a gateway frame that the session logic reads.
#[derive(Debug)]
pub struct GatewayFields {
    pub op: Option<u64>,
    pub event: Option<String>,
    pub heartbeat_interval: Option<u64>,
}

impl GatewayFields {
    pub open spec fn fields(self) -> (Option<u64>, Option<Seq<char>>, Option<u64>) {
        (self.op, opt_text(self.event), self.heartbeat_interval)
    }
}

/// The paths read from a gateway frame: `op`, `t` and `d.heartbeat_interval`.
pub open spec fn gateway_paths() -> Seq<Seq<Seq<char>>> {
    seq![seq!["op"@], seq!["t"@], seq!["d"@, "heartbeat_interval"@]]
}

/// What a gateway frame's text reads as: the `op` field as an unsigned integer, the `t`
/// field as a string, and `d.heartbeat_interval` as an unsigned integer; or the parse
/// error's message.
pub open spec fn gateway_frame_fields(text: Seq<char>) -> Result<(Option<u64>, Option<Seq<char>>, Option<u64>), Seq<char>> {
    match json_leaves(text, gateway_paths()) {
        Ok(ls) => Ok((ls[0].0, ls[1].1, ls[2].0)),
        Err(e) => Err(e),
    }
}

/// Reads a gateway frame; see [`gateway_frame_fields`].
pub fn read_gateway_frame(text: &str) -> (r: Result<GatewayFields, String>)
    ensures
        match r {
            Ok(f) => gateway_frame_fields(text@) == Ok::<_, Seq<char>>(f.fields()),
            Err(e) => gateway_frame_fields(text@) == Err::<(Option<u64>, Option<Seq<char>>, Option<u64>), _>(e@),
        },
{
    let paths: Vec<Vec<&str>> = vec![vec!["op"], vec!["t"], vec!["d", "heartbeat_interval"]];
    assert(paths.deep_view() =~~= gateway_paths());
    match read_json_leaves(text, &paths) {
        Err(e) => Err(e),
        Ok(leaves) => {
            let op = leaves[0].number;
            let event = crate::presence::copy_opt_text(&leaves[1].text);
            let heartbeat_interval = leaves[2].number;
            Ok(GatewayFields { op, event, heartbeat_interval })
        },
    }
}

// ----------------------------------------------------------------------- session replies

/// The path read from a headless-session reply: `token`.
pub open spec fn reply_paths() -> Seq<Seq<Seq<char>>> {
    seq![seq!["token"@]]
}

/// What a headless-session reply reads as: its `token` field as a string (`None` where
/// absent or not a string), or the parse error's message.
pub open spec fn reply_token_field(text: Seq<char>) -> Result<Option<Seq<char>>, Seq<char>> {
    match json_leaves(text, reply_paths()) {
        Ok(ls) => Ok(ls[0].1),
        Err(e) => Err(e),
    }
}

/// Reads a headless-session reply; see [`reply_token_field`].
pub fn read_reply_token(text: &str) -> (r: Result<Option<String>, String>)
    ensures
        match r {
            Ok(t) => reply_token_field(text@) == Ok::<_, Seq<char>>(opt_text(t)),
            Err(e) => reply_token_field(text@) == Err::<Option<Seq<char>>, _>(e@),
        },
{
    let paths: Vec<Vec<&str>> = vec![vec!["token"]];
    assert(paths.deep_view() =~~= reply_paths());
    match read_json_leaves(text, &paths) {
        Err(e) => Err(e),
        Ok(leaves) => Ok(crate::presence::copy_opt_text(&leaves[0].text)),
    }
}

} // verus!
