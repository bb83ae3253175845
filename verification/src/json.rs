use vstd::prelude::*;
use vstd::string::StrSliceExecFns;
use vstd::string::StringExecFns;

verus! {

/// The pipeline's model of a JSON document: exactly the structure the
/// schema file and the completion API hand back. Numbers keep only their
/// textual rendering; no stage of the pipeline reads a numeric value.
#[derive(Debug)]
pub enum JsonTree {
    Null,
    Bool(bool),
    Number(String),
    Text(String),
    Array(Vec<JsonTree>),
    Object(Vec<(String, JsonTree)>),
}

#[verifier::external_type_specification]
#[verifier::external_body]
pub struct ExSerdeJsonError(serde_json::Error);

#[verifier::external_type_specification]
#[verifier::external_body]
pub struct ExSerdeJsonValue(serde_json::Value);

/// The document that JSON text `s` denotes, as a `JsonTree`, or `None`
/// where `s` is not valid JSON. JSON parsing is a function of the text
/// alone: object members come out sorted by key, with the last binding
/// kept where a key repeats, and numbers keep their canonical rendering.
pub uninterp spec fn parsed_json(s: Seq<char>) -> Option<JsonTree>;

/// Relies on `serde_json::from_str::<serde_json::Value>`: parsing is
/// deterministic in the text, succeeds exactly on valid JSON, and
/// `tree_of_value` rewrites the parsed value structurally.
#[verifier::external_body]
pub(crate) fn parse_json(s: &str) -> (r: Result<JsonTree, serde_json::Error>)
    ensures
        match r {
            Ok(t) => parsed_json(s@) == Some(t),
            Err(_) => parsed_json(s@) is None,
        },
{
    serde_json::from_str::<serde_json::Value>(s).map(|v| tree_of_value(&v))
}

/// Relies on `serde_json::Value` exposing its variants: each one is moved
/// into the matching `JsonTree` variant, keeping a number only as the text
/// `serde_json` renders for it. Only `parse_json` uses this.
#[verifier::external_body]
fn tree_of_value(v: &serde_json::Value) -> JsonTree {
    match v {
        serde_json::Value::Null => JsonTree::Null,
        serde_json::Value::Bool(b) => JsonTree::Bool(*b),
        serde_json::Value::Number(n) => JsonTree::Number(n.to_string()),
        serde_json::Value::String(s) => JsonTree::Text(s.clone()),
        serde_json::Value::Array(items) => JsonTree::Array(
            items.iter().map(tree_of_value).collect(),
        ),
        serde_json::Value::Object(members) => JsonTree::Object(
            members.iter().map(|(k, m)| (k.clone(), tree_of_value(m))).collect(),
        ),
    }
}

/// The value bound to `key` in an object's member list: the first binding
/// wins. Members parsed from JSON text carry distinct keys, so the first
/// binding is the only one.
pub open spec fn lookup_spec(members: Seq<(String, JsonTree)>, key: Seq<char>) -> Option<
    JsonTree,
>
    decreases members.len(),
{
    if members.len() == 0 {
        None
    } else if members[0].0@ == key {
        Some(members[0].1)
    } else {
        lookup_spec(members.drop_first(), key)
    }
}

proof fn lemma_lookup_step(members: Seq<(String, JsonTree)>, key: Seq<char>, i: int)
    requires
        0 <= i < members.len(),
        forall|k: int| 0 <= k <= i ==> #[trigger] members[k].0@ != key,
    ensures
        lookup_spec(members.skip(i), key) == lookup_spec(members.skip(i + 1), key),
    decreases i,
{
    assert(members.skip(i)[0] == members[i]);
    assert(members.skip(i).drop_first() =~= members.skip(i + 1));
}

/// Runtime lookup of `key` among an object's members.
pub fn lookup<'a>(members: &'a Vec<(String, JsonTree)>, key: &str) -> (r: Option<&'a JsonTree>)
    ensures
        match r {
            Some(v) => lookup_spec(members@, key@) == Some(*v),
            None => lookup_spec(members@, key@) is None,
        },
{
    let key_owned: String = key.to_owned();
    let n = members.len();
    let mut i: usize = 0;
    proof {
        assert(members@.skip(0) =~= members@);
    }
    while i < n
        invariant
            i <= n,
            n == members@.len(),
            key_owned@ == key@,
            lookup_spec(members@, key@) == lookup_spec(members@.skip(i as int), key@),
            forall|k: int| 0 <= k < i ==> #[trigger] members@[k].0@ != key@,
        decreases n - i,
    {
        if members[i].0 == key_owned {
            assert(members@.skip(i as int)[0] == members@[i as int]);
            return Some(&members[i].1);
        }
        proof {
            lemma_lookup_step(members@, key@, i as int);
        }
        i += 1;
    }
    assert(members@.skip(n as int) =~= Seq::<(String, JsonTree)>::empty());
    None
}

/// The decimal digit characters of `n`, most significant first.
pub open spec fn dec_str(n: nat) -> Seq<char>
    decreases n,
{
    if n < 10 {
        seq![digit_char(n as int)]
    } else {
        dec_str(n / 10) + seq![digit_char((n % 10) as int)]
    }
}

/// The character for the hexadecimal (and decimal) digit `n`.
pub open spec fn digit_char(n: int) -> char {
    if n == 0 {
        '0'
    } else if n == 1 {
        '1'
    } else if n == 2 {
        '2'
    } else if n == 3 {
        '3'
    } else if n == 4 {
        '4'
    } else if n == 5 {
        '5'
    } else if n == 6 {
        '6'
    } else if n == 7 {
        '7'
    } else if n == 8 {
        '8'
    } else if n == 9 {
        '9'
    } else if n == 10 {
        'a'
    } else if n == 11 {
        'b'
    } else if n == 12 {
        'c'
    } else if n == 13 {
        'd'
    } else if n == 14 {
        'e'
    } else {
        'f'
    }
}

/// A one-character string slice for the digit `n` (hexadecimal up to 15).
fn digit_str(n: u8) -> (r: &'static str)
    requires
        n < 16,
    ensures
        r@ =~= seq![digit_char(n as int)],
{
    proof {
        reveal_strlit("0");
        reveal_strlit("1");
        reveal_strlit("2");
        reveal_strlit("3");
        reveal_strlit("4");
        reveal_strlit("5");
        reveal_strlit("6");
        reveal_strlit("7");
        reveal_strlit("8");
        reveal_strlit("9");
        reveal_strlit("a");
        reveal_strlit("b");
        reveal_strlit("c");
        reveal_strlit("d");
        reveal_strlit("e");
        reveal_strlit("f");
    }
    if n == 0 {
        "0"
    } else if n == 1 {
        "1"
    } else if n == 2 {
        "2"
    } else if n == 3 {
        "3"
    } else if n == 4 {
        "4"
    } else if n == 5 {
        "5"
    } else if n == 6 {
        "6"
    } else if n == 7 {
        "7"
    } else if n == 8 {
        "8"
    } else if n == 9 {
        "9"
    } else if n == 10 {
        "a"
    } else if n == 11 {
        "b"
    } else if n == 12 {
        "c"
    } else if n == 13 {
        "d"
    } else if n == 14 {
        "e"
    } else {
        "f"
    }
}

/// The decimal rendering of `n` as a string.
pub fn u64_to_dec(n: u64) -> (r: String)
    ensures
        r@ == dec_str(n as nat),
    decreases n,
{
    if n < 10 {
        let r = digit_str(n as u8).to_owned();
        assert(r@ =~= dec_str(n as nat));
        r
    } else {
        let mut r = u64_to_dec(n / 10);
        r.append(digit_str((n % 10) as u8));
        assert(r@ =~= dec_str(n as nat));
        r
    }
}

/// How one character is written inside a JSON string literal: quote and
/// backslash get a backslash escape, the named control characters get their
/// short escapes, the remaining control characters get a `\u00..` escape,
/// and everything else stands as itself.
pub open spec fn escape_char(c: char) -> Seq<char> {
    if c == '"' {
        seq!['\\', '"']
    } else if c == '\\' {
        seq!['\\', '\\']
    } else if c == '\u{8}' {
        seq!['\\', 'b']
    } else if c == '\t' {
        seq!['\\', 't']
    } else if c == '\n' {
        seq!['\\', 'n']
    } else if c == '\u{c}' {
        seq!['\\', 'f']
    } else if c == '\r' {
        seq!['\\', 'r']
    } else if (c as u32) < 0x20 {
        seq!['\\', 'u', '0', '0', digit_char((c as u32 / 16) as int), digit_char(
            (c as u32 % 16) as int,
        )]
    } else {
        seq![c]
    }
}

/// The body of a JSON string literal holding exactly the text `s`.
pub open spec fn escape_str(s: Seq<char>) -> Seq<char>
    decreases s.len(),
{
    if s.len() == 0 {
        Seq::empty()
    } else {
        escape_str(s.drop_last()) + escape_char(s.last())
    }
}

/// Writes `s` as the body of a JSON string literal, escaping what JSON
/// requires.
pub fn escape_json(s: &str) -> (r: String)
    ensures
        r@ == escape_str(s@),
{
    let n = s.unicode_len();
    let mut out = String::new();
    let mut i: usize = 0;
    while i < n
        invariant
            i <= n,
            n == s@.len(),
            out@ == escape_str(s@.take(i as int)),
        decreases n - i,
    {
        let c = s.get_char(i);
        if c == '"' {
            out.append("\\\"");
            proof {
                reveal_strlit("\\\"");
            }
        } else if c == '\\' {
            out.append("\\\\");
            proof {
                reveal_strlit("\\\\");
            }
        } else if c == '\u{8}' {
            out.append("\\b");
            proof {
                reveal_strlit("\\b");
            }
        } else if c == '\t' {
            out.append("\\t");
            proof {
                reveal_strlit("\\t");
            }
        } else if c == '\n' {
            out.append("\\n");
            proof {
                reveal_strlit("\\n");
            }
        } else if c == '\u{c}' {
            out.append("\\f");
            proof {
                reveal_strlit("\\f");
            }
        } else if c == '\r' {
            out.append("\\r");
            proof {
                reveal_strlit("\\r");
            }
        } else if (c as u32) < 0x20 {
            out.append("\\u00");
            out.append(digit_str((c as u32 / 16) as u8));
            out.append(digit_str((c as u32 % 16) as u8));
            proof {
                reveal_strlit("\\u00");
            }
        } else {
            let piece = s.substring_char(i, i + 1);
            out.append(piece);
        }
        proof {
            assert(s@.take(i + 1).drop_last() =~= s@.take(i as int));
            assert(s@.take(i + 1).last() == s@[i as int]);
            assert(out@ =~= escape_str(s@.take(i + 1)));
        }
        i += 1;
    }
    proof {
        assert(s@.take(n as int) =~= s@);
    }
    out
}

} // verus!
