//! Request bodies: JSON objects whose members are strings.

use vstd::prelude::*;

verus! {

/// The error of the JSON encoder.
#[verifier::external_type_specification]
#[verifier::external_body]
pub struct ExJsonError(serde_json::Error);

/// The lower-case hexadecimal digit of a value below sixteen, as a byte.
pub open spec fn hex_lower(d: u8) -> u8 {
    if d < 10 {
        (0x30 + d) as u8
    } else {
        (0x61 + d - 10) as u8
    }
}

/// The bytes that stand for one byte of a text inside a JSON string literal:
/// a backslash and a letter for the quote, the backslash and five control
/// characters, `\u00` and two hexadecimal digits for the other bytes below
/// the space, and the byte itself for every other byte.
pub open spec fn escaped_json_byte(b: u8) -> Seq<u8> {
    if b == 0x22 {
        seq![0x5Cu8, 0x22u8]
    } else if b == 0x5C {
        seq![0x5Cu8, 0x5Cu8]
    } else if b == 0x08 {
        seq![0x5Cu8, 0x62u8]
    } else if b == 0x09 {
        seq![0x5Cu8, 0x74u8]
    } else if b == 0x0A {
        seq![0x5Cu8, 0x6Eu8]
    } else if b == 0x0C {
        seq![0x5Cu8, 0x66u8]
    } else if b == 0x0D {
        seq![0x5Cu8, 0x72u8]
    } else if b < 0x20 {
        seq![0x5Cu8, 0x75u8, 0x30u8, 0x30u8, hex_lower(b / 16), hex_lower(b % 16)]
    } else {
        seq![b]
    }
}

/// The bytes of a text as they stand inside a JSON string literal.
pub open spec fn escaped_json_bytes(bytes: Seq<u8>) -> Seq<u8>
    decreases bytes.len(),
{
    if bytes.len() == 0 {
        Seq::empty()
    } else {
        escaped_json_bytes(bytes.drop_last()) + escaped_json_byte(bytes.last())
    }
}

/// The JSON string literal of a text: its bytes in UTF-8, escaped, between
/// two quotes.
pub open spec fn json_string_literal(text: Seq<char>) -> Seq<u8> {
    seq![0x22u8] + escaped_json_bytes(vstd::utf8::encode_utf8(text)) + seq![0x22u8]
}

/// A JSON string literal holds no control byte, and a quote inside it follows
/// a backslash.
pub proof fn lemma_escaped_json_bytes(bytes: Seq<u8>, i: int)
    requires
        0 <= i < escaped_json_bytes(bytes).len(),
    ensures
        escaped_json_bytes(bytes)[i] >= 0x20,
        escaped_json_bytes(bytes)[i] == 0x22 ==> i > 0 && escaped_json_bytes(bytes)[i - 1] == 0x5C,
    decreases bytes.len(),
{
    if bytes.len() > 0 {
        let front = escaped_json_bytes(bytes.drop_last());
        let tail = escaped_json_byte(bytes.last());
        if i < front.len() {
            lemma_escaped_json_bytes(bytes.drop_last(), i);
            assert(escaped_json_bytes(bytes)[i] == front[i]);
            if i > 0 {
                assert(escaped_json_bytes(bytes)[i - 1] == front[i - 1]);
            }
        } else {
            assert(escaped_json_bytes(bytes)[i] == tail[i - front.len()]);
            if i > front.len() {
                assert(escaped_json_bytes(bytes)[i - 1] == tail[i - 1 - front.len()]);
            }
        }
    }
}

/// `serde_json::to_vec` on a string slice. It succeeds on every text: the
/// bytes go into a vector, which takes every write, and on the way of a
/// string slice nothing else returns an error. The bytes are a quote, the
/// bytes of the text in UTF-8 with the quote, the backslash and the bytes
/// below the space escaped as `escaped_json_byte` says, and a quote.
#[verifier::external_body]
fn encode_string(text: &str) -> (r: Result<Vec<u8>, serde_json::Error>)
    ensures
        r is Ok,
        r->Ok_0@ == json_string_literal(text@),
{
    serde_json::to_vec(text)
}

/// `to_string` of `serde_json::Error`: the text of the error. Nothing is
/// claimed of it.
#[verifier::external_body]
fn error_text(error: &serde_json::Error) -> String {
    error.to_string()
}

/// One member of an object: the literal of the key, a colon, the literal of
/// the value.
pub open spec fn member_bytes(key: Seq<u8>, value: Seq<u8>) -> Seq<u8> {
    key + seq![0x3Au8] + value
}

/// The members of an object, with a comma between each two.
pub open spec fn members_bytes(literals: Seq<(Seq<u8>, Seq<u8>)>) -> Seq<u8>
    decreases literals.len(),
{
    if literals.len() == 0 {
        Seq::empty()
    } else if literals.len() == 1 {
        member_bytes(literals[0].0, literals[0].1)
    } else {
        members_bytes(literals.drop_last()) + seq![0x2Cu8] + member_bytes(
            literals.last().0,
            literals.last().1,
        )
    }
}

/// An object in compact form: the members between braces.
pub open spec fn object_bytes(literals: Seq<(Seq<u8>, Seq<u8>)>) -> Seq<u8> {
    seq![0x7Bu8] + members_bytes(literals) + seq![0x7Du8]
}

/// The literals of the keys and values of a list of fields.
pub open spec fn field_literals(fields: Seq<(Seq<char>, Seq<char>)>) -> Seq<(Seq<u8>, Seq<u8>)> {
    fields.map_values(
        |field: (Seq<char>, Seq<char>)| (json_string_literal(field.0), json_string_literal(field.1)),
    )
}

/// The compact JSON object that holds the fields in the order given.
pub open spec fn json_object(fields: Seq<(Seq<char>, Seq<char>)>) -> Seq<u8> {
    object_bytes(field_literals(fields))
}

/// The views of a list of pairs of byte strings.
pub open spec fn literal_views(literals: Seq<(Vec<u8>, Vec<u8>)>) -> Seq<(Seq<u8>, Seq<u8>)> {
    literals.map_values(|pair: (Vec<u8>, Vec<u8>)| (pair.0@, pair.1@))
}

/// The views of a list of pairs of texts.
pub open spec fn field_views(fields: Seq<(String, String)>) -> Seq<(Seq<char>, Seq<char>)> {
    fields.map_values(|field: (String, String)| (field.0@, field.1@))
}

fn append_bytes(out: &mut Vec<u8>, bytes: &Vec<u8>)
    ensures
        final(out)@ == old(out)@ + bytes@,
{
    let mut i: usize = 0;
    while i < bytes.len()
        invariant
            i <= bytes.len(),
            out@ == old(out)@ + bytes@.take(i as int),
        decreases bytes.len() - i,
    {
        out.push(bytes[i]);
        assert(bytes@.take(i + 1) =~= bytes@.take(i as int).push(bytes@[i as int]));
        assert(out@ =~= old(out)@ + bytes@.take(i + 1));
        i += 1;
    }
    assert(bytes@.take(i as int) =~= bytes@);
}

/// Frames encoded keys and values as one compact JSON object.
pub fn frame_object(literals: &Vec<(Vec<u8>, Vec<u8>)>) -> (r: Vec<u8>)
    ensures
        r@ == object_bytes(literal_views(literals@)),
{
    let ghost views = literal_views(literals@);
    let mut out: Vec<u8> = Vec::new();
    out.push(0x7Bu8);
    let mut i: usize = 0;
    assert(views.take(0) =~= Seq::<(Seq<u8>, Seq<u8>)>::empty());
    assert(out@ =~= seq![0x7Bu8] + members_bytes(views.take(0)));
    while i < literals.len()
        invariant
            i <= literals.len(),
            views == literal_views(literals@),
            out@ == seq![0x7Bu8] + members_bytes(views.take(i as int)),
        decreases literals.len() - i,
    {
        let ghost before = out@;
        let ghost shorter = views.take(i as int);
        let ghost longer = views.take(i + 1);
        proof {
            assert(longer.drop_last() =~= shorter);
            assert(longer.last() == views[i as int]);
            assert(views[i as int] == (literals@[i as int].0@, literals@[i as int].1@));
        }
        if i > 0 {
            out.push(0x2Cu8);
        }
        append_bytes(&mut out, &literals[i].0);
        out.push(0x3Au8);
        append_bytes(&mut out, &literals[i].1);
        assert(out@ =~= seq![0x7Bu8] + members_bytes(longer)) by {
            if i == 0 {
                assert(shorter.len() == 0);
                assert(longer.len() == 1);
                assert(longer[0] == views[0]);
            }
        }
        i += 1;
    }
    assert(views.take(i as int) =~= views);
    out.push(0x7Du8);
    out
}

/// Encodes a list of fields as one compact JSON object that holds the fields
/// in the order given. Every list is encoded: the encoder takes every key and
/// every value, so the error that its signature allows for never comes.
pub fn encode_object(fields: &Vec<(String, String)>) -> (r: Result<Vec<u8>, String>)
    ensures
        r is Ok,
        r->Ok_0@ == json_object(field_views(fields@)),
{
    let ghost views = field_views(fields@);
    let mut literals: Vec<(Vec<u8>, Vec<u8>)> = Vec::new();
    let mut i: usize = 0;
    assert(literal_views(literals@) =~= field_literals(views.take(0)));
    while i < fields.len()
        invariant
            i <= fields.len(),
            views == field_views(fields@),
            literals@.len() == i,
            literal_views(literals@) == field_literals(views.take(i as int)),
        decreases fields.len() - i,
    {
        let ghost before = literals@;
        let key = match encode_string(fields[i].0.as_str()) {
            Ok(bytes) => bytes,
            Err(error) => {
                return Err(error_text(&error));
            },
        };
        let value = match encode_string(fields[i].1.as_str()) {
            Ok(bytes) => bytes,
            Err(error) => {
                return Err(error_text(&error));
            },
        };
        literals.push((key, value));
        proof {
            assert(views[i as int] == (fields@[i as int].0@, fields@[i as int].1@));
            assert(views.take(i + 1) =~= views.take(i as int).push(views[i as int]));
            assert(literals@ =~= before.push((key, value)));
            assert forall|k: int| 0 <= k < i + 1 implies literal_views(literals@)[k]
                == field_literals(views.take(i + 1))[k] by {
                if k < i {
                    assert(literal_views(literals@)[k] == literal_views(before)[k]);
                    assert(field_literals(views.take(i + 1))[k] == field_literals(
                        views.take(i as int),
                    )[k]);
                }
            }
            assert(literal_views(literals@) =~= field_literals(views.take(i + 1)));
        }
        i += 1;
    }
    assert(views.take(i as int) =~= views);
    Ok(frame_object(&literals))
}

} // verus!
