//! The converter's general laws, stated over the specification
//! functions of `delta` and proved once for all inputs.

use crate::delta::{
    hashes, insert_text_spec, lemma_last_newline_none, op_spec, ops_spec, transform_spec,
    DeltaErrorKind,
};
use crate::json::{lookup_spec, JsonValue};
use vstd::prelude::*;

verus! {

/// An operation that inserts plain text: an object whose `insert` is a
/// string and which carries no `attributes`.
pub open spec fn is_plain_text_op(op: JsonValue) -> bool {
    match op {
        JsonValue::Obj(e) => match lookup_spec(e@, "insert"@) {
            Some(JsonValue::Str(_)) => lookup_spec(e@, "attributes"@) is None,
            _ => false,
        },
        _ => false,
    }
}

/// The text that a plain insert operation contributes.
pub open spec fn plain_text_of(op: JsonValue) -> Seq<char> {
    match op {
        JsonValue::Obj(e) => match lookup_spec(e@, "insert"@) {
            Some(JsonValue::Str(s)) => s@,
            _ => Seq::empty(),
        },
        _ => Seq::empty(),
    }
}

/// The concatenation of the texts of a sequence of plain inserts.
pub open spec fn plain_concat(ops: Seq<JsonValue>) -> Seq<char>
    decreases ops.len(),
{
    if ops.len() == 0 {
        Seq::empty()
    } else {
        plain_text_of(ops[0]) + plain_concat(ops.drop_first())
    }
}

/// Law: a document whose operations all insert plain text, with no
/// attributes on any of them, produces exactly the concatenation of
/// the inserted strings, in document order, with no separators added.
pub proof fn lemma_plain_inserts_concatenate(ops: Seq<JsonValue>, acc: Seq<char>)
    requires
        forall|i: int| 0 <= i < ops.len() ==> is_plain_text_op(#[trigger] ops[i]),
    ensures
        ops_spec(ops, acc) == Ok::<Seq<char>, (DeltaErrorKind, Seq<char>)>(acc + plain_concat(ops)),
    decreases ops.len(),
{
    if ops.len() == 0 {
        assert(acc + plain_concat(ops) =~= acc);
    } else {
        assert(is_plain_text_op(ops[0]));
        assert(op_spec(ops[0], acc) == Ok::<Seq<char>, (DeltaErrorKind, Seq<char>)>(
            acc + plain_text_of(ops[0]),
        ));
        assert(forall|i: int|
            0 <= i < ops.drop_first().len() ==> is_plain_text_op(
                #[trigger] ops.drop_first()[i],
            ));
        lemma_plain_inserts_concatenate(ops.drop_first(), acc + plain_text_of(ops[0]));
        assert(acc + plain_text_of(ops[0]) + plain_concat(ops.drop_first()) =~= acc
            + plain_concat(ops));
    }
}

/// Law: with `bold: true` as the only recognized attribute, the
/// transform wraps any text in `**` markers on both sides.
pub proof fn lemma_bold_wraps(attrs: Seq<(String, JsonValue)>, t: Seq<char>)
    requires
        lookup_spec(attrs, "code-block"@) is None,
        lookup_spec(attrs, "bold"@) == Some(JsonValue::Bool(true)),
        lookup_spec(attrs, "italic"@) is None,
        lookup_spec(attrs, "header"@) is None,
    ensures
        transform_spec(attrs, t) == Ok::<Seq<char>, (DeltaErrorKind, Seq<char>)>("**"@ + t + "**"@),
{
}

/// Law: with `italic: true` as the only recognized attribute, the
/// transform wraps any text in single `*` markers.
pub proof fn lemma_italic_wraps(attrs: Seq<(String, JsonValue)>, t: Seq<char>)
    requires
        lookup_spec(attrs, "code-block"@) is None,
        lookup_spec(attrs, "bold"@) is None,
        lookup_spec(attrs, "italic"@) == Some(JsonValue::Bool(true)),
        lookup_spec(attrs, "header"@) is None,
    ensures
        transform_spec(attrs, t) == Ok::<Seq<char>, (DeltaErrorKind, Seq<char>)>("*"@ + t + "*"@),
{
}

/// Law: with both `bold: true` and `italic: true`, italic wraps bold's
/// result, so any text comes out with triple markers on each side.
pub proof fn lemma_bold_italic_nesting(attrs: Seq<(String, JsonValue)>, t: Seq<char>)
    requires
        lookup_spec(attrs, "code-block"@) is None,
        lookup_spec(attrs, "bold"@) == Some(JsonValue::Bool(true)),
        lookup_spec(attrs, "italic"@) == Some(JsonValue::Bool(true)),
        lookup_spec(attrs, "header"@) is None,
    ensures
        transform_spec(attrs, t) == Ok::<Seq<char>, (DeltaErrorKind, Seq<char>)>("***"@ + t + "***"@),
{
    reveal_strlit("*");
    reveal_strlit("**");
    reveal_strlit("***");
    assert("*"@ + ("**"@ + t + "**"@) + "*"@ =~= "***"@ + t + "***"@);
}

/// Law: a `header` value below five prefixes that many `#` characters
/// and a space; five or more leaves the text untouched, with no error.
pub proof fn lemma_header_prefixes(attrs: Seq<(String, JsonValue)>, t: Seq<char>, n: u64)
    requires
        lookup_spec(attrs, "code-block"@) is None,
        lookup_spec(attrs, "bold"@) is None,
        lookup_spec(attrs, "italic"@) is None,
        lookup_spec(attrs, "header"@) matches Some(JsonValue::Num(Some(m), _)) && m == n,
    ensures
        n < 5 ==> transform_spec(attrs, t) == Ok::<Seq<char>, (DeltaErrorKind, Seq<char>)>(
            hashes(n as int) + " "@ + t,
        ),
        n >= 5 ==> transform_spec(attrs, t) == Ok::<Seq<char>, (DeltaErrorKind, Seq<char>)>(t),
{
}

/// Law: `code-block: true` is authoritative: whatever else the
/// attribute set holds (a co-present `bold` or `italic`, even one of
/// the wrong type), the text is wrapped as a fenced block, with no
/// newline before the closing fence, and nothing else applies.
pub proof fn lemma_code_block_overrides(attrs: Seq<(String, JsonValue)>, t: Seq<char>)
    requires
        lookup_spec(attrs, "code-block"@) == Some(JsonValue::Bool(true)),
    ensures
        transform_spec(attrs, t) == Ok::<Seq<char>, (DeltaErrorKind, Seq<char>)>("```\n"@ + t + "```"@),
{
}

/// Law: inserting a line's text plainly and then a bare attributed
/// newline is the same as inserting the text with its newline and the
/// attributes in one operation, starting from an empty accumulator.
/// `t` is one line: non-empty, with no newline of its own.
pub proof fn lemma_line_boundary_equivalence(t: Seq<char>, a: Seq<(String, JsonValue)>)
    requires
        t.len() > 0,
        forall|i: int| 0 <= i < t.len() ==> t[i] != '\n',
    ensures
        insert_text_spec(None, t, Seq::empty()) == Ok::<Seq<char>, (DeltaErrorKind, Seq<char>)>(t),
        insert_text_spec(Some(a), "\n"@, t) == insert_text_spec(Some(a), t + "\n"@, Seq::empty()),
{
    reveal_strlit("\n");
    assert(Seq::<char>::empty() + t =~= t);
    lemma_last_newline_none(t);
    assert((t + "\n"@).len() == t.len() + 1);
    assert(t + "\n"@ != "\n"@);
    match transform_spec(a, t + "\n"@) {
        Ok(x) => {
            assert(Seq::<char>::empty() + x =~= x);
        },
        Err(_) => {},
    }
}

} // verus!
