//! The delta-to-Markdown converter: envelope validation, operation
//! dispatch, the attribute transform, and the line-boundary rule.

use crate::json::{describe_spec, json_err_of, json_of, lookup, lookup_spec, JsonValue};
use vstd::prelude::*;
use vstd::string::{StrSliceExecFns, StringExecFns};

verus! {

/// Which structural fault a conversion failed with.
#[derive(Clone, Copy, Debug, PartialEq, Eq, Structural)]
pub enum DeltaErrorKind {
    Syntax,
    NoOpsField,
    MalformedRootStructure,
    NoKnownOperation,
    MalformedOperation,
    IncorrectInsertOpType,
    MalformedInsertAttributes,
    InvalidBoldAttributeType,
    InvalidItalicAttributeType,
    InvalidCodeAttributeType,
    InvalidHeaderAttributeType,
    UnimplementedInsert,
}

/// A conversion failure: the fault's kind, and a human-readable
/// message that callers may display in place of the Markdown.
#[derive(Debug)]
pub struct DeltaParseError {
    pub kind: DeltaErrorKind,
    pub what: String,
}

/// The failures as the specification states them: a kind paired with
/// the exact message text, each message naming the offending value.
pub open spec fn spec_err_syntax(detail: Seq<char>) -> (DeltaErrorKind, Seq<char>) {
    (DeltaErrorKind::Syntax, "Error while parsing delta from string: "@ + detail)
}

pub open spec fn spec_err_no_ops_field() -> (DeltaErrorKind, Seq<char>) {
    (DeltaErrorKind::NoOpsField, "No ops field found in delta JSON root"@)
}

pub open spec fn spec_err_malformed_root(json: JsonValue) -> (DeltaErrorKind, Seq<char>) {
    (
        DeltaErrorKind::MalformedRootStructure,
        "JSON root or ops has malformed structure: "@ + describe_spec(json),
    )
}

pub open spec fn spec_err_no_known_operation(operation: JsonValue) -> (
    DeltaErrorKind,
    Seq<char>,
) {
    (
        DeltaErrorKind::NoKnownOperation,
        "Unknown op name found while parsing delta: "@ + describe_spec(operation),
    )
}

pub open spec fn spec_err_malformed_operation(operation: JsonValue) -> (
    DeltaErrorKind,
    Seq<char>,
) {
    (
        DeltaErrorKind::MalformedOperation,
        "Malformed op found while parsing delta: "@ + describe_spec(operation),
    )
}

pub open spec fn spec_err_incorrect_insert(operation: JsonValue) -> (DeltaErrorKind, Seq<char>) {
    (
        DeltaErrorKind::IncorrectInsertOpType,
        "insert operation has incorrect type, it must be either a string for text or an object for an image or video: "@
            + describe_spec(operation),
    )
}

pub open spec fn spec_err_malformed_attributes(attributes: JsonValue) -> (
    DeltaErrorKind,
    Seq<char>,
) {
    (
        DeltaErrorKind::MalformedInsertAttributes,
        "insert operation has incorrect attributes type, it must be an object: "@
            + describe_spec(attributes),
    )
}

pub open spec fn spec_err_invalid_bold(bold: JsonValue) -> (DeltaErrorKind, Seq<char>) {
    (
        DeltaErrorKind::InvalidBoldAttributeType,
        "bold attribute must have type of bool: "@ + describe_spec(bold),
    )
}

pub open spec fn spec_err_invalid_italic(italic: JsonValue) -> (DeltaErrorKind, Seq<char>) {
    (
        DeltaErrorKind::InvalidItalicAttributeType,
        "italic attribute must have type of bool: "@ + describe_spec(italic),
    )
}

pub open spec fn spec_err_invalid_code(code: JsonValue) -> (DeltaErrorKind, Seq<char>) {
    (
        DeltaErrorKind::InvalidCodeAttributeType,
        "code attribute must have type of bool: "@ + describe_spec(code),
    )
}

pub open spec fn spec_err_invalid_header(header: JsonValue) -> (DeltaErrorKind, Seq<char>) {
    (
        DeltaErrorKind::InvalidHeaderAttributeType,
        "header attribute must have type of positive integer: "@ + describe_spec(header),
    )
}

pub open spec fn spec_err_unimplemented(payload: JsonValue) -> (DeltaErrorKind, Seq<char>) {
    (
        DeltaErrorKind::UnimplementedInsert,
        "insert of an embedded object is not implemented: "@ + describe_spec(payload),
    )
}

impl DeltaParseError {
    fn with_msg(kind: DeltaErrorKind, prefix: &str, detail: &str) -> (r: Self)
        ensures
            r.kind == kind,
            r.what@ == prefix@ + detail@,
    {
        let mut what = String::from_str(prefix);
        what.append(detail);
        DeltaParseError { kind, what }
    }

    /// The message text, for callers that display the failure.
    pub fn message(&self) -> (r: String)
        ensures
            r@ == self.what@,
    {
        self.what.clone()
    }

    /// The underlying JSON text was not well-formed; `detail` is the
    /// JSON parser's own diagnostic.
    pub fn syntax(detail: &str) -> (r: Self)
        ensures
            (r.kind, r.what@) == spec_err_syntax(detail@),
    {
        Self::with_msg(DeltaErrorKind::Syntax, "Error while parsing delta from string: ", detail)
    }

    pub fn no_ops_field() -> (r: Self)
        ensures
            (r.kind, r.what@) == spec_err_no_ops_field(),
    {
        DeltaParseError {
            kind: DeltaErrorKind::NoOpsField,
            what: String::from_str("No ops field found in delta JSON root"),
        }
    }

    pub fn malformed_root_structure(json: &JsonValue) -> (r: Self)
        ensures
            (r.kind, r.what@) == spec_err_malformed_root(*json),
    {
        Self::with_msg(
            DeltaErrorKind::MalformedRootStructure,
            "JSON root or ops has malformed structure: ",
            crate::json::describe(json).as_str(),
        )
    }

    pub fn no_known_operation(operation: &JsonValue) -> (r: Self)
        ensures
            (r.kind, r.what@) == spec_err_no_known_operation(*operation),
    {
        Self::with_msg(
            DeltaErrorKind::NoKnownOperation,
            "Unknown op name found while parsing delta: ",
            crate::json::describe(operation).as_str(),
        )
    }

    pub fn malformed_operation(operation: &JsonValue) -> (r: Self)
        ensures
            (r.kind, r.what@) == spec_err_malformed_operation(*operation),
    {
        Self::with_msg(
            DeltaErrorKind::MalformedOperation,
            "Malformed op found while parsing delta: ",
            crate::json::describe(operation).as_str(),
        )
    }

    pub fn incorrect_insert_op_type(operation: &JsonValue) -> (r: Self)
        ensures
            (r.kind, r.what@) == spec_err_incorrect_insert(*operation),
    {
        Self::with_msg(
            DeltaErrorKind::IncorrectInsertOpType,
            "insert operation has incorrect type, it must be either a string for text or an object for an image or video: ",
            crate::json::describe(operation).as_str(),
        )
    }

    pub fn malformed_insert_attributes(attributes: &JsonValue) -> (r: Self)
        ensures
            (r.kind, r.what@) == spec_err_malformed_attributes(*attributes),
    {
        Self::with_msg(
            DeltaErrorKind::MalformedInsertAttributes,
            "insert operation has incorrect attributes type, it must be an object: ",
            crate::json::describe(attributes).as_str(),
        )
    }

    pub fn invalid_bold_attribute_type(bold: &JsonValue) -> (r: Self)
        ensures
            (r.kind, r.what@) == spec_err_invalid_bold(*bold),
    {
        Self::with_msg(
            DeltaErrorKind::InvalidBoldAttributeType,
            "bold attribute must have type of bool: ",
            crate::json::describe(bold).as_str(),
        )
    }

    pub fn invalid_italic_attribute_type(italic: &JsonValue) -> (r: Self)
        ensures
            (r.kind, r.what@) == spec_err_invalid_italic(*italic),
    {
        Self::with_msg(
            DeltaErrorKind::InvalidItalicAttributeType,
            "italic attribute must have type of bool: ",
            crate::json::describe(italic).as_str(),
        )
    }

    pub fn invalid_code_attribute_type(code: &JsonValue) -> (r: Self)
        ensures
            (r.kind, r.what@) == spec_err_invalid_code(*code),
    {
        Self::with_msg(
            DeltaErrorKind::InvalidCodeAttributeType,
            "code attribute must have type of bool: ",
            crate::json::describe(code).as_str(),
        )
    }

    pub fn invalid_header_attribute_type(header: &JsonValue) -> (r: Self)
        ensures
            (r.kind, r.what@) == spec_err_invalid_header(*header),
    {
        Self::with_msg(
            DeltaErrorKind::InvalidHeaderAttributeType,
            "header attribute must have type of positive integer: ",
            crate::json::describe(header).as_str(),
        )
    }

    /// An insert of an embedded object (an image) is recognized but
    /// not implemented; conversion stops with this error.
    pub fn unimplemented_insert(payload: &JsonValue) -> (r: Self)
        ensures
            (r.kind, r.what@) == spec_err_unimplemented(*payload),
    {
        Self::with_msg(
            DeltaErrorKind::UnimplementedInsert,
            "insert of an embedded object is not implemented: ",
            crate::json::describe(payload).as_str(),
        )
    }
}

/// `n` repetitions of the `#` character (none when `n <= 0`).
pub open spec fn hashes(n: int) -> Seq<char>
    decreases n,
{
    if n <= 0 {
        Seq::empty()
    } else {
        hashes(n - 1) + "#"@
    }
}

/// The header stage of the attribute transform: a `header` value of
/// `n < 5` prefixes `n` `#` characters and a space, `n >= 5` leaves
/// the text alone, and a non-integer value is a typed error.
pub open spec fn apply_header_spec(attrs: Seq<(String, JsonValue)>, t: Seq<char>) -> Result<
    Seq<char>,
    (DeltaErrorKind, Seq<char>),
> {
    match lookup_spec(attrs, "header"@) {
        None => Ok(t),
        Some(v) => match v {
            JsonValue::Num(opt, _) => match opt {
                Some(n) => if n < 5 {
                    Ok(hashes(n as int) + " "@ + t)
                } else {
                    Ok(t)
                },
                None => Err(spec_err_invalid_header(v)),
            },
            _ => Err(spec_err_invalid_header(v)),
        },
    }
}

/// The italic stage: `italic: true` wraps the text in single `*`
/// markers, then the header stage runs on the result.
pub open spec fn apply_italic_spec(attrs: Seq<(String, JsonValue)>, t: Seq<char>) -> Result<
    Seq<char>,
    (DeltaErrorKind, Seq<char>),
> {
    match lookup_spec(attrs, "italic"@) {
        None => apply_header_spec(attrs, t),
        Some(v) => match v {
            JsonValue::Bool(b) => apply_header_spec(
                attrs,
                if b {
                    "*"@ + t + "*"@
                } else {
                    t
                },
            ),
            _ => Err(spec_err_invalid_italic(v)),
        },
    }
}

/// The bold stage: `bold: true` wraps the text in `**` markers, then
/// the italic stage runs on the result.
pub open spec fn apply_bold_spec(attrs: Seq<(String, JsonValue)>, t: Seq<char>) -> Result<
    Seq<char>,
    (DeltaErrorKind, Seq<char>),
> {
    match lookup_spec(attrs, "bold"@) {
        None => apply_italic_spec(attrs, t),
        Some(v) => match v {
            JsonValue::Bool(b) => apply_italic_spec(
                attrs,
                if b {
                    "**"@ + t + "**"@
                } else {
                    t
                },
            ),
            _ => Err(spec_err_invalid_bold(v)),
        },
    }
}

/// The whole attribute transform.  `code-block: true` is authoritative:
/// it wraps the text as a fenced block and nothing else applies.
/// Otherwise bold, italic and header apply in that order, each gated
/// by its own check.
pub open spec fn transform_spec(attrs: Seq<(String, JsonValue)>, t: Seq<char>) -> Result<
    Seq<char>,
    (DeltaErrorKind, Seq<char>),
> {
    match lookup_spec(attrs, "code-block"@) {
        None => apply_bold_spec(attrs, t),
        Some(v) => match v {
            JsonValue::Bool(b) => if b {
                Ok("```\n"@ + t + "```"@)
            } else {
                apply_bold_spec(attrs, t)
            },
            _ => Err(spec_err_invalid_code(v)),
        },
    }
}

/// The index of the last `'\n'` in `s`, if there is one.
pub open spec fn last_newline(s: Seq<char>) -> Option<int>
    decreases s.len(),
{
    if s.len() == 0 {
        None
    } else if s[s.len() - 1] == '\n' {
        Some(s.len() - 1)
    } else {
        last_newline(s.drop_last())
    }
}

/// The line-boundary rule: attributes carried on a bare-newline insert
/// describe the line that the newline terminates.  The last line of
/// the accumulator (with its newline restored) is transformed and put
/// back; on an empty accumulator nothing happens.
pub open spec fn line_rule_spec(attrs: Seq<(String, JsonValue)>, acc: Seq<char>) -> Result<
    Seq<char>,
    (DeltaErrorKind, Seq<char>),
> {
    if acc.len() == 0 {
        Ok(acc)
    } else {
        let base = match last_newline(acc) {
            Some(j) => acc.take(j),
            None => Seq::empty(),
        };
        let line = match last_newline(acc) {
            Some(j) => acc.skip(j + 1),
            None => acc,
        };
        match transform_spec(attrs, line + "\n"@) {
            Ok(t) => Ok(base + t),
            Err(k) => Err(k),
        }
    }
}

/// Merging one text fragment into the accumulator: without attributes
/// it is appended as it is; an attributed bare newline triggers the
/// line-boundary rule; any other attributed fragment is transformed
/// in place and appended.
pub open spec fn insert_text_spec(
    attrs: Option<Seq<(String, JsonValue)>>,
    t: Seq<char>,
    acc: Seq<char>,
) -> Result<Seq<char>, (DeltaErrorKind, Seq<char>)> {
    match attrs {
        None => Ok(acc + t),
        Some(a) => if t == "\n"@ {
            line_rule_spec(a, acc)
        } else {
            match transform_spec(a, t) {
                Ok(t2) => Ok(acc + t2),
                Err(k) => Err(k),
            }
        },
    }
}

/// One insert payload: a string is text; an object is an embedded
/// resource, unimplemented when it names an `image` and the
/// incorrect-type error otherwise; anything else is that typed error
/// too.
pub open spec fn insert_spec(
    payload: JsonValue,
    attrs: Option<Seq<(String, JsonValue)>>,
    acc: Seq<char>,
) -> Result<Seq<char>, (DeltaErrorKind, Seq<char>)> {
    match payload {
        JsonValue::Str(s) => insert_text_spec(attrs, s@, acc),
        JsonValue::Obj(m) => if lookup_spec(m@, "image"@) is Some {
            Err(spec_err_unimplemented(payload))
        } else {
            Err(spec_err_incorrect_insert(payload))
        },
        _ => Err(spec_err_incorrect_insert(payload)),
    }
}

/// One operation: a non-object is malformed; an object without an
/// `insert` field is skipped; `attributes`, when present, must be an
/// object.
pub open spec fn op_spec(op: JsonValue, acc: Seq<char>) -> Result<
    Seq<char>,
    (DeltaErrorKind, Seq<char>),
> {
    match op {
        JsonValue::Obj(entries) => match lookup_spec(entries@, "insert"@) {
            None => Ok(acc),
            Some(payload) => match lookup_spec(entries@, "attributes"@) {
                None => insert_spec(payload, None, acc),
                Some(att) => match att {
                    JsonValue::Obj(a) => insert_spec(payload, Some(a@), acc),
                    _ => Err(spec_err_malformed_attributes(att)),
                },
            },
        },
        _ => Err(spec_err_malformed_operation(op)),
    }
}

/// The operations in document order, folded over the accumulator;
/// the first failure aborts the whole conversion.
pub open spec fn ops_spec(ops: Seq<JsonValue>, acc: Seq<char>) -> Result<
    Seq<char>,
    (DeltaErrorKind, Seq<char>),
>
    decreases ops.len(),
{
    if ops.len() == 0 {
        Ok(acc)
    } else {
        match op_spec(ops[0], acc) {
            Ok(acc2) => ops_spec(ops.drop_first(), acc2),
            Err(k) => Err(k),
        }
    }
}

/// The envelope: the root must be an object holding an `ops` array.
pub open spec fn doc_to_markdown_spec(doc: JsonValue) -> Result<
    Seq<char>,
    (DeltaErrorKind, Seq<char>),
> {
    match doc {
        JsonValue::Obj(entries) => match lookup_spec(entries@, "ops"@) {
            Some(JsonValue::Arr(ops)) => ops_spec(ops@, Seq::empty()),
            Some(_) => Err(spec_err_malformed_root(doc)),
            None => Err(spec_err_malformed_root(doc)),
        },
        _ => Err(spec_err_no_ops_field()),
    }
}

/// The whole conversion, from raw text: malformed JSON is a syntax
/// error carrying the parser's diagnostic, and everything else
/// follows the document model.
pub open spec fn markdown_of(s: Seq<char>) -> Result<Seq<char>, (DeltaErrorKind, Seq<char>)> {
    match json_of(s) {
        None => Err(spec_err_syntax(json_err_of(s))),
        Some(doc) => doc_to_markdown_spec(doc),
    }
}

/// The attribute views that `handle_delta_insert` receives.
pub open spec fn attrs_view(o: Option<&Vec<(String, JsonValue)>>) -> Option<
    Seq<(String, JsonValue)>,
> {
    match o {
        Some(a) => Some(a@),
        None => None,
    }
}

/// Applies the formatting attributes to `text` in place, as
/// `transform_spec` describes.
pub fn transform_text_with_attribute(
    attributes: &Vec<(String, JsonValue)>,
    text: &mut String,
) -> (r: Result<(), DeltaParseError>)
    ensures
        match r {
            Ok(_) => transform_spec(attributes@, old(text)@) == Ok::<
                Seq<char>,
                (DeltaErrorKind, Seq<char>),
            >(final(text)@),
            Err(e) => transform_spec(attributes@, old(text)@) == Err::<
                Seq<char>,
                (DeltaErrorKind, Seq<char>),
            >((e.kind, e.what@)),
        },
{
    if let Some(code_block) = lookup(attributes, "code-block") {
        match code_block {
            JsonValue::Bool(b) => {
                if *b {
                    let mut s = String::from_str("```\n");
                    s.append(text.as_str());
                    s.append("```");
                    *text = s;
                    return Ok(());
                }
            },
            _ => {
                return Err(DeltaParseError::invalid_code_attribute_type(code_block));
            },
        }
    }
    if let Some(bold) = lookup(attributes, "bold") {
        match bold {
            JsonValue::Bool(b) => {
                if *b {
                    let mut s = String::from_str("**");
                    s.append(text.as_str());
                    s.append("**");
                    *text = s;
                }
            },
            _ => {
                return Err(DeltaParseError::invalid_bold_attribute_type(bold));
            },
        }
    }
    if let Some(italic) = lookup(attributes, "italic") {
        match italic {
            JsonValue::Bool(b) => {
                if *b {
                    let mut s = String::from_str("*");
                    s.append(text.as_str());
                    s.append("*");
                    *text = s;
                }
            },
            _ => {
                return Err(DeltaParseError::invalid_italic_attribute_type(italic));
            },
        }
    }
    if let Some(header) = lookup(attributes, "header") {
        match header {
            JsonValue::Num(opt, _) => match opt {
                Some(n) => {
                    if *n < 5 {
                        let mut s = String::new();
                        let mut k: u64 = 0;
                        while k < *n
                            invariant
                                k <= *n,
                                n < 5,
                                s@ == hashes(k as int),
                            decreases *n - k,
                        {
                            s.append("#");
                            k = k + 1;
                        }
                        s.append(" ");
                        s.append(text.as_str());
                        *text = s;
                    }
                },
                None => {
                    return Err(DeltaParseError::invalid_header_attribute_type(header));
                },
            },
            _ => {
                return Err(DeltaParseError::invalid_header_attribute_type(header));
            },
        }
    }
    Ok(())
}

/// `last_newline` finds nothing in a sequence without `'\n'`.
pub proof fn lemma_last_newline_none(s: Seq<char>)
    requires
        forall|i: int| 0 <= i < s.len() ==> s[i] != '\n',
    ensures
        last_newline(s) is None,
    decreases s.len(),
{
    if s.len() > 0 {
        lemma_last_newline_none(s.drop_last());
    }
}

/// Merges an attributed fragment: a bare newline triggers the
/// line-boundary rewrite of `markdown_string`'s last line (and empties
/// the fragment, which has been folded in); any other fragment is
/// transformed in place.  The caller appends the fragment afterwards,
/// so the contract speaks of the two strings' concatenation.
pub fn handle_attributes_transformation(
    attributes: &Vec<(String, JsonValue)>,
    new_text: &mut String,
    markdown_string: &mut String,
) -> (r: Result<(), DeltaParseError>)
    ensures
        match r {
            Ok(_) => insert_text_spec(Some(attributes@), old(new_text)@, old(markdown_string)@)
                == Ok::<Seq<char>, (DeltaErrorKind, Seq<char>)>(
                final(markdown_string)@ + final(new_text)@,
            ),
            Err(e) => insert_text_spec(Some(attributes@), old(new_text)@, old(markdown_string)@)
                == Err::<Seq<char>, (DeltaErrorKind, Seq<char>)>((e.kind, e.what@)),
        },
        r is Ok && old(new_text)@ == "\n"@ ==> final(new_text)@ == Seq::<char>::empty()
            && line_rule_spec(attributes@, old(markdown_string)@) == Ok::<
            Seq<char>,
            (DeltaErrorKind, Seq<char>),
        >(final(markdown_string)@),
        r is Ok && old(new_text)@ != "\n"@ ==> transform_spec(attributes@, old(new_text)@)
            == Ok::<Seq<char>, (DeltaErrorKind, Seq<char>)>(final(new_text)@),
        old(new_text)@ != "\n"@ ==> final(markdown_string)@ == old(markdown_string)@,
        r is Err ==> final(markdown_string)@ == old(markdown_string)@,
{
    let nl = String::from_str("\n");
    if (*new_text) == nl {
        let ghost acc0 = markdown_string@;
        let n: usize = markdown_string.as_str().unicode_len();
        if n == 0 {
            // No last line to format
            *new_text = String::new();
            proof {
                assert(acc0 + Seq::<char>::empty() =~= acc0);
            }
            return Ok(());
        }
        let mut i: usize = n;
        proof {
            assert(acc0.take(n as int) =~= acc0);
        }
        while i > 0 && markdown_string.as_str().get_char(i - 1) != '\n'
            invariant
                i <= n,
                n == markdown_string@.len(),
                markdown_string@ == acc0,
                last_newline(acc0) == last_newline(acc0.take(i as int)),
            decreases i,
        {
            proof {
                assert(acc0.take(i as int).drop_last() =~= acc0.take(i as int - 1));
            }
            i = i - 1;
        }
        let mut mutation: String;
        let mut base: String;
        if i == 0 {
            proof {
                assert(acc0.take(0) =~= Seq::<char>::empty());
                assert(last_newline(acc0) is None);
            }
            base = String::new();
            mutation = markdown_string.clone();
        } else {
            let j: usize = i - 1;
            proof {
                assert(last_newline(acc0) == Some(j as int));
                assert(acc0.subrange(0, j as int) =~= acc0.take(j as int));
                assert(acc0.subrange(j as int + 1, n as int) =~= acc0.skip(j as int + 1));
            }
            base = String::from_str(markdown_string.as_str().substring_char(0, j));
            mutation = String::from_str(markdown_string.as_str().substring_char(j + 1, n));
        }
        mutation.append("\n");
        match transform_text_with_attribute(attributes, &mut mutation) {
            Ok(_) => {
                base.append(mutation.as_str());
                *markdown_string = base;
                *new_text = String::new();
                proof {
                    assert(markdown_string@ + Seq::<char>::empty() =~= markdown_string@);
                }
                Ok(())
            },
            Err(e) => Err(e),
        }
    } else {
        match transform_text_with_attribute(attributes, new_text) {
            Ok(_) => Ok(()),
            Err(e) => Err(e),
        }
    }
}

/// Handles one insert payload with its optional attributes, merging
/// the resulting fragment into the accumulator.
pub fn handle_delta_insert(
    insert_op: &JsonValue,
    attributes: Option<&Vec<(String, JsonValue)>>,
    markdown_string: &mut String,
) -> (r: Result<(), DeltaParseError>)
    ensures
        match r {
            Ok(_) => insert_spec(*insert_op, attrs_view(attributes), old(markdown_string)@)
                == Ok::<Seq<char>, (DeltaErrorKind, Seq<char>)>(final(markdown_string)@),
            Err(e) => insert_spec(*insert_op, attrs_view(attributes), old(markdown_string)@)
                == Err::<Seq<char>, (DeltaErrorKind, Seq<char>)>((e.kind, e.what@)),
        },
        r is Err ==> final(markdown_string)@ == old(markdown_string)@,
{
    let mut new_text = String::new();
    match insert_op {
        JsonValue::Str(s) => {
            new_text.append(s.as_str());
        },
        JsonValue::Obj(v) => {
            match lookup(v, "image") {
                Some(_) => {
                    return Err(DeltaParseError::unimplemented_insert(insert_op));
                },
                None => {
                    return Err(DeltaParseError::incorrect_insert_op_type(insert_op));
                },
            }
        },
        _ => {
            return Err(DeltaParseError::incorrect_insert_op_type(insert_op));
        },
    }
    if let Some(attributes) = attributes {
        match handle_attributes_transformation(attributes, &mut new_text, markdown_string) {
            Ok(_) => {},
            Err(e) => {
                return Err(e);
            },
        }
    }
    markdown_string.append(new_text.as_str());
    Ok(())
}

/// Handles one element of the `ops` array, as `op_spec` describes.
pub fn handle_delta_op(op: &JsonValue, markdown_string: &mut String) -> (r: Result<
    (),
    DeltaParseError,
>)
    ensures
        match r {
            Ok(_) => op_spec(*op, old(markdown_string)@) == Ok::<
                Seq<char>,
                (DeltaErrorKind, Seq<char>),
            >(final(markdown_string)@),
            Err(e) => op_spec(*op, old(markdown_string)@) == Err::<
                Seq<char>,
                (DeltaErrorKind, Seq<char>),
            >((e.kind, e.what@)),
        },
        r is Err ==> final(markdown_string)@ == old(markdown_string)@,
{
    match op {
        JsonValue::Obj(entries) => {
            match lookup(entries, "insert") {
                None => Ok(()),
                Some(payload) => {
                    match lookup(entries, "attributes") {
                        None => handle_delta_insert(payload, None, markdown_string),
                        Some(att) => match att {
                            JsonValue::Obj(a) => handle_delta_insert(
                                payload,
                                Some(a),
                                markdown_string,
                            ),
                            _ => Err(DeltaParseError::malformed_insert_attributes(att)),
                        },
                    }
                },
            }
        },
        _ => Err(DeltaParseError::malformed_operation(op)),
    }
}

/// Folds the whole `ops` array, in order, into a Markdown string.
pub fn parse_delta_ops(ops: &Vec<JsonValue>) -> (r: Result<String, DeltaParseError>)
    ensures
        match r {
            Ok(s) => ops_spec(ops@, Seq::empty()) == Ok::<Seq<char>, (DeltaErrorKind, Seq<char>)>(
                s@,
            ),
            Err(e) => ops_spec(ops@, Seq::empty()) == Err::<
                Seq<char>,
                (DeltaErrorKind, Seq<char>),
            >((e.kind, e.what@)),
        },
{
    let mut markdown_string = String::new();
    let n: usize = ops.len();
    let mut i: usize = 0;
    proof {
        assert(ops@.skip(0) =~= ops@);
    }
    while i < n
        invariant
            i <= n,
            n == ops@.len(),
            ops_spec(ops@, Seq::empty()) == ops_spec(ops@.skip(i as int), markdown_string@),
        decreases n - i,
    {
        proof {
            assert(ops@.skip(i as int)[0] == ops@[i as int]);
            assert(ops@.skip(i as int).drop_first() =~= ops@.skip(i as int + 1));
        }
        match handle_delta_op(&ops[i], &mut markdown_string) {
            Ok(_) => {},
            Err(e) => {
                return Err(e);
            },
        }
        i = i + 1;
    }
    proof {
        assert(ops@.skip(n as int) =~= Seq::<JsonValue>::empty());
    }
    Ok(markdown_string)
}

/// Converts a delta document, given as JSON text, to Markdown, or
/// reports the first structural fault, exactly as `markdown_of`
/// describes: no partial output is ever returned.
pub fn parse_delta_to_markdown(delta_str: &str) -> (r: Result<String, DeltaParseError>)
    ensures
        match r {
            Ok(md) => markdown_of(delta_str@) == Ok::<Seq<char>, (DeltaErrorKind, Seq<char>)>(md@),
            Err(e) => markdown_of(delta_str@) == Err::<Seq<char>, (DeltaErrorKind, Seq<char>)>(
                (e.kind, e.what@),
            ),
        },
{
    let delta_json = match crate::json::parse_json(delta_str) {
        Ok(v) => v,
        Err(detail) => {
            return Err(DeltaParseError::syntax(detail.as_str()));
        },
    };
    match &delta_json {
        JsonValue::Obj(entries) => {
            match lookup(entries, "ops") {
                Some(v) => match v {
                    JsonValue::Arr(ops) => parse_delta_ops(ops),
                    _ => Err(DeltaParseError::malformed_root_structure(&delta_json)),
                },
                None => Err(DeltaParseError::malformed_root_structure(&delta_json)),
            }
        },
        _ => Err(DeltaParseError::no_ops_field()),
    }
}

} // verus!
