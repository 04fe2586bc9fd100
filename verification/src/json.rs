//! The JSON text of a record.
//!
//! A status file holds one JSON object with the fields `id`, `status`,
//! `updated` and `created`, in this order and without white space. The status
//! is written by name, the timestamps in decimal. The id is quoted by
//! `serde_json`; everything around it is framed here.

use crate::decimal::{
    decimal, is_digit, lemma_decimal_is_digits, lemma_decimal_is_injective, push_decimal,
};
use crate::record::{SystemInfo, SystemInfoView};
use crate::status::{status_name, SystemStatus};
use vstd::prelude::*;
use vstd::string::*;

verus! {

/// The JSON object of a record, around an id that has already been quoted.
pub open spec fn frame(quoted_id: Seq<char>, status: SystemStatus, updated: nat, created: nat) -> Seq<
    char,
> {
    "{\"id\":"@ + quoted_id + ",\"status\":\""@ + status_name(status) + "\",\"updated\":"@ + decimal(
        updated,
    ) + ",\"created\":"@ + decimal(created) + "}"@
}

/// What `serde_json` makes of a text that it is asked to write as a JSON
/// string: the literal (the text in double quotes, with the characters escaped
/// that JSON does not take as they are), or `None` where it refuses the text.
pub uninterp spec fn json_string(text: Seq<char>) -> Option<Seq<char>>;

/// The JSON text of a record: the frame around the literal of its id. There
/// is none where the id cannot be quoted.
pub open spec fn record_json(record: SystemInfoView) -> Option<Seq<char>> {
    match json_string(record.id) {
        Some(quoted_id) => Some(
            frame(quoted_id, record.status, record.updated, record.created),
        ),
        None => None,
    }
}

/// Why a record could not be rendered.
#[derive(Clone, Copy, Debug, PartialEq, Eq, Structural)]
pub enum RenderError {
    /// `serde_json` refused to quote the id.
    Quote,
}

/// The error of `serde_json`, carried through unopened.
#[verifier::external_type_specification]
#[verifier::external_body]
pub struct ExJsonError(serde_json::Error);

/// `serde_json::to_string` on a `str`. Not proved: whether it succeeds, and
/// the literal that it returns when it does, depend on the text alone. Nothing
/// is claimed about the texts on which it succeeds, nor about what the literal
/// holds.
#[verifier::external_body]
fn json_quote(text: &str) -> (quoted: Result<String, serde_json::Error>)
    ensures
        match quoted {
            Ok(literal) => json_string(text@) == Some(literal@),
            Err(_) => json_string(text@) is None,
        },
{
    serde_json::to_string(text)
}

/// Frames the JSON object of a record around its quoted id.
pub fn frame_record(quoted_id: &str, status: SystemStatus, updated: u64, created: u64) -> (text:
    String)
    ensures
        text@ == frame(quoted_id@, status, updated as nat, created as nat),
{
    let mut text = String::from_str("{\"id\":");
    text.append(quoted_id);
    text.append(",\"status\":\"");
    text.append(status.name());
    text.append("\",\"updated\":");
    push_decimal(&mut text, updated);
    text.append(",\"created\":");
    push_decimal(&mut text, created);
    text.append("}");
    text
}

impl SystemInfo {
    /// The JSON text of this record. It fails exactly where `serde_json`
    /// refuses to quote the id.
    pub fn to_json(&self) -> (out: Result<String, RenderError>)
        ensures
            match out {
                Ok(text) => record_json(self@) == Some(text@),
                Err(error) => record_json(self@) is None && error == RenderError::Quote,
            },
    {
        match json_quote(self.id.as_str()) {
            Ok(quoted_id) => Ok(
                frame_record(quoted_id.as_str(), self.status, self.updated, self.created),
            ),
            Err(_) => Err(RenderError::Quote),
        }
    }
}

/// Texts that are equal and end in the same tail are equal before it.
proof fn lemma_same_tail(x: Seq<char>, y: Seq<char>, tail: Seq<char>)
    requires
        x + tail == y + tail,
    ensures
        x == y,
{
    assert((x + tail).len() == x.len() + tail.len());
    assert((y + tail).len() == y.len() + tail.len());
    assert(x =~= (x + tail).take(x.len() as int));
    assert(y =~= (y + tail).take(y.len() as int));
}

/// Texts that are equal and start with the same head are equal after it.
proof fn lemma_same_head(head: Seq<char>, x: Seq<char>, y: Seq<char>)
    requires
        head + x == head + y,
    ensures
        x == y,
{
    assert(x =~= (head + x).skip(head.len() as int));
    assert(y =~= (head + y).skip(head.len() as int));
}

/// A number at the end of a text is read in one way only, if what stands
/// before it does not end in a digit.
proof fn lemma_number_at_the_end(x: Seq<char>, a: nat, y: Seq<char>, b: nat)
    requires
        x + decimal(a) == y + decimal(b),
        x.len() > 0,
        y.len() > 0,
        !is_digit(x.last()),
        !is_digit(y.last()),
    ensures
        x == y,
        a == b,
{
    lemma_decimal_is_digits(a);
    lemma_decimal_is_digits(b);
    let whole = x + decimal(a);
    assert(whole.len() == x.len() + decimal(a).len());
    assert(whole.len() == y.len() + decimal(b).len());
    if x.len() < y.len() {
        let i = y.len() - 1;
        assert((y + decimal(b))[i] == y[i]);
        assert(whole[i] == decimal(a)[i - x.len()]);
        assert(is_digit(decimal(a)[i - x.len()]));
    } else if y.len() < x.len() {
        let i = x.len() - 1;
        assert(whole[i] == x[i]);
        assert((y + decimal(b))[i] == decimal(b)[i - y.len()]);
        assert(is_digit(decimal(b)[i - y.len()]));
    } else {
        assert(x =~= whole.take(x.len() as int));
        assert(y =~= (y + decimal(b)).take(y.len() as int));
        assert(decimal(a) =~= whole.skip(x.len() as int));
        assert(decimal(b) =~= (y + decimal(b)).skip(y.len() as int));
        lemma_decimal_is_injective(a, b);
    }
}

/// The name of a status at the end of a text is read in one way only.
proof fn lemma_status_at_the_end(x: Seq<char>, a: SystemStatus, y: Seq<char>, b: SystemStatus)
    requires
        x + status_name(a) == y + status_name(b),
    ensures
        x == y,
        a == b,
{
    reveal_strlit("Green");
    reveal_strlit("Yellow");
    reveal_strlit("Red");
    assert((x + status_name(a)).last() == status_name(a).last());
    assert((y + status_name(b)).last() == status_name(b).last());
    lemma_same_tail(x, y, status_name(a));
}

/// A frame is taken apart in one way only: frames that are equal as text hold
/// the same quoted id, the same status and the same two timestamps.
pub proof fn lemma_frame_is_injective(
    quoted_a: Seq<char>,
    status_a: SystemStatus,
    updated_a: nat,
    created_a: nat,
    quoted_b: Seq<char>,
    status_b: SystemStatus,
    updated_b: nat,
    created_b: nat,
)
    requires
        frame(quoted_a, status_a, updated_a, created_a) == frame(
            quoted_b,
            status_b,
            updated_b,
            created_b,
        ),
    ensures
        quoted_a == quoted_b,
        status_a == status_b,
        updated_a == updated_b,
        created_a == created_b,
{
    reveal_strlit("\",\"updated\":");
    reveal_strlit(",\"created\":");
    let id_a = "{\"id\":"@ + quoted_a;
    let id_b = "{\"id\":"@ + quoted_b;
    let name_a = id_a + ",\"status\":\""@;
    let name_b = id_b + ",\"status\":\""@;
    let first_a = name_a + status_name(status_a) + "\",\"updated\":"@;
    let first_b = name_b + status_name(status_b) + "\",\"updated\":"@;
    let second_a = first_a + decimal(updated_a) + ",\"created\":"@;
    let second_b = first_b + decimal(updated_b) + ",\"created\":"@;
    lemma_same_tail(second_a + decimal(created_a), second_b + decimal(created_b), "}"@);
    lemma_number_at_the_end(second_a, created_a, second_b, created_b);
    lemma_same_tail(first_a + decimal(updated_a), first_b + decimal(updated_b), ",\"created\":"@);
    lemma_number_at_the_end(first_a, updated_a, first_b, updated_b);
    lemma_same_tail(
        name_a + status_name(status_a),
        name_b + status_name(status_b),
        "\",\"updated\":"@,
    );
    lemma_status_at_the_end(name_a, status_a, name_b, status_b);
    lemma_same_tail(id_a, id_b, ",\"status\":\""@);
    lemma_same_head("{\"id\":"@, quoted_a, quoted_b);
}

/// The JSON text of a record gives away its status, both timestamps and the
/// quoted form of its id: records with the same text agree on all of them.
pub proof fn lemma_json_determines_the_fields(a: SystemInfoView, b: SystemInfoView)
    requires
        record_json(a) is Some,
        record_json(a) == record_json(b),
    ensures
        json_string(a.id) == json_string(b.id),
        a.status == b.status,
        a.updated == b.updated,
        a.created == b.created,
{
    lemma_frame_is_injective(
        json_string(a.id)->0,
        a.status,
        a.updated,
        a.created,
        json_string(b.id)->0,
        b.status,
        b.updated,
        b.created,
    );
}

} // verus!
