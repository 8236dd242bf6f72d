//! The listing operation: decode the service's JSON reply and lay the file
//! names out one per line.
//!
//! The reply body is expected to be a JSON array of objects, each carrying a
//! `name` string field. Decoding is delegated to serde_json; everything after
//! it — which names come out, and the exact text printed — is verified.

use vstd::prelude::*;

verus! {

use crate::TransferError;
use vstd::string::StringExecFns;

/// The names held by a listing reply, when the text is a JSON array of
/// objects each carrying a `name` string field; nothing otherwise.
pub uninterp spec fn decoded_name_list(s: Seq<char>) -> Option<Seq<Seq<char>>>;

/// Relies on serde_json::from_str, serde_json::Map::get and
/// serde_json::Value::as_str: the body parses as a JSON array of objects or
/// fails, and each object either holds a string under `name` or does not;
/// both outcomes depend on the text alone.
#[verifier::external_body]
fn decode_name_list(body: &str) -> (r: Option<Vec<String>>)
    ensures
        match r {
            Some(names) => decoded_name_list(body@) == Some(names.deep_view()),
            None => decoded_name_list(body@) is None,
        },
{
    let objects: Vec<serde_json::Map<String, serde_json::Value>> =
        serde_json::from_str(body).ok()?;
    let mut names: Vec<String> = Vec::new();
    for object in objects {
        names.push(object.get("name")?.as_str()?.to_string());
    }
    Some(names)
}

/// The text a listing prints: every name in order, each on a line of its own.
pub open spec fn listing_lines(names: Seq<Seq<char>>) -> Seq<char>
    decreases names.len(),
{
    if names.len() == 0 {
        Seq::empty()
    } else {
        listing_lines(names.drop_last()) + names.last() + "\n"@
    }
}

/// How many line breaks a text holds.
pub open spec fn newline_count(s: Seq<char>) -> nat
    decreases s.len(),
{
    if s.len() == 0 {
        0
    } else {
        newline_count(s.drop_last()) + (if s.last() == '\n' {
            1nat
        } else {
            0nat
        })
    }
}

proof fn lemma_newline_count_add(a: Seq<char>, b: Seq<char>)
    ensures
        newline_count(a + b) == newline_count(a) + newline_count(b),
    decreases b.len(),
{
    if b.len() == 0 {
        assert(a + b =~= a);
    } else {
        lemma_newline_count_add(a, b.drop_last());
        assert((a + b).drop_last() =~= a + b.drop_last());
    }
}

/// The listing text holds exactly one line per file: as many line breaks as
/// there are names, provided no name carries a line break of its own.
pub proof fn lemma_one_line_per_file(names: Seq<Seq<char>>)
    requires
        forall|i: int| 0 <= i < names.len() ==> newline_count(names[i]) == 0,
    ensures
        newline_count(listing_lines(names)) == names.len(),
    decreases names.len(),
{
    if names.len() > 0 {
        lemma_one_line_per_file(names.drop_last());
        lemma_newline_count_add(listing_lines(names.drop_last()), names.last());
        lemma_newline_count_add(listing_lines(names.drop_last()) + names.last(), "\n"@);
        reveal_strlit("\n");
        assert(("\n"@).drop_last() =~= Seq::<char>::empty());
        assert(newline_count(Seq::<char>::empty()) == 0);
        assert(newline_count("\n"@) == 1);
    }
}

/// Turn a listing reply body into the text to print: one line per file, in
/// the order the service sent them, or `Decode` when the body does not have
/// the expected shape.
pub fn render_listing(body: &str) -> (r: Result<String, TransferError>)
    ensures
        match r {
            Ok(text) => decoded_name_list(body@) matches Some(names) && text@ == listing_lines(
                names,
            ),
            Err(e) => e == TransferError::Decode && decoded_name_list(body@) is None,
        },
{
    let names = match decode_name_list(body) {
        Some(names) => names,
        None => {
            return Err(TransferError::Decode);
        },
    };
    let ghost all: Seq<Seq<char>> = names.deep_view();
    let mut text = String::new();
    proof {
        assert(all.take(0) =~= Seq::<Seq<char>>::empty());
    }
    let n = names.len();
    for i in 0..n
        invariant
            n == names.len(),
            all == names.deep_view(),
            text@ == listing_lines(all.take(i as int)),
    {
        proof {
            assert(all.take(i + 1).drop_last() =~= all.take(i as int));
            assert(all.take(i + 1).last() == names[i as int]@);
        }
        text.append(names[i].as_str());
        text.append("\n");
    }
    proof {
        assert(all.take(n as int) =~= all);
    }
    Ok(text)
}

} // verus!
