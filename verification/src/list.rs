//! Remote lists: from a response to a table of names and addresses.

use std::collections::HashMap;

use vstd::prelude::*;

use crate::failure::Failure;
use crate::failure::FailureView;
use crate::failure::List;
use crate::table::lemma_map_of_push;
use crate::table::map_of;
use crate::table::Table;

verus! {

/// The error type of `serde_yaml`, carried through unopened.
#[verifier::external_type_specification]
#[verifier::external_body]
pub struct ExYamlError(serde_yaml::Error);

/// The mapping that `serde_yaml::from_str` reads from a text as a
/// `HashMap<String, String>`, or `None` where it reports an error.
pub uninterp spec fn yaml_string_map(text: Seq<char>) -> Option<Map<Seq<char>, Seq<char>>>;

/// The views of a list of pairs of texts.
pub open spec fn pair_views(pairs: Seq<(String, String)>) -> Seq<(Seq<char>, Seq<char>)> {
    Seq::new(pairs.len(), |i: int| (pairs[i].0@, pairs[i].1@))
}

/// Calls `serde_yaml::from_str` for a `HashMap<String, String>` and
/// hands out the map's entries. Believed, not proved: the entries
/// stand for the mapping named `yaml_string_map` of the text, and an
/// error comes exactly where that is `None`.
#[verifier::external_body]
fn decode_string_map(text: &str) -> (res: Result<Vec<(String, String)>, serde_yaml::Error>)
    ensures
        match res {
            Ok(pairs) => yaml_string_map(text@) == Some(map_of(pair_views(pairs@))),
            Err(_) => yaml_string_map(text@) is None,
        },
{
    let decoded: HashMap<String, String> = serde_yaml::from_str(text)?;
    Ok(decoded.into_iter().collect())
}

/// The text that `serde_yaml::Error` displays. Nothing is claimed of it.
#[verifier::external_body]
fn error_text(error: &serde_yaml::Error) -> (res: String) {
    format!("{}", error)
}

/// The table that a list of pairs stands for. Where a name occurs more
/// than once, its last pair counts.
pub fn table_of_pairs(pairs: Vec<(String, String)>) -> (res: Table<String>)
    ensures
        res@ == map_of(pair_views(pairs@)),
{
    let mut res: Table<String> = Table::new();
    let mut at: usize = 0;
    while at < pairs.len()
        invariant
            at <= pairs.len(),
            res@ == map_of(pair_views(pairs@).take(at as int)),
        decreases pairs.len() - at,
    {
        let ghost all = pair_views(pairs@);
        proof {
            assert(all.take(at + 1) =~= all.take(at as int).push(all[at as int]));
            lemma_map_of_push(all.take(at as int), all[at as int].0, all[at as int].1);
        }
        res.insert(pairs[at].0.clone(), pairs[at].1.clone());
        at += 1;
    }
    assert(pair_views(pairs@).take(pairs.len() as int) =~= pair_views(pairs@));
    res
}

/// The list for what a body decoded to: the table of the pairs, or a
/// failure to parse with the decoder's words as its cause.
pub fn list_of_decoded(list: List, decoded: Result<Vec<(String, String)>, String>) -> (res: Result<
    Table<String>,
    Failure,
>)
    ensures
        match decoded {
            Ok(pairs) => res matches Ok(table) && table@ == map_of(pair_views(pairs@)),
            Err(cause) => res matches Err(failure) && failure@ == (FailureView::ParsingList {
                list,
                cause: cause@,
            }),
        },
{
    match decoded {
        Ok(pairs) => Ok(table_of_pairs(pairs)),
        Err(cause) => Err(Failure::ParsingList { list, cause }),
    }
}

/// Reads the body of a response as a list: a YAML mapping from texts to
/// texts, taken as it stands.
pub fn parse_list(list: List, body: &str) -> (res: Result<Table<String>, Failure>)
    ensures
        match yaml_string_map(body@) {
            Some(mapping) => res matches Ok(table) && table@ == mapping,
            None => res matches Err(failure) && failure@ matches FailureView::ParsingList {
                list: l,
                ..
            } && l == list,
        },
{
    match decode_string_map(body) {
        Ok(pairs) => list_of_decoded(list, Ok(pairs)),
        Err(error) => list_of_decoded(list, Err(error_text(&error))),
    }
}

/// Whether a status code reports success: the codes from 200 to 299.
pub open spec fn is_success(status: u16) -> bool {
    200 <= status <= 299
}

/// Whether a status code reports success.
pub fn status_is_success(status: u16) -> (res: bool)
    ensures
        res == is_success(status),
{
    200 <= status && status <= 299
}

/// What a response amounts to, given what its body decodes to: the list,
/// if the status reports success and the body is a list. A response
/// without success is refused whatever its body holds.
pub open spec fn response_outcome(
    list: List,
    status: u16,
    body: Seq<char>,
    decoded: Option<Map<Seq<char>, Seq<char>>>,
    res: Result<Map<Seq<char>, Seq<char>>, FailureView>,
) -> bool {
    if !is_success(status) {
        res == Err::<Map<Seq<char>, Seq<char>>, FailureView>(
            FailureView::Refused { list, status, body },
        )
    } else {
        match decoded {
            Some(mapping) => res == Ok::<Map<Seq<char>, Seq<char>>, FailureView>(mapping),
            None => res matches Err(FailureView::ParsingList { list: l, .. }) && l == list,
        }
    }
}

/// The view of the outcome of a response.
pub open spec fn outcome_view(res: Result<Table<String>, Failure>) -> Result<
    Map<Seq<char>, Seq<char>>,
    FailureView,
> {
    match res {
        Ok(table) => Ok(table@),
        Err(failure) => Err(failure@),
    }
}

/// Takes a response for a list: its status and its body. The body is
/// read as a list only under a status that reports success.
pub fn read_response(list: List, status: u16, body: String) -> (res: Result<
    Table<String>,
    Failure,
>)
    ensures
        response_outcome(list, status, body@, yaml_string_map(body@), outcome_view(res)),
{
    if status_is_success(status) {
        parse_list(list, body.as_str())
    } else {
        Err(Failure::Refused { list, status, body })
    }
}

} // verus!
