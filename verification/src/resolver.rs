//! The index resolver: the core of the client.
//!
//! A delete operation shows the freshly fetched list, numbered from 1, and
//! asks for a position. The resolver parses the token, accepts a position
//! `i` exactly when `1 <= i <= N`, and resolves an accepted position to the
//! identifier of the record at `i - 1`. It has no side effects: the delete
//! request itself is the caller's concern. A fetched record should always
//! carry an identifier; one that does not is reported as a contract
//! violation rather than resolved.

use vstd::prelude::*;

use crate::records::Record;
use crate::token::{digit_value, digits_value, effective_index, is_numeric_token, parse_index,
    token_digits, token_value};

verus! {

/// What resolving a selection token against a list can yield.
#[derive(Debug)]
pub enum Resolution {
    /// The position was in range; here is the record's identifier.
    Resolved(String),
    /// The position was out of range or the token was not numeric.
    Invalid,
    /// The position was in range, but the record carries no identifier: a
    /// violated contract of the store, surfaced instead of resolved.
    MissingId,
}

/// The spec-level counterpart of [`Resolution`].
pub enum ResolutionModel {
    Resolved(Seq<char>),
    Invalid,
    MissingId,
}

/// The identifiers a list of records carries, in order.
pub open spec fn ids_of<R: Record>(items: Seq<R>) -> Seq<Option<Seq<char>>> {
    items.map_values(|x: R| x.id_spec())
}

/// What resolving `token` against a list carrying `ids` yields: the
/// identifier at position `i - 1` when the token's position `i` satisfies
/// `1 <= i <= N`, and a rejection otherwise.
pub open spec fn resolution_of(ids: Seq<Option<Seq<char>>>, token: Seq<char>) -> ResolutionModel {
    let i = effective_index(token);
    if 1 <= i && i <= ids.len() {
        match ids[i - 1] {
            Some(id) => ResolutionModel::Resolved(id),
            None => ResolutionModel::MissingId,
        }
    } else {
        ResolutionModel::Invalid
    }
}

/// Whether the exec result `r` is the model result `m`.
pub open spec fn resolution_matches(r: Resolution, m: ResolutionModel) -> bool {
    match r {
        Resolution::Resolved(s) => m == ResolutionModel::Resolved(s@),
        Resolution::Invalid => m == ResolutionModel::Invalid,
        Resolution::MissingId => m == ResolutionModel::MissingId,
    }
}

/// Resolve the user's selection token against the fetched list.
pub fn resolve<R: Record>(items: &Vec<R>, token: &str) -> (r: Resolution)
    ensures
        resolution_matches(r, resolution_of(ids_of(items@), token@)),
{
    let i = parse_index(token);
    if 1 <= i && i <= items.len() {
        match items[i - 1].id() {
            Some(s) => Resolution::Resolved(s.clone()),
            None => Resolution::MissingId,
        }
    } else {
        Resolution::Invalid
    }
}

/// For every list whose records all carry identifiers, as fetched ones do,
/// and every numeric token of value `i`: resolution succeeds exactly when
/// `1 <= i <= N`, and then yields the identifier at position `i - 1`.
pub proof fn lemma_resolution_succeeds_iff(ids: Seq<Option<Seq<char>>>, token: Seq<char>)
    requires
        is_numeric_token(token),
        token_value(token) <= usize::MAX as nat,
        forall|k: int| 0 <= k < ids.len() ==> ids[k] is Some,
    ensures
        ({
            let i = token_value(token);
            &&& (resolution_of(ids, token) is Resolved <==> 1 <= i && i <= ids.len())
            &&& (1 <= i && i <= ids.len() ==> resolution_of(ids, token)
                == ResolutionModel::Resolved(ids[i - 1]->Some_0))
        }),
{
}

/// Against an empty list, every token is rejected.
pub proof fn lemma_empty_rejects(token: Seq<char>)
    ensures
        resolution_of(Seq::<Option<Seq<char>>>::empty(), token) == ResolutionModel::Invalid,
{
}

/// A token that is not numeric resolves exactly as the token `0` does,
/// against every list: both are rejected.
pub proof fn lemma_non_numeric_like_zero(ids: Seq<Option<Seq<char>>>, token: Seq<char>)
    requires
        !is_numeric_token(token),
    ensures
        resolution_of(ids, token) == resolution_of(ids, "0"@),
        resolution_of(ids, token) == ResolutionModel::Invalid,
{
    reveal_strlit("0");
    assert(token_digits("0"@) =~= "0"@);
    assert("0"@.drop_last() =~= Seq::<char>::empty());
    assert(digits_value("0"@) == digits_value("0"@.drop_last()) * 10
        + digit_value('0'));
    assert(digits_value("0"@) == 0);
}

} // verus!
