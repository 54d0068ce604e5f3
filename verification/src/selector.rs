//! The choice of a package's latest version.
//!
//! The registry lists a package's versions newest first. Nothing here checks
//! that order or restores it: the choice is the first version of the list
//! that was not yanked, so a list in another order yields another version.

use crate::error::{GetCrateError, TransportError};
use crate::resolver::{get_crate, outcome_of, GetCrateApiResponse};
use crate::schema::{FullCrateDetails, Version};
use vstd::prelude::*;

verus! {

/// The first version of `versions` that was not yanked, if there is one.
pub open spec fn first_unyanked(versions: Seq<Version>) -> Option<Version>
    decreases versions.len(),
{
    if versions.len() == 0 {
        None
    } else if !versions[0].yanked {
        Some(versions[0])
    } else {
        first_unyanked(versions.drop_first())
    }
}

/// What `latest_version` returns: the package's id beside the first version
/// that was not yanked.
pub open spec fn latest_version_of(details: FullCrateDetails) -> Option<(String, Version)> {
    match first_unyanked(details.versions@) {
        Some(v) => Some((details.crate_.id, v)),
        None => None,
    }
}

/// `i` is the place of the first version of `versions` that was not yanked.
pub open spec fn is_first_unyanked_at(versions: Seq<Version>, i: int) -> bool {
    &&& 0 <= i < versions.len()
    &&& !versions[i].yanked
    &&& forall|j: int| 0 <= j < i ==> (#[trigger] versions[j]).yanked
}

/// Where every version before `n` was yanked, the choice among `versions`
/// is the choice among those from `n` on.
proof fn lemma_skip_yanked(versions: Seq<Version>, n: int)
    requires
        0 <= n <= versions.len(),
        forall|j: int| 0 <= j < n ==> (#[trigger] versions[j]).yanked,
    ensures
        first_unyanked(versions) == first_unyanked(versions.subrange(n, versions.len() as int)),
    decreases n,
{
    if n == 0 {
        assert(versions.subrange(0, versions.len() as int) =~= versions);
    } else {
        assert(versions[0].yanked);
        let rest = versions.drop_first();
        assert forall|j: int| 0 <= j < n - 1 implies (#[trigger] rest[j]).yanked by {
            assert(rest[j] == versions[j + 1]);
        }
        lemma_skip_yanked(rest, n - 1);
        assert(rest.subrange(n - 1, rest.len() as int) =~= versions.subrange(
            n,
            versions.len() as int,
        ));
    }
}

/// The version at the place of the first one that was not yanked is the
/// choice.
pub proof fn lemma_first_unyanked_at(versions: Seq<Version>, i: int)
    requires
        is_first_unyanked_at(versions, i),
    ensures
        first_unyanked(versions) == Some(versions[i]),
{
    lemma_skip_yanked(versions, i);
    let tail = versions.subrange(i, versions.len() as int);
    assert(tail[0] == versions[i]);
}

/// Where the first version that was not yanked stands in `versions`.
pub fn first_unyanked_index(versions: &Vec<Version>) -> (result: Option<usize>)
    ensures
        match result {
            Some(i) => is_first_unyanked_at(versions@, i as int),
            None => forall|j: int| 0 <= j < versions@.len() ==> (#[trigger] versions@[j]).yanked,
        },
{
    let mut i: usize = 0;
    while i < versions.len()
        invariant
            0 <= i <= versions@.len(),
            forall|j: int| 0 <= j < i ==> (#[trigger] versions@[j]).yanked,
        decreases versions@.len() - i,
    {
        if !versions[i].yanked {
            return Some(i);
        }
        i += 1;
    }
    None
}

/// Picks the latest version of a package: the first of `details.versions`
/// that was not yanked, paired with the package's id. Nothing is sorted and
/// no date is read.
pub fn latest_version(details: FullCrateDetails) -> (result: Option<(String, Version)>)
    ensures
        result == latest_version_of(details),
{
    let FullCrateDetails { crate_, versions, keywords: _, categories: _ } = details;
    let mut versions = versions;
    match first_unyanked_index(&versions) {
        Some(i) => {
            proof {
                lemma_first_unyanked_at(versions@, i as int);
            }
            let v = versions.remove(i);
            Some((crate_.id, v))
        },
        None => {
            proof {
                lemma_skip_yanked(versions@, versions@.len() as int);
            }
            None
        },
    }
}

/// The latest version for each outcome of a query: the choice among the
/// versions of a package that was found; nothing for a package that is
/// absent; a failure as it is.
pub open spec fn latest_version_of_outcome(
    outcome: Result<Option<FullCrateDetails>, GetCrateError>,
) -> Result<Option<(String, Version)>, GetCrateError> {
    match outcome {
        Ok(Some(details)) => Ok(latest_version_of(details)),
        Ok(None) => Ok(None),
        Err(e) => Err(e),
    }
}

/// Turns what the transfer gave into the latest version of the package that
/// was asked for: the outcome of the query, and on a package that was found
/// the choice among its versions.
pub fn get_latest_version_of_crate(
    response: Result<GetCrateApiResponse, TransportError>,
) -> (result: Result<Option<(String, Version)>, GetCrateError>)
    ensures
        result == latest_version_of_outcome(outcome_of(response)),
{
    match get_crate(response) {
        Ok(Some(details)) => Ok(latest_version(details)),
        Ok(None) => Ok(None),
        Err(e) => Err(e),
    }
}

/// A list with a version that was not yanked has a choice, which is one of
/// its versions and was not yanked; a list without one has none. So an empty
/// list has none, and a list of yanked versions has none.
pub proof fn lemma_choice_exists_iff(versions: Seq<Version>)
    ensures
        first_unyanked(versions) is Some <==> exists|i: int|
            0 <= i < versions.len() && !(#[trigger] versions[i]).yanked,
        first_unyanked(versions) is Some ==> exists|i: int|
            is_first_unyanked_at(versions, i) && first_unyanked(versions) == Some(versions[i]),
        versions.len() == 0 ==> first_unyanked(versions) is None,
    decreases versions.len(),
{
    if versions.len() == 0 {
    } else if !versions[0].yanked {
        assert(is_first_unyanked_at(versions, 0));
    } else {
        let rest = versions.drop_first();
        lemma_choice_exists_iff(rest);
        if first_unyanked(rest) is Some {
            let i = choose|i: int|
                is_first_unyanked_at(rest, i) && first_unyanked(rest) == Some(rest[i]);
            assert(rest[i] == versions[i + 1]);
            assert forall|j: int| 0 <= j < i + 1 implies (#[trigger] versions[j]).yanked by {
                if j > 0 {
                    assert(rest[j - 1] == versions[j]);
                }
            }
            assert(is_first_unyanked_at(versions, i + 1));
        } else {
            assert forall|i: int| 0 <= i < versions.len() implies (#[trigger] versions[i]).yanked by {
                if i > 0 {
                    assert(rest[i - 1] == versions[i]);
                }
            }
        }
        if exists|i: int| 0 <= i < versions.len() && !(#[trigger] versions[i]).yanked {
            let i = choose|i: int| 0 <= i < versions.len() && !(#[trigger] versions[i]).yanked;
            assert(i > 0);
            assert(rest[i - 1] == versions[i]);
        }
    }
}

/// Where the choice stands depends on the order of the versions and on
/// which of them were yanked, and on nothing else: two lists that agree on
/// that, place by place, have their choice at the same place, whatever
/// else differs between them (how often a version was downloaded, say).
pub proof fn lemma_choice_depends_on_flags_alone(a: Seq<Version>, b: Seq<Version>)
    requires
        a.len() == b.len(),
        forall|j: int| 0 <= j < a.len() ==> (#[trigger] a[j]).yanked == b[j].yanked,
    ensures
        forall|i: int| is_first_unyanked_at(a, i) <==> is_first_unyanked_at(b, i),
        first_unyanked(a) is Some <==> first_unyanked(b) is Some,
{
    assert forall|i: int| is_first_unyanked_at(a, i) <==> is_first_unyanked_at(b, i) by {
        if is_first_unyanked_at(a, i) {
            assert(a[i].yanked == b[i].yanked);
            assert forall|j: int| 0 <= j < i implies (#[trigger] b[j]).yanked by {
                assert(a[j].yanked == b[j].yanked);
            }
        }
        if is_first_unyanked_at(b, i) {
            assert(a[i].yanked == b[i].yanked);
            assert forall|j: int| 0 <= j < i implies (#[trigger] a[j]).yanked by {
                assert(a[j].yanked == b[j].yanked);
            }
        }
    }
    lemma_choice_exists_iff(a);
    lemma_choice_exists_iff(b);
    if first_unyanked(a) is Some {
        let i = choose|i: int| is_first_unyanked_at(a, i);
        assert(is_first_unyanked_at(b, i));
    }
    if first_unyanked(b) is Some {
        let i = choose|i: int| is_first_unyanked_at(b, i);
        assert(is_first_unyanked_at(a, i));
    }
}

/// A package that was found and has a version that was not yanked has a
/// latest version.
pub proof fn lemma_found_with_unyanked_has_latest(details: FullCrateDetails, i: int)
    requires
        0 <= i < details.versions@.len(),
        !details.versions@[i].yanked,
    ensures
        outcome_of(Ok(GetCrateApiResponse::Found(details))) == Ok::<
            Option<FullCrateDetails>,
            GetCrateError,
        >(Some(details)),
        latest_version_of_outcome(outcome_of(Ok(GetCrateApiResponse::Found(details)))) matches Ok(
            Some(pair),
        ) && pair.0 == details.crate_.id,
{
    lemma_choice_exists_iff(details.versions@);
}

} // verus!
