//! The listing of the applications that the service knows.

use vstd::prelude::*;

verus! {

/// The identifiers that are present among `entries`, in their order.
pub open spec fn present_ids(entries: Seq<Option<Seq<char>>>) -> Seq<Seq<char>> {
    entries.filter_map(|entry: Option<Seq<char>>| entry)
}

/// What a listing amounts to, given the identifier field of each listed
/// application.
pub open spec fn listing_spec(outcome: Result<Option<Seq<Option<Seq<char>>>>, Seq<char>>) -> Result<
    Seq<Seq<char>>,
    Seq<char>,
> {
    match outcome {
        Ok(Some(entries)) => Ok(present_ids(entries)),
        Ok(None) => Ok(Seq::empty()),
        Err(cause) => Err(cause),
    }
}

/// Mathematical value of the outcome of a listing call.
pub open spec fn outcome_view(outcome: Result<Option<Vec<Option<String>>>, String>) -> Result<
    Option<Seq<Option<Seq<char>>>>,
    Seq<char>,
> {
    match outcome {
        Ok(entries) => Ok(entries.deep_view()),
        Err(cause) => Err(cause@),
    }
}

/// Mathematical value of a listing.
pub open spec fn listing_view(listing: Result<Vec<String>, String>) -> Result<Seq<Seq<char>>, Seq<char>> {
    match listing {
        Ok(ids) => Ok(ids.deep_view()),
        Err(cause) => Err(cause@),
    }
}

/// The identifiers that are present among `entries`, in their order; an
/// entry without identifier is left out silently.
pub fn present_application_ids(entries: Vec<Option<String>>) -> (ids: Vec<String>)
    ensures
        ids.deep_view() == present_ids(entries.deep_view()),
{
    let ghost all = entries.deep_view();
    let mut ids: Vec<String> = Vec::new();
    let mut i: usize = 0;
    assert(ids.deep_view() =~= present_ids(all.take(0)));
    while i < entries.len()
        invariant
            i <= entries.len(),
            all == entries.deep_view(),
            ids.deep_view() == present_ids(all.take(i as int)),
        decreases entries.len() - i,
    {
        let ghost before = ids.deep_view();
        match &entries[i] {
            Some(id) => {
                ids.push(id.clone());
                assert(ids.deep_view() =~= before + seq![id@]);
            },
            None => {},
        }
        proof {
            all.lemma_filter_map_take_succ(|entry: Option<Seq<char>>| entry, i as int);
        }
        i = i + 1;
    }
    assert(all.take(i as int) =~= all);
    ids
}

/// The result of a listing call: the identifiers that are present, in the
/// order of the listing (none where the service sent no list), or the
/// transport's cause as it is.
pub fn list_applications(outcome: Result<Option<Vec<Option<String>>>, String>) -> (listing: Result<
    Vec<String>,
    String,
>)
    ensures
        listing_view(listing) == listing_spec(outcome_view(outcome)),
{
    match outcome {
        Ok(Some(entries)) => Ok(present_application_ids(entries)),
        Ok(None) => {
            let ids: Vec<String> = Vec::new();
            assert(ids.deep_view() =~= Seq::<Seq<char>>::empty());
            Ok(ids)
        },
        Err(cause) => Err(cause),
    }
}

} // verus!
