//! Reading the resource path of a chat notification.

use crate::pattern::capture_first;
use crate::pattern::regex_capture_first;
use crate::pattern::PatternError;
use crate::text::split;
use crate::text::split_on;
use crate::text::starts_with;
use crate::text::str_starts_with;
use vstd::prelude::*;

verus! {

/// The query of a notification request. The platform sends a validation
/// token when it checks the endpoint, and expects it echoed.
pub struct ValidationTokenQuery {
    pub validation_token: Option<String>,
}

/// A path segment of the form `name('id')`; the first group is the id.
pub const QUOTED_ID_PATTERN: &'static str = "\\w+\\('([^']*)'\\)";

/// The id inside a path segment: `None` where the matching engine refuses
/// the pattern, `Some(None)` where the segment holds no quoted id.
pub open spec fn quoted_id(segment: Seq<char>) -> Option<Option<Seq<char>>> {
    regex_capture_first(QUOTED_ID_PATTERN@, segment, 1)
}

/// The ids inside all segments of a path, or `None` where the matching
/// engine refuses the pattern.
pub open spec fn quoted_ids(segments: Seq<Seq<char>>) -> Option<Seq<Option<Seq<char>>>>
    decreases segments.len(),
{
    if segments.len() == 0 {
        Some(Seq::empty())
    } else {
        match (quoted_ids(segments.drop_last()), quoted_id(segments.last())) {
            (Some(ids), Some(id)) => Some(ids.push(id)),
            _ => None,
        }
    }
}

/// The ids found by going through `segments` from the last one backwards,
/// where `ids` holds the id inside each segment and `reply` is the reply id
/// found so far. A `replies` segment sets the reply id anew; the first
/// `messages` segment met sets the message id and ends the search.
pub open spec fn pick_ids(
    segments: Seq<Seq<char>>,
    ids: Seq<Option<Seq<char>>>,
    reply: Option<Seq<char>>,
) -> (Option<Seq<char>>, Option<Seq<char>>)
    decreases segments.len(),
{
    if segments.len() == 0 || ids.len() != segments.len() {
        (None, reply)
    } else if starts_with(segments.last(), "replies"@) {
        pick_ids(segments.drop_last(), ids.drop_last(), ids.last())
    } else if starts_with(segments.last(), "messages"@) {
        (ids.last(), reply)
    } else {
        pick_ids(segments.drop_last(), ids.drop_last(), reply)
    }
}

/// The message id and the reply id that a resource path names; `None`
/// where the matching engine refuses the pattern.
pub open spec fn message_and_reply_id(resource: Seq<char>) -> Option<
    (Option<Seq<char>>, Option<Seq<char>>),
> {
    match quoted_ids(split(resource, '/')) {
        None => None,
        Some(ids) => Some(pick_ids(split(resource, '/'), ids, None)),
    }
}

/// The id inside a path segment of the form `name('id')`.
pub fn get_id(text: &str) -> (r: Result<Option<String>, PatternError>)
    ensures
        match r {
            Ok(id) => quoted_id(text@) == Some(id.deep_view()),
            Err(_) => quoted_id(text@) is None,
        },
{
    match capture_first(QUOTED_ID_PATTERN, text, 1) {
        Ok(id) => Ok(id),
        Err(_) => Err(PatternError::Rejected),
    }
}

/// Once the engine has refused the pattern, further segments do not bring
/// a result back.
pub proof fn lemma_quoted_ids_stay_refused(segments: Seq<Seq<char>>, k: int)
    requires
        0 <= k <= segments.len(),
        quoted_ids(segments.take(k)) is None,
    ensures
        quoted_ids(segments) is None,
    decreases segments.len() - k,
{
    if k < segments.len() {
        assert(segments.take(k + 1).drop_last() =~= segments.take(k));
        lemma_quoted_ids_stay_refused(segments, k + 1);
    } else {
        assert(segments.take(k) =~= segments);
    }
}

/// The ids inside all segments of a path.
pub fn get_ids(segments: &Vec<String>) -> (r: Result<Vec<Option<String>>, PatternError>)
    ensures
        match r {
            Ok(ids) => quoted_ids(segments.deep_view()) == Some(ids.deep_view()),
            Err(_) => quoted_ids(segments.deep_view()) is None,
        },
{
    let mut ids: Vec<Option<String>> = Vec::new();
    let mut k: usize = 0;
    while k < segments.len()
        invariant
            k <= segments.len(),
            quoted_ids(segments.deep_view().take(k as int)) == Some(ids.deep_view()),
        decreases segments.len() - k,
    {
        let ghost next = segments.deep_view().take(k + 1);
        assert(next.drop_last() =~= segments.deep_view().take(k as int));
        assert(next.last() == segments@[k as int]@);
        let ghost before = ids.deep_view();
        match get_id(segments[k].as_str()) {
            Ok(id) => {
                ids.push(id);
                assert(ids.deep_view() =~= before.push(id.deep_view()));
            },
            Err(e) => {
                proof {
                    lemma_quoted_ids_stay_refused(segments.deep_view(), k + 1);
                }
                return Err(e);
            },
        }
        k += 1;
    }
    assert(segments.deep_view().take(k as int) =~= segments.deep_view());
    Ok(ids)
}

/// The message id and the reply id among the ids of a path's segments.
/// The path is read from its end: the last `messages` segment gives the
/// message id, and of the `replies` segments after it the one nearest to it
/// gives the reply id. Where the two lists differ in length nothing is
/// found.
pub fn pick_message_and_reply_id(segments: &Vec<String>, ids: &Vec<Option<String>>) -> (r: (
    Option<String>,
    Option<String>,
))
    ensures
        (r.0.deep_view(), r.1.deep_view()) == pick_ids(
            segments.deep_view(),
            ids.deep_view(),
            None,
        ),
{
    if ids.len() != segments.len() {
        return (None, None);
    }
    let mut reply_id: Option<String> = None;
    let mut k: usize = segments.len();
    assert(segments.deep_view().take(k as int) =~= segments.deep_view());
    assert(ids.deep_view().take(k as int) =~= ids.deep_view());
    while k > 0
        invariant
            k <= segments.len(),
            ids.len() == segments.len(),
            pick_ids(segments.deep_view(), ids.deep_view(), None) == pick_ids(
                segments.deep_view().take(k as int),
                ids.deep_view().take(k as int),
                reply_id.deep_view(),
            ),
        decreases k,
    {
        let ghost rest = segments.deep_view().take(k as int);
        let ghost rest_ids = ids.deep_view().take(k as int);
        assert(rest.drop_last() =~= segments.deep_view().take(k - 1));
        assert(rest_ids.drop_last() =~= ids.deep_view().take(k - 1));
        assert(rest.last() == segments@[k - 1]@);
        assert(rest_ids.last() == ids@[k - 1].deep_view());
        k -= 1;
        if str_starts_with(segments[k].as_str(), "replies") {
            reply_id = ids[k].clone();
        } else if str_starts_with(segments[k].as_str(), "messages") {
            return (ids[k].clone(), reply_id);
        }
    }
    (None, reply_id)
}

/// The message id and the reply id that a resource path names.
pub fn get_message_id_and_reply_id(resource: &str) -> (r: Result<
    (Option<String>, Option<String>),
    PatternError,
>)
    ensures
        match r {
            Ok(ids) => message_and_reply_id(resource@) == Some(
                (ids.0.deep_view(), ids.1.deep_view()),
            ),
            Err(_) => message_and_reply_id(resource@) is None,
        },
{
    let segments = split_on(resource, '/');
    match get_ids(&segments) {
        Ok(ids) => Ok(pick_message_and_reply_id(&segments, &ids)),
        Err(e) => Err(e),
    }
}

} // verus!
