//! A client library for the OneDrive API through Microsoft Graph: the
//! requests it sends, the names and paths it accepts, and the way it reads
//! what the service answers.
use vstd::prelude::*;

pub mod location;
pub mod onedrive;
pub mod option;
pub mod request;
pub mod text;

pub use crate::location::{
    api_path, api_url, DriveId, DriveLocation, FileName, ItemId, ItemLocation, Tag,
};
pub use crate::option::{CollectionOption, DriveItemPutOption, ObjectOption};
pub use crate::onedrive::{
    answer_kind, copy_monitor_url, finish_tracking, AnswerKind, require_response, CollectionPage, CopyProgressMonitor, CopyStatus,
    DriveItemFetcher, FetchStep, OneDrive, PageCollector, TimestampString, UnexpectedResponse, UploadSession,
};
pub use crate::request::{ApiRequest, Method, RequestBody};

use crate::text::{
    all_digits, chars_of, lemma_decimal_digits, lemma_parse_decimal, parse_u64, spec_decimal,
    spec_parse_u64,
};

verus! {

/// The conflict resolution behavior for actions that create a new item.
#[derive(Clone, Copy, Debug, PartialEq, Eq, Structural)]
pub enum ConflictBehavior {
    /// Make the request fail. Usually cause HTTP 409 CONFLICT.
    Fail,
    /// **DANGER**: Replace the existing item.
    Replace,
    /// Rename the newly created item to another name.
    ///
    /// The new name is not specified and usually can be retrived from the response.
    Rename,
}

/// A half-open byte range `start..end` or `start..`.
#[derive(Debug, PartialEq, Eq, Structural)]
pub struct ExpectRange {
    /// The lower bound of the range (inclusive).
    pub start: u64,
    /// The optional upper bound of the range (exclusive).
    pub end: Option<u64>,
}

/// No character of `s` is a `-`.
pub open spec fn dash_free(s: Seq<char>) -> bool {
    forall|i: int| 0 <= i < s.len() ==> s[i] != '-'
}

/// `v[k]` is the one and only `-` in `v`.
pub open spec fn sole_dash_at(v: Seq<char>, k: int) -> bool {
    &&& 0 <= k < v.len()
    &&& v[k] == '-'
    &&& dash_free(v.take(k))
    &&& dash_free(v.skip(k + 1))
}

/// The range written as `lower-` (open) or `lower-upper` (`upper` inclusive),
/// each bound in the form `u64::from_str` accepts; the exclusive end `upper + 1`
/// must fit in a `u64` and lie above `lower`.
pub open spec fn range_from_bounds(lower: Seq<char>, upper: Seq<char>) -> Option<ExpectRange> {
    match spec_parse_u64(lower) {
        None => None,
        Some(start) => if upper.len() == 0 {
            Some(ExpectRange { start, end: None })
        } else {
            match spec_parse_u64(upper) {
                Some(u) => if u < u64::MAX && u + 1 > start {
                    Some(ExpectRange { start, end: Some((u + 1) as u64) })
                } else {
                    None
                },
                None => None,
            }
        },
    }
}

/// What `ExpectRange::parse` reads from `v`: a text with exactly one `-`,
/// bounds around it as `range_from_bounds` says; `None` for anything else.
pub open spec fn spec_parse_expect_range(v: Seq<char>) -> Option<ExpectRange> {
    if exists|k: int| sole_dash_at(v, k) {
        let k = choose|k: int| sole_dash_at(v, k);
        range_from_bounds(v.take(k), v.skip(k + 1))
    } else {
        None
    }
}

/// The text of a range in the service's notation: `{start}-` when the range is
/// open, `{start}-{end - 1}` when it has an (exclusive) end.
pub open spec fn spec_range_text(start: u64, end: Option<u64>) -> Seq<char> {
    spec_decimal(start as nat) + seq!['-'] + match end {
        Some(e) => spec_decimal((e - 1) as nat),
        None => Seq::<char>::empty(),
    }
}

/// A string of digits holds no `-`.
proof fn lemma_digits_dash_free(s: Seq<char>)
    requires
        all_digits(s),
    ensures
        dash_free(s),
{
    assert forall|i: int| 0 <= i < s.len() implies s[i] != '-' by {
        assert(crate::text::is_digit(s[i]));
    }
}

/// Every non-empty range is read back from its text: `{lower}-` gives an open
/// range and `{lower}-{upper}` the range that ends (exclusively) at `upper + 1`.
pub proof fn lemma_parse_range_text(start: u64, end: Option<u64>)
    requires
        end matches Some(e) ==> e > start,
    ensures
        spec_parse_expect_range(spec_range_text(start, end)) == Some(ExpectRange { start, end }),
{
    let lower = spec_decimal(start as nat);
    let upper = match end {
        Some(e) => spec_decimal((e - 1) as nat),
        None => Seq::<char>::empty(),
    };
    let v = spec_range_text(start, end);
    let k = lower.len() as int;
    lemma_decimal_digits(start as nat);
    lemma_digits_dash_free(lower);
    lemma_parse_decimal(start);
    if let Some(e) = end {
        lemma_decimal_digits((e - 1) as nat);
        lemma_digits_dash_free(upper);
        lemma_parse_decimal((e - 1) as u64);
    }
    assert(v.take(k) =~= lower);
    assert(v.skip(k + 1) =~= upper);
    assert(v[k] == '-');
    assert(sole_dash_at(v, k));
    let j = choose|j: int| sole_dash_at(v, j);
    if j < k {
        assert(v.take(k)[j] == '-');
    } else if j > k {
        assert(v.take(j)[k] == '-');
    }
}

/// A range read from a text is never empty, and the text is written around
/// its only `-`: the lower bound reads as `start`; the upper bound is empty
/// for an open range, else reads as `end - 1`. A text without exactly one
/// `-` gives no range.
pub proof fn lemma_parsed_range_is_written(v: Seq<char>)
    ensures
        spec_parse_expect_range(v) matches Some(r) ==> exists|k: int|
            #[trigger] sole_dash_at(v, k) && spec_parse_u64(v.take(k)) == Some(r.start) && match r.end {
                None => v.skip(k + 1).len() == 0,
                Some(e) => e > r.start && v.skip(k + 1).len() > 0 && spec_parse_u64(v.skip(k + 1))
                    == Some((e - 1) as u64),
            },
        (forall|k: int| 0 <= k < v.len() ==> !#[trigger] sole_dash_at(v, k)) ==> spec_parse_expect_range(v) is None,
{
    if exists|k: int| sole_dash_at(v, k) {
        let k = choose|k: int| sole_dash_at(v, k);
        assert(sole_dash_at(v, k));
    }
}

/// The index of the first `c` in `v` at or after `from`, or `v.len()` where there is none.
fn find_char(v: &Vec<char>, from: usize, c: char) -> (r: usize)
    requires
        from <= v@.len(),
    ensures
        from <= r <= v@.len(),
        forall|i: int| from <= i < r ==> v@[i] != c,
        r < v@.len() ==> v@[r as int] == c,
{
    let mut i = from;
    while i < v.len()
        invariant
            from <= i <= v@.len(),
            forall|j: int| from <= j < i ==> v@[j] != c,
        decreases v@.len() - i,
    {
        if v[i] == c {
            return i;
        }
        i = i + 1;
    }
    i
}

impl ExpectRange {
    /// Reads a range as the service writes it: `{lower}-` or `{lower}-{upper}`,
    /// where `upper` is inclusive; the resulting `end` is exclusive.
    pub fn parse(v: &str) -> (r: Option<ExpectRange>)
        ensures
            r == spec_parse_expect_range(v@),
    {
        let c = chars_of(v);
        let n = c.len();
        let k = find_char(&c, 0, '-');
        if k == n {
            proof {
                if exists|k2: int| sole_dash_at(v@, k2) {
                    let k2 = choose|k2: int| sole_dash_at(v@, k2);
                    assert(v@[k2] == '-');
                }
            }
            return None;
        }
        let k2 = find_char(&c, k + 1, '-');
        if k2 < n {
            proof {
                if exists|j: int| sole_dash_at(v@, j) {
                    let j = choose|j: int| sole_dash_at(v@, j);
                    if j < k {
                        assert(v@[j] == '-');
                    } else if j == k {
                        assert(v@.skip(j + 1)[k2 - j - 1] == '-');
                    } else {
                        assert(v@.take(j)[k as int] == '-');
                    }
                }
            }
            return None;
        }
        proof {
            assert(dash_free(v@.take(k as int)));
            assert(dash_free(v@.skip(k + 1)));
            assert(sole_dash_at(v@, k as int));
            let j = choose|j: int| sole_dash_at(v@, j);
            if j < k {
                assert(v@.take(k as int)[j] == '-');
            } else if j > k {
                assert(v@.take(j)[k as int] == '-');
            }
            assert(j == k);
            assert(c@.subrange(0, k as int) =~= v@.take(k as int));
            assert(c@.subrange(k + 1, n as int) =~= v@.skip(k + 1));
        }
        let start = match parse_u64(&c, 0, k) {
            Some(s) => s,
            None => return None,
        };
        if k + 1 == n {
            return Some(ExpectRange { start, end: None });
        }
        let upper = match parse_u64(&c, k + 1, n) {
            Some(u) => u,
            None => return None,
        };
        let end = match upper.checked_add(1) {
            Some(e) => e,
            None => return None,
        };
        if end <= start {
            return None;
        }
        Some(ExpectRange { start, end: Some(end) })
    }
}

} // verus!
