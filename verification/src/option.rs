//! Options of the operations: query parameters that select what the service
//! answers, and conditional headers.
use vstd::prelude::*;

use crate::location::Tag;
use crate::text::{push_decimal, push_str, spec_decimal, string_from_chars};
use crate::ConflictBehavior;

verus! {

/// The query parameters and headers that options add to a request, in order.
pub struct OptionView {
    pub query: Seq<(Seq<char>, Seq<char>)>,
    pub headers: Seq<(Seq<char>, Seq<char>)>,
}

/// No query parameter and no header.
pub open spec fn no_options() -> OptionView {
    OptionView { query: Seq::empty(), headers: Seq::empty() }
}

/// The options with one more query parameter.
pub open spec fn with_query(o: OptionView, key: Seq<char>, value: Seq<char>) -> OptionView {
    OptionView { query: o.query.push((key, value)), ..o }
}

/// The options with one more header.
pub open spec fn with_header(o: OptionView, name: Seq<char>, value: Seq<char>) -> OptionView {
    OptionView { headers: o.headers.push((name, value)), ..o }
}

/// Adding a query parameter puts it after the others and leaves the headers;
/// adding a header puts it after the others and leaves the query.
pub proof fn lemma_options_add_at_the_end(o: OptionView, key: Seq<char>, value: Seq<char>)
    ensures
        with_query(o, key, value).query.len() == o.query.len() + 1,
        with_query(o, key, value).query.last() == (key, value),
        with_query(o, key, value).query.drop_last() == o.query,
        with_query(o, key, value).headers == o.headers,
        with_header(o, key, value).headers.len() == o.headers.len() + 1,
        with_header(o, key, value).headers.last() == (key, value),
        with_header(o, key, value).headers.drop_last() == o.headers,
        with_header(o, key, value).query == o.query,
        no_options().query.len() == 0 && no_options().headers.len() == 0,
{
    assert(with_query(o, key, value).query.drop_last() =~= o.query);
    assert(with_header(o, key, value).headers.drop_last() =~= o.headers);
}

/// The texts of `fields`, separated by `,`.
pub open spec fn spec_join_fields(fields: Seq<&str>) -> Seq<char>
    decreases fields.len(),
{
    if fields.len() == 0 {
        Seq::empty()
    } else if fields.len() == 1 {
        fields[0]@
    } else {
        spec_join_fields(fields.drop_last()) + seq![','] + fields.last()@
    }
}

/// The texts of `fields`, separated by `,`.
fn join_fields(fields: &[&str]) -> (r: String)
    ensures
        r@ == spec_join_fields(fields@),
{
    let mut v: Vec<char> = Vec::new();
    let mut i: usize = 0;
    while i < fields.len()
        invariant
            i <= fields@.len(),
            v@ == spec_join_fields(fields@.take(i as int)),
        decreases fields@.len() - i,
    {
        if i > 0 {
            v.push(',');
        }
        push_str(&mut v, fields[i]);
        i = i + 1;
        assert(fields@.take(i as int).drop_last() =~= fields@.take(i - 1));
        assert(v@ =~= spec_join_fields(fields@.take(i as int)));
    }
    assert(fields@.take(fields@.len() as int) =~= fields@);
    string_from_chars(&v)
}

/// A list of query parameters or headers, with one more pair.
fn push_pair(pairs: &mut Vec<(String, String)>, key: String, value: String)
    ensures
        final(pairs).deep_view() == old(pairs).deep_view().push((key@, value@)),
{
    pairs.push((key, value));
    assert(pairs.deep_view() =~= old(pairs).deep_view().push((key@, value@)));
}

/// The query parameters and headers of an option.
#[derive(Debug, Default)]
struct Extra {
    query: Vec<(String, String)>,
    headers: Vec<(String, String)>,
}

impl Extra {
    closed spec fn spec_view(&self) -> OptionView {
        OptionView { query: self.query.deep_view(), headers: self.headers.deep_view() }
    }

    fn empty() -> (r: Self)
        ensures
            r.spec_view() == no_options(),
    {
        let r = Extra { query: Vec::new(), headers: Vec::new() };
        assert(r.spec_view().query =~= Seq::<(Seq<char>, Seq<char>)>::empty());
        assert(r.spec_view().headers =~= Seq::<(Seq<char>, Seq<char>)>::empty());
        r
    }

    fn query(self, key: &str, value: String) -> (r: Self)
        ensures
            r.spec_view() == with_query(self.spec_view(), key@, value@),
    {
        let mut r = self;
        push_pair(&mut r.query, String::from_str(key), value);
        r
    }

    fn header(self, name: &str, value: String) -> (r: Self)
        ensures
            r.spec_view() == with_header(self.spec_view(), name@, value@),
    {
        let mut r = self;
        push_pair(&mut r.headers, String::from_str(name), value);
        r
    }

    fn into_parts(self) -> (r: (Vec<(String, String)>, Vec<(String, String)>))
        ensures
            r.0.deep_view() == self.spec_view().query,
            r.1.deep_view() == self.spec_view().headers,
    {
        (self.query, self.headers)
    }
}

/// Options that select what the service answers of an object.
#[derive(Debug)]
pub struct ObjectOption {
    extra: Extra,
}

impl View for ObjectOption {
    type V = OptionView;

    open spec fn view(&self) -> OptionView {
        self.spec_view()
    }
}

impl ObjectOption {
    /// The query parameters and headers.
    pub closed spec fn spec_view(&self) -> OptionView {
        self.extra.spec_view()
    }

    /// No option.
    pub fn new() -> (r: Self)
        ensures
            r@ == no_options(),
    {
        ObjectOption { extra: Extra::empty() }
    }

    /// Only answer the given fields: `$select` with the fields separated by `,`.
    pub fn select(self, fields: &[&str]) -> (r: Self)
        ensures
            r@ == with_query(self@, "$select"@, spec_join_fields(fields@)),
    {
        ObjectOption { extra: self.extra.query("$select", join_fields(fields)) }
    }

    /// Expand a relationship: `$expand`.
    pub fn expand(self, field: &str) -> (r: Self)
        ensures
            r@ == with_query(self@, "$expand"@, field@),
    {
        ObjectOption { extra: self.extra.query("$expand", String::from_str(field)) }
    }

    /// Answer nothing (`304 Not Modified`) if the object's tag matches: `If-None-Match`.
    pub fn if_none_match(self, tag: &Tag) -> (r: Self)
        ensures
            r@ == with_header(self@, "If-None-Match"@, tag.0@),
    {
        ObjectOption { extra: self.extra.header("If-None-Match", tag.0.clone()) }
    }

    /// The query parameters and the headers, in order.
    pub fn into_parts(self) -> (r: (Vec<(String, String)>, Vec<(String, String)>))
        ensures
            r.0.deep_view() == self@.query,
            r.1.deep_view() == self@.headers,
    {
        self.extra.into_parts()
    }
}

/// Options that select what the service answers of a collection.
#[derive(Debug)]
pub struct CollectionOption {
    extra: Extra,
}

impl View for CollectionOption {
    type V = OptionView;

    open spec fn view(&self) -> OptionView {
        self.spec_view()
    }
}

impl CollectionOption {
    /// The query parameters and headers.
    pub closed spec fn spec_view(&self) -> OptionView {
        self.extra.spec_view()
    }

    /// No option.
    pub fn new() -> (r: Self)
        ensures
            r@ == no_options(),
    {
        CollectionOption { extra: Extra::empty() }
    }

    /// Only answer the given fields: `$select` with the fields separated by `,`.
    pub fn select(self, fields: &[&str]) -> (r: Self)
        ensures
            r@ == with_query(self@, "$select"@, spec_join_fields(fields@)),
    {
        CollectionOption { extra: self.extra.query("$select", join_fields(fields)) }
    }

    /// Expand a relationship: `$expand`.
    pub fn expand(self, field: &str) -> (r: Self)
        ensures
            r@ == with_query(self@, "$expand"@, field@),
    {
        CollectionOption { extra: self.extra.query("$expand", String::from_str(field)) }
    }

    /// Order the items: `$orderby`.
    pub fn order_by(self, field: &str) -> (r: Self)
        ensures
            r@ == with_query(self@, "$orderby"@, field@),
    {
        CollectionOption { extra: self.extra.query("$orderby", String::from_str(field)) }
    }

    /// The number of items in a page: `$top` with the number in decimal.
    pub fn page_size(self, size: usize) -> (r: Self)
        ensures
            r@ == with_query(self@, "$top"@, spec_decimal(size as nat)),
    {
        let mut v: Vec<char> = Vec::new();
        push_decimal(size, &mut v);
        assert(v@ =~= spec_decimal(size as nat));
        CollectionOption { extra: self.extra.query("$top", string_from_chars(&v)) }
    }

    /// Answer nothing (`304 Not Modified`) if the collection's tag matches: `If-None-Match`.
    pub fn if_none_match(self, tag: &Tag) -> (r: Self)
        ensures
            r@ == with_header(self@, "If-None-Match"@, tag.0@),
    {
        CollectionOption { extra: self.extra.header("If-None-Match", tag.0.clone()) }
    }

    /// The query parameters and the headers, in order.
    pub fn into_parts(self) -> (r: (Vec<(String, String)>, Vec<(String, String)>))
        ensures
            r.0.deep_view() == self@.query,
            r.1.deep_view() == self@.headers,
    {
        self.extra.into_parts()
    }
}

/// Options of the operations that put an item somewhere.
#[derive(Debug)]
pub struct DriveItemPutOption {
    extra: Extra,
    conflict_behavior: Option<ConflictBehavior>,
}

impl View for DriveItemPutOption {
    type V = OptionView;

    open spec fn view(&self) -> OptionView {
        self.spec_view()
    }
}

impl DriveItemPutOption {
    /// The query parameters and headers.
    pub closed spec fn spec_view(&self) -> OptionView {
        self.extra.spec_view()
    }

    /// The conflict behavior asked for, if any.
    pub closed spec fn spec_conflict_behavior(&self) -> Option<ConflictBehavior> {
        self.conflict_behavior
    }

    /// No option.
    pub fn new() -> (r: Self)
        ensures
            r@ == no_options(),
            r.spec_conflict_behavior() is None,
    {
        DriveItemPutOption { extra: Extra::empty(), conflict_behavior: None }
    }

    /// Only act if the item's tag matches (`412 Precondition Failed` otherwise): `If-Match`.
    pub fn if_match(self, tag: &Tag) -> (r: Self)
        ensures
            r@ == with_header(self@, "If-Match"@, tag.0@),
            r.spec_conflict_behavior() == self.spec_conflict_behavior(),
    {
        DriveItemPutOption {
            extra: self.extra.header("If-Match", tag.0.clone()),
            conflict_behavior: self.conflict_behavior,
        }
    }

    /// What to do where the target exists.
    pub fn conflict_behavior(self, conflict_behavior: ConflictBehavior) -> (r: Self)
        ensures
            r@ == self@,
            r.spec_conflict_behavior() == Some(conflict_behavior),
    {
        DriveItemPutOption { extra: self.extra, conflict_behavior: Some(conflict_behavior) }
    }

    /// The conflict behavior, if set.
    pub fn get_conflict_behavior(&self) -> (r: Option<ConflictBehavior>)
        ensures
            r == self.spec_conflict_behavior(),
    {
        self.conflict_behavior
    }

    /// The query parameters and the headers, in order.
    pub fn into_parts(self) -> (r: (Vec<(String, String)>, Vec<(String, String)>))
        ensures
            r.0.deep_view() == self@.query,
            r.1.deep_view() == self@.headers,
    {
        self.extra.into_parts()
    }
}

impl Default for ObjectOption {
    fn default() -> (r: Self)
        ensures
            r@ == no_options(),
    {
        ObjectOption::new()
    }
}

impl Default for CollectionOption {
    fn default() -> (r: Self)
        ensures
            r@ == no_options(),
    {
        CollectionOption::new()
    }
}

impl Default for DriveItemPutOption {
    fn default() -> (r: Self)
        ensures
            r@ == no_options(),
            r.spec_conflict_behavior() is None,
    {
        DriveItemPutOption::new()
    }
}

} // verus!
