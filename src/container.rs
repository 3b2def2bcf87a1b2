//! Records that the daemon returns, and the filters of a container listing.
use vstd::prelude::*;
use crate::text::{
    decimal, decimal_text, form_pair, form_pairs, form_text, lemma_form_text_decimal,
    lemma_form_text_unchanged, pair_views, urlencode_pairs,
};

verus! {

/// A container as the daemon lists it.
#[derive(Clone, Debug)]
pub struct Container {
    pub container_id: String,
    pub names: Vec<String>,
    pub image: String,
    pub image_id: Option<String>,
}

/// Optional filters of a container listing; a field left `None` is not sent.
#[derive(Clone, Debug, Default)]
pub struct ListContainersParameters {
    pub all: Option<bool>,
    pub limit: Option<i32>,
    pub size: Option<bool>,
    /// A filter expression, already serialised as JSON.
    pub filters: Option<String>,
}

pub open spec fn key_all() -> Seq<char> {
    seq!['a', 'l', 'l']
}

pub open spec fn key_limit() -> Seq<char> {
    seq!['l', 'i', 'm', 'i', 't']
}

pub open spec fn key_size() -> Seq<char> {
    seq!['s', 'i', 'z', 'e']
}

pub open spec fn key_filters() -> Seq<char> {
    seq!['f', 'i', 'l', 't', 'e', 'r', 's']
}

/// `true` or `false`.
pub open spec fn bool_text(b: bool) -> Seq<char> {
    if b {
        seq!['t', 'r', 'u', 'e']
    } else {
        seq!['f', 'a', 'l', 's', 'e']
    }
}

/// One query pair for a present value, none for an absent one.
pub open spec fn opt_pair(key: Seq<char>, v: Option<Seq<char>>) -> Seq<(Seq<char>, Seq<char>)> {
    match v {
        Some(x) => seq![(key, x)],
        None => seq![],
    }
}

pub open spec fn bool_opt(o: Option<bool>) -> Option<Seq<char>> {
    match o {
        Some(b) => Some(bool_text(b)),
        None => None,
    }
}

pub open spec fn int_opt(o: Option<i32>) -> Option<Seq<char>> {
    match o {
        Some(n) => Some(decimal(n as int)),
        None => None,
    }
}

pub open spec fn str_opt(o: Option<String>) -> Option<Seq<char>> {
    match o {
        Some(s) => Some(s@),
        None => None,
    }
}

impl ListContainersParameters {
    /// The query pairs of the present fields, in the order all, limit, size, filters.
    pub open spec fn pairs_spec(&self) -> Seq<(Seq<char>, Seq<char>)> {
        opt_pair(key_all(), bool_opt(self.all))
            + opt_pair(key_limit(), int_opt(self.limit))
            + opt_pair(key_size(), bool_opt(self.size))
            + opt_pair(key_filters(), str_opt(self.filters))
    }

    /// The query pairs of the present fields; absent fields give no pair.
    pub fn query_pairs(&self) -> (r: Vec<(String, String)>)
        ensures
            pair_views(r@) == self.pairs_spec(),
    {
        let mut r: Vec<(String, String)> = Vec::new();
        if let Some(b) = self.all {
            let ghost old_r = r@;
            r.push((String::from_str("all"), bool_string(b)));
            proof {
                reveal_strlit("all");
                assert("all"@ =~= key_all());
                lemma_pair_views_push(old_r, r@.last());
                assert(old_r.push(r@.last()) =~= r@);
            }
        }
        assert(pair_views(r@) =~= opt_pair(key_all(), bool_opt(self.all)));
        if let Some(n) = self.limit {
            let ghost old_r = r@;
            r.push((String::from_str("limit"), decimal_text(n)));
            proof {
                reveal_strlit("limit");
                assert("limit"@ =~= key_limit());
                lemma_pair_views_push(old_r, r@.last());
                assert(old_r.push(r@.last()) =~= r@);
            }
        }
        assert(pair_views(r@) =~= opt_pair(key_all(), bool_opt(self.all))
            + opt_pair(key_limit(), int_opt(self.limit)));
        if let Some(b) = self.size {
            let ghost old_r = r@;
            r.push((String::from_str("size"), bool_string(b)));
            proof {
                reveal_strlit("size");
                assert("size"@ =~= key_size());
                lemma_pair_views_push(old_r, r@.last());
                assert(old_r.push(r@.last()) =~= r@);
            }
        }
        assert(pair_views(r@) =~= opt_pair(key_all(), bool_opt(self.all))
            + opt_pair(key_limit(), int_opt(self.limit))
            + opt_pair(key_size(), bool_opt(self.size)));
        if let Some(f) = &self.filters {
            let ghost old_r = r@;
            r.push((String::from_str("filters"), f.clone()));
            proof {
                reveal_strlit("filters");
                assert("filters"@ =~= key_filters());
                lemma_pair_views_push(old_r, r@.last());
                assert(old_r.push(r@.last()) =~= r@);
            }
        }
        assert(pair_views(r@) =~= self.pairs_spec());
        r
    }

    /// The form-encoded query string of the present fields.
    pub fn to_query_string(&self) -> (r: Option<String>)
        ensures
            r is Some,
            r->Some_0@ == form_pairs(self.pairs_spec()),
    {
        let pairs = self.query_pairs();
        urlencode_pairs(&pairs)
    }
}

proof fn lemma_plain_texts(b: bool)
    ensures
        form_text(key_all()) == key_all(),
        form_text(key_limit()) == key_limit(),
        form_text(key_size()) == key_size(),
        form_text(key_filters()) == key_filters(),
        form_text(bool_text(b)) == bool_text(b),
{
    lemma_form_text_unchanged(key_all());
    lemma_form_text_unchanged(key_limit());
    lemma_form_text_unchanged(key_size());
    lemma_form_text_unchanged(key_filters());
    lemma_form_text_unchanged(bool_text(b));
}

/// Filters holding a limit alone give a query string of exactly one item,
/// `limit=<n>`: no other key is present.
pub proof fn lemma_limit_only_query(p: ListContainersParameters)
    requires
        p.all is None,
        p.limit is Some,
        p.size is None,
        p.filters is None,
    ensures
        form_pairs(p.pairs_spec()) == key_limit() + seq!['='] + decimal(p.limit->Some_0 as int),
{
    let n = p.limit->Some_0 as int;
    assert(p.pairs_spec() =~= seq![(key_limit(), decimal(n))]);
    lemma_plain_texts(true);
    lemma_form_text_decimal(n);
}

/// Filters with every field set give a query string of the four items
/// `all`, `limit`, `size` and `filters`, in that order, joined by `&`.
pub proof fn lemma_full_query(p: ListContainersParameters)
    requires
        p.all is Some,
        p.limit is Some,
        p.size is Some,
        p.filters is Some,
    ensures
        form_pairs(p.pairs_spec()) == key_all() + seq!['='] + bool_text(p.all->Some_0) + seq!['&']
            + key_limit() + seq!['='] + decimal(p.limit->Some_0 as int) + seq!['&'] + key_size()
            + seq!['='] + bool_text(p.size->Some_0) + seq!['&'] + key_filters() + seq!['=']
            + form_text(p.filters->Some_0@),
{
    let a = (key_all(), bool_text(p.all->Some_0));
    let l = (key_limit(), decimal(p.limit->Some_0 as int));
    let s = (key_size(), bool_text(p.size->Some_0));
    let f = (key_filters(), p.filters->Some_0@);
    let ps = p.pairs_spec();
    let p3 = ps.drop_last();
    let p2 = p3.drop_last();
    let p1 = p2.drop_last();
    assert(ps =~= seq![a, l, s, f]);
    assert(p3 =~= seq![a, l, s]);
    assert(p2 =~= seq![a, l]);
    assert(p1 =~= seq![a]);
    assert(form_pairs(p1) == form_pair(a));
    assert(form_pairs(p2) == form_pairs(p1) + seq!['&'] + form_pair(l));
    assert(form_pairs(p3) == form_pairs(p2) + seq!['&'] + form_pair(s));
    assert(form_pairs(ps) == form_pairs(p3) + seq!['&'] + form_pair(f));
    lemma_plain_texts(p.all->Some_0);
    lemma_plain_texts(p.size->Some_0);
    lemma_form_text_decimal(p.limit->Some_0 as int);
    assert(form_pair(a) == key_all() + seq!['='] + bool_text(p.all->Some_0));
    assert(form_pair(s) == key_size() + seq!['='] + bool_text(p.size->Some_0));
    assert(form_pairs(ps) =~= key_all() + seq!['='] + bool_text(p.all->Some_0) + seq!['&']
        + key_limit() + seq!['='] + decimal(p.limit->Some_0 as int) + seq!['&'] + key_size()
        + seq!['='] + bool_text(p.size->Some_0) + seq!['&'] + key_filters() + seq!['=']
        + form_text(p.filters->Some_0@));
}

proof fn lemma_pair_views_push(s: Seq<(String, String)>, p: (String, String))
    ensures
        pair_views(s.push(p)) == pair_views(s).push((p.0@, p.1@)),
{
    assert(pair_views(s.push(p)) =~= pair_views(s).push((p.0@, p.1@)));
}

fn bool_string(b: bool) -> (r: String)
    ensures
        r@ == bool_text(b),
{
    if b {
        proof { reveal_strlit("true"); }
        String::from_str("true")
    } else {
        proof { reveal_strlit("false"); }
        String::from_str("false")
    }
}

} // verus!
