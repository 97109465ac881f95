//! Directives and their extraction.
//!
//! An annotated declaration carries attributes; each attribute has a name
//! (such as `serde`) and an ordered list of directives, each kept as its raw
//! text. The engine interprets no directive beyond matching the two reserved
//! keys: a `validate`-prefixed directive inside a `serde` attribute, and a
//! `crate`-prefixed directive inside a `serdev` attribute. Extraction removes
//! the one reserved directive in a single pass over fresh lists, leaving the
//! remaining codec-configuration directives untouched and in order; a second
//! occurrence of the same reserved key is a hard generation-time error.

use vstd::prelude::*;

verus! {

use crate::Error;
use crate::text::{has_prefix, str_eq};

/// One attribute of a declaration, a field or a variant: a name and the raw
/// texts of the directives listed under it.
#[derive(Debug, Clone, PartialEq)]
pub struct Attr {
    pub name: String,
    pub directives: Vec<String>,
}

/// The mathematical shape of an attribute.
#[verifier::ext_equal]
pub struct AttrV {
    pub name: Seq<char>,
    pub directives: Seq<Seq<char>>,
}

impl View for Attr {
    type V = AttrV;

    open spec fn view(&self) -> AttrV {
        AttrV { name: self.name@, directives: self.directives.deep_view() }
    }
}

impl DeepView for Attr {
    type V = AttrV;

    open spec fn deep_view(&self) -> AttrV {
        self@
    }
}

/// Does directive text `d` carry the reserved key `key`? Matching is by
/// prefix, as the key stands first in the directive's token-normalized text.
pub open spec fn matches_key(d: Seq<char>, key: Seq<char>) -> bool {
    key.is_prefix_of(d)
}

/// How many directives of `ds` carry `key`.
pub open spec fn count_matching(ds: Seq<Seq<char>>, key: Seq<char>) -> int
    decreases ds.len(),
{
    if ds.len() == 0 {
        0
    } else {
        count_matching(ds.drop_last(), key) + if matches_key(ds.last(), key) {
            1int
        } else {
            0int
        }
    }
}

/// The index of the first directive of `ds` that carries `key`, or `ds.len()`
/// if none does.
pub open spec fn find_matching(ds: Seq<Seq<char>>, key: Seq<char>) -> int
    decreases ds.len(),
{
    if ds.len() == 0 {
        0
    } else if find_matching(ds.drop_last(), key) < ds.len() - 1 {
        find_matching(ds.drop_last(), key)
    } else if matches_key(ds.last(), key) {
        ds.len() - 1
    } else {
        ds.len() as int
    }
}

/// `ds` with every directive that carries `key` removed; the rest keep their
/// order.
pub open spec fn without_matching(ds: Seq<Seq<char>>, key: Seq<char>) -> Seq<Seq<char>>
    decreases ds.len(),
{
    if ds.len() == 0 {
        ds
    } else if matches_key(ds.last(), key) {
        without_matching(ds.drop_last(), key)
    } else {
        without_matching(ds.drop_last(), key).push(ds.last())
    }
}

proof fn lemma_directive_push(ds: Seq<Seq<char>>, d: Seq<char>, key: Seq<char>)
    ensures
        count_matching(ds.push(d), key) == count_matching(ds, key) + if matches_key(d, key) {
            1int
        } else {
            0int
        },
        find_matching(ds.push(d), key) == if find_matching(ds, key) < ds.len() {
            find_matching(ds, key)
        } else if matches_key(d, key) {
            ds.len() as int
        } else {
            ds.len() + 1int
        },
        without_matching(ds.push(d), key) == if matches_key(d, key) {
            without_matching(ds, key)
        } else {
            without_matching(ds, key).push(d)
        },
{
    assert(ds.push(d).drop_last() =~= ds);
    assert(ds.push(d).last() == d);
}

pub proof fn lemma_directive_bounds(ds: Seq<Seq<char>>, key: Seq<char>)
    ensures
        0 <= count_matching(ds, key) <= ds.len(),
        0 <= find_matching(ds, key) <= ds.len(),
        count_matching(ds, key) == 0 <==> find_matching(ds, key) == ds.len(),
        count_matching(ds, key) == 0 ==> without_matching(ds, key) == ds,
        find_matching(ds, key) < ds.len() ==> matches_key(ds[find_matching(ds, key)], key),
    decreases ds.len(),
{
    if ds.len() > 0 {
        lemma_directive_bounds(ds.drop_last(), key);
        if count_matching(ds, key) == 0 {
            assert(without_matching(ds.drop_last(), key) == ds.drop_last());
            assert(without_matching(ds, key) =~= ds);
        }
        if find_matching(ds, key) < ds.len() {
            if find_matching(ds.drop_last(), key) < ds.len() - 1 {
                assert(ds[find_matching(ds, key)] == ds.drop_last()[find_matching(
                    ds.drop_last(),
                    key,
                )]);
            }
        }
    }
}

/// How many directives of attribute `a` are reserved occurrences of `key`
/// under an attribute named `attr_name`.
pub open spec fn attr_count(a: AttrV, attr_name: Seq<char>, key: Seq<char>) -> int {
    if a.name == attr_name {
        count_matching(a.directives, key)
    } else {
        0
    }
}

/// How many reserved occurrences of `key` the whole attribute list carries.
pub open spec fn total_count(attrs: Seq<AttrV>, attr_name: Seq<char>, key: Seq<char>) -> int
    decreases attrs.len(),
{
    if attrs.len() == 0 {
        0
    } else {
        total_count(attrs.drop_last(), attr_name, key) + attr_count(attrs.last(), attr_name, key)
    }
}

/// The index of the first attribute that carries a reserved occurrence of
/// `key`, or `attrs.len()` if none does.
pub open spec fn find_attr(attrs: Seq<AttrV>, attr_name: Seq<char>, key: Seq<char>) -> int
    decreases attrs.len(),
{
    if attrs.len() == 0 {
        0
    } else if find_attr(attrs.drop_last(), attr_name, key) < attrs.len() - 1 {
        find_attr(attrs.drop_last(), attr_name, key)
    } else if attr_count(attrs.last(), attr_name, key) > 0 {
        attrs.len() - 1
    } else {
        attrs.len() as int
    }
}

/// The text of the first reserved occurrence of `key` in the attribute list.
pub open spec fn reserved_text(attrs: Seq<AttrV>, attr_name: Seq<char>, key: Seq<char>) -> Seq<
    char,
> {
    let i = find_attr(attrs, attr_name, key);
    let ds = attrs[i].directives;
    ds[find_matching(ds, key)]
}

/// One attribute as extraction leaves it: reserved occurrences of `key`
/// removed, everything else as it was.
pub open spec fn strip_attr(a: AttrV, attr_name: Seq<char>, key: Seq<char>) -> AttrV {
    AttrV {
        name: a.name,
        directives: if a.name == attr_name {
            without_matching(a.directives, key)
        } else {
            a.directives
        },
    }
}

/// The attribute list as extraction leaves it.
pub open spec fn strip_attrs(attrs: Seq<AttrV>, attr_name: Seq<char>, key: Seq<char>) -> Seq<
    AttrV,
> {
    attrs.map_values(|a: AttrV| strip_attr(a, attr_name, key))
}

proof fn lemma_attr_push(attrs: Seq<AttrV>, a: AttrV, attr_name: Seq<char>, key: Seq<char>)
    ensures
        total_count(attrs.push(a), attr_name, key) == total_count(attrs, attr_name, key)
            + attr_count(a, attr_name, key),
        find_attr(attrs.push(a), attr_name, key) == if find_attr(attrs, attr_name, key)
            < attrs.len() {
            find_attr(attrs, attr_name, key)
        } else if attr_count(a, attr_name, key) > 0 {
            attrs.len() as int
        } else {
            attrs.len() + 1int
        },
{
    assert(attrs.push(a).drop_last() =~= attrs);
    assert(attrs.push(a).last() == a);
}

pub proof fn lemma_attr_bounds(attrs: Seq<AttrV>, attr_name: Seq<char>, key: Seq<char>)
    ensures
        total_count(attrs, attr_name, key) >= 0,
        0 <= find_attr(attrs, attr_name, key) <= attrs.len(),
        total_count(attrs, attr_name, key) == 0 <==> find_attr(attrs, attr_name, key)
            == attrs.len(),
    decreases attrs.len(),
{
    if attrs.len() > 0 {
        lemma_attr_bounds(attrs.drop_last(), attr_name, key);
        lemma_directive_bounds(attrs.last().directives, key);
    }
}

/// A prefix with no occurrence followed by an attribute with one: the first
/// carrying attribute of the whole list is that attribute.
proof fn lemma_find_attr_stable(attrs: Seq<AttrV>, k: int, attr_name: Seq<char>, key: Seq<char>)
    requires
        0 <= k < attrs.len(),
        total_count(attrs.take(k), attr_name, key) == 0,
        attr_count(attrs[k], attr_name, key) > 0,
    ensures
        find_attr(attrs, attr_name, key) == k,
    decreases attrs.len(),
{
    lemma_attr_push(attrs.take(k), attrs[k], attr_name, key);
    assert(attrs.take(k).push(attrs[k]) =~= attrs.take(k + 1));
    lemma_attr_bounds(attrs.take(k), attr_name, key);
    if k + 1 == attrs.len() {
        assert(attrs.take(k + 1) =~= attrs);
    } else {
        assert(attrs.drop_last().take(k) =~= attrs.take(k));
        lemma_find_attr_stable(attrs.drop_last(), k, attr_name, key);
    }
}

/// `total_count` never shrinks as the list grows at the back.
proof fn lemma_total_mono(attrs: Seq<AttrV>, k: int, attr_name: Seq<char>, key: Seq<char>)
    requires
        0 <= k <= attrs.len(),
    ensures
        total_count(attrs.take(k), attr_name, key) <= total_count(attrs, attr_name, key),
    decreases attrs.len() - k,
{
    if k < attrs.len() {
        lemma_attr_push(attrs.take(k), attrs[k], attr_name, key);
        assert(attrs.take(k).push(attrs[k]) =~= attrs.take(k + 1));
        lemma_directive_bounds(attrs[k].directives, key);
        lemma_total_mono(attrs, k + 1, attr_name, key);
    } else {
        assert(attrs.take(k) =~= attrs);
    }
}

/// A list with no occurrence is stripped to itself.
pub proof fn lemma_strip_id(attrs: Seq<AttrV>, attr_name: Seq<char>, key: Seq<char>)
    requires
        total_count(attrs, attr_name, key) == 0,
    ensures
        strip_attrs(attrs, attr_name, key) == attrs,
{
    assert forall|m: int| 0 <= m < attrs.len() implies strip_attrs(attrs, attr_name, key)[m]
        == attrs[m] by {
        lemma_total_zero_elem(attrs, m, attr_name, key);
        lemma_directive_bounds(attrs[m].directives, key);
        assert(strip_attr(attrs[m], attr_name, key) =~= attrs[m]);
    }
    assert(strip_attrs(attrs, attr_name, key) =~= attrs);
}

/// With no occurrence anywhere, no attribute carries one.
proof fn lemma_total_zero_elem(attrs: Seq<AttrV>, m: int, attr_name: Seq<char>, key: Seq<char>)
    requires
        total_count(attrs, attr_name, key) == 0,
        0 <= m < attrs.len(),
    ensures
        attr_count(attrs[m], attr_name, key) == 0,
    decreases attrs.len(),
{
    lemma_attr_bounds(attrs.drop_last(), attr_name, key);
    lemma_directive_bounds(attrs.last().directives, key);
    if m < attrs.len() - 1 {
        lemma_total_zero_elem(attrs.drop_last(), m, attr_name, key);
        assert(attrs.drop_last()[m] == attrs[m]);
    }
}

/// Stripping removes every occurrence.
pub proof fn lemma_strip_removes_all(attrs: Seq<AttrV>, attr_name: Seq<char>, key: Seq<char>)
    ensures
        total_count(strip_attrs(attrs, attr_name, key), attr_name, key) == 0,
    decreases attrs.len(),
{
    if attrs.len() > 0 {
        lemma_strip_removes_all(attrs.drop_last(), attr_name, key);
        assert(strip_attrs(attrs, attr_name, key).drop_last() =~= strip_attrs(
            attrs.drop_last(),
            attr_name,
            key,
        ));
        assert(strip_attrs(attrs, attr_name, key).last() == strip_attr(
            attrs.last(),
            attr_name,
            key,
        ));
        lemma_without_no_match(attrs.last().directives, key);
    } else {
        assert(strip_attrs(attrs, attr_name, key) =~= attrs);
    }
}

/// What a removal leaves carries no occurrence.
proof fn lemma_without_no_match(ds: Seq<Seq<char>>, key: Seq<char>)
    ensures
        count_matching(without_matching(ds, key), key) == 0,
    decreases ds.len(),
{
    if ds.len() > 0 {
        lemma_without_no_match(ds.drop_last(), key);
        if !matches_key(ds.last(), key) {
            lemma_directive_push(without_matching(ds.drop_last(), key), ds.last(), key);
        }
    }
}

/// Under a distinct reserved key, an occurrence is carried where it was.
proof fn lemma_find_attr_found(attrs: Seq<AttrV>, attr_name: Seq<char>, key: Seq<char>)
    requires
        total_count(attrs, attr_name, key) > 0,
    ensures
        0 <= find_attr(attrs, attr_name, key) < attrs.len(),
        attr_count(attrs[find_attr(attrs, attr_name, key)], attr_name, key) > 0,
    decreases attrs.len(),
{
    lemma_attr_bounds(attrs, attr_name, key);
    lemma_attr_bounds(attrs.drop_last(), attr_name, key);
    lemma_directive_bounds(attrs.last().directives, key);
    if find_attr(attrs.drop_last(), attr_name, key) < attrs.len() - 1 {
        lemma_find_attr_found(attrs.drop_last(), attr_name, key);
        assert(attrs.drop_last()[find_attr(attrs, attr_name, key)] == attrs[find_attr(
            attrs,
            attr_name,
            key,
        )]);
    }
}

/// Extraction under one reserved key leaves the other key's occurrences
/// exactly where they were: the counts, the position of the first carrier,
/// its text, and the two extraction orders all agree.
pub proof fn lemma_strip_other(
    attrs: Seq<AttrV>,
    n1: Seq<char>,
    k1: Seq<char>,
    n2: Seq<char>,
    k2: Seq<char>,
)
    requires
        n1 != n2,
    ensures
        total_count(strip_attrs(attrs, n1, k1), n2, k2) == total_count(attrs, n2, k2),
        find_attr(strip_attrs(attrs, n1, k1), n2, k2) == find_attr(attrs, n2, k2),
        total_count(attrs, n2, k2) > 0 ==> reserved_text(strip_attrs(attrs, n1, k1), n2, k2)
            == reserved_text(attrs, n2, k2),
        strip_attrs(strip_attrs(attrs, n1, k1), n2, k2) == strip_attrs(
            strip_attrs(attrs, n2, k2),
            n1,
            k1,
        ),
    decreases attrs.len(),
{
    let s1 = strip_attrs(attrs, n1, k1);
    if attrs.len() == 0 {
        assert(s1 =~= attrs);
        assert(strip_attrs(s1, n2, k2) =~= strip_attrs(strip_attrs(attrs, n2, k2), n1, k1));
    } else {
        lemma_strip_other(attrs.drop_last(), n1, k1, n2, k2);
        assert(s1.drop_last() =~= strip_attrs(attrs.drop_last(), n1, k1));
        assert(s1.last() == strip_attr(attrs.last(), n1, k1));
        assert(attr_count(s1.last(), n2, k2) == attr_count(attrs.last(), n2, k2));
        if total_count(attrs, n2, k2) > 0 {
            lemma_find_attr_found(attrs, n2, k2);
            let i = find_attr(attrs, n2, k2);
            assert(attrs[i].name == n2);
            assert(s1[i] == strip_attr(attrs[i], n1, k1));
            assert(s1[i].directives == attrs[i].directives);
        }
        assert forall|m: int| 0 <= m < attrs.len() implies strip_attrs(s1, n2, k2)[m]
            == strip_attrs(strip_attrs(attrs, n2, k2), n1, k1)[m] by {
            assert(strip_attr(strip_attr(attrs[m], n1, k1), n2, k2) =~= strip_attr(
                strip_attr(attrs[m], n2, k2),
                n1,
                k1,
            ));
        }
        assert(strip_attrs(s1, n2, k2) =~= strip_attrs(strip_attrs(attrs, n2, k2), n1, k1));
    }
}

/// A fresh copy of a directive list, with the same texts.
pub fn copy_strings(ds: &Vec<String>) -> (r: Vec<String>)
    ensures
        r@ == ds@,
        r.deep_view() == ds.deep_view(),
{
    let mut out: Vec<String> = Vec::new();
    let mut k: usize = 0;
    while k < ds.len()
        invariant
            k <= ds@.len(),
            out@ =~= ds@.take(k as int),
        decreases ds@.len() - k,
    {
        out.push(ds[k].clone());
        assert(out@ =~= ds@.take(k + 1));
        k += 1;
    }
    assert(ds@.take(ds@.len() as int) =~= ds@);
    assert(out.deep_view() =~= ds.deep_view());
    out
}

/// A fresh copy of an attribute, with the same name and directives.
pub fn copy_attr(a: &Attr) -> (r: Attr)
    ensures
        r@ == a@,
{
    let r = Attr { name: a.name.clone(), directives: copy_strings(&a.directives) };
    assert(r@ =~= a@);
    r
}

/// A fresh copy of an attribute list.
pub fn copy_attrs(attrs: &Vec<Attr>) -> (r: Vec<Attr>)
    ensures
        r.deep_view() == attrs.deep_view(),
{
    let mut out: Vec<Attr> = Vec::new();
    let mut k: usize = 0;
    while k < attrs.len()
        invariant
            k <= attrs@.len(),
            out@.len() == k,
            forall|m: int| 0 <= m < k ==> #[trigger] out@[m]@ == attrs@[m]@,
        decreases attrs@.len() - k,
    {
        out.push(copy_attr(&attrs[k]));
        k += 1;
    }
    assert(out.deep_view() =~= attrs.deep_view());
    out
}

/// How many directives of `ds` carry `key`.
fn count_matching_exec(ds: &Vec<String>, key: &str) -> (n: usize)
    ensures
        n == count_matching(ds.deep_view(), key@),
{
    let ghost dv = ds.deep_view();
    let mut n: usize = 0;
    let mut k: usize = 0;
    while k < ds.len()
        invariant
            dv == ds.deep_view(),
            dv.len() == ds@.len(),
            k <= ds@.len(),
            n == count_matching(dv.take(k as int), key@),
            n <= k,
        decreases ds@.len() - k,
    {
        proof {
            lemma_directive_push(dv.take(k as int), dv[k as int], key@);
            assert(dv.take(k as int).push(dv[k as int]) =~= dv.take(k + 1));
        }
        if has_prefix(ds[k].as_str(), key) {
            n += 1;
        }
        k += 1;
    }
    assert(dv.take(dv.len() as int) =~= dv);
    n
}

/// Remove the first directive of `ds` that carries `key`; the rest keep their
/// order. Callers rule out a second occurrence beforehand.
fn remove_first_matching(ds: &Vec<String>, key: &str) -> (r: (Vec<String>, String))
    requires
        count_matching(ds.deep_view(), key@) == 1,
    ensures
        ({
            let dv = ds.deep_view();
            let j = find_matching(dv, key@);
            &&& 0 <= j < dv.len()
            &&& r.1@ == dv[j]
            &&& r.0.deep_view() == without_matching(dv, key@)
        }),
{
    let ghost dv = ds.deep_view();
    let mut out: Vec<String> = Vec::new();
    let mut removed: Option<String> = None;
    let mut k: usize = 0;
    proof {
        lemma_directive_bounds(dv, key@);
    }
    while k < ds.len()
        invariant
            dv == ds.deep_view(),
            dv.len() == ds@.len(),
            k <= ds@.len(),
            count_matching(dv, key@) == 1,
            match removed {
                None => {
                    &&& count_matching(dv.take(k as int), key@) == 0
                    &&& out.deep_view() == dv.take(k as int)
                },
                Some(t) => {
                    &&& count_matching(dv.take(k as int), key@) == 1
                    &&& find_matching(dv.take(k as int), key@) == find_matching(dv, key@)
                    &&& find_matching(dv, key@) < k
                    &&& t@ == dv[find_matching(dv, key@)]
                    &&& out.deep_view() == without_matching(dv.take(k as int), key@)
                },
            },
        decreases ds@.len() - k,
    {
        let ghost pre = dv.take(k as int);
        proof {
            lemma_directive_push(pre, dv[k as int], key@);
            lemma_directive_bounds(pre, key@);
            assert(pre.push(dv[k as int]) =~= dv.take(k + 1));
        }
        let d = &ds[k];
        if has_prefix(d.as_str(), key) {
            match removed {
                None => {
                    proof {
                        lemma_find_take_stable(dv, k as int, key@);
                    }
                    removed = Some(d.clone());
                    proof {
                        lemma_directive_bounds(dv.take(k + 1), key@);
                    }
                },
                Some(_) => {
                    // a second occurrence: impossible under the precondition
                    proof {
                        lemma_second_match(dv, k as int, key@);
                    }
                    assert(false);
                },
            }
        } else {
            out.push(d.clone());
            assert(out.deep_view() =~= (match removed {
                None => dv.take(k + 1),
                Some(_) => without_matching(dv.take(k + 1), key@),
            }));
        }
        k += 1;
    }
    assert(dv.take(dv.len() as int) =~= dv);
    let t = match removed {
        Some(t) => t,
        None => {
            proof {
                lemma_directive_bounds(dv, key@);
            }
            assert(false);
            String::new()
        },
    };
    (out, t)
}

/// If a prefix of `ds` holds no match and position `k` holds one, the whole
/// list's first match is at `k`.
proof fn lemma_find_take_stable(ds: Seq<Seq<char>>, k: int, key: Seq<char>)
    requires
        0 <= k < ds.len(),
        count_matching(ds.take(k), key) == 0,
        matches_key(ds[k], key),
    ensures
        find_matching(ds, key) == k,
        count_matching(ds.take(k + 1), key) == 1,
        find_matching(ds.take(k + 1), key) == k,
    decreases ds.len(),
{
    lemma_directive_push(ds.take(k), ds[k], key);
    assert(ds.take(k).push(ds[k]) =~= ds.take(k + 1));
    lemma_directive_bounds(ds.take(k), key);
    if k + 1 == ds.len() {
        assert(ds.take(k + 1) =~= ds);
    } else {
        assert(ds.drop_last().take(k) =~= ds.take(k));
        lemma_find_take_stable(ds.drop_last(), k, key);
        assert(ds.drop_last().take(k + 1) =~= ds.take(k + 1));
    }
}

/// A match inside a prefix and another at its end make two.
proof fn lemma_second_match(ds: Seq<Seq<char>>, k: int, key: Seq<char>)
    requires
        0 <= k < ds.len(),
        count_matching(ds.take(k), key) >= 1,
        matches_key(ds[k], key),
    ensures
        count_matching(ds, key) >= 2,
{
    lemma_directive_push(ds.take(k), ds[k], key);
    assert(ds.take(k).push(ds[k]) =~= ds.take(k + 1));
    lemma_count_take_mono(ds, k + 1, key);
}

/// `count_matching` never shrinks as the list grows at the back.
proof fn lemma_count_take_mono(ds: Seq<Seq<char>>, k: int, key: Seq<char>)
    requires
        0 <= k <= ds.len(),
    ensures
        count_matching(ds.take(k), key) <= count_matching(ds, key),
    decreases ds.len() - k,
{
    if k < ds.len() {
        lemma_directive_push(ds.take(k), ds[k], key);
        assert(ds.take(k).push(ds[k]) =~= ds.take(k + 1));
        lemma_count_take_mono(ds, k + 1, key);
    } else {
        assert(ds.take(k) =~= ds);
    }
}

/// Extract the reserved directive `key` from the attributes named
/// `attr_name`, in a single pass over fresh lists.
///
/// With no occurrence the attributes come back unchanged beside `None`; with
/// exactly one, that directive's text comes back and the residual attributes
/// keep every other directive in order; with two or more the extraction fails
/// with `dup`.
pub fn take_directive(attrs: &Vec<Attr>, attr_name: &str, key: &str, dup: Error) -> (r: Result<
    (Vec<Attr>, Option<String>),
    Error,
>)
    ensures
        r is Err <==> total_count(attrs.deep_view(), attr_name@, key@) >= 2,
        r is Err ==> r == Err::<(Vec<Attr>, Option<String>), Error>(dup),
        r matches Ok(ok) ==> ok.0.deep_view() == strip_attrs(attrs.deep_view(), attr_name@, key@),
        r matches Ok(ok) ==> (ok.1 is Some <==> total_count(attrs.deep_view(), attr_name@, key@)
            == 1),
        r matches Ok(ok) ==> (ok.1 matches Some(t) ==> t@ == reserved_text(
            attrs.deep_view(),
            attr_name@,
            key@,
        )),
{
    let ghost aseq = attrs.deep_view();
    let ghost nm = attr_name@;
    let ghost kk = key@;
    let mut out: Vec<Attr> = Vec::new();
    let mut removed: Option<String> = None;
    let mut k: usize = 0;
    while k < attrs.len()
        invariant
            aseq == attrs.deep_view(),
            aseq.len() == attrs@.len(),
            nm == attr_name@,
            kk == key@,
            k <= aseq.len(),
            out@.len() == k,
            forall|m: int| 0 <= m < k ==> #[trigger] out@[m]@ == strip_attr(aseq[m], nm, kk),
            match removed {
                None => total_count(aseq.take(k as int), nm, kk) == 0,
                Some(t) => {
                    &&& total_count(aseq.take(k as int), nm, kk) == 1
                    &&& find_attr(aseq.take(k as int), nm, kk) == find_attr(aseq, nm, kk)
                    &&& find_attr(aseq, nm, kk) < k
                    &&& t@ == reserved_text(aseq, nm, kk)
                },
            },
        decreases aseq.len() - k,
    {
        let ghost pre = aseq.take(k as int);
        proof {
            lemma_attr_push(pre, aseq[k as int], nm, kk);
            lemma_attr_bounds(pre, nm, kk);
            assert(pre.push(aseq[k as int]) =~= aseq.take(k + 1));
        }
        let a = &attrs[k];
        if str_eq(a.name.as_str(), attr_name) {
            let n = count_matching_exec(&a.directives, key);
            proof {
                lemma_directive_bounds(a@.directives, kk);
            }
            if n >= 2 {
                proof {
                    lemma_total_mono(aseq, k + 1, nm, kk);
                }
                return Err(dup);
            }
            if n == 1 {
                if removed.is_some() {
                    proof {
                        lemma_total_mono(aseq, k + 1, nm, kk);
                    }
                    return Err(dup);
                }
                let (rest, t) = remove_first_matching(&a.directives, key);
                out.push(Attr { name: a.name.clone(), directives: rest });
                removed = Some(t);
                proof {
                    lemma_find_attr_stable(aseq, k as int, nm, kk);
                    lemma_attr_bounds(aseq.take(k + 1), nm, kk);
                    assert(aseq[k as int] == attrs@[k as int]@);
                    assert(out@[k as int]@ =~= strip_attr(aseq[k as int], nm, kk));
                }
            } else {
                out.push(copy_attr(a));
                proof {
                    lemma_attr_bounds(pre, nm, kk);
                    assert(aseq[k as int] == attrs@[k as int]@);
                    assert(out@[k as int]@ =~= strip_attr(aseq[k as int], nm, kk));
                }
            }
        } else {
            out.push(copy_attr(a));
            proof {
                lemma_attr_bounds(pre, nm, kk);
                assert(aseq[k as int] == attrs@[k as int]@);
                assert(attr_count(aseq[k as int], nm, kk) == 0);
                assert(out@[k as int]@ =~= strip_attr(aseq[k as int], nm, kk));
            }
        }
        k += 1;
    }
    assert(aseq.take(aseq.len() as int) =~= aseq);
    proof {
        lemma_attr_bounds(aseq, nm, kk);
        assert forall|m: int| 0 <= m < aseq.len() implies out.deep_view()[m] == strip_attrs(
            aseq,
            nm,
            kk,
        )[m] by {
            assert(out@[m]@ == strip_attr(aseq[m], nm, kk));
        }
        assert(out.deep_view() =~= strip_attrs(aseq, nm, kk));
    }
    Ok((out, removed))
}

} // verus!
