//! Generic extraction steps over parser results: filtering candidate links, picking the
//! first text, splitting a URL into segments.
use vstd::prelude::*;
use crate::parsers::{markup_attributes, markup_texts, select_attributes, select_texts};
use crate::text::{contains, ends_with, starts_with, str_contains, str_ends_with, str_starts_with, substring, chars_of};

verus! {

/// `s` contains every needle, starts with `prefix` and ends with `suffix`.
pub open spec fn admits(s: Seq<char>, needles: Seq<&str>, prefix: Seq<char>, suffix: Seq<char>) -> bool {
    &&& forall|i: int| 0 <= i < needles.len() ==> contains(s, #[trigger] needles[i]@)
    &&& starts_with(s, prefix)
    &&& ends_with(s, suffix)
}

/// The present values among `values` that `admits` accepts, in order.
pub open spec fn kept(
    values: Seq<Option<Seq<char>>>,
    needles: Seq<&str>,
    prefix: Seq<char>,
    suffix: Seq<char>,
) -> Seq<Seq<char>>
    decreases values.len(),
{
    if values.len() == 0 {
        Seq::empty()
    } else {
        let rest = kept(values.drop_last(), needles, prefix, suffix);
        match values.last() {
            Some(v) => if admits(v, needles, prefix, suffix) {
                rest.push(v)
            } else {
                rest
            },
            None => rest,
        }
    }
}

/// The `k`-th (from 0) `href` of the elements that `selector` matches in `page` that passes
/// the needles, prefix and suffix.
pub open spec fn pick_href_spec(
    page: Seq<char>,
    selector: Seq<char>,
    needles: Seq<&str>,
    prefix: Seq<char>,
    suffix: Seq<char>,
    k: nat,
) -> Option<Seq<char>> {
    match markup_attributes(page, selector, "href"@) {
        Some(values) => {
            let found = kept(values, needles, prefix, suffix);
            if k < found.len() {
                Some(found[k as int])
            } else {
                None
            }
        },
        None => None,
    }
}

/// The first text node of the first element that has one.
pub open spec fn first_text(texts: Seq<Seq<Seq<char>>>) -> Option<Seq<char>>
    decreases texts.len(),
{
    if texts.len() == 0 {
        None
    } else if texts[0].len() > 0 {
        Some(texts[0][0])
    } else {
        first_text(texts.drop_first())
    }
}

/// All text nodes of all elements, joined in order.
pub open spec fn all_text(texts: Seq<Seq<Seq<char>>>) -> Seq<char>
    decreases texts.len(),
{
    if texts.len() == 0 {
        Seq::empty()
    } else {
        all_text(texts.drop_last()) + joined(texts.last())
    }
}

/// The pieces joined in order.
pub open spec fn joined(pieces: Seq<Seq<char>>) -> Seq<char>
    decreases pieces.len(),
{
    if pieces.len() == 0 {
        Seq::empty()
    } else {
        joined(pieces.drop_last()) + pieces.last()
    }
}

/// The first text node among the elements that `selector` matches in `page`.
pub open spec fn first_text_spec(page: Seq<char>, selector: Seq<char>) -> Option<Seq<char>> {
    match markup_texts(page, selector) {
        Some(texts) => first_text(texts),
        None => None,
    }
}

/// The pieces of `s` between occurrences of `c`, as `str::split` gives them.
pub open spec fn split_char(s: Seq<char>, c: char) -> Seq<Seq<char>>
    decreases s.len(),
{
    if s.len() == 0 {
        seq![Seq::empty()]
    } else {
        let rest = split_char(s.drop_last(), c);
        if s.last() == c {
            rest.push(Seq::empty())
        } else {
            rest.update(rest.len() - 1, rest.last().push(s.last()))
        }
    }
}

/// The `k`-th (from 0) piece of `s` split at `c`.
pub open spec fn nth_piece(s: Seq<char>, c: char, k: nat) -> Option<Seq<char>> {
    let pieces = split_char(s, c);
    if k < pieces.len() {
        Some(pieces[k as int])
    } else {
        None
    }
}

fn admitted(s: &str, needles: &Vec<&str>, prefix: &str, suffix: &str) -> (r: bool)
    ensures
        r == admits(s@, needles@, prefix@, suffix@),
{
    let mut i: usize = 0;
    while i < needles.len()
        invariant
            i <= needles@.len(),
            forall|j: int| 0 <= j < i ==> contains(s@, #[trigger] needles@[j]@),
        decreases needles@.len() - i,
    {
        if !str_contains(s, needles[i]) {
            return false;
        }
        i = i + 1;
    }
    str_starts_with(s, prefix) && str_ends_with(s, suffix)
}

/// The present values among `values` that pass the needles, prefix and suffix, in order.
pub fn keep_values(values: &Vec<Option<String>>, needles: &Vec<&str>, prefix: &str, suffix: &str) -> (r: Vec<String>)
    ensures
        r.deep_view() == kept(values.deep_view(), needles@, prefix@, suffix@),
{
    let mut r: Vec<String> = Vec::new();
    let mut i: usize = 0;
    while i < values.len()
        invariant
            i <= values@.len(),
            r.deep_view() == kept(values.deep_view().subrange(0, i as int), needles@, prefix@, suffix@),
        decreases values@.len() - i,
    {
        proof {
            assert(values.deep_view().subrange(0, i + 1).drop_last() =~= values.deep_view().subrange(0, i as int));
        }
        match &values[i] {
            Some(v) => {
                if admitted(v.as_str(), needles, prefix, suffix) {
                    r.push(v.clone());
                    assert(r.deep_view() =~= kept(values.deep_view().subrange(0, i as int), needles@, prefix@, suffix@).push(v@));
                }
            },
            None => {},
        }
        i = i + 1;
    }
    assert(values.deep_view().subrange(0, values@.len() as int) =~= values.deep_view());
    r
}

/// The `k`-th `href` among the elements that `selector` matches in `page` that passes the
/// needles, prefix and suffix.
pub fn pick_href(page: &str, selector: &str, needles: &Vec<&str>, prefix: &str, suffix: &str, k: usize) -> (r: Option<String>)
    ensures
        r.deep_view() == pick_href_spec(page@, selector@, needles@, prefix@, suffix@, k as nat),
{
    match select_attributes(page, selector, "href") {
        Some(values) => {
            let found = keep_values(&values, needles, prefix, suffix);
            if k < found.len() {
                let r = found[k].clone();
                proof {
                    assert(found.deep_view()[k as int] == found@[k as int]@);
                }
                Some(r)
            } else {
                None
            }
        },
        None => None,
    }
}

/// The first text node among the elements that `selector` matches in `page`.
pub fn pick_first_text(page: &str, selector: &str) -> (r: Option<String>)
    ensures
        r.deep_view() == first_text_spec(page@, selector@),
{
    match select_texts(page, selector) {
        Some(texts) => {
            let mut i: usize = 0;
            assert(texts.deep_view().subrange(0, texts@.len() as int) =~= texts.deep_view());
            while i < texts.len()
                invariant
                    i <= texts@.len(),
                    markup_texts(page@, selector@) == Some(texts.deep_view()),
                    first_text(texts.deep_view()) == first_text(texts.deep_view().subrange(i as int, texts@.len() as int)),
                decreases texts@.len() - i,
            {
                let ghost rest = texts.deep_view().subrange(i as int, texts@.len() as int);
                if texts[i].len() > 0 {
                    let t = texts[i][0].clone();
                    assert(rest[0] == texts@[i as int].deep_view());
                    assert(rest[0].len() > 0);
                    assert(rest[0][0] == t@);
                    assert(first_text(rest) == Some(t@));
                    return Some(t);
                }
                assert(rest.drop_first() =~= texts.deep_view().subrange(i + 1, texts@.len() as int));
                i = i + 1;
            }
            None
        },
        None => None,
    }
}

/// The text nodes of all elements that `selector` matches in `page`, joined in order.
pub fn all_text_of(page: &str, selector: &str) -> (r: Option<String>)
    ensures
        r matches Some(t) ==> markup_texts(page@, selector@) matches Some(texts) && t@ == all_text(texts),
        r is None ==> markup_texts(page@, selector@) is None,
{
    match select_texts(page, selector) {
        Some(texts) => {
            let mut r = String::new();
            let mut i: usize = 0;
            while i < texts.len()
                invariant
                    i <= texts@.len(),
                    r@ == all_text(texts.deep_view().subrange(0, i as int)),
                decreases texts@.len() - i,
            {
                let ghost done = texts.deep_view().subrange(0, i + 1);
                assert(done.drop_last() =~= texts.deep_view().subrange(0, i as int));
                let mut j: usize = 0;
                let ghost before = r@;
                while j < texts[i].len()
                    invariant
                        i < texts@.len(),
                        j <= texts@[i as int]@.len(),
                        r@ == before + joined(texts@[i as int].deep_view().subrange(0, j as int)),
                    decreases texts@[i as int]@.len() - j,
                {
                    assert(texts@[i as int].deep_view().subrange(0, j + 1).drop_last() =~= texts@[i as int].deep_view().subrange(0, j as int));
                    r.append(texts[i][j].as_str());
                    assert(r@ =~= before + joined(texts@[i as int].deep_view().subrange(0, j + 1)));
                    j = j + 1;
                }
                assert(texts@[i as int].deep_view().subrange(0, j as int) =~= texts@[i as int].deep_view());
                i = i + 1;
            }
            assert(texts.deep_view().subrange(0, texts@.len() as int) =~= texts.deep_view());
            Some(r)
        },
        None => None,
    }
}

/// The pieces of `s` between occurrences of `c`.
pub fn split_pieces(s: &str, c: char) -> (r: Vec<String>)
    ensures
        r.deep_view() == split_char(s@, c),
{
    let sv = chars_of(s);
    let mut pieces: Vec<String> = Vec::new();
    let mut start: usize = 0;
    let mut i: usize = 0;
    assert(s@.subrange(0, 0) =~= Seq::<char>::empty());
    while i < sv.len()
        invariant
            sv@ == s@,
            start <= i <= sv@.len(),
            pieces.deep_view().push(s@.subrange(start as int, i as int)) == split_char(
                s@.subrange(0, i as int),
                c,
            ),
        decreases sv@.len() - i,
    {
        let ghost prev = s@.subrange(0, i as int);
        assert(s@.subrange(0, i + 1).drop_last() =~= prev);
        if sv[i] == c {
            pieces.push(substring(s, start, i));
            start = i + 1;
            assert(s@.subrange(start as int, start as int) =~= Seq::<char>::empty());
        } else {
            assert(s@.subrange(start as int, i + 1) =~= s@.subrange(start as int, i as int).push(sv@[i as int]));
            assert(pieces.deep_view().push(s@.subrange(start as int, i + 1)) =~= split_char(
                s@.subrange(0, i + 1),
                c,
            ));
        }
        i = i + 1;
    }
    pieces.push(substring(s, start, i));
    assert(s@.subrange(0, i as int) =~= s@);
    pieces
}

/// The `k`-th piece of `s` split at `c`.
pub fn piece(s: &str, c: char, k: usize) -> (r: Option<String>)
    ensures
        r.deep_view() == nth_piece(s@, c, k as nat),
{
    let pieces = split_pieces(s, c);
    if k < pieces.len() {
        let r = pieces[k].clone();
        assert(pieces.deep_view()[k as int] == pieces@[k as int]@);
        Some(r)
    } else {
        None
    }
}

} // verus!
