//! Mapping a request path to the handler that answers it.

use vstd::prelude::*;

use crate::order::text_eq;

verus! {

/// The handler that answers a request.
#[derive(Debug)]
pub enum Route {
    Index,
    Table,
    Static { name: String },
    NotFound,
}

/// The pieces of `s` between `/` characters, `cur` being the piece read so
/// far: there is always one piece more than there are separators.
pub open spec fn split_slash_from(s: Seq<char>, cur: Seq<char>) -> Seq<Seq<char>>
    decreases s.len(),
{
    if s.len() == 0 {
        seq![cur]
    } else if s[0] == '/' {
        seq![cur] + split_slash_from(s.drop_first(), Seq::empty())
    } else {
        split_slash_from(s.drop_first(), cur.push(s[0]))
    }
}

pub open spec fn split_slash(s: Seq<char>) -> Seq<Seq<char>> {
    split_slash_from(s, Seq::empty())
}

/// Relies on `str::split` with the separator `/`: it yields the pieces
/// between separators, in order, empty ones included.
#[verifier::external_body]
fn split_on_slash(s: &str) -> (r: Vec<String>)
    ensures
        r@.map_values(|p: String| p@) == split_slash(s@),
{
    s.split('/').map(|p| p.to_string()).collect()
}

/// The text that percent-decoding `s` gives, with invalid UTF-8 replaced.
pub uninterp spec fn percent_decoded(s: Seq<char>) -> Seq<char>;

/// Relies on `percent_encoding::percent_decode_str` followed by
/// `decode_utf8_lossy`: the result depends on the text alone, and a text
/// without `%` is left as it is.
#[verifier::external_body]
fn percent_decode_lossy(s: &str) -> (r: String)
    ensures
        r@ == percent_decoded(s@),
        !s@.contains('%') ==> r@ == s@,
{
    percent_encoding::percent_decode_str(s).decode_utf8_lossy().into_owned()
}

/// A piece of a path after percent-decoding: a piece without `%` stays
/// as it is.
pub open spec fn piece_decoded(p: Seq<char>) -> Seq<char> {
    if p.contains('%') {
        percent_decoded(p)
    } else {
        p
    }
}

/// The percent-decoded pieces of a path.
pub open spec fn path_parts(path: Seq<char>) -> Seq<Seq<char>> {
    split_slash(path).map_values(|p: Seq<char>| piece_decoded(p))
}

/// `parts` without its leading empty pieces.
pub open spec fn strip_leading_empty(parts: Seq<Seq<char>>) -> Seq<Seq<char>>
    decreases parts.len(),
{
    if parts.len() > 0 && parts[0].len() == 0 {
        strip_leading_empty(parts.drop_first())
    } else {
        parts
    }
}

/// `r` is the route for the stripped pieces `parts`.
pub open spec fn routes_to(r: Route, parts: Seq<Seq<char>>) -> bool {
    if parts.len() == 0 {
        r is Index
    } else if parts == seq!["table"@] {
        r is Table
    } else if parts.len() == 2 && parts[0] == "static"@ {
        r matches Route::Static { name } && name@ == parts[1]
    } else {
        r is NotFound
    }
}

/// Splits a path on `/` and percent-decodes each piece.
pub fn decode_path_parts(path: &str) -> (r: Vec<String>)
    ensures
        r@.map_values(|p: String| p@) == path_parts(path@),
        r@.len() == split_slash(path@).len(),
        forall|i: int|
            0 <= i < split_slash(path@).len() && !split_slash(path@)[i].contains('%') ==> r@[i]@
                == split_slash(path@)[i],
{
    let pieces = split_on_slash(path);
    let ghost pv = pieces@.map_values(|p: String| p@);
    let mut out: Vec<String> = Vec::new();
    let mut i: usize = 0;
    while i < pieces.len()
        invariant
            i <= pieces@.len(),
            pv == pieces@.map_values(|p: String| p@),
            pv == split_slash(path@),
            out@.map_values(|p: String| p@) =~= pv.take(i as int).map_values(
                |p: Seq<char>| piece_decoded(p),
            ),
        decreases pieces@.len() - i,
    {
        let d = percent_decode_lossy(pieces[i].as_str());
        let ghost prev = out@;
        out.push(d);
        assert(pv[i as int] == pieces@[i as int]@);
        assert(out@.map_values(|p: String| p@) =~= prev.map_values(|p: String| p@).push(d@));
        assert(pv.take(i as int + 1) =~= pv.take(i as int).push(pv[i as int]));
        i = i + 1;
        assert(out@.map_values(|p: String| p@) =~= pv.take(i as int).map_values(
            |p: Seq<char>| piece_decoded(p),
        ));
    }
    assert(pv.take(i as int) =~= pv);
    assert(out@.len() == out@.map_values(|p: String| p@).len());
    assert forall|k: int| 0 <= k < pv.len() implies out@[k]@ == piece_decoded(pv[k]) by {
        assert(out@.map_values(|p: String| p@)[k] == out@[k]@);
    }
    out
}

/// Chooses the handler for a request path: no pieces (after leading empty
/// ones) is the index, `table` the table query, `static/<name>` an asset,
/// and anything else is not found.
pub fn route(path: &str) -> (r: Route)
    ensures
        routes_to(r, strip_leading_empty(path_parts(path@))),
        (forall|i: int|
            0 <= i < split_slash(path@).len() ==> !(#[trigger] split_slash(path@)[i]).contains(
                '%',
            )) ==> routes_to(r, strip_leading_empty(split_slash(path@))),
{
    let parts = decode_path_parts(path);
    let ghost pv = parts@.map_values(|p: String| p@);
    let mut k: usize = 0;
    assert(pv.skip(0) =~= pv);
    while k < parts.len() && parts[k].as_str().is_empty()
        invariant
            k <= parts@.len(),
            pv == parts@.map_values(|p: String| p@),
            strip_leading_empty(pv) == strip_leading_empty(pv.skip(k as int)),
        decreases parts@.len() - k,
    {
        assert(pv.skip(k as int).drop_first() =~= pv.skip(k as int + 1));
        k = k + 1;
    }
    proof {
        if forall|i: int|
            0 <= i < split_slash(path@).len() ==> !(#[trigger] split_slash(path@)[i]).contains(
                '%',
            ) {
            assert(pv =~= split_slash(path@));
        }
    }
    let ghost rest = pv.skip(k as int);
    assert(strip_leading_empty(rest) == rest);
    let n = parts.len() - k;
    proof {
        reveal_strlit("table");
        reveal_strlit("static");
    }
    if n == 0 {
        Route::Index
    } else if n == 1 && text_eq(parts[k].as_str(), "table") {
        assert(rest =~= seq!["table"@]);
        Route::Table
    } else if n == 2 && text_eq(parts[k].as_str(), "static") {
        assert(rest != seq!["table"@]);
        Route::Static { name: parts[k + 1].clone() }
    } else {
        assert(rest.len() == 1 ==> rest[0] == parts@[k as int]@);
        Route::NotFound
    }
}

/// Pieces joined back together with `/` between them.
pub open spec fn join_slash(pieces: Seq<Seq<char>>) -> Seq<char>
    decreases pieces.len(),
{
    if pieces.len() == 0 {
        Seq::empty()
    } else if pieces.len() == 1 {
        pieces[0]
    } else {
        pieces[0] + seq!['/'] + join_slash(pieces.drop_first())
    }
}

proof fn lemma_split_from_parts(s: Seq<char>, cur: Seq<char>)
    requires
        !s.contains('%'),
        !cur.contains('%'),
    ensures
        split_slash_from(s, cur).len() >= 1,
        join_slash(split_slash_from(s, cur)) == cur + s,
        forall|i: int|
            0 <= i < split_slash_from(s, cur).len() ==> !(#[trigger] split_slash_from(
                s,
                cur,
            )[i]).contains('%'),
    decreases s.len(),
{
    let pieces = split_slash_from(s, cur);
    if s.len() == 0 {
        assert(cur + s =~= cur);
    } else {
        let rest = s.drop_first();
        assert(!rest.contains('%')) by {
            if rest.contains('%') {
                let k = choose|k: int| 0 <= k < rest.len() && rest[k] == '%';
                assert(s[k + 1] == '%');
            }
        }
        if s[0] == '/' {
            lemma_split_from_parts(rest, Seq::empty());
            let tail = split_slash_from(rest, Seq::empty());
            assert(pieces == seq![cur] + tail);
            assert((seq![cur] + tail).drop_first() =~= tail);
            assert(Seq::<char>::empty() + rest =~= rest);
            assert(cur + seq!['/'] + rest =~= cur + s);
            assert forall|i: int| 0 <= i < pieces.len() implies !(#[trigger] pieces[i]).contains(
                '%',
            ) by {
                if i > 0 {
                    assert(pieces[i] == tail[i - 1]);
                }
            }
        } else {
            let next = cur.push(s[0]);
            assert(!next.contains('%')) by {
                if next.contains('%') {
                    let k = choose|k: int| 0 <= k < next.len() && next[k] == '%';
                    if k < cur.len() {
                        assert(cur[k] == '%');
                    } else {
                        assert(s[0] == '%');
                    }
                }
            }
            lemma_split_from_parts(rest, next);
            assert(next + rest =~= cur + s);
        }
    }
}

/// A path without `%` decodes to its pieces as they stand, and they join
/// back into the path.
pub proof fn law_plain_path_pieces(path: Seq<char>)
    requires
        !path.contains('%'),
    ensures
        path_parts(path) == split_slash(path),
        join_slash(split_slash(path)) == path,
{
    lemma_split_from_parts(path, Seq::empty());
    assert(Seq::<char>::empty() + path =~= path);
    assert(path_parts(path) =~= split_slash(path));
}

/// A leading `/` adds an empty piece, which routing strips: it does not
/// change the route.
pub proof fn law_leading_slash_ignored(p: Seq<char>)
    ensures
        strip_leading_empty(path_parts(seq!['/'] + p)) == strip_leading_empty(path_parts(p)),
{
    let s = seq!['/'] + p;
    assert(s.drop_first() =~= p);
    assert(split_slash(s) == seq![Seq::<char>::empty()] + split_slash(p));
    let e = Seq::<char>::empty();
    assert(!e.contains('%'));
    assert(path_parts(s) =~= seq![e] + path_parts(p));
    assert((seq![e] + path_parts(p)).drop_first() =~= path_parts(p));
}

/// Any number of leading `/` leave the route unchanged.
pub proof fn law_leading_slashes_ignored(k: nat, p: Seq<char>)
    ensures
        strip_leading_empty(path_parts(Seq::new(k, |i: int| '/') + p)) == strip_leading_empty(
            path_parts(p),
        ),
    decreases k,
{
    if k > 0 {
        let shorter = Seq::new((k - 1) as nat, |i: int| '/') + p;
        assert(Seq::new(k, |i: int| '/') + p =~= seq!['/'] + shorter);
        law_leading_slash_ignored(shorter);
        law_leading_slashes_ignored((k - 1) as nat, p);
    } else {
        assert(Seq::new(k, |i: int| '/') + p =~= p);
    }
}

} // verus!
