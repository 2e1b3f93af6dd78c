//! Route patterns. A route is an ordered list of path segments; a segment
//! made only of alphanumeric characters matches by equality, a segment
//! beginning with `:` matches any candidate segment and names a parameter,
//! and any other segment is a regular expression tried against the
//! candidate segment.

use vstd::prelude::*;
use vstd::string::{StrSliceExecFns, StringExecFns};

use crate::strutil::{
    all_alnum, seq_views, spec_all_alnum, spec_split, split_char, str_eq_str,
};

verus! {

/// A failure while matching a route.
#[derive(Clone, Copy, PartialEq, Eq, Structural, Debug)]
pub enum RouteError {
    /// A non-literal, non-parameter segment is not a valid regular
    /// expression.
    InvalidPattern,
}

/// Whether a pattern text is a valid regular expression.
pub uninterp spec fn regex_valid(pat: Seq<char>) -> bool;

/// Whether a regular expression matches anywhere in a text.
pub uninterp spec fn regex_match(pat: Seq<char>, text: Seq<char>) -> bool;

/// Relies on regex::Regex::new and regex::Regex::is_match: whether the
/// pattern compiles, and whether it matches anywhere in the text, depend on
/// the two texts alone.
#[verifier::external_body]
fn try_regex_match(pat: &str, text: &str) -> (r: Option<bool>)
    ensures
        r is Some <==> regex_valid(pat@),
        r is Some ==> r.unwrap() == regex_match(pat@, text@),
{
    match regex::Regex::new(pat) {
        Ok(re) => Some(re.is_match(text)),
        Err(_) => None,
    }
}

/// The segments of a path text: the `/`-separated pieces, with empty pieces
/// dropped, so a trailing slash never adds a segment.
pub open spec fn spec_segments(path: Seq<char>) -> Seq<Seq<char>> {
    spec_split(path, '/').filter(|p: Seq<char>| p.len() != 0)
}

/// Whether a segment names a parameter.
pub open spec fn is_param_seg(p: Seq<char>) -> bool {
    p.len() > 0 && p[0] == ':'
}

/// How one pattern segment fares against one candidate segment: `None` for
/// an invalid regular expression, otherwise whether it matches.
pub open spec fn seg_check(p: Seq<char>, c: Seq<char>) -> Option<bool> {
    if spec_all_alnum(p) {
        Some(p == c)
    } else if is_param_seg(p) {
        Some(true)
    } else if regex_valid(p) {
        Some(regex_match(p, c))
    } else {
        None
    }
}

/// Segmentwise matching over two equally long segment lists, stopping at
/// the first mismatch, so an invalid pattern segment is only reached when
/// every segment before it matched.
pub open spec fn segs_check(ps: Seq<Seq<char>>, cs: Seq<Seq<char>>) -> Option<bool>
    decreases ps.len(),
{
    if ps.len() == 0 {
        Some(true)
    } else {
        match seg_check(ps[0], cs[0]) {
            None => None,
            Some(false) => Some(false),
            Some(true) => segs_check(ps.drop_first(), cs.drop_first()),
        }
    }
}

/// Whether a pattern matches a candidate: lists of different lengths never
/// match, and equal-length lists match segmentwise.
pub open spec fn spec_matches(ps: Seq<Seq<char>>, cs: Seq<Seq<char>>) -> Option<bool> {
    if ps.len() != cs.len() {
        Some(false)
    } else {
        segs_check(ps, cs)
    }
}

/// Pattern and candidate lists of different segment counts never match,
/// whatever their segments hold.
pub proof fn lemma_count_mismatch_never_matches(ps: Seq<Seq<char>>, cs: Seq<Seq<char>>)
    requires
        ps.len() != cs.len(),
    ensures
        spec_matches(ps, cs) == Some(false),
{
}

/// A compiled path pattern: its ordered segments.
#[derive(Debug)]
pub struct Route {
    pub segments: Vec<String>,
}

impl View for Route {
    type V = Seq<Seq<char>>;

    open spec fn view(&self) -> Seq<Seq<char>> {
        seq_views(self.segments@)
    }
}

impl Route {
    /// Compiles a path text into its non-empty segments.
    pub fn from(path: &str) -> (r: Route)
        ensures
            r@ == spec_segments(path@),
    {
        let pieces = split_char(path, '/');
        let ghost all = spec_split(path@, '/');
        let mut segments: Vec<String> = Vec::new();
        let n = pieces.len();
        let mut i: usize = 0;
        proof {
            assert(all.take(0) =~= Seq::<Seq<char>>::empty());
            assert(seq_views(segments@) =~= all.take(0).filter(|p: Seq<char>| p.len() != 0));
        }
        let mut k: usize = 0;
        while k < n
            invariant
                n == pieces@.len(),
                seq_views(pieces@) == all,
                0 <= k <= n,
                seq_views(segments@) == all.take(k as int).filter(|p: Seq<char>| p.len() != 0),
            decreases n - k,
        {
            proof {
                assert(all.take(k + 1).drop_last() =~= all.take(k as int));
                assert(all.take(k + 1).last() == pieces@[k as int]@);
                reveal_with_fuel(Seq::filter, 2);
            }
            let piece = &pieces[k];
            if piece.as_str().unicode_len() > 0 {
                let owned = piece.as_str().substring_char(
                    0,
                    piece.as_str().unicode_len(),
                ).to_owned();
                proof {
                    assert(owned@ =~= piece@);
                    assert(seq_views(segments@.push(owned)) =~= seq_views(segments@).push(
                        owned@,
                    ));
                }
                segments.push(owned);
            }
            k = k + 1;
        }
        proof {
            assert(all.take(n as int) =~= all);
        }
        Route { segments }
    }

    /// Tests this pattern against a candidate's segments; lists of unequal
    /// counts never match, and an invalid regular expression segment is an
    /// error once every segment before it has matched.
    pub fn matches(&self, candidate: &Route) -> (r: Result<bool, RouteError>)
        ensures
            match spec_matches(self@, candidate@) {
                Some(b) => r == Ok::<bool, RouteError>(b),
                None => r == Err::<bool, RouteError>(RouteError::InvalidPattern),
            },
            self@.len() != candidate@.len() ==> r == Ok::<bool, RouteError>(false),
    {
        let n = self.segments.len();
        if n != candidate.segments.len() {
            return Ok(false);
        }
        let mut i: usize = 0;
        proof {
            assert(self@.skip(0) =~= self@);
            assert(candidate@.skip(0) =~= candidate@);
        }
        while i < n
            invariant
                n == self@.len(),
                n == candidate@.len(),
                n == self.segments@.len(),
                n == candidate.segments@.len(),
                0 <= i <= n,
                segs_check(self@, candidate@) == segs_check(
                    self@.skip(i as int),
                    candidate@.skip(i as int),
                ),
            decreases n - i,
        {
            let p = &self.segments[i];
            let c = &candidate.segments[i];
            proof {
                assert(self@.skip(i as int)[0] == p@);
                assert(candidate@.skip(i as int)[0] == c@);
                assert(self@.skip(i as int).drop_first() =~= self@.skip(i + 1));
                assert(candidate@.skip(i as int).drop_first() =~= candidate@.skip(i + 1));
            }
            if all_alnum(p.as_str()) {
                if !str_eq_str(p.as_str(), c.as_str()) {
                    return Ok(false);
                }
            } else if p.as_str().unicode_len() > 0 && p.as_str().get_char(0) == ':' {
            } else {
                match try_regex_match(p.as_str(), c.as_str()) {
                    Some(true) => {},
                    Some(false) => {
                        return Ok(false);
                    },
                    None => {
                        return Err(RouteError::InvalidPattern);
                    },
                }
            }
            i = i + 1;
        }
        proof {
            assert(self@.skip(n as int) =~= Seq::<Seq<char>>::empty());
        }
        Ok(true)
    }

    /// A segment-for-segment copy of the route.
    pub fn duplicate(&self) -> (r: Route)
        ensures
            r@ == self@,
    {
        let n = self.segments.len();
        let mut out: Vec<String> = Vec::new();
        let mut i: usize = 0;
        while i < n
            invariant
                n == self.segments@.len(),
                0 <= i <= n,
                out@.len() == i,
                forall|k: int| 0 <= k < i ==> out@[k]@ == self.segments@[k]@,
            decreases n - i,
        {
            out.push(self.segments[i].clone());
            i = i + 1;
        }
        proof {
            assert(seq_views(out@) =~= seq_views(self.segments@));
        }
        Route { segments: out }
    }
}

/// Joining segments with `/` between them.
pub open spec fn spec_join_slash(ss: Seq<Seq<char>>) -> Seq<char>
    decreases ss.len(),
{
    if ss.len() == 0 {
        Seq::<char>::empty()
    } else if ss.len() == 1 {
        ss[0]
    } else {
        ss[0] + "/"@ + spec_join_slash(ss.drop_first())
    }
}

/// The text of a route: a leading slash, then its segments separated by
/// slashes.
pub open spec fn spec_path_text(ss: Seq<Seq<char>>) -> Seq<char> {
    "/"@ + spec_join_slash(ss)
}

/// Appends the segments of `v[i..]`, separated by slashes.
fn push_joined(v: &Vec<String>, i: usize, out: &mut String)
    requires
        i <= v@.len(),
    ensures
        final(out)@ == old(out)@ + spec_join_slash(seq_views(v@).skip(i as int)),
    decreases v@.len() - i,
{
    let ghost views = seq_views(v@);
    if i < v.len() {
        out.append(v[i].as_str());
        proof {
            assert(views.skip(i as int)[0] == v@[i as int]@);
            assert(views.skip(i as int).drop_first() =~= views.skip(i + 1));
        }
        if i + 1 < v.len() {
            out.append("/");
            push_joined(v, i + 1, out);
            proof {
                assert(spec_join_slash(views.skip(i as int)) == views.skip(i as int)[0] + "/"@
                    + spec_join_slash(views.skip(i + 1)));
                assert(old(out)@ + spec_join_slash(views.skip(i as int)) =~= final(out)@);
            }
        } else {
            proof {
                assert(views.skip(i as int).len() == 1);
            }
        }
    } else {
        proof {
            assert(views.skip(i as int).len() == 0);
            assert(old(out)@ + spec_join_slash(views.skip(i as int)) =~= old(out)@);
        }
    }
}

/// Appending a trailing slash to a path changes no segment: the extra
/// empty piece is dropped.
pub proof fn lemma_trailing_slash_invariant(p: Seq<char>)
    ensures
        spec_segments(p.push('/')) == spec_segments(p),
{
    lemma_split_push_sep(p, '/');
    let pieces = spec_split(p, '/');
    let pieces2 = spec_split(p.push('/'), '/');
    crate::strutil::lemma_split_len(p, '/');
    assert(pieces2 == pieces.push(Seq::<char>::empty()));
    assert(pieces2.drop_last() =~= pieces);
    assert(pieces2.last().len() == 0);
    assert(pieces2.len() > 0);
    reveal_with_fuel(Seq::filter, 2);
    assert(pieces2.filter(|q: Seq<char>| q.len() != 0) == pieces2.drop_last().filter(
        |q: Seq<char>| q.len() != 0,
    ));
}

/// Appending a separator appends one empty piece to the split.
proof fn lemma_split_push_sep(s: Seq<char>, sep: char)
    ensures
        spec_split(s.push(sep), sep) == spec_split(s, sep).push(Seq::<char>::empty()),
    decreases s.len(),
{
    let t = s.push(sep);
    if s.len() == 0 {
        reveal_with_fuel(crate::strutil::spec_split, 3);
        assert(t.len() == 1 && t[0] == sep);
        assert(t.drop_first() =~= Seq::<char>::empty());
        assert(spec_split(t.drop_first(), sep) == seq![Seq::<char>::empty()]);
        assert(spec_split(t, sep) =~= seq![Seq::<char>::empty()].push(Seq::<char>::empty()));
    } else {
        lemma_split_push_sep(s.drop_first(), sep);
        assert(t.drop_first() =~= s.drop_first().push(sep));
        assert(t[0] == s[0]);
        let rest = spec_split(s.drop_first(), sep);
        let rest2 = spec_split(t.drop_first(), sep);
        assert(rest2 == rest.push(Seq::<char>::empty()));
        crate::strutil::lemma_split_len(s.drop_first(), sep);
        if s[0] == sep {
            assert(spec_split(t, sep) =~= spec_split(s, sep).push(Seq::<char>::empty()));
        } else {
            assert(rest2[0] == rest[0]);
            assert(rest2.drop_first() =~= rest.drop_first().push(Seq::<char>::empty()));
            assert(spec_split(t, sep) =~= spec_split(s, sep).push(Seq::<char>::empty()));
        }
    }
}

/// The parameter bindings that zipping a pattern's segments against a
/// candidate's segments yields: each named segment, its leading `:`
/// stripped, bound to the candidate segment standing at the same place,
/// with a repeated name keeping its last binding.
pub open spec fn spec_params(ps: Seq<Seq<char>>, cs: Seq<Seq<char>>) -> Map<Seq<char>, Seq<char>>
    decreases ps.len(), cs.len(),
{
    if ps.len() == 0 || cs.len() == 0 {
        Map::empty()
    } else if ps.len() > cs.len() {
        spec_params(ps.take(cs.len() as int), cs)
    } else if cs.len() > ps.len() {
        spec_params(ps, cs.take(ps.len() as int))
    } else {
        let prev = spec_params(ps.drop_last(), cs.drop_last());
        if is_param_seg(ps.last()) {
            prev.insert(ps.last().skip(1), cs.last())
        } else {
            prev
        }
    }
}

impl Route {
    /// The route's text, as a path.
    pub fn path_string(&self) -> (r: String)
        ensures
            r@ == spec_path_text(self@),
    {
        let mut out = String::from_str("/");
        push_joined(&self.segments, 0, &mut out);
        proof {
            assert(self@.skip(0) =~= self@);
        }
        out
    }

    /// The parameter bindings this pattern extracts from the request's own
    /// route.
    pub fn params(&self, req: &crate::request::Request) -> (r: crate::strmap::StringMap)
        ensures
            r@ == spec_params(self@, req.route@),
            r.wf(),
    {
        let n = if self.segments.len() < req.route.segments.len() {
            self.segments.len()
        } else {
            req.route.segments.len()
        };
        let mut out = crate::strmap::StringMap::new();
        let mut i: usize = 0;
        proof {
            assert(self@.take(0) =~= Seq::<Seq<char>>::empty());
            assert(req.route@.take(0) =~= Seq::<Seq<char>>::empty());
        }
        while i < n
            invariant
                n <= self.segments@.len(),
                n <= req.route.segments@.len(),
                n == vstd::math::min(self.segments@.len() as int, req.route.segments@.len() as int),
                0 <= i <= n,
                out.wf(),
                out@ == spec_params(self@.take(i as int), req.route@.take(i as int)),
            decreases n - i,
        {
            let seg = &self.segments[i];
            let seg_len = seg.as_str().unicode_len();
            proof {
                assert(self@.take(i + 1).drop_last() =~= self@.take(i as int));
                assert(req.route@.take(i + 1).drop_last() =~= req.route@.take(i as int));
                assert(self@.take(i + 1).last() == seg@);
                assert(req.route@.take(i + 1).last() == req.route@[i as int]);
            }
            if seg_len > 0 && seg.as_str().get_char(0) == ':' {
                let name = seg.as_str().substring_char(1, seg_len).to_owned();
                let value = req.route.segments[i].clone();
                proof {
                    assert(name@ =~= seg@.skip(1));
                }
                out.insert(name, value);
            }
            i = i + 1;
        }
        proof {
            lemma_params_align(self@, req.route@, n as int);
        }
        out
    }
}

/// Past the shorter list's length, further segments add no binding.
proof fn lemma_params_align(ps: Seq<Seq<char>>, cs: Seq<Seq<char>>, n: int)
    requires
        n == vstd::math::min(ps.len() as int, cs.len() as int),
    ensures
        spec_params(ps, cs) == spec_params(ps.take(n), cs.take(n)),
{
    if ps.len() > cs.len() {
        assert(n == cs.len());
        assert(cs.take(n) =~= cs);
    } else if cs.len() > ps.len() {
        assert(n == ps.len());
        assert(ps.take(n) =~= ps);
    } else {
        assert(ps.take(n) =~= ps);
        assert(cs.take(n) =~= cs);
    }
}

impl PartialEq for Route {
    /// Two routes compare equal when the left pattern matches the right
    /// candidate; an invalid regular expression segment compares unequal.
    fn eq(&self, other: &Route) -> (r: bool) {
        match self.matches(other) {
            Ok(b) => b,
            Err(_) => false,
        }
    }
}

impl vstd::std_specs::cmp::PartialEqSpecImpl for Route {
    open spec fn obeys_eq_spec() -> bool {
        true
    }

    open spec fn eq_spec(&self, other: &Route) -> bool {
        spec_matches(self@, other@) == Some(true)
    }
}

} // verus!
